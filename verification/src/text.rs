//! Character-level text operations: prefixes, prefix trimming and decimal parsing.

use vstd::prelude::*;
use vstd::string::*;

verus! {

/// Law: `p` is a prefix of `s` exactly when `s` is at least as long and its first
/// `p.len()` characters are those of `p`.
pub proof fn law_has_prefix(s: Seq<char>, p: Seq<char>)
    ensures
        has_prefix(s, p) <==> (p.len() <= s.len() && forall|i: int|
            0 <= i < p.len() ==> #[trigger] s[i] == p[i]),
{
    if p.len() <= s.len() && (forall|i: int| 0 <= i < p.len() ==> #[trigger] s[i] == p[i]) {
        assert(s.subrange(0, p.len() as int) =~= p);
    }
    if has_prefix(s, p) {
        assert forall|i: int| 0 <= i < p.len() implies #[trigger] s[i] == p[i] by {
            assert(s.subrange(0, p.len() as int)[i] == s[i]);
        }
    }
}

/// A char position as a mathematical integer.
pub open spec fn position(i: usize) -> int {
    i as int
}

/// `p` is a prefix of `s`.
pub open spec fn has_prefix(s: Seq<char>, p: Seq<char>) -> bool {
    p.len() <= s.len() && s.subrange(0, p.len() as int) == p
}

/// `s` with every leading occurrence of `p` removed, repeatedly, as
/// `str::trim_start_matches` does with a string pattern. An empty `p` removes nothing.
pub open spec fn trim_prefix_all(s: Seq<char>, p: Seq<char>) -> Seq<char>
    decreases s.len(),
{
    if p.len() > 0 && has_prefix(s, p) {
        trim_prefix_all(s.skip(p.len() as int), p)
    } else {
        s
    }
}

/// Whether `p` occurs in `s` at char position `start`.
fn occurs_at(s: &str, s_len: usize, p: &str, p_len: usize, start: usize) -> (b: bool)
    requires
        s_len == s@.len(),
        p_len == p@.len(),
        start <= s_len,
    ensures
        b == has_prefix(s@.skip(start as int), p@),
{
    if p_len > s_len - start {
        return false;
    }
    let mut j: usize = 0;
    while j < p_len
        invariant
            s_len == s@.len(),
            p_len == p@.len(),
            start + p_len <= s_len,
            j <= p_len,
            forall|k: int| 0 <= k < j ==> s@[start + k] == p@[k],
        decreases p_len - j,
    {
        if s.get_char(start + j) != p.get_char(j) {
            assert(s@.skip(start as int).subrange(0, p_len as int)[j as int] != p@[j as int]);
            return false;
        }
        j = j + 1;
    }
    assert(s@.skip(start as int).subrange(0, p_len as int) =~= p@);
    true
}

/// Whether `s` starts with `p`.
pub fn starts_with(s: &str, p: &str) -> (b: bool)
    ensures
        b == has_prefix(s@, p@),
{
    let s_len = s.unicode_len();
    let p_len = p.unicode_len();
    assert(s@.skip(0) =~= s@);
    occurs_at(s, s_len, p, p_len, 0)
}

proof fn lemma_trim_skip(s: Seq<char>, p: Seq<char>, start: int)
    requires
        p.len() > 0,
        0 <= start <= s.len(),
        has_prefix(s.skip(start), p),
    ensures
        s.skip(start).skip(p.len() as int) =~= s.skip(start + p.len()),
        trim_prefix_all(s.skip(start), p) == trim_prefix_all(s.skip(start + p.len()), p),
{
    assert(s.skip(start).skip(p.len() as int) =~= s.skip(start + p.len()));
}

/// `s` with all leading repetitions of `p` removed (`str::trim_start_matches`).
pub fn trim_start_matches(s: &str, p: &str) -> (r: String)
    ensures
        r@ == trim_prefix_all(s@, p@),
{
    let s_len = s.unicode_len();
    let p_len = p.unicode_len();
    let mut start: usize = 0;
    assert(s@.skip(0) =~= s@);
    if p_len > 0 {
        while occurs_at(s, s_len, p, p_len, start)
            invariant
                s_len == s@.len(),
                p_len == p@.len(),
                p_len > 0,
                start <= s_len,
                trim_prefix_all(s@, p@) == trim_prefix_all(s@.skip(start as int), p@),
            decreases s_len - start,
        {
            proof {
                lemma_trim_skip(s@, p@, start as int);
            }
            start = start + p_len;
        }
    }
    let rest = s.substring_char(start, s_len);
    assert(rest@ =~= s@.skip(start as int));
    String::from_str(rest)
}

/// `k` copies of `p`, one after another.
pub open spec fn repeated(p: Seq<char>, k: nat) -> Seq<char>
    decreases k,
{
    if k == 0 {
        Seq::empty()
    } else {
        p + repeated(p, (k - 1) as nat)
    }
}

/// Law: no copies of `p` are the empty text, and `k + 1` copies are `p` followed by
/// `k` copies.
pub proof fn law_repeated(p: Seq<char>, k: nat)
    ensures
        repeated(p, 0) == Seq::<char>::empty(),
        repeated(p, k + 1) == p + repeated(p, k),
{
}

/// Law: trimming leaves no leading occurrence of a non-empty pattern, and what it
/// removed is a whole number of repetitions of the pattern.
pub proof fn law_trim_prefix_all(s: Seq<char>, p: Seq<char>)
    ensures
        p.len() > 0 ==> !(trim_prefix_all(s, p).len() >= p.len() && trim_prefix_all(s, p).subrange(
            0,
            p.len() as int,
        ) == p),
        exists|k: nat| s =~= #[trigger] repeated(p, k) + trim_prefix_all(s, p),
    decreases s.len(),
{
    if p.len() > 0 && has_prefix(s, p) {
        let rest = s.skip(p.len() as int);
        law_trim_prefix_all(rest, p);
        let k = choose|k: nat| rest =~= #[trigger] repeated(p, k) + trim_prefix_all(rest, p);
        assert(s =~= p + rest);
        assert(repeated(p, k + 1) == p + repeated(p, k));
        assert(s =~= repeated(p, k + 1) + trim_prefix_all(s, p));
    } else {
        assert(s =~= repeated(p, 0) + trim_prefix_all(s, p));
    }
}

/// The value of a decimal digit character.
pub open spec fn digit_value(c: char) -> int {
    c as int - '0' as int
}

/// A non-empty run of ASCII decimal digits.
pub open spec fn is_decimal(d: Seq<char>) -> bool {
    d.len() > 0 && forall|i: int| 0 <= i < d.len() ==> '0' <= #[trigger] d[i] <= '9'
}

/// The number that a run of decimal digits denotes.
pub open spec fn decimal_value(d: Seq<char>) -> int
    decreases d.len(),
{
    if d.len() == 0 {
        0
    } else {
        decimal_value(d.drop_last()) * 10 + digit_value(d.last())
    }
}

/// The digits of a number: the text without one leading `+` sign, if it has one.
pub open spec fn unsigned_digits(s: Seq<char>) -> Seq<char> {
    if s.len() > 0 && s[0] == '+' {
        s.drop_first()
    } else {
        s
    }
}

/// What `str::parse` gives for an unsigned integer type whose largest value is
/// `max`: an optional `+` sign followed by one or more ASCII digits whose value is at
/// most `max`; anything else is an error.
pub open spec fn parsed_decimal(s: Seq<char>, max: u64) -> Option<u64> {
    let d = unsigned_digits(s);
    if is_decimal(d) && decimal_value(d) <= max {
        Some(decimal_value(d) as u64)
    } else {
        None
    }
}

/// What `str::parse::<usize>` gives for `s`.
pub open spec fn parsed_usize(s: Seq<char>) -> Option<usize> {
    let d = unsigned_digits(s);
    if is_decimal(d) && decimal_value(d) <= usize::MAX {
        Some(decimal_value(d) as usize)
    } else {
        None
    }
}

/// What `str::parse::<u64>` gives for `s`.
pub open spec fn parsed_u64(s: Seq<char>) -> Option<u64> {
    parsed_decimal(s, u64::MAX)
}

proof fn lemma_decimal_value_nonneg(d: Seq<char>)
    requires
        forall|i: int| 0 <= i < d.len() ==> '0' <= #[trigger] d[i] <= '9',
    ensures
        decimal_value(d) >= 0,
    decreases d.len(),
{
    if d.len() > 0 {
        lemma_decimal_value_nonneg(d.drop_last());
    }
}

/// A run of digits denotes at least as much as any of its prefixes.
proof fn lemma_decimal_prefix_le(d: Seq<char>, k: int)
    requires
        forall|i: int| 0 <= i < d.len() ==> '0' <= #[trigger] d[i] <= '9',
        0 <= k <= d.len(),
    ensures
        decimal_value(d.subrange(0, k)) <= decimal_value(d),
    decreases d.len(),
{
    if k < d.len() {
        let p = d.drop_last();
        lemma_decimal_prefix_le(p, k);
        assert(p.subrange(0, k) =~= d.subrange(0, k));
        lemma_decimal_value_nonneg(p);
        assert(decimal_value(p) * 10 >= decimal_value(p)) by (nonlinear_arith)
            requires
                decimal_value(p) >= 0,
        ;
    } else {
        assert(d.subrange(0, k) =~= d);
    }
}

/// Law: a run of digits followed by one more digit denotes ten times the run plus the
/// value of the digit; a single digit denotes its value (`'0'` is 0, ..., `'9'` is 9).
pub proof fn law_decimal_value(d: Seq<char>, c: char)
    requires
        '0' <= c <= '9',
    ensures
        decimal_value(d.push(c)) == decimal_value(d) * 10 + (c as int - 48),
        decimal_value(seq![c]) == c as int - 48,
        0 <= c as int - 48 <= 9,
{
    reveal_with_fuel(decimal_value, 2);
    assert(d.push(c).drop_last() =~= d);
    assert(seq![c].drop_last() =~= Seq::<char>::empty());
}

/// Law: parsing gives a number exactly for an optional `+` followed by one or more
/// ASCII digits whose value fits, and then gives that value; a text that is empty,
/// is a lone `+`, starts with `-`, or holds any other non-digit after the optional
/// `+` gives nothing.
pub proof fn law_parsed_usize(s: Seq<char>)
    ensures
        s.len() == 0 ==> parsed_usize(s) is None,
        s.len() > 0 && s[0] == '-' ==> parsed_usize(s) is None,
        s == seq!['+'] ==> parsed_usize(s) is None,
        forall|k: int|
            (if s.len() > 0 && s[0] == '+' {
                1int
            } else {
                0int
            }) <= k < s.len() && !('0' <= #[trigger] s[k] <= '9') ==> parsed_usize(s) is None,
        parsed_usize(s) matches Some(n) ==> n == decimal_value(unsigned_digits(s)),
        is_decimal(s) && decimal_value(s) <= usize::MAX ==> parsed_usize(s) == Some(
            decimal_value(s) as usize,
        ),
        is_decimal(s) ==> parsed_usize(seq!['+'] + s) == parsed_usize(s),
        parsed_u64(s) matches Some(n) ==> n == decimal_value(unsigned_digits(s)),
        is_decimal(s) && decimal_value(s) <= u64::MAX ==> parsed_u64(s) == Some(
            decimal_value(s) as u64,
        ),
{
    if s.len() > 0 && s[0] == '+' {
        assert forall|k: int| 1 <= k < s.len() && !('0' <= #[trigger] s[k] <= '9') implies parsed_usize(s) is None by {
            assert(unsigned_digits(s)[k - 1] == s[k]);
        }
    }
    if is_decimal(s) {
        assert((seq!['+'] + s).drop_first() =~= s);
        assert(unsigned_digits(s) == s);
    }
    if s.len() > 0 && s[0] == '-' {
        assert(unsigned_digits(s)[0] == '-');
    }
    if s == seq!['+'] {
        assert(unsigned_digits(s).len() == 0);
    }
    if is_decimal(unsigned_digits(s)) {
        lemma_decimal_value_nonneg(unsigned_digits(s));
    }
}

/// Parses `s` as an unsigned integer no larger than `max`, as `str::parse` does for an
/// unsigned integer type whose largest value is `max`.
pub fn parse_decimal(s: &str, max: u64) -> (r: Option<u64>)
    ensures
        r == parsed_decimal(s@, max),
{
    let n = s.unicode_len();
    let start: usize = if n > 0 && s.get_char(0) == '+' {
        1
    } else {
        0
    };
    let ghost d = unsigned_digits(s@);
    assert(d =~= s@.subrange(start as int, n as int));
    if start == n {
        return None;
    }
    let mut value: u64 = 0;
    let mut i: usize = start;
    while i < n
        invariant
            n == s@.len(),
            start < n,
            start <= i <= n,
            d =~= s@.subrange(start as int, n as int),
            d == unsigned_digits(s@),
            forall|j: int| start <= j < i ==> '0' <= #[trigger] s@[j] <= '9',
            value == decimal_value(s@.subrange(start as int, i as int)),
            value <= max,
        decreases n - i,
    {
        let c = s.get_char(i);
        if !('0' <= c && c <= '9') {
            assert(d[i - start] == c);
            return None;
        }
        let digit: u64 = (c as u32 - '0' as u32) as u64;
        let ghost prefix = s@.subrange(start as int, i + 1);
        assert(prefix.drop_last() =~= s@.subrange(start as int, i as int));
        assert(prefix.last() == c);
        assert(digit == digit_value(c));
        let next = match value.checked_mul(10) {
            Some(v) => v.checked_add(digit),
            None => None,
        };
        match next {
            Some(v) if v <= max => {
                value = v;
            },
            _ => {
                proof {
                    assert(decimal_value(prefix) > max);
                    if is_decimal(d) {
                        lemma_decimal_prefix_le(d, i + 1 - start);
                        assert(d.subrange(0, i + 1 - start) =~= prefix);
                    }
                }
                return None;
            },
        }
        i = i + 1;
    }
    assert(s@.subrange(start as int, n as int) =~= d);
    Some(value)
}

/// Parses `s` as a `usize`, as `str::parse::<usize>` does (with the error dropped).
pub fn parse_usize(s: &str) -> (r: Option<usize>)
    ensures
        r == parsed_usize(s@),
{
    let max: u64 = usize::MAX as u64;
    assert(max == usize::MAX);
    match parse_decimal(s, max) {
        Some(v) => {
            proof {
                let d = unsigned_digits(s@);
                lemma_decimal_value_nonneg(d);
                assert(0 <= decimal_value(d) <= usize::MAX);
                assert(v == decimal_value(d));
            }
            Some(v as usize)
        },
        None => None,
    }
}

/// Parses `s` as a `u64`, as `str::parse::<u64>` does (with the error dropped).
pub fn parse_u64(s: &str) -> (r: Option<u64>)
    ensures
        r == parsed_u64(s@),
{
    parse_decimal(s, u64::MAX)
}

} // verus!
