//! Reading text values out of Arrow string arrays.

use vstd::prelude::*;

verus! {

/// An Arrow string array (`arrow::array::StringArray`), held in a private field and
/// read only through the functions below.
#[verifier::external_body]
pub struct TextArray {
    array: arrow::array::StringArray,
}

/// The values in the slots of a string array, in slot order.
pub uninterp spec fn text_array_values(array: TextArray) -> Seq<Seq<char>>;

impl TextArray {
    /// Downcasts an Arrow array to a string array, as
    /// `array.as_any().downcast_ref::<StringArray>()` does; `None` when it is not one.
    ///
    /// Trusted: nothing is stated of the result, which depends on the dynamic type of
    /// the array.
    #[verifier::external_body]
    pub fn from_array<A: arrow::array::Array + ?Sized>(array: &A) -> Option<TextArray> {
        array.as_any().downcast_ref::<arrow::array::StringArray>().map(
            |a| TextArray { array: a.clone() },
        )
    }

    /// Number of slots of the array, through Arrow's `Array::len`.
    ///
    /// Trusted: claims that it is the length of the named contents.
    #[verifier::external_body]
    fn len(&self) -> (n: usize)
        ensures
            n == text_array_values(*self).len(),
    {
        arrow::array::Array::len(&self.array)
    }

    /// The value in slot `i`, through Arrow's `GenericByteArray::value` (which panics
    /// out of bounds), copied into a `String`.
    ///
    /// Trusted: claims that it is the `i`-th of the named contents.
    #[verifier::external_body]
    fn value(&self, i: usize) -> (s: String)
        requires
            i < text_array_values(*self).len(),
        ensures
            s@ == text_array_values(*self)[i as int],
    {
        self.array.value(i).to_string()
    }
}

/// The texts of an array that may or may not be a string array: none when it is not.
pub open spec fn texts_of(array: Option<&TextArray>) -> Seq<Seq<char>> {
    match array {
        None => Seq::empty(),
        Some(a) => text_array_values(*a),
    }
}

/// The first text of an array that may or may not be a string array.
pub open spec fn first_text_of(array: Option<&TextArray>) -> Option<Seq<char>> {
    match array {
        None => None,
        Some(a) => if text_array_values(*a).len() == 0 {
            None
        } else {
            Some(text_array_values(*a)[0])
        },
    }
}

/// The views of a sequence of strings.
pub open spec fn string_views(v: Seq<String>) -> Seq<Seq<char>> {
    v.map_values(|s: String| s@)
}

/// Extracts the string values of a string array.
///
/// Returns an empty `Vec` if the array is not a string array (`None`).
pub fn extract_texts(array: Option<&TextArray>) -> (texts: Vec<String>)
    ensures
        string_views(texts@) == texts_of(array),
{
    let mut texts: Vec<String> = Vec::new();
    match array {
        None => {
            assert(string_views(texts@) =~= texts_of(array));
            texts
        },
        Some(a) => {
            let n = a.len();
            let mut i: usize = 0;
            while i < n
                invariant
                    n == text_array_values(*a).len(),
                    i <= n,
                    texts@.len() == i,
                    forall|j: int| 0 <= j < i ==> #[trigger] texts@[j]@ == text_array_values(*a)[j],
                decreases n - i,
            {
                let s = a.value(i);
                texts.push(s);
                i = i + 1;
            }
            assert(string_views(texts@) =~= texts_of(array));
            texts
        },
    }
}

/// Extracts the first string value of a string array.
///
/// Returns `None` if the array is not a string array or holds no value.
pub fn extract_text(array: Option<&TextArray>) -> (text: Option<String>)
    ensures
        match text {
            None => first_text_of(array) is None,
            Some(t) => first_text_of(array) == Some(t@),
        },
{
    match array {
        None => None,
        Some(a) => {
            if a.len() == 0 {
                None
            } else {
                Some(a.value(0))
            }
        },
    }
}

/// Law: the single text read from an array is the first of the texts read from it,
/// and there is none exactly when there are no texts.
pub proof fn law_first_text_is_first_of_texts(array: Option<&TextArray>)
    ensures
        first_text_of(array) == (if texts_of(array).len() == 0 {
            None
        } else {
            Some(texts_of(array)[0])
        }),
{
}

/// Law: the views of strings are the strings' texts, in order; the texts of a
/// string array are its values, and there are none without one.
pub proof fn law_texts_read_the_array(v: Seq<String>, array: Option<&TextArray>)
    ensures
        string_views(v).len() == v.len(),
        forall|i: int| 0 <= i < v.len() ==> #[trigger] string_views(v)[i] == v[i]@,
        array is None ==> texts_of(array).len() == 0,
        array matches Some(a) ==> texts_of(array) == text_array_values(*a),
{
}

} // verus!
