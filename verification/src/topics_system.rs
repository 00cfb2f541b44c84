//! The Topics visualizer system: one entry per entity under `/rewire/topics/`.

use crate::text::{has_prefix, starts_with, trim_prefix_all, trim_start_matches};
use vstd::prelude::*;
use vstd::string::*;

verus! {

/// The entity paths that hold topics start with this.
pub open spec fn topics_prefix() -> Seq<char> {
    seq!['/', 'r', 'e', 'w', 'i', 'r', 'e', '/', 't', 'o', 'p', 'i', 'c', 's', '/']
}

/// A topic with no logged name is named by its entity path with this removed.
pub open spec fn topics_root() -> Seq<char> {
    topics_prefix().drop_last()
}

/// The status of a topic with no logged status.
pub open spec fn unknown_status() -> Seq<char> {
    seq!['u', 'n', 'k', 'n', 'o', 'w', 'n']
}

/// One topic, as shown in the Topics view.
pub struct TopicEntry {
    pub topic_name: String,
    pub topic_type: String,
    pub status: String,
}

/// The texts of a topic entry.
pub struct TopicEntryView {
    pub topic_name: Seq<char>,
    pub topic_type: Seq<char>,
    pub status: Seq<char>,
}

impl View for TopicEntry {
    type V = TopicEntryView;

    open spec fn view(&self) -> TopicEntryView {
        TopicEntryView {
            topic_name: self.topic_name@,
            topic_type: self.topic_type@,
            status: self.status@,
        }
    }
}

/// What was read for one entity of the recording: its path, and the latest topic
/// name, type name and status logged there, each where one was logged.
pub struct TopicReading {
    pub path: String,
    pub topic_name: Option<String>,
    pub topic_type: Option<String>,
    pub status: Option<String>,
}

/// The texts of a topic reading.
pub struct TopicReadingView {
    pub path: Seq<char>,
    pub topic_name: Option<Seq<char>>,
    pub topic_type: Option<Seq<char>>,
    pub status: Option<Seq<char>>,
}

/// The view of an optional string.
pub open spec fn option_view(o: Option<String>) -> Option<Seq<char>> {
    match o {
        None => None,
        Some(s) => Some(s@),
    }
}

impl View for TopicReading {
    type V = TopicReadingView;

    open spec fn view(&self) -> TopicReadingView {
        TopicReadingView {
            path: self.path@,
            topic_name: option_view(self.topic_name),
            topic_type: option_view(self.topic_type),
            status: option_view(self.status),
        }
    }
}

/// The entity at `path` holds a topic.
pub open spec fn is_topic_path(path: Seq<char>) -> bool {
    has_prefix(path, topics_prefix())
}

/// The entry of a topic reading: the logged values, or the fallbacks — the path
/// without its root for the name, empty for the type, `unknown` for the status.
pub open spec fn topic_entry_of(r: TopicReadingView) -> TopicEntryView {
    TopicEntryView {
        topic_name: match r.topic_name {
            Some(t) => t,
            None => trim_prefix_all(r.path, topics_root()),
        },
        topic_type: match r.topic_type {
            Some(t) => t,
            None => Seq::empty(),
        },
        status: match r.status {
            Some(t) => t,
            None => unknown_status(),
        },
    }
}

/// The entries for a sequence of readings: one per reading of a topic path, in order.
pub open spec fn topic_entries(rs: Seq<TopicReadingView>) -> Seq<TopicEntryView>
    decreases rs.len(),
{
    if rs.len() == 0 {
        Seq::empty()
    } else if is_topic_path(rs.last().path) {
        topic_entries(rs.drop_last()).push(topic_entry_of(rs.last()))
    } else {
        topic_entries(rs.drop_last())
    }
}

/// Law: there is one entry per reading of a topic path, in the order of the
/// readings, and each is the entry of its reading: the entries are the readings of
/// topic paths, each mapped to its entry.
pub proof fn law_topic_entries_are_topic_readings(rs: Seq<TopicReadingView>)
    ensures
        topic_entries(rs) == rs.filter(|r: TopicReadingView| is_topic_path(r.path)).map_values(
            |r: TopicReadingView| topic_entry_of(r),
        ),
    decreases rs.len(),
{
    let pred = |r: TopicReadingView| is_topic_path(r.path);
    let f = |r: TopicReadingView| topic_entry_of(r);
    reveal_with_fuel(Seq::<TopicReadingView>::filter, 1);
    if rs.len() == 0 {
        assert(rs.filter(pred) =~= Seq::<TopicReadingView>::empty());
        assert(topic_entries(rs) =~= rs.filter(pred).map_values(f));
    } else {
        law_topic_entries_are_topic_readings(rs.drop_last());
        if pred(rs.last()) {
            assert(rs.filter(pred) == rs.drop_last().filter(pred).push(rs.last()));
            assert(rs.filter(pred).map_values(f) =~= rs.drop_last().filter(pred).map_values(f).push(
                f(rs.last()),
            ));
        } else {
            assert(rs.filter(pred) == rs.drop_last().filter(pred));
        }
    }
}

/// Law: an entity holds a topic exactly when its path starts with `/rewire/topics/`;
/// so `/rewire/topics/` followed by any text `t` is a topic path, whatever characters
/// `t` holds (nested names such as `/rewire/topics/camera/image` included).
pub proof fn law_topic_path_is_prefix(path: Seq<char>, t: Seq<char>)
    ensures
        is_topic_path(path) <==> (path.len() >= 15 && path.subrange(0, 15)
            == seq!['/', 'r', 'e', 'w', 'i', 'r', 'e', '/', 't', 'o', 'p', 'i', 'c', 's', '/']),
        is_topic_path(seq!['/', 'r', 'e', 'w', 'i', 'r', 'e', '/', 't', 'o', 'p', 'i', 'c', 's', '/'] + t),
{
    assert(topics_prefix() =~= seq!['/', 'r', 'e', 'w', 'i', 'r', 'e', '/', 't', 'o', 'p', 'i', 'c', 's', '/']);
    assert((seq!['/', 'r', 'e', 'w', 'i', 'r', 'e', '/', 't', 'o', 'p', 'i', 'c', 's', '/'] + t).subrange(0, 15) =~= seq!['/', 'r', 'e', 'w', 'i', 'r', 'e', '/', 't', 'o', 'p', 'i', 'c', 's', '/']);
}

/// Law: the entry of a reading holds the logged topic name, type name and status
/// where they were logged; otherwise the path with every leading `/rewire/topics`
/// removed, the empty text, and `unknown`.
pub proof fn law_topic_entry_fields(r: TopicReadingView)
    ensures
        topic_entry_of(r).topic_name == (match r.topic_name {
            Some(t) => t,
            None => trim_prefix_all(
                r.path,
                seq!['/', 'r', 'e', 'w', 'i', 'r', 'e', '/', 't', 'o', 'p', 'i', 'c', 's'],
            ),
        }),
        topic_entry_of(r).topic_type == (match r.topic_type {
            Some(t) => t,
            None => Seq::<char>::empty(),
        }),
        topic_entry_of(r).status == (match r.status {
            Some(t) => t,
            None => seq!['u', 'n', 'k', 'n', 'o', 'w', 'n'],
        }),
{
    assert(topics_root() =~= seq!['/', 'r', 'e', 'w', 'i', 'r', 'e', '/', 't', 'o', 'p', 'i', 'c', 's']);
    assert(unknown_status() =~= seq!['u', 'n', 'k', 'n', 'o', 'w', 'n']);
}

/// Law: when every reading is of a path under `/rewire/topics/`, every reading is
/// listed, in order, each with its own logged values or the fallbacks; when none is,
/// nothing is listed.
pub proof fn law_topic_readings_listed(rs: Seq<TopicReadingView>)
    ensures
        (forall|i: int|
            0 <= i < rs.len() ==> #[trigger] rs[i].path.len() >= 15 && rs[i].path.subrange(0, 15)
                == seq!['/', 'r', 'e', 'w', 'i', 'r', 'e', '/', 't', 'o', 'p', 'i', 'c', 's', '/']) ==> {
            &&& topic_entries(rs).len() == rs.len()
            &&& forall|i: int|
                0 <= i < rs.len() ==> #[trigger] topic_entries(rs)[i] == topic_entry_of(rs[i])
        },
        (forall|i: int|
            0 <= i < rs.len() ==> !(#[trigger] rs[i].path.len() >= 15 && rs[i].path.subrange(0, 15)
                == seq!['/', 'r', 'e', 'w', 'i', 'r', 'e', '/', 't', 'o', 'p', 'i', 'c', 's', '/'])) ==> topic_entries(rs).len() == 0,
    decreases rs.len(),
{
    if rs.len() > 0 {
        let init = rs.drop_last();
        law_topic_readings_listed(init);
        law_topic_path_is_prefix(rs.last().path, Seq::empty());
        assert forall|i: int| 0 <= i < init.len() implies #[trigger] init[i] == rs[i] by {}
    }
}

/// The views of a sequence of readings.
pub open spec fn reading_views(rs: Seq<TopicReading>) -> Seq<TopicReadingView> {
    rs.map_values(|r: TopicReading| r@)
}

/// The views of a sequence of entries.
pub open spec fn topic_entry_views(es: Seq<TopicEntry>) -> Seq<TopicEntryView> {
    es.map_values(|e: TopicEntry| e@)
}

/// Whether the entity at `path` holds a topic (its path starts with `/rewire/topics/`).
pub fn is_topic_entity(path: &str) -> (b: bool)
    ensures
        b == is_topic_path(path@),
{
    proof {
        reveal_strlit("/rewire/topics/");
        assert("/rewire/topics/"@ =~= topics_prefix());
    }
    starts_with(path, "/rewire/topics/")
}

fn copy_or(o: &Option<String>, fallback: String) -> (s: String)
    ensures
        s@ == match option_view(*o) {
            Some(t) => t,
            None => fallback@,
        },
{
    match o {
        Some(t) => t.clone(),
        None => fallback,
    }
}

/// The entry shown for one topic reading.
pub fn topic_entry(r: &TopicReading) -> (e: TopicEntry)
    ensures
        e@ == topic_entry_of(r@),
{
    let root = "/rewire/topics";
    let unknown = "unknown";
    proof {
        reveal_strlit("/rewire/topics");
        reveal_strlit("unknown");
        assert(root@ =~= topics_root());
        assert(unknown@ =~= unknown_status());
    }
    let topic_name = match &r.topic_name {
        Some(t) => t.clone(),
        None => trim_start_matches(r.path.as_str(), root),
    };
    let type_text = copy_or(&r.topic_type, String::new());
    let status = copy_or(&r.status, String::from_str(unknown));
    TopicEntry { topic_name, topic_type: type_text, status }
}

/// The state of the Topics visualizer: the topics found in the recording.
pub struct TopicsSystem {
    pub entries: Vec<TopicEntry>,
}

impl View for TopicsSystem {
    type V = Seq<TopicEntryView>;

    open spec fn view(&self) -> Seq<TopicEntryView> {
        topic_entry_views(self.entries@)
    }
}

impl Default for TopicsSystem {
    fn default() -> (s: Self)
        ensures
            s@ == Seq::<TopicEntryView>::empty(),
    {
        let s = TopicsSystem { entries: Vec::new() };
        assert(s@ =~= Seq::<TopicEntryView>::empty());
        s
    }
}

impl TopicsSystem {
    /// The identifier of the visualizer system.
    pub fn identifier() -> (id: &'static str)
        ensures
            id@ == seq!['T', 'o', 'p', 'i', 'c', 's'],
    {
        proof {
            reveal_strlit("Topics");
        }
        "Topics"
    }

    /// Replaces the entries with those of `readings`, one per reading of an entity
    /// under `/rewire/topics/`, in the order of the readings; the entities are read in
    /// the recording's sorted entity-path order.
    pub fn execute(&mut self, readings: &Vec<TopicReading>)
        ensures
            final(self)@ == topic_entries(reading_views(readings@)),
    {
        self.entries.clear();
        let n = readings.len();
        let mut i: usize = 0;
        assert(reading_views(readings@).take(0) =~= Seq::<TopicReadingView>::empty());
        assert(self@ =~= Seq::<TopicEntryView>::empty());
        while i < n
            invariant
                n == readings@.len(),
                i <= n,
                self@ == topic_entries(reading_views(readings@).take(i as int)),
            decreases n - i,
        {
            let r = &readings[i];
            let ghost before = self@;
            assert(reading_views(readings@).take(i + 1).drop_last() =~= reading_views(
                readings@,
            ).take(i as int));
            assert(reading_views(readings@).take(i + 1).last() == r@);
            if is_topic_entity(r.path.as_str()) {
                let e = topic_entry(r);
                self.entries.push(e);
                assert(self@ =~= before.push(topic_entry_of(r@)));
            }
            i = i + 1;
        }
        assert(reading_views(readings@).take(n as int) =~= reading_views(readings@));
    }
}

/// Law: the views of entries, readings, optional strings and the system hold the
/// same texts as the values themselves, field by field and element by element.
pub proof fn law_topic_views(
    e: TopicEntry,
    r: TopicReading,
    o: Option<String>,
    rs: Seq<TopicReading>,
    sys: TopicsSystem,
)
    ensures
        e@.topic_name == e.topic_name@,
        e@.topic_type == e.topic_type@,
        e@.status == e.status@,
        r@.path == r.path@,
        r@.topic_name == option_view(r.topic_name),
        r@.topic_type == option_view(r.topic_type),
        r@.status == option_view(r.status),
        o is None ==> option_view(o) is None,
        o matches Some(t) ==> option_view(o) == Some(t@),
        reading_views(rs).len() == rs.len(),
        forall|i: int| 0 <= i < rs.len() ==> #[trigger] reading_views(rs)[i] == rs[i]@,
        sys@.len() == sys.entries@.len(),
        forall|i: int| 0 <= i < sys.entries@.len() ==> #[trigger] sys@[i] == sys.entries@[i]@,
{
}

} // verus!
