//! The Topics view class: a table of the entries of the Topics system.

use crate::topics_system::TopicsSystem;
use vstd::prelude::*;

verus! {

/// The view class that shows the topics found by [`TopicsSystem`].
pub struct TopicsView;

impl TopicsView {
    /// The identifier of the view class.
    pub fn identifier() -> (id: &'static str)
        ensures
            id@ == seq!['T', 'o', 'p', 'i', 'c', 's'],
    {
        proof {
            reveal_strlit("Topics");
        }
        "Topics"
    }

    /// The name shown for the view class.
    pub fn display_name(&self) -> (name: &'static str)
        ensures
            name@ == seq!['T', 'o', 'p', 'i', 'c', 's'],
    {
        proof {
            reveal_strlit("Topics");
        }
        "Topics"
    }

    /// The message shown in place of the table: one exactly when there are no topics.
    pub fn empty_message(system: &TopicsSystem) -> (message: Option<&'static str>)
        ensures
            message is Some <==> system@.len() == 0,
            message matches Some(m) ==> m@ == seq![
                'N', 'o', ' ', 't', 'o', 'p', 'i', 'c', 's', ' ', 'y', 'e', 't'
            ],
    {
        if system.entries.len() == 0 {
            proof {
                reveal_strlit("No topics yet");
            }
            Some("No topics yet")
        } else {
            None
        }
    }
}

} // verus!
