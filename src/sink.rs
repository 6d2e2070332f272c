use vstd::prelude::*;

use crate::collector::{entry_selected, JournalEntry};
use crate::event::{pairs_insert, pairs_map, StorageEvent};
use crate::query::display_message;
use crate::text::text_of;

verus! {

/// The fields of the journal entry that publishes `event`, given its JSON
/// form: the marker that tells this daemon's entries apart, the JSON, and
/// a message for people.
pub fn sink_fields(event: &StorageEvent, json: String) -> (r: Vec<(String, String)>)
    ensures
        pairs_map(r@) == Map::<Seq<char>, Seq<char>>::empty().insert("IS_PERIPETY"@, "TRUE"@).insert(
            "JSON"@,
            json@,
        ).insert(
            "MESSAGE"@,
            if event.msg@.len() > 0 {
                event.msg@
            } else {
                event.raw_msg@
            },
        ),
{
    let mut r: Vec<(String, String)> = Vec::new();
    pairs_insert(&mut r, text_of("IS_PERIPETY"), text_of("TRUE"));
    pairs_insert(&mut r, text_of("JSON"), json);
    let m = display_message(event);
    pairs_insert(&mut r, text_of("MESSAGE"), text_of(m.as_str()));
    r
}

/// The collector never takes up an entry that carries the marker the sink
/// writes.
pub proof fn lemma_published_entries_are_skipped(e: JournalEntry)
    requires
        e.is_peripety matches Some(p) && p@ == "TRUE"@,
    ensures
        !entry_selected(e),
{
}

} // verus!
