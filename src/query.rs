use vstd::prelude::*;

use crate::event::{severity_rank, LogSeverity, StorageEvent, StorageSubSystem};
use crate::text::same_text;

verus! {

/// What a reader of the published events asks for. Each part that is set
/// narrows the events shown.
pub struct EventQuery {
    /// Only events at least this severe.
    pub severity: Option<LogSeverity>,
    /// Only events of one of these subsystems (an empty list asks nothing).
    pub sub_systems: Option<Vec<StorageSubSystem>>,
    /// Only events of one of these types (an empty list asks nothing).
    pub event_types: Option<Vec<String>>,
    /// Only events about the device of this WWID, or about a device it
    /// belongs to.
    pub blk_wwid: Option<String>,
}

/// Whether some text of `v` equals `t`.
pub open spec fn texts_contain(v: Seq<String>, t: Seq<char>) -> bool {
    exists|i: int| 0 <= i < v.len() && #[trigger] v[i]@ == t
}

/// Whether `ev` is one of the events `q` asks for.
pub open spec fn query_matches(q: EventQuery, ev: StorageEvent) -> bool {
    &&& (q.severity matches Some(l) ==> severity_rank(ev.severity) <= severity_rank(l))
    &&& (q.sub_systems matches Some(s) ==> (s@.len() > 0 ==> s@.contains(ev.sub_system)))
    &&& (q.event_types matches Some(t) ==> (t@.len() > 0 ==> texts_contain(t@, ev.event_type@)))
    &&& (q.blk_wwid matches Some(w) ==> ev.dev_wwid@ == w@ || texts_contain(
        ev.owners_wwids@,
        w@,
    ))
}

fn has_text(v: &Vec<String>, t: &String) -> (r: bool)
    ensures
        r == texts_contain(v@, t@),
{
    let mut i: usize = 0;
    while i < v.len()
        invariant
            i <= v@.len(),
            forall|j: int| 0 <= j < i ==> #[trigger] v@[j]@ != t@,
        decreases v@.len() - i,
    {
        if same_text(v[i].as_str(), t.as_str()) {
            return true;
        }
        i = i + 1;
    }
    false
}

fn has_sub_system(v: &Vec<StorageSubSystem>, x: StorageSubSystem) -> (r: bool)
    ensures
        r == v@.contains(x),
{
    let mut i: usize = 0;
    while i < v.len()
        invariant
            i <= v@.len(),
            forall|j: int| 0 <= j < i ==> v@[j] != x,
        decreases v@.len() - i,
    {
        if v[i] == x {
            return true;
        }
        i = i + 1;
    }
    false
}

/// Whether `event` is one of the events `query` asks for.
pub fn event_matches(event: &StorageEvent, query: &EventQuery) -> (r: bool)
    ensures
        r == query_matches(*query, *event),
{
    if let Some(l) = &query.severity {
        if l.rank() < event.severity.rank() {
            return false;
        }
    }
    if let Some(subs) = &query.sub_systems {
        if subs.len() != 0 && !has_sub_system(subs, event.sub_system) {
            return false;
        }
    }
    if let Some(types) = &query.event_types {
        if types.len() != 0 && !has_text(types, &event.event_type) {
            return false;
        }
    }
    if let Some(w) = &query.blk_wwid {
        if !same_text(event.dev_wwid.as_str(), w.as_str()) && !has_text(&event.owners_wwids, w) {
            return false;
        }
    }
    true
}

/// The message to show for an event: the enriched one when a parser wrote
/// one, else the original journal line.
pub fn display_message(event: &StorageEvent) -> (r: &String)
    ensures
        r@ == if event.msg@.len() > 0 {
            event.msg@
        } else {
            event.raw_msg@
        },
{
    if event.msg.unicode_len() > 0 {
        &event.msg
    } else {
        &event.raw_msg
    }
}

} // verus!
