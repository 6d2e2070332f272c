use vstd::prelude::*;

use crate::event::{EventType, StorageEvent, StorageSubSystem};

verus! {

/// The events a parser subscribes to: those of one of `event_types`, and
/// of one of `sub_systems` unless that is `None` (every subsystem). An
/// empty `event_types` subscribes to nothing.
#[derive(Debug, Clone)]
pub struct ParserFilter {
    pub name: String,
    pub event_types: Vec<EventType>,
    pub sub_systems: Option<Vec<StorageSubSystem>>,
}

/// Whether filter `f` takes an event of stage `stage` and subsystem `sub`.
pub open spec fn filter_accepts(f: ParserFilter, stage: EventType, sub: StorageSubSystem) -> bool {
    &&& f.event_types@.contains(stage)
    &&& match f.sub_systems {
        Some(s) => s@.contains(sub),
        None => true,
    }
}

fn contains_stage(v: &Vec<EventType>, x: EventType) -> (r: bool)
    ensures
        r == v@.contains(x),
{
    let mut i: usize = 0;
    while i < v.len()
        invariant
            i <= v@.len(),
            forall|j: int| 0 <= j < i ==> v@[j] != x,
        decreases v@.len() - i,
    {
        if v[i] == x {
            return true;
        }
        i = i + 1;
    }
    false
}

fn contains_sub_system(v: &Vec<StorageSubSystem>, x: StorageSubSystem) -> (r: bool)
    ensures
        r == v@.contains(x),
{
    let mut i: usize = 0;
    while i < v.len()
        invariant
            i <= v@.len(),
            forall|j: int| 0 <= j < i ==> v@[j] != x,
        decreases v@.len() - i,
    {
        if v[i] == x {
            return true;
        }
        i = i + 1;
    }
    false
}

impl ParserFilter {
    /// Whether the filter takes `event`.
    pub fn accepts(&self, event: &StorageEvent) -> (r: bool)
        ensures
            r == filter_accepts(*self, event.stage, event.sub_system),
    {
        if !contains_stage(&self.event_types, event.stage) {
            return false;
        }
        match &self.sub_systems {
            Some(s) => contains_sub_system(s, event.sub_system),
            None => true,
        }
    }
}

/// The positions, in increasing order, of the filters among the first `n`
/// that take an event of stage `stage` and subsystem `sub`.
pub open spec fn matching_parsers(
    fs: Seq<ParserFilter>,
    n: int,
    stage: EventType,
    sub: StorageSubSystem,
) -> Seq<usize>
    decreases n,
{
    if n <= 0 {
        Seq::empty()
    } else {
        let rest = matching_parsers(fs, n - 1, stage, sub);
        if filter_accepts(fs[n - 1], stage, sub) {
            rest.push((n - 1) as usize)
        } else {
            rest
        }
    }
}

/// The parsers, by position in `filters`, that an event is sent to.
pub fn route(filters: &Vec<ParserFilter>, event: &StorageEvent) -> (r: Vec<usize>)
    ensures
        r@ == matching_parsers(filters@, filters@.len() as int, event.stage, event.sub_system),
{
    let mut out: Vec<usize> = Vec::new();
    let mut i: usize = 0;
    while i < filters.len()
        invariant
            i <= filters@.len(),
            out@ == matching_parsers(filters@, i as int, event.stage, event.sub_system),
        decreases filters@.len() - i,
    {
        if filters[i].accepts(event) {
            out.push(i);
        }
        i = i + 1;
    }
    out
}

/// An event goes to exactly the parsers whose filter takes it.
pub proof fn lemma_route_exact(
    fs: Seq<ParserFilter>,
    n: int,
    stage: EventType,
    sub: StorageSubSystem,
    j: int,
)
    requires
        0 <= j < n <= fs.len(),
        n <= usize::MAX,
    ensures
        matching_parsers(fs, n, stage, sub).contains(j as usize) <==> filter_accepts(
            fs[j],
            stage,
            sub,
        ),
    decreases n,
{
    let m = matching_parsers(fs, n, stage, sub);
    let rest = matching_parsers(fs, n - 1, stage, sub);
    lemma_matching_below(fs, n - 1, stage, sub);
    if j < n - 1 {
        lemma_route_exact(fs, n - 1, stage, sub, j);
        if filter_accepts(fs[n - 1], stage, sub) {
            assert(m == rest.push((n - 1) as usize));
            if rest.contains(j as usize) {
                let k = choose|k: int| 0 <= k < rest.len() && rest[k] == j as usize;
                assert(m[k] == j as usize);
            }
            if m.contains(j as usize) {
                let k = choose|k: int| 0 <= k < m.len() && m[k] == j as usize;
                if k == rest.len() {
                    assert((n - 1) as usize != j as usize);
                } else {
                    assert(rest[k] == j as usize);
                }
            }
        }
    } else {
        if filter_accepts(fs[n - 1], stage, sub) {
            assert(m[rest.len() as int] == j as usize);
        } else {
            if rest.contains(j as usize) {
                let k = choose|k: int| 0 <= k < rest.len() && rest[k] == j as usize;
                assert(rest[k] < n - 1);
            }
        }
    }
}

proof fn lemma_matching_below(fs: Seq<ParserFilter>, n: int, stage: EventType, sub: StorageSubSystem)
    requires
        n <= usize::MAX,
    ensures
        forall|k: int|
            0 <= k < matching_parsers(fs, n, stage, sub).len() ==> #[trigger] matching_parsers(
                fs,
                n,
                stage,
                sub,
            )[k] < n,
    decreases n,
{
    if n > 0 {
        lemma_matching_below(fs, n - 1, stage, sub);
        let m = matching_parsers(fs, n, stage, sub);
        let rest = matching_parsers(fs, n - 1, stage, sub);
        assert forall|k: int| 0 <= k < m.len() implies #[trigger] m[k] < n by {
            if k < rest.len() {
                assert(m[k] == rest[k]);
            }
        }
    }
}

} // verus!
