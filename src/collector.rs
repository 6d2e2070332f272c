use vstd::prelude::*;

use crate::event::{
    keys_unique, pairs_insert, pairs_map, severity_of_text, sub_system_of_name, EventType, LogSeverity,
    StorageEvent, StorageSubSystem,
};
use crate::regex_conf::{
    compile_outcome, group_text, groups_view, named_group, sources_view, SourceView, rule_captures, RegexConf, RegexConfSource, RuleView,
};
use crate::builtin::{builtin_rule_sources, builtin_rule_table};
use crate::text::{same_text, text_of};
use crate::timestamp::{decimal_i64, micros_in_range, parse_i64, timestamp_of_micros, MAX_EPOCH_SECS};

verus! {

/// The fields of one journal entry that the collector reads.
#[derive(Debug, Clone)]
pub struct JournalEntry {
    /// `MESSAGE`
    pub message: Option<String>,
    /// `SYSLOG_IDENTIFIER`
    pub syslog_identifier: Option<String>,
    /// `IS_PERIPETY`, the marker of entries this daemon wrote.
    pub is_peripety: Option<String>,
    /// `_KERNEL_SUBSYSTEM`
    pub kernel_subsystem: Option<String>,
    /// `_KERNEL_DEVICE`
    pub kernel_device: Option<String>,
    /// `_HOSTNAME`
    pub hostname: Option<String>,
    /// `__REALTIME_TIMESTAMP`, decimal microseconds since the epoch.
    pub realtime_timestamp: Option<String>,
    /// `PRIORITY`
    pub priority: Option<String>,
}

/// An optional text as an optional character sequence.
pub open spec fn opt_view(o: Option<String>) -> Option<Seq<char>> {
    match o {
        Some(s) => Some(s@),
        None => None,
    }
}

/// A kernel entry with a message that this daemon did not write itself.
pub open spec fn entry_selected(e: JournalEntry) -> bool {
    &&& e.message matches Some(m) && m@.len() > 0
    &&& e.syslog_identifier matches Some(s) && s@ == "kernel"@
    &&& !(e.is_peripety matches Some(p) && p@ == "TRUE"@)
}

/// The subsystem the kernel's structured fields give, if any.
pub open spec fn seed_sub_system(e: JournalEntry) -> StorageSubSystem {
    match e.kernel_subsystem {
        Some(s) => match sub_system_of_name(s@) {
            Some(sub) => sub,
            None => StorageSubSystem::Unknown,
        },
        None => StorageSubSystem::Unknown,
    }
}

/// The device the kernel's structured fields give, or empty.
pub open spec fn seed_kdev(e: JournalEntry) -> Seq<char> {
    match e.kernel_device {
        Some(d) => d@,
        None => Seq::empty(),
    }
}

/// The named groups other than `kdev` that took part in the match.
pub open spec fn extension_of_groups(g: Seq<(Option<Seq<char>>, Option<Seq<char>>)>) -> Map<
    Seq<char>,
    Seq<char>,
>
    decreases g.len(),
{
    if g.len() == 0 {
        Map::empty()
    } else {
        let rest = extension_of_groups(g.drop_last());
        match g.last() {
            (Some(n), Some(t)) => if n != "kdev"@ {
                rest.insert(n, t)
            } else {
                rest
            },
            _ => rest,
        }
    }
}

/// The result of running the dispatch rules on one message.
pub struct Dispatched {
    pub matched: bool,
    pub sub_system: StorageSubSystem,
    pub kdev: Seq<char>,
    pub event_type: Option<Seq<char>>,
    pub extension: Map<Seq<char>, Seq<char>>,
}

/// Runs `rules` in order on `msg`. A rule is skipped when the subsystem is
/// already known and differs from its own, or when it captures nothing. A
/// match that leaves the device empty does not count. The first match that
/// counts decides the outcome.
pub open spec fn dispatch(
    rules: Seq<RuleView>,
    sub: StorageSubSystem,
    kdev: Seq<char>,
    msg: Seq<char>,
) -> Dispatched
    decreases rules.len(),
{
    if rules.len() == 0 {
        Dispatched {
            matched: false,
            sub_system: sub,
            kdev,
            event_type: None,
            extension: Map::empty(),
        }
    } else {
        let r = rules[0];
        let rest = rules.drop_first();
        if sub != StorageSubSystem::Unknown && r.sub_system != sub {
            dispatch(rest, sub, kdev, msg)
        } else {
            match rule_captures(r, msg) {
                None => dispatch(rest, sub, kdev, msg),
                Some(g) => {
                    let k = match named_group(g, "kdev"@) {
                        Some(k) => k,
                        None => kdev,
                    };
                    if k.len() == 0 {
                        dispatch(rest, sub, k, msg)
                    } else {
                        Dispatched {
                            matched: true,
                            sub_system: if r.sub_system != StorageSubSystem::Unknown {
                                r.sub_system
                            } else {
                                sub
                            },
                            kdev: k,
                            event_type: if r.event_type.len() > 0 {
                                Some(r.event_type)
                            } else {
                                None
                            },
                            extension: extension_of_groups(g),
                        }
                    }
                },
            }
        }
    }
}

/// Running two rule lists one after the other is running the first and,
/// where it found no match, the second.
pub proof fn lemma_dispatch_concat(
    a: Seq<RuleView>,
    b: Seq<RuleView>,
    sub: StorageSubSystem,
    kdev: Seq<char>,
    msg: Seq<char>,
)
    ensures
        dispatch(a, sub, kdev, msg).matched ==> dispatch(a + b, sub, kdev, msg) == dispatch(
            a,
            sub,
            kdev,
            msg,
        ),
        !dispatch(a, sub, kdev, msg).matched ==> dispatch(a + b, sub, kdev, msg) == dispatch(
            b,
            sub,
            dispatch(a, sub, kdev, msg).kdev,
            msg,
        ),
        !dispatch(a, sub, kdev, msg).matched ==> dispatch(a, sub, kdev, msg).sub_system == sub,
    decreases a.len(),
{
    if a.len() == 0 {
        assert(a + b =~= b);
    } else {
        assert((a + b).drop_first() =~= a.drop_first() + b);
        assert((a + b)[0] == a[0]);
        let r = a[0];
        if sub != StorageSubSystem::Unknown && r.sub_system != sub {
            lemma_dispatch_concat(a.drop_first(), b, sub, kdev, msg);
        } else {
            match rule_captures(r, msg) {
                None => lemma_dispatch_concat(a.drop_first(), b, sub, kdev, msg),
                Some(g) => {
                    let k = match named_group(g, "kdev"@) {
                        Some(k) => k,
                        None => kdev,
                    };
                    lemma_dispatch_concat(a.drop_first(), b, sub, k, msg);
                },
            }
        }
    }
}

/// Built-in rules take precedence: when one of them matches a message, the
/// user rules change nothing in the outcome.
pub proof fn lemma_builtin_rules_win(
    builtins: Seq<RuleView>,
    users: Seq<RuleView>,
    sub: StorageSubSystem,
    kdev: Seq<char>,
    msg: Seq<char>,
)
    requires
        dispatch(builtins, sub, kdev, msg).matched,
    ensures
        dispatch(builtins + users, sub, kdev, msg) == dispatch(builtins, sub, kdev, msg),
{
    lemma_dispatch_concat(builtins, users, sub, kdev, msg);
}

/// Rules as plain values.
pub open spec fn rules_view(v: Seq<RegexConf>) -> Seq<RuleView> {
    v.map_values(|c: RegexConf| c@)
}

/// The rules that compile, in order; the others are left out.
pub open spec fn compiled_rules(srcs: Seq<SourceView>) -> Seq<RuleView>
    decreases srcs.len(),
{
    if srcs.len() == 0 {
        Seq::empty()
    } else {
        let rest = compiled_rules(srcs.drop_last());
        match compile_outcome(srcs.last()) {
            Ok(r) => rest.push(r),
            Err(_) => rest,
        }
    }
}

/// Compiles each rule, leaving out those that do not compile.
pub fn compile_rules(srcs: &Vec<RegexConfSource>) -> (r: Vec<RegexConf>)
    ensures
        rules_view(r@) == compiled_rules(sources_view(srcs@)),
{
    let mut out: Vec<RegexConf> = Vec::new();
    let mut i: usize = 0;
    while i < srcs.len()
        invariant
            i <= srcs@.len(),
            rules_view(out@) == compiled_rules(sources_view(srcs@.subrange(0, i as int))),
        decreases srcs@.len() - i,
    {
        proof {
            assert(sources_view(srcs@.subrange(0, i + 1)).drop_last() =~= sources_view(
                srcs@.subrange(0, i as int),
            ));
            assert(sources_view(srcs@.subrange(0, i + 1)).last() == srcs@[i as int]@);
        }
        match RegexConf::new(&srcs[i]) {
            Ok(c) => {
                out.push(c);
                proof {
                    assert(rules_view(out@) =~= compiled_rules(
                        sources_view(srcs@.subrange(0, i + 1)),
                    ));
                }
            },
            Err(_) => {},
        }
        i = i + 1;
    }
    proof {
        assert(srcs@.subrange(0, srcs@.len() as int) =~= srcs@);
    }
    out
}

/// The named groups other than `kdev` that took part in the match.
fn group_extension(g: &Vec<(Option<String>, Option<String>)>) -> (r: Vec<(String, String)>)
    ensures
        pairs_map(r@) == extension_of_groups(groups_view(g@)),
        keys_unique(r@),
{
    let ghost gv = groups_view(g@);
    let mut out: Vec<(String, String)> = Vec::new();
    let mut i: usize = 0;
    while i < g.len()
        invariant
            i <= g@.len(),
            gv == groups_view(g@),
            pairs_map(out@) == extension_of_groups(gv.subrange(0, i as int)),
            keys_unique(out@),
        decreases g@.len() - i,
    {
        proof {
            assert(gv.subrange(0, i + 1).drop_last() =~= gv.subrange(0, i as int));
        }
        match (&g[i].0, &g[i].1) {
            (Some(n), Some(t)) => {
                if !same_text(n.as_str(), "kdev") {
                    pairs_insert(&mut out, text_of(n.as_str()), text_of(t.as_str()));
                }
            },
            _ => {},
        }
        i = i + 1;
    }
    proof {
        assert(gv.subrange(0, gv.len() as int) =~= gv);
    }
    out
}

/// What `dispatch` returns, as values.
pub struct DispatchResult {
    pub matched: bool,
    pub sub_system: StorageSubSystem,
    pub kdev: String,
    pub event_type: Option<String>,
    pub extension: Vec<(String, String)>,
}

impl View for DispatchResult {
    type V = Dispatched;

    open spec fn view(&self) -> Dispatched {
        Dispatched {
            matched: self.matched,
            sub_system: self.sub_system,
            kdev: self.kdev@,
            event_type: opt_view(self.event_type),
            extension: pairs_map(self.extension@),
        }
    }
}

/// Runs `rules` in order on `msg`, starting from subsystem `sub` and device
/// `kdev`.
pub fn dispatch_rules(rules: &Vec<RegexConf>, sub: StorageSubSystem, start_kdev: String, msg: &str) -> (r:
    DispatchResult)
    ensures
        r@ == dispatch(rules_view(rules@), sub, start_kdev@, msg@),
        keys_unique(r.extension@),
{
    let ghost rv = rules_view(rules@);
    let ghost n = rv.len() as int;
    let ghost k0 = start_kdev@;
    proof {
        assert(rv.subrange(0, n) =~= rv);
    }
    let mut kdev = start_kdev;
    let mut i: usize = 0;
    while i < rules.len()
        invariant
            i <= rules@.len(),
            rv == rules_view(rules@),
            n == rules@.len(),
            k0 == start_kdev@,
            dispatch(rv, sub, k0, msg@) == dispatch(rv.subrange(i as int, n), sub, kdev@, msg@),
        decreases rules@.len() - i,
    {
        let ghost tail = rv.subrange(i as int, n);
        proof {
            assert(tail.drop_first() =~= rv.subrange(i + 1, n));
            assert(tail[0] == rules@[i as int]@);
        }
        let rule = &rules[i];
        let rsub = rule.sub_system();
        if sub != StorageSubSystem::Unknown && rsub != sub {
            i = i + 1;
            continue;
        }
        match rule.captures(msg) {
            None => {},
            Some(g) => {
                let ghost kd = kdev@;
                match group_text(&g, "kdev") {
                    Some(k) => {
                        kdev = k;
                    },
                    None => {},
                }
                if kdev.unicode_len() > 0 {
                    let et = rule.event_type();
                    let event_type = if et.unicode_len() > 0 {
                        Some(text_of(et.as_str()))
                    } else {
                        None
                    };
                    let sub_system = if rsub != StorageSubSystem::Unknown {
                        rsub
                    } else {
                        sub
                    };
                    let extension = group_extension(&g);
                    proof {
                        assert(rule_captures(tail[0], msg@) == Some(groups_view(g@)));
                        assert(kdev@ == match named_group(groups_view(g@), "kdev"@) {
                            Some(k) => k,
                            None => kd,
                        });
                        let d = dispatch(tail, sub, kd, msg@);
                        assert(d.matched);
                        assert(d.kdev == kdev@);
                        assert(d.sub_system == sub_system);
                        assert(d.event_type == opt_view(event_type));
                        assert(d.extension == pairs_map(extension@));
                    }
                    let r = DispatchResult { matched: true, sub_system, kdev, event_type, extension };
                    proof {
                        assert(r@ == dispatch(tail, sub, kd, msg@));

                    }
                    return r;
                }
            },
        }
        i = i + 1;
    }
    proof {
        assert(rv.subrange(n, n) =~= Seq::<RuleView>::empty());
    }
    DispatchResult {
        matched: false,
        sub_system: sub,
        kdev,
        event_type: None,
        extension: Vec::new(),
    }
}

/// The message of a selected entry.
pub open spec fn entry_message(e: JournalEntry) -> Seq<char> {
    match e.message {
        Some(m) => m@,
        None => Seq::empty(),
    }
}

/// The outcome of the dispatch rules on an entry, seeded from its
/// structured kernel fields.
pub open spec fn entry_dispatch(e: JournalEntry, rules: Seq<RuleView>) -> Dispatched {
    dispatch(rules, seed_sub_system(e), seed_kdev(e), entry_message(e))
}

/// An entry that yields an event: selected, tied by the rules to a known
/// subsystem and a device, stamped with a readable time in range, and with
/// a readable priority if it has one.
pub open spec fn entry_accepted(e: JournalEntry, rules: Seq<RuleView>) -> bool {
    &&& entry_selected(e)
    &&& entry_dispatch(e, rules).sub_system != StorageSubSystem::Unknown
    &&& entry_dispatch(e, rules).kdev.len() > 0
    &&& e.realtime_timestamp matches Some(t) && decimal_i64(t@) matches Some(v) && micros_in_range(
        v,
    )
    &&& !(e.priority matches Some(p) && severity_of_text(p@) is None)
}

/// The event an accepted entry yields, but for its timestamp.
pub open spec fn event_from_entry(ev: StorageEvent, e: JournalEntry, rules: Seq<RuleView>) -> bool {
    let d = entry_dispatch(e, rules);
    &&& ev.sub_system == d.sub_system
    &&& ev.kdev@ == d.kdev
    &&& ev.event_type@ == match d.event_type {
        Some(t) => t,
        None => Seq::empty(),
    }
    &&& ev.extension_map() == d.extension
    &&& ev.hostname@ == match e.hostname {
        Some(h) => h@,
        None => Seq::empty(),
    }
    &&& ev.severity == match e.priority {
        Some(p) => match severity_of_text(p@) {
            Some(sev) => sev,
            None => LogSeverity::Unknown,
        },
        None => LogSeverity::Unknown,
    }
    &&& ev.raw_msg@ == entry_message(e)
    &&& ev.stage == EventType::Raw
    &&& ev.msg@.len() == 0
    &&& ev.dev_wwid@.len() == 0
    &&& ev.dev_name@.len() == 0
    &&& ev.dev_path@.len() == 0
    &&& ev.owners_wwids@.len() == 0
    &&& ev.owners_names@.len() == 0
    &&& ev.owners_paths@.len() == 0
    &&& ev.owners_types@.len() == 0
}

/// Builds the event of a journal entry, given the entry's timestamp as
/// text. Yields nothing for an entry that is not accepted, or without a
/// timestamp text.
pub fn assemble_event(
    entry: &JournalEntry,
    builtins: &Vec<RegexConf>,
    users: &Vec<RegexConf>,
    timestamp: Option<String>,
) -> (r: Option<StorageEvent>)
    ensures
        r is Some <==> entry_accepted(*entry, rules_view(builtins@) + rules_view(users@))
            && timestamp is Some,
        r matches Some(ev) ==> event_from_entry(
            ev,
            *entry,
            rules_view(builtins@) + rules_view(users@),
        ) && opt_view(timestamp) == Some(ev.timestamp@),
        r matches Some(ev) ==> ev.well_formed(),
{
    let ghost rules = rules_view(builtins@) + rules_view(users@);
    let msg = match &entry.message {
        Some(m) => m,
        None => return None,
    };
    if msg.unicode_len() == 0 {
        return None;
    }
    match &entry.syslog_identifier {
        Some(s) => {
            if !same_text(s.as_str(), "kernel") {
                return None;
            }
        },
        None => return None,
    }
    if let Some(p) = &entry.is_peripety {
        if same_text(p.as_str(), "TRUE") {
            return None;
        }
    }
    let sub = match &entry.kernel_subsystem {
        Some(s) => match StorageSubSystem::parse(s.as_str()) {
            Some(sub) => sub,
            None => StorageSubSystem::Unknown,
        },
        None => StorageSubSystem::Unknown,
    };
    let kdev = match &entry.kernel_device {
        Some(d) => text_of(d.as_str()),
        None => String::new(),
    };
    let ghost k0 = kdev@;
    let first = dispatch_rules(builtins, sub, kdev, msg.as_str());
    let d = if first.matched {
        first
    } else {
        dispatch_rules(users, sub, first.kdev, msg.as_str())
    };
    proof {
        lemma_dispatch_concat(rules_view(builtins@), rules_view(users@), sub, k0, msg@);
        assert(d@ == entry_dispatch(*entry, rules));
    }
    if d.sub_system == StorageSubSystem::Unknown || d.kdev.unicode_len() == 0 {
        return None;
    }
    match &entry.realtime_timestamp {
        Some(t) => match parse_i64(t.as_str()) {
            Some(v) => {
                if v < -MAX_EPOCH_SECS * 1_000_000 || v > MAX_EPOCH_SECS * 1_000_000 {
                    return None;
                }
            },
            None => return None,
        },
        None => return None,
    }
    let severity = match &entry.priority {
        Some(p) => match LogSeverity::parse(p.as_str()) {
            Some(sev) => sev,
            None => return None,
        },
        None => LogSeverity::Unknown,
    };
    let timestamp = match timestamp {
        Some(t) => t,
        None => return None,
    };
    let mut ev = StorageEvent::empty();
    ev.sub_system = d.sub_system;
    ev.kdev = d.kdev;
    if let Some(t) = d.event_type {
        ev.event_type = t;
    }
    ev.extension = d.extension;
    ev.hostname = match &entry.hostname {
        Some(h) => text_of(h.as_str()),
        None => String::new(),
    };
    ev.timestamp = timestamp;
    ev.severity = severity;
    ev.raw_msg = text_of(msg.as_str());
    proof {
        let dd = entry_dispatch(*entry, rules);
        assert(ev.sub_system == dd.sub_system);
        assert(ev.kdev@ == dd.kdev);
        assert(ev.extension_map() == dd.extension);
        assert(ev.raw_msg@ == entry_message(*entry));
        assert(ev.event_type@ == match dd.event_type {
            Some(t) => t,
            None => Seq::empty(),
        });
    }
    Some(ev)
}

/// Turns one journal entry into a raw storage event. Entries that are not
/// kernel lines, carry no message, or were written by this daemon yield
/// nothing; neither does an entry the rules cannot tie to a subsystem and
/// a device, nor one whose time or priority cannot be read. The timestamp
/// is the entry's time in local RFC 3339 form.
pub fn process_journal_entry(entry: &JournalEntry, builtins: &Vec<RegexConf>, users: &Vec<
    RegexConf,
>) -> (r: Option<StorageEvent>)
    ensures
        !entry_selected(*entry) ==> r is None,
        r is Some <==> entry_accepted(*entry, rules_view(builtins@) + rules_view(users@)),
        r matches Some(ev) ==> event_from_entry(
            ev,
            *entry,
            rules_view(builtins@) + rules_view(users@),
        ),
        r matches Some(ev) ==> ev.sub_system != StorageSubSystem::Unknown && ev.kdev@.len() > 0,
        r matches Some(ev) ==> ev.well_formed(),
{
    let timestamp = match &entry.realtime_timestamp {
        Some(t) => match parse_i64(t.as_str()) {
            Some(usec) => timestamp_of_micros(usec),
            None => None,
        },
        None => None,
    };
    assemble_event(entry, builtins, users, timestamp)
}

/// Every event the collector emits names a known subsystem and a device.
pub proof fn lemma_emitted_events_are_tied(
    ev: StorageEvent,
    e: JournalEntry,
    rules: Seq<RuleView>,
)
    requires
        entry_accepted(e, rules),
        event_from_entry(ev, e, rules),
    ensures
        ev.sub_system != StorageSubSystem::Unknown,
        ev.kdev@.len() > 0,
{
}

/// The collector's rules: the built-in ones, then the user's.
pub struct Collector {
    pub builtins: Vec<RegexConf>,
    pub users: Vec<RegexConf>,
}

impl Collector {
    /// All rules in the order they are tried.
    pub open spec fn rules(&self) -> Seq<RuleView> {
        rules_view(self.builtins@) + rules_view(self.users@)
    }

    /// A collector with the given built-in rules and no user rules.
    pub fn with_rules(builtin_srcs: &Vec<RegexConfSource>) -> (r: Collector)
        ensures
            rules_view(r.builtins@) == compiled_rules(sources_view(builtin_srcs@)),
            r.users@.len() == 0,
    {
        Collector { builtins: compile_rules(builtin_srcs), users: Vec::new() }
    }

    /// Replaces the user rules with those of a configuration change that
    /// compile.
    pub fn apply_config(&mut self, regexs: &Vec<RegexConfSource>)
        ensures
            final(self).builtins@ == old(self).builtins@,
            rules_view(final(self).users@) == compiled_rules(sources_view(regexs@)),
    {
        self.users = compile_rules(regexs);
    }

    /// The event of one journal entry, if any.
    pub fn process(&self, entry: &JournalEntry) -> (r: Option<StorageEvent>)
        ensures
            !entry_selected(*entry) ==> r is None,
            r is Some <==> entry_accepted(*entry, self.rules()),
            r matches Some(ev) ==> event_from_entry(ev, *entry, self.rules()),
            r matches Some(ev) ==> ev.sub_system != StorageSubSystem::Unknown && ev.kdev@.len()
                > 0,
    {
        process_journal_entry(entry, &self.builtins, &self.users)
    }
}

/// A collector with the built-in rules and no user rules.
pub fn new() -> (r: Collector)
    ensures
        rules_view(r.builtins@) == compiled_rules(builtin_rule_table()),
        r.users@.len() == 0,
{
    Collector::with_rules(&builtin_rule_sources())
}

} // verus!
