use vstd::prelude::*;

use crate::text::{ascii_lower, eq_ignore_case, same_ignoring_case, same_text, text_of};

verus! {

/// The storage layer an event concerns.
#[derive(Debug, Clone, Copy, PartialEq, Eq, Structural)]
pub enum StorageSubSystem {
    Unknown,
    Scsi,
    Multipath,
    DeviceMapper,
    Block,
    FileSystem,
    Lvm,
}

/// The wire name of each subsystem.
pub open spec fn sub_system_name(s: StorageSubSystem) -> Seq<char> {
    match s {
        StorageSubSystem::Unknown => "Unknown"@,
        StorageSubSystem::Scsi => "SCSI"@,
        StorageSubSystem::Multipath => "Multipath"@,
        StorageSubSystem::DeviceMapper => "DeviceMapper"@,
        StorageSubSystem::Block => "Block"@,
        StorageSubSystem::FileSystem => "FileSystem"@,
        StorageSubSystem::Lvm => "LVM"@,
    }
}

/// The subsystem whose wire name equals `s` up to ASCII case, if any.
pub open spec fn sub_system_of_name(s: Seq<char>) -> Option<StorageSubSystem> {
    if same_ignoring_case(s, "Unknown"@) {
        Some(StorageSubSystem::Unknown)
    } else if same_ignoring_case(s, "SCSI"@) {
        Some(StorageSubSystem::Scsi)
    } else if same_ignoring_case(s, "Multipath"@) {
        Some(StorageSubSystem::Multipath)
    } else if same_ignoring_case(s, "DeviceMapper"@) {
        Some(StorageSubSystem::DeviceMapper)
    } else if same_ignoring_case(s, "Block"@) {
        Some(StorageSubSystem::Block)
    } else if same_ignoring_case(s, "FileSystem"@) {
        Some(StorageSubSystem::FileSystem)
    } else if same_ignoring_case(s, "LVM"@) {
        Some(StorageSubSystem::Lvm)
    } else {
        None
    }
}

/// Parsing the wire name of a subsystem gives that subsystem back.
pub proof fn lemma_sub_system_name_round_trip(s: StorageSubSystem)
    ensures
        sub_system_of_name(sub_system_name(s)) == Some(s),
{
    reveal_strlit("Unknown");
    reveal_strlit("SCSI");
    reveal_strlit("Multipath");
    reveal_strlit("DeviceMapper");
    reveal_strlit("Block");
    reveal_strlit("FileSystem");
    reveal_strlit("LVM");
    let n = sub_system_name(s);
    assert(ascii_lower(n).len() == n.len());
    assert(ascii_lower("Unknown"@).len() == 7);
    assert(ascii_lower("SCSI"@).len() == 4);
    assert(ascii_lower("Multipath"@).len() == 9);
    assert(ascii_lower("DeviceMapper"@).len() == 12);
    assert(ascii_lower("Block"@).len() == 5);
    assert(ascii_lower("FileSystem"@).len() == 10);
}

impl StorageSubSystem {
    /// Parses a wire name, ignoring ASCII case.
    pub fn parse(s: &str) -> (r: Option<StorageSubSystem>)
        ensures
            r == sub_system_of_name(s@),
    {
        if eq_ignore_case(s, "Unknown") {
            Some(StorageSubSystem::Unknown)
        } else if eq_ignore_case(s, "SCSI") {
            Some(StorageSubSystem::Scsi)
        } else if eq_ignore_case(s, "Multipath") {
            Some(StorageSubSystem::Multipath)
        } else if eq_ignore_case(s, "DeviceMapper") {
            Some(StorageSubSystem::DeviceMapper)
        } else if eq_ignore_case(s, "Block") {
            Some(StorageSubSystem::Block)
        } else if eq_ignore_case(s, "FileSystem") {
            Some(StorageSubSystem::FileSystem)
        } else if eq_ignore_case(s, "LVM") {
            Some(StorageSubSystem::Lvm)
        } else {
            None
        }
    }

    /// The wire name.
    pub fn to_string(&self) -> (r: String)
        ensures
            r@ == sub_system_name(*self),
    {
        match self {
            StorageSubSystem::Unknown => text_of("Unknown"),
            StorageSubSystem::Scsi => text_of("SCSI"),
            StorageSubSystem::Multipath => text_of("Multipath"),
            StorageSubSystem::DeviceMapper => text_of("DeviceMapper"),
            StorageSubSystem::Block => text_of("Block"),
            StorageSubSystem::FileSystem => text_of("FileSystem"),
            StorageSubSystem::Lvm => text_of("LVM"),
        }
    }
}

/// Syslog severity, most severe first; `Unknown` when the priority could
/// not be read.
#[derive(Debug, Clone, Copy, PartialEq, Eq, Structural)]
pub enum LogSeverity {
    Emergency,
    Alert,
    Critical,
    Error,
    Warning,
    Notice,
    Info,
    Debug,
    Unknown,
}

/// The syslog number of a severity; `Unknown` ranks after `Debug`.
pub open spec fn severity_rank(s: LogSeverity) -> nat {
    match s {
        LogSeverity::Emergency => 0,
        LogSeverity::Alert => 1,
        LogSeverity::Critical => 2,
        LogSeverity::Error => 3,
        LogSeverity::Warning => 4,
        LogSeverity::Notice => 5,
        LogSeverity::Info => 6,
        LogSeverity::Debug => 7,
        LogSeverity::Unknown => 8,
    }
}

/// The severity of syslog number `n`, for `n` in 0..=7.
pub open spec fn severity_of_rank(n: nat) -> LogSeverity {
    if n == 0 {
        LogSeverity::Emergency
    } else if n == 1 {
        LogSeverity::Alert
    } else if n == 2 {
        LogSeverity::Critical
    } else if n == 3 {
        LogSeverity::Error
    } else if n == 4 {
        LogSeverity::Warning
    } else if n == 5 {
        LogSeverity::Notice
    } else if n == 6 {
        LogSeverity::Info
    } else if n == 7 {
        LogSeverity::Debug
    } else {
        LogSeverity::Unknown
    }
}

/// A severity written as one decimal digit 0..=7, or by its name up to
/// ASCII case.
pub open spec fn severity_of_text(s: Seq<char>) -> Option<LogSeverity> {
    if s.len() == 1 && '0' <= s[0] && s[0] <= '7' {
        Some(severity_of_rank((s[0] as u32 - '0' as u32) as nat))
    } else if same_ignoring_case(s, "Emergency"@) {
        Some(LogSeverity::Emergency)
    } else if same_ignoring_case(s, "Alert"@) {
        Some(LogSeverity::Alert)
    } else if same_ignoring_case(s, "Critical"@) {
        Some(LogSeverity::Critical)
    } else if same_ignoring_case(s, "Error"@) {
        Some(LogSeverity::Error)
    } else if same_ignoring_case(s, "Warning"@) {
        Some(LogSeverity::Warning)
    } else if same_ignoring_case(s, "Notice"@) {
        Some(LogSeverity::Notice)
    } else if same_ignoring_case(s, "Info"@) {
        Some(LogSeverity::Info)
    } else if same_ignoring_case(s, "Debug"@) {
        Some(LogSeverity::Debug)
    } else {
        None
    }
}

impl LogSeverity {
    /// The syslog number (8 for `Unknown`).
    pub fn rank(&self) -> (r: u8)
        ensures
            r as nat == severity_rank(*self),
    {
        match self {
            LogSeverity::Emergency => 0,
            LogSeverity::Alert => 1,
            LogSeverity::Critical => 2,
            LogSeverity::Error => 3,
            LogSeverity::Warning => 4,
            LogSeverity::Notice => 5,
            LogSeverity::Info => 6,
            LogSeverity::Debug => 7,
            LogSeverity::Unknown => 8,
        }
    }

    /// The severity of a syslog number; `Unknown` above 7.
    pub fn from_rank(n: u8) -> (r: LogSeverity)
        ensures
            r == severity_of_rank(n as nat),
    {
        if n == 0 {
            LogSeverity::Emergency
        } else if n == 1 {
            LogSeverity::Alert
        } else if n == 2 {
            LogSeverity::Critical
        } else if n == 3 {
            LogSeverity::Error
        } else if n == 4 {
            LogSeverity::Warning
        } else if n == 5 {
            LogSeverity::Notice
        } else if n == 6 {
            LogSeverity::Info
        } else if n == 7 {
            LogSeverity::Debug
        } else {
            LogSeverity::Unknown
        }
    }

    /// Parses a `PRIORITY` digit or a severity name.
    pub fn parse(s: &str) -> (r: Option<LogSeverity>)
        ensures
            r == severity_of_text(s@),
    {
        if s.unicode_len() == 1 {
            let c = s.get_char(0);
            if '0' <= c && c <= '7' {
                return Some(LogSeverity::from_rank(((c as u32) - ('0' as u32)) as u8));
            }
        }
        if eq_ignore_case(s, "Emergency") {
            Some(LogSeverity::Emergency)
        } else if eq_ignore_case(s, "Alert") {
            Some(LogSeverity::Alert)
        } else if eq_ignore_case(s, "Critical") {
            Some(LogSeverity::Critical)
        } else if eq_ignore_case(s, "Error") {
            Some(LogSeverity::Error)
        } else if eq_ignore_case(s, "Warning") {
            Some(LogSeverity::Warning)
        } else if eq_ignore_case(s, "Notice") {
            Some(LogSeverity::Notice)
        } else if eq_ignore_case(s, "Info") {
            Some(LogSeverity::Info)
        } else if eq_ignore_case(s, "Debug") {
            Some(LogSeverity::Debug)
        } else {
            None
        }
    }
}

/// The stage an event has reached.
#[derive(Debug, Clone, Copy, PartialEq, Eq, Structural)]
pub enum EventType {
    /// Produced by the collector from a journal line.
    Raw,
    /// Produced by a parser.
    Synthetic,
}

/// The kind of a block device.
#[derive(Debug, Clone, Copy, PartialEq, Eq, Structural)]
pub enum BlkType {
    Other,
    Scsi,
    Dm,
    DmMultipath,
    DmLvm,
    Partition,
}

/// Key/value data `s` laid over the map `m`; a later entry for a key
/// overrides an earlier one.
pub open spec fn pairs_over(m: Map<Seq<char>, Seq<char>>, s: Seq<(String, String)>) -> Map<
    Seq<char>,
    Seq<char>,
>
    decreases s.len(),
{
    if s.len() == 0 {
        m
    } else {
        pairs_over(m, s.drop_last()).insert(s.last().0@, s.last().1@)
    }
}

/// Key/value data as a map; a later entry for a key overrides an earlier
/// one.
pub open spec fn pairs_map(s: Seq<(String, String)>) -> Map<Seq<char>, Seq<char>> {
    pairs_over(Map::empty(), s)
}

/// No key occurs twice in a key/value list.
pub open spec fn keys_unique(s: Seq<(String, String)>) -> bool {
    forall|i: int, j: int| 0 <= i < j < s.len() ==> s[i].0@ != s[j].0@
}

/// Adds each entry of `b`, in order, to a key/value list.
pub fn pairs_merge(a: &mut Vec<(String, String)>, b: &Vec<(String, String)>)
    ensures
        pairs_map(final(a)@) == pairs_over(pairs_map(old(a)@), b@),
        keys_unique(old(a)@) ==> keys_unique(final(a)@),
{
    let ghost m0 = pairs_map(a@);
    let ghost u0 = keys_unique(a@);
    let n = b.len();
    let mut i: usize = 0;
    while i < n
        invariant
            i <= n,
            n == b@.len(),
            m0 == pairs_map(old(a)@),
            u0 == keys_unique(old(a)@),
            pairs_map(a@) == pairs_over(m0, b@.subrange(0, i as int)),
            u0 ==> keys_unique(a@),
        decreases n - i,
    {
        let k = text_of(b[i].0.as_str());
        let v = text_of(b[i].1.as_str());
        pairs_insert(a, k, v);
        proof {
            assert(b@.subrange(0, i + 1).drop_last() =~= b@.subrange(0, i as int));
        }
        i = i + 1;
    }
    proof {
        assert(b@.subrange(0, n as int) =~= b@);
    }
}

/// Adds `key` with `value` to a key/value list, in place of any entry the
/// key had.
pub fn pairs_insert(pairs: &mut Vec<(String, String)>, key: String, value: String)
    ensures
        pairs_map(final(pairs)@) == pairs_map(old(pairs)@).insert(key@, value@),
        keys_unique(old(pairs)@) ==> keys_unique(final(pairs)@),
{
    let ghost s = pairs@;
    let ghost k = key@;
    let mut kept: Vec<(String, String)> = Vec::new();
    let n = pairs.len();
    let mut i: usize = 0;
    proof {
        assert(s.subrange(0, 0) =~= Seq::<(String, String)>::empty());
        assert(pairs_map(kept@) =~= pairs_map(s.subrange(0, 0)).remove(k));
    }
    while i < n
        invariant
            i <= n,
            n == s.len(),
            s == pairs@,
            k == key@,
            pairs_map(kept@) == pairs_map(s.subrange(0, i as int)).remove(k),
            forall|j: int| 0 <= j < kept@.len() ==> kept@[j].0@ != k,
            forall|j: int|
                0 <= j < kept@.len() ==> exists|l: int|
                    0 <= l < i && #[trigger] kept@[j].0@ == s[l].0@,
            keys_unique(s) ==> keys_unique(kept@),
        decreases n - i,
    {
        proof {
            assert(s.subrange(0, i + 1).drop_last() =~= s.subrange(0, i as int));
        }
        if !same_text(pairs[i].0.as_str(), key.as_str()) {
            let e = (text_of(pairs[i].0.as_str()), text_of(pairs[i].1.as_str()));
            let ghost before = kept@;
            kept.push(e);
            proof {
                assert(kept@.drop_last() =~= before);
                assert(pairs_map(kept@) =~= pairs_map(s.subrange(0, i + 1)).remove(k));
                assert forall|j: int|
                    0 <= j < kept@.len() implies exists|l: int|
                        0 <= l < i + 1 && #[trigger] kept@[j].0@ == s[l].0@ by {
                    if j < before.len() {
                        assert(kept@[j] == before[j]);
                        let l = choose|l: int| 0 <= l < i && before[j].0@ == s[l].0@;
                        assert(kept@[j].0@ == s[l].0@);
                    } else {
                        assert(kept@[j].0@ == s[i as int].0@);
                    }
                }
                if keys_unique(s) {
                    assert forall|a: int, b: int|
                        0 <= a < b < kept@.len() implies kept@[a].0@ != kept@[b].0@ by {
                        if b < before.len() {
                            assert(kept@[a] == before[a] && kept@[b] == before[b]);
                        } else {
                            assert(kept@[a] == before[a]);
                            let l = choose|l: int| 0 <= l < i && before[a].0@ == s[l].0@;
                            assert(s[l].0@ != s[i as int].0@);
                        }
                    }
                }
                assert forall|j: int| 0 <= j < kept@.len() implies kept@[j].0@ != k by {
                    if j < before.len() {
                        assert(kept@[j] == before[j]);
                    }
                }
            }
        } else {
            proof {
                assert(pairs_map(kept@) =~= pairs_map(s.subrange(0, i + 1)).remove(k));
            }
        }
        i = i + 1;
    }
    let ghost before = kept@;
    kept.push((key, value));
    proof {
        assert(s.subrange(0, n as int) =~= s);
        assert(kept@.drop_last() =~= before);
        assert(pairs_map(kept@) =~= pairs_map(s).insert(k, value@));
        if keys_unique(s) {
            assert forall|a: int, b: int|
                0 <= a < b < kept@.len() implies kept@[a].0@ != kept@[b].0@ by {
                if b < before.len() {
                    assert(kept@[a] == before[a] && kept@[b] == before[b]);
                } else {
                    assert(kept@[a] == before[a]);
                }
            }
        }
    }
    *pairs = kept;
}

/// Entries after position `i` that do not hold key `k` leave its lookup
/// to the first `i` entries.
proof fn lemma_pairs_prefix(s: Seq<(String, String)>, i: int, k: Seq<char>)
    requires
        0 <= i <= s.len(),
        forall|j: int| i <= j < s.len() ==> s[j].0@ != k,
    ensures
        pairs_map(s).contains_key(k) == pairs_map(s.subrange(0, i)).contains_key(k),
        pairs_map(s).contains_key(k) ==> pairs_map(s)[k] == pairs_map(s.subrange(0, i))[k],
    decreases s.len(),
{
    if s.len() > i {
        lemma_pairs_prefix(s.drop_last(), i, k);
        assert(s.drop_last().subrange(0, i) =~= s.subrange(0, i));
    } else {
        assert(s.subrange(0, i) =~= s);
    }
}

/// The value stored for `key` in a key/value list.
pub fn pairs_get(pairs: &Vec<(String, String)>, key: &str) -> (r: Option<String>)
    ensures
        r is Some <==> pairs_map(pairs@).contains_key(key@),
        r matches Some(v) ==> v@ == pairs_map(pairs@)[key@],
{
    let mut i: usize = pairs.len();
    while i > 0
        invariant
            i <= pairs@.len(),
            forall|j: int| i <= j < pairs@.len() ==> pairs@[j].0@ != key@,
        decreases i,
    {
        if same_text(pairs[i - 1].0.as_str(), key) {
            proof {
                let s = pairs@.subrange(0, i as int);
                lemma_pairs_prefix(pairs@, i as int, key@);
                assert(s.drop_last() =~= pairs@.subrange(0, i - 1));
            }
            return Some(pairs[i - 1].1.clone());
        }
        i = i - 1;
    }
    proof {
        lemma_pairs_prefix(pairs@, 0, key@);
        assert(pairs@.subrange(0, 0) =~= Seq::<(String, String)>::empty());
    }
    None
}

/// What the sysfs probe knows of one block device.
#[derive(Debug, Clone)]
pub struct BlkInfo {
    pub blk_path: String,
    pub blk_type: BlkType,
    pub name: String,
    pub wwid: String,
    pub owners_wwids: Vec<String>,
    pub owners_types: Vec<BlkType>,
    pub owners_names: Vec<String>,
    pub owners_paths: Vec<String>,
    pub uuid: Option<String>,
    pub mount_point: Option<String>,
}

/// The unit that flows through the pipeline.
#[derive(Debug, Clone)]
pub struct StorageEvent {
    pub hostname: String,
    pub severity: LogSeverity,
    pub sub_system: StorageSubSystem,
    pub timestamp: String,
    pub event_type: String,
    pub stage: EventType,
    pub dev_wwid: String,
    pub dev_name: String,
    pub dev_path: String,
    pub owners_wwids: Vec<String>,
    pub owners_names: Vec<String>,
    pub owners_paths: Vec<String>,
    pub owners_types: Vec<BlkType>,
    pub kdev: String,
    pub msg: String,
    pub raw_msg: String,
    pub extension: Vec<(String, String)>,
}

impl StorageEvent {
    /// The four owner lists are parallel.
    pub open spec fn owners_aligned(&self) -> bool {
        &&& self.owners_wwids@.len() == self.owners_names@.len()
        &&& self.owners_wwids@.len() == self.owners_paths@.len()
        &&& self.owners_wwids@.len() == self.owners_types@.len()
    }

    /// The owner lists are parallel and no extension key occurs twice.
    pub open spec fn well_formed(&self) -> bool {
        self.owners_aligned() && keys_unique(self.extension@)
    }

    /// The extension data as a map.
    pub open spec fn extension_map(&self) -> Map<Seq<char>, Seq<char>> {
        pairs_map(self.extension@)
    }

    /// A raw event with every text empty, subsystem and severity unknown.
    pub fn empty() -> (r: StorageEvent)
        ensures
            r.hostname@.len() == 0,
            r.severity == LogSeverity::Unknown,
            r.sub_system == StorageSubSystem::Unknown,
            r.timestamp@.len() == 0,
            r.event_type@.len() == 0,
            r.stage == EventType::Raw,
            r.dev_wwid@.len() == 0,
            r.dev_name@.len() == 0,
            r.dev_path@.len() == 0,
            r.owners_wwids@.len() == 0,
            r.owners_names@.len() == 0,
            r.owners_paths@.len() == 0,
            r.owners_types@.len() == 0,
            r.kdev@.len() == 0,
            r.msg@.len() == 0,
            r.raw_msg@.len() == 0,
            r.extension@.len() == 0,
    {
        StorageEvent {
            hostname: String::new(),
            severity: LogSeverity::Unknown,
            sub_system: StorageSubSystem::Unknown,
            timestamp: String::new(),
            event_type: String::new(),
            stage: EventType::Raw,
            dev_wwid: String::new(),
            dev_name: String::new(),
            dev_path: String::new(),
            owners_wwids: Vec::new(),
            owners_names: Vec::new(),
            owners_paths: Vec::new(),
            owners_types: Vec::new(),
            kdev: String::new(),
            msg: String::new(),
            raw_msg: String::new(),
            extension: Vec::new(),
        }
    }
}

} // verus!
