use vstd::prelude::*;

use crate::event::{pairs_insert, pairs_map, pairs_merge, pairs_over};
use crate::regex_conf::{capture_groups, group_text, named_group, CompiledPattern};
use crate::event::BlkType;
use crate::text::{has_prefix, join, strip_prefix, text_of};

verus! {

/// Relies on std::path::Path::exists: whether something is found at
/// `path` now. The answer depends on the file system.
#[verifier::external_body]
fn path_exists(path: &str) -> bool {
    std::path::Path::new(path).exists()
}

/// `/sys/class/iscsi_host/host{host_id}`
pub fn iscsi_host_path(host_id: &str) -> (r: String)
    ensures
        r@ == "/sys/class/iscsi_host/host"@ + host_id@,
{
    join("/sys/class/iscsi_host/host", host_id)
}

/// `/sys/class/fc_host/host{host_id}`
pub fn fc_host_path(host_id: &str) -> (r: String)
    ensures
        r@ == "/sys/class/fc_host/host"@ + host_id@,
{
    join("/sys/class/fc_host/host", host_id)
}

/// `/sys/class/scsi_host/host{host_id}/proc_name`, the host's driver.
pub fn scsi_host_driver_path(host_id: &str) -> (r: String)
    ensures
        r@ == "/sys/class/scsi_host/host"@ + host_id@ + "/proc_name"@,
{
    let p = join("/sys/class/scsi_host/host", host_id);
    join(p.as_str(), "/proc_name")
}

/// Whether SCSI host `host_id` is an iSCSI initiator.
pub fn is_iscsi_host(host_id: &str) -> bool {
    path_exists(iscsi_host_path(host_id).as_str())
}

/// Whether SCSI host `host_id` is a Fibre Channel host.
pub fn is_fc_host(host_id: &str) -> bool {
    path_exists(fc_host_path(host_id).as_str())
}

/// The Fibre Channel host behind a SCSI host: not resolved yet.
pub fn fc_host_id_of_host(host_id: &str) -> (r: Option<String>)
    ensures
        r is None,
{
    None
}

/// Fibre Channel attributes of a SCSI host: none are read yet.
pub fn get_fc_host_info(host_id: &str) -> (r: Vec<(String, String)>)
    ensures
        r@.len() == 0,
{
    Vec::new()
}

/// How a SCSI host reaches its storage.
#[derive(Debug, Clone, Copy, PartialEq, Eq, Structural)]
pub enum HostTransport {
    Iscsi,
    Fc,
    Other,
}

/// The transport of a SCSI host, from whether it shows up as an iSCSI host
/// and as a Fibre Channel host; iSCSI takes precedence.
pub fn transport_of(is_iscsi: bool, is_fc: bool) -> (r: HostTransport)
    ensures
        r == if is_iscsi {
            HostTransport::Iscsi
        } else if is_fc {
            HostTransport::Fc
        } else {
            HostTransport::Other
        },
{
    if is_iscsi {
        HostTransport::Iscsi
    } else if is_fc {
        HostTransport::Fc
    } else {
        HostTransport::Other
    }
}

/// The pattern that finds the host's device directory in the target of
/// the `iscsi_host` link.
pub open spec fn iscsi_link_pattern() -> Seq<char> {
    "\\.+/(?P<dir>devices/.+/host[0-9]+)/iscsi_host/"@
}

/// The device directory of an iSCSI host, from the target of its
/// `/sys/class/iscsi_host/hostN` link.
pub open spec fn iscsi_device_dir_of(link: Seq<char>) -> Option<Seq<char>> {
    match capture_groups(iscsi_link_pattern(), link) {
        Some(g) => match named_group(g, "dir"@) {
            Some(d) => Some("/sys/"@ + d),
            None => None,
        },
        None => None,
    }
}

/// The device directory of an iSCSI host, from the target of its
/// `/sys/class/iscsi_host/hostN` link.
pub fn iscsi_device_dir(link: &str) -> (r: Option<String>)
    ensures
        !pattern_compiles_link() ==> r is None,
        pattern_compiles_link() ==> match r {
            Some(d) => iscsi_device_dir_of(link@) == Some(d@),
            None => iscsi_device_dir_of(link@) is None,
        },
{
    let p = match CompiledPattern::new("\\.+/(?P<dir>devices/.+/host[0-9]+)/iscsi_host/") {
        Some(p) => p,
        None => return None,
    };
    match p.captures(link) {
        Some(g) => match group_text(&g, "dir") {
            Some(d) => Some(join("/sys/", d.as_str())),
            None => None,
        },
        None => None,
    }
}

/// Whether the link pattern is accepted by the regex crate.
pub open spec fn pattern_compiles_link() -> bool {
    crate::regex_conf::pattern_compiles(iscsi_link_pattern())
}

/// The position of the first name that begins with `session`, among the
/// first `n` names.
pub open spec fn first_session(names: Seq<String>, n: int) -> Option<int>
    decreases n,
{
    if n <= 0 {
        None
    } else {
        match first_session(names, n - 1) {
            Some(i) => Some(i),
            None => if "session"@.is_prefix_of(names[n - 1]@) {
                Some(n - 1)
            } else {
                None
            },
        }
    }
}

/// The session number of an iSCSI host, from the entries of its device
/// directory: what follows `session` in the first entry that begins so.
pub fn session_id_of_entries(names: &Vec<String>) -> (r: Option<String>)
    ensures
        match first_session(names@, names@.len() as int) {
            Some(i) => r matches Some(s) && names@[i]@ == "session"@ + s@,
            None => r is None,
        },
{
    let mut i: usize = 0;
    while i < names.len()
        invariant
            i <= names@.len(),
            first_session(names@, i as int) is None,
        decreases names@.len() - i,
    {
        match strip_prefix(names[i].as_str(), "session") {
            Some(s) => {
                proof {
                    lemma_first_session_stays(names@, i + 1, names@.len() as int);
                }
                return Some(s);
            },
            None => {},
        }
        i = i + 1;
    }
    None
}

proof fn lemma_first_session_stays(names: Seq<String>, m: int, n: int)
    requires
        0 <= m <= n,
        first_session(names, m) is Some,
    ensures
        first_session(names, n) == first_session(names, m),
    decreases n - m,
{
    if n > m {
        lemma_first_session_stays(names, m, n - 1);
    }
}

/// `/sys/class/iscsi_session/session{sid}`
pub fn iscsi_session_dir(sid: &str) -> (r: String)
    ensures
        r@ == "/sys/class/iscsi_session/session"@ + sid@,
{
    join("/sys/class/iscsi_session/session", sid)
}

/// `/sys/class/iscsi_connection/session{sid}:0`
pub fn iscsi_connection_dir(sid: &str) -> (r: String)
    ensures
        r@ == "/sys/class/iscsi_connection/session"@ + sid@ + ":0"@,
{
    let p = join("/sys/class/iscsi_connection/session", sid);
    join(p.as_str(), ":0")
}

/// The iSCSI attributes of a host, as read from its session and
/// connection directories.
pub fn iscsi_host_info(
    address: String,
    port: String,
    tpgt: String,
    target_name: String,
    iface_name: String,
) -> (r: Vec<(String, String)>)
    ensures
        pairs_map(r@) == Map::<Seq<char>, Seq<char>>::empty().insert("address"@, address@).insert(
            "port"@,
            port@,
        ).insert("tpgt"@, tpgt@).insert("target_name"@, target_name@).insert(
            "iface_name"@,
            iface_name@,
        ),
{
    let mut r: Vec<(String, String)> = Vec::new();
    pairs_insert(&mut r, text_of("address"), address);
    pairs_insert(&mut r, text_of("port"), port);
    pairs_insert(&mut r, text_of("tpgt"), tpgt);
    pairs_insert(&mut r, text_of("target_name"), target_name);
    pairs_insert(&mut r, text_of("iface_name"), iface_name);
    proof {
        assert(Seq::<(String, String)>::empty().len() == 0);
    }
    r
}

/// The driver and transport entries of a SCSI host's data.
pub open spec fn host_base_info(driver_name: Seq<char>, transport: HostTransport) -> Map<
    Seq<char>,
    Seq<char>,
> {
    let m = Map::<Seq<char>, Seq<char>>::empty().insert("driver_name"@, driver_name);
    match transport {
        HostTransport::Iscsi => m.insert("transport"@, "iSCSI"@),
        HostTransport::Fc => m.insert("transport"@, "FC"@),
        HostTransport::Other => m,
    }
}

/// What the probe knows of the host behind a SCSI disk: its driver, and for
/// iSCSI and Fibre Channel the transport name with that transport's
/// attributes laid over it.
pub fn scsi_host_info(driver_name: String, transport: HostTransport, transport_info: &Vec<
    (String, String),
>) -> (r: Vec<(String, String)>)
    ensures
        pairs_map(r@) == match transport {
            HostTransport::Other => host_base_info(driver_name@, transport),
            _ => pairs_over(host_base_info(driver_name@, transport), transport_info@),
        },
{
    let ghost d = driver_name@;
    let mut r: Vec<(String, String)> = Vec::new();
    pairs_insert(&mut r, text_of("driver_name"), driver_name);
    match transport {
        HostTransport::Iscsi => {
            pairs_insert(&mut r, text_of("transport"), text_of("iSCSI"));
            pairs_merge(&mut r, transport_info);
        },
        HostTransport::Fc => {
            pairs_insert(&mut r, text_of("transport"), text_of("FC"));
            pairs_merge(&mut r, transport_info);
        },
        HostTransport::Other => {},
    }
    r
}

/// `/sys/dev/block/{major_minor}/holders`
pub fn holders_dir(major_minor: &str) -> (r: String)
    ensures
        r@ == "/sys/dev/block/"@ + major_minor@ + "/holders"@,
{
    let p = join("/sys/dev/block/", major_minor);
    join(p.as_str(), "/holders")
}

/// The multipath name and WWID of a device-mapper holder, from its
/// `dm/name` and `dm/uuid`: only a UUID that begins with `mpath-` marks a
/// multipath device, and the WWID is what follows that prefix.
pub fn mpath_info_from_dm(name: String, uuid: String) -> (r: Option<(String, String)>)
    ensures
        r is Some <==> "mpath-"@.is_prefix_of(uuid@),
        r matches Some(t) ==> t.0@ == name@ && uuid@ == "mpath-"@ + t.1@,
{
    match strip_prefix(uuid.as_str(), "mpath-") {
        Some(wwid) => Some((name, wwid)),
        None => None,
    }
}

/// The kind of a block device, from what its sysfs directory holds: a
/// device-mapper table (with its UUID), a partition record, or a SCSI
/// device. A multipath map's UUID begins with `mpath-`, an LVM volume's with
/// `LVM-`.
pub open spec fn blk_type_from(has_dm: bool, dm_uuid: Seq<char>, is_partition: bool, is_scsi: bool) -> BlkType {
    if has_dm {
        if "mpath-"@.is_prefix_of(dm_uuid) {
            BlkType::DmMultipath
        } else if "LVM-"@.is_prefix_of(dm_uuid) {
            BlkType::DmLvm
        } else {
            BlkType::Dm
        }
    } else if is_partition {
        BlkType::Partition
    } else if is_scsi {
        BlkType::Scsi
    } else {
        BlkType::Other
    }
}

/// The kind of a block device, from what its sysfs directory holds.
pub fn blk_type_of(has_dm: bool, dm_uuid: &str, is_partition: bool, is_scsi: bool) -> (r: BlkType)
    ensures
        r == blk_type_from(has_dm, dm_uuid@, is_partition, is_scsi),
{
    if has_dm {
        if has_prefix(dm_uuid, "mpath-") {
            BlkType::DmMultipath
        } else if has_prefix(dm_uuid, "LVM-") {
            BlkType::DmLvm
        } else {
            BlkType::Dm
        }
    } else if is_partition {
        BlkType::Partition
    } else if is_scsi {
        BlkType::Scsi
    } else {
        BlkType::Other
    }
}

/// The WWID of a block device of kind `t`: a SCSI disk's `device/wwid`, a
/// multipath map's UUID without `mpath-`, another device-mapper device's
/// UUID; empty for other kinds.
pub fn wwid_of(t: BlkType, scsi_wwid: &str, dm_uuid: &str) -> (r: String)
    ensures
        r@ == match t {
            BlkType::Scsi => scsi_wwid@,
            BlkType::DmMultipath => if "mpath-"@.is_prefix_of(dm_uuid@) {
                dm_uuid@.subrange("mpath-"@.len() as int, dm_uuid@.len() as int)
            } else {
                dm_uuid@
            },
            BlkType::Dm | BlkType::DmLvm => dm_uuid@,
            _ => Seq::empty(),
        },
{
    match t {
        BlkType::Scsi => text_of(scsi_wwid),
        BlkType::DmMultipath => match strip_prefix(dm_uuid, "mpath-") {
            Some(w) => {
                proof {
                    assert(dm_uuid@.subrange("mpath-"@.len() as int, dm_uuid@.len() as int)
                        =~= w@);
                }
                w
            },
            None => text_of(dm_uuid),
        },
        BlkType::Dm | BlkType::DmLvm => text_of(dm_uuid),
        _ => String::new(),
    }
}

} // verus!
