use vstd::prelude::*;

use crate::event::{
    pairs_insert, pairs_merge, pairs_over, BlkInfo, BlkType, EventType, StorageEvent,
    StorageSubSystem,
};
use crate::router::ParserFilter;
use crate::text::{join, same_text, text_of};

verus! {

/// The multipath event types the parser handles.
pub open spec fn mpath_event_handled(event_type: Seq<char>) -> bool {
    event_type == "DM_MPATH_PATH_FAILED"@ || event_type == "DM_MPATH_PATH_REINSTATED"@
}

/// Whether the multipath parser handles events of this type; it drops the
/// others.
pub fn is_handled_event_type(event_type: &str) -> (r: bool)
    ensures
        r == mpath_event_handled(event_type@),
{
    same_text(event_type, "DM_MPATH_PATH_FAILED") || same_text(
        event_type,
        "DM_MPATH_PATH_REINSTATED",
    )
}

/// The extension an enriched multipath event carries: the event's own,
/// then the host data of a SCSI path, then the path's `major:minor`.
pub open spec fn mpath_extension(
    event: StorageEvent,
    path: Option<BlkInfo>,
    host_info: Seq<(String, String)>,
) -> Map<Seq<char>, Seq<char>> {
    let base = match path {
        Some(b) => if b.blk_type == BlkType::Scsi {
            pairs_over(event.extension_map(), host_info)
        } else {
            event.extension_map()
        },
        None => event.extension_map(),
    };
    base.insert("blk_major_minor"@, event.kdev@)
}

/// What the multipath parser yields for `event`, given the multipath
/// device `mpath` that holds its device, the failing path `path` and the
/// path's host data `host_info`.
pub open spec fn mpath_outcome(
    event: StorageEvent,
    mpath: Option<(String, String)>,
    path: Option<BlkInfo>,
    host_info: Seq<(String, String)>,
    r: Option<StorageEvent>,
) -> bool {
    &&& (r is Some <==> mpath_event_handled(event.event_type@) && mpath is Some)
    &&& (r matches Some(e) ==> {
            let (name, wwid) = mpath->Some_0;
            &&& e.dev_path@ == "/dev/mapper/"@ + name@
            &&& e.dev_name@ == name@
            &&& e.dev_wwid@ == wwid@
            &&& e.owners_wwids@ == match path {
                Some(b) => event.owners_wwids@.push(b.wwid),
                None => event.owners_wwids@,
            }
            &&& e.owners_names@ == match path {
                Some(b) => event.owners_names@.push(b.name),
                None => event.owners_names@,
            }
            &&& e.owners_paths@ == match path {
                Some(b) => event.owners_paths@.push(b.blk_path),
                None => event.owners_paths@,
            }
            &&& e.owners_types@ == match path {
                Some(b) => event.owners_types@.push(b.blk_type),
                None => event.owners_types@,
            }
            &&& e.extension_map() == mpath_extension(event, path, host_info)
            &&& e.stage == EventType::Synthetic
            &&& e.kdev == event.kdev
            &&& e.raw_msg == event.raw_msg
            &&& e.msg == event.msg
            &&& e.event_type == event.event_type
            &&& e.sub_system == event.sub_system
            &&& e.severity == event.severity
            &&& e.hostname == event.hostname
            &&& e.timestamp == event.timestamp
        })
}

/// The multipath parser's enrichment of a path event. `mpath` is the
/// multipath device that holds the event's device (its name and WWID), as
/// resolved from sysfs; `path` is what is known of the failing path itself;
/// `host_info` is the data of the path's SCSI host. Without a multipath
/// device, or for an event type the parser does not handle, the event is
/// dropped.
pub fn enrich_mpath_event(
    event: StorageEvent,
    mpath: Option<(String, String)>,
    path: Option<BlkInfo>,
    host_info: &Vec<(String, String)>,
) -> (r: Option<StorageEvent>)
    ensures
        mpath_outcome(event, mpath, path, host_info@, r),
        event.well_formed() ==> (r matches Some(e) ==> e.well_formed()),
{
    if !is_handled_event_type(event.event_type.as_str()) {
        return None;
    }
    let (name, wwid) = match mpath {
        Some(t) => t,
        None => return None,
    };
    let mut event = event;
    let ghost ev0 = event;
    event.dev_path = join("/dev/mapper/", name.as_str());
    event.dev_name = name;
    event.dev_wwid = wwid;
    match path {
        Some(b) => {
            let is_scsi = b.blk_type == BlkType::Scsi;
            event.owners_wwids.push(b.wwid);
            event.owners_names.push(b.name);
            event.owners_paths.push(b.blk_path);
            event.owners_types.push(b.blk_type);
            if is_scsi {
                pairs_merge(&mut event.extension, host_info);
            }
        },
        None => {},
    }
    let kdev = text_of(event.kdev.as_str());
    pairs_insert(&mut event.extension, text_of("blk_major_minor"), kdev);
    event.stage = EventType::Synthetic;
    Some(event)
}

/// The multipath parser fills in the device path of a handled event exactly
/// when the multipath device holding its device was resolved.
pub proof fn lemma_dev_path_iff_resolved(
    event: StorageEvent,
    mpath: Option<(String, String)>,
    path: Option<BlkInfo>,
    host_info: Seq<(String, String)>,
    r: Option<StorageEvent>,
)
    requires
        mpath_event_handled(event.event_type@),
        mpath_outcome(event, mpath, path, host_info, r),
    ensures
        (r matches Some(e) && e.dev_path@.len() > 0) <==> mpath is Some,
{
    if let Some(e) = r {
        assert(e.dev_path@.len() >= "/dev/mapper/"@.len());
        reveal_strlit("/dev/mapper/");
    }
}

/// The multipath parser keeps the four owner lists of an event parallel.
pub proof fn lemma_owners_stay_aligned(
    event: StorageEvent,
    mpath: Option<(String, String)>,
    path: Option<BlkInfo>,
    host_info: Seq<(String, String)>,
    r: Option<StorageEvent>,
)
    requires
        event.owners_aligned(),
        mpath_outcome(event, mpath, path, host_info, r),
    ensures
        r matches Some(e) ==> e.owners_aligned(),
{
}

/// The events the multipath parser takes: raw multipath events.
pub fn parser_filter() -> (r: ParserFilter)
    ensures
        r.name@ == "mpath"@,
        r.event_types@ == seq![EventType::Raw],
        r.sub_systems matches Some(s) && s@ == seq![StorageSubSystem::Multipath],
{
    ParserFilter {
        name: text_of("mpath"),
        event_types: vec![EventType::Raw],
        sub_systems: Some(vec![StorageSubSystem::Multipath]),
    }
}

} // verus!
