use vstd::prelude::*;

use crate::event::{pairs_get, BlkInfo, EventType, StorageEvent, StorageSubSystem};
use crate::router::ParserFilter;
use crate::text::{has_prefix, join, same_text, strip_prefix, text_of};

verus! {

/// The block name a SCSI parser looks up for `kdev`: none for a SCSI host,
/// else `kdev` without a leading `+scsi:`.
pub open spec fn scsi_lookup_name_of(kdev: Seq<char>) -> Option<Seq<char>> {
    if "+scsi:host"@.is_prefix_of(kdev) {
        None
    } else if "+scsi:"@.is_prefix_of(kdev) {
        Some(kdev.subrange("+scsi:"@.len() as int, kdev.len() as int))
    } else {
        Some(kdev)
    }
}

/// The block name to look up for a SCSI event's device; `None` when the
/// event concerns a SCSI host and is dropped.
pub fn scsi_lookup_name(kdev: &str) -> (r: Option<String>)
    ensures
        match r {
            Some(n) => scsi_lookup_name_of(kdev@) == Some(n@),
            None => scsi_lookup_name_of(kdev@) is None,
        },
{
    if has_prefix(kdev, "+scsi:host") {
        return None;
    }
    match strip_prefix(kdev, "+scsi:") {
        Some(rest) => {
            proof {
                assert(kdev@.subrange("+scsi:"@.len() as int, kdev@.len() as int) =~= rest@);
            }
            Some(rest)
        },
        None => Some(text_of(kdev)),
    }
}

/// The event type a sense key turns `SCSI_SENSE_KEY` into.
pub open spec fn sense_event_type(event_type: Seq<char>, sense_key: Option<Seq<char>>) -> Seq<
    char,
> {
    if event_type == "SCSI_SENSE_KEY"@ && sense_key == Some("Medium Error"@) {
        "SCSI_MEDIUM_ERROR"@
    } else if event_type == "SCSI_SENSE_KEY"@ && sense_key == Some("Hardware Error"@) {
        "SCSI_HARDWARE_ERROR"@
    } else {
        event_type
    }
}

/// The SCSI parser's enrichment: device path and WWID from the looked-up
/// block device, when there is one; sense keys `Medium Error` and
/// `Hardware Error` named in the event type; and a message that quotes the
/// WWID.
pub fn enrich_scsi_event(event: StorageEvent, blk: Option<BlkInfo>) -> (r: StorageEvent)
    ensures
        r.dev_path@ == match blk {
            Some(b) => b.blk_path@,
            None => event.dev_path@,
        },
        r.dev_wwid@ == match blk {
            Some(b) => b.wwid@,
            None => event.dev_wwid@,
        },
        r.event_type@ == sense_event_type(
            event.event_type@,
            if event.extension_map().contains_key("sense_key"@) {
                Some(event.extension_map()["sense_key"@])
            } else {
                None
            },
        ),
        r.msg@ == event.raw_msg@ + ", wwid: '"@ + r.dev_wwid@ + "'"@,
        r.stage == EventType::Synthetic,
        r.raw_msg == event.raw_msg,
        r.kdev == event.kdev,
        r.sub_system == event.sub_system,
        r.severity == event.severity,
        r.hostname == event.hostname,
        r.timestamp == event.timestamp,
        r.dev_name == event.dev_name,
        r.extension == event.extension,
        r.owners_wwids == event.owners_wwids,
        r.owners_names == event.owners_names,
        r.owners_paths == event.owners_paths,
        r.owners_types == event.owners_types,
        event.well_formed() ==> r.well_formed(),
{
    let mut event = event;
    if let Some(b) = blk {
        event.dev_path = b.blk_path;
        event.dev_wwid = b.wwid;
    }
    if same_text(event.event_type.as_str(), "SCSI_SENSE_KEY") {
        if let Some(key) = pairs_get(&event.extension, "sense_key") {
            if same_text(key.as_str(), "Medium Error") {
                event.event_type = text_of("SCSI_MEDIUM_ERROR");
            } else if same_text(key.as_str(), "Hardware Error") {
                event.event_type = text_of("SCSI_HARDWARE_ERROR");
            }
        }
    }
    let m = join(event.raw_msg.as_str(), ", wwid: '");
    let m = join(m.as_str(), event.dev_wwid.as_str());
    event.msg = join(m.as_str(), "'");
    event.stage = EventType::Synthetic;
    event
}

/// The events the SCSI parser takes: raw SCSI events.
pub fn parser_filter() -> (r: ParserFilter)
    ensures
        r.name@ == "scsi"@,
        r.event_types@ == seq![EventType::Raw],
        r.sub_systems matches Some(s) && s@ == seq![StorageSubSystem::Scsi],
{
    ParserFilter {
        name: text_of("scsi"),
        event_types: vec![EventType::Raw],
        sub_systems: Some(vec![StorageSubSystem::Scsi]),
    }
}

} // verus!
