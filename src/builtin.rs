use vstd::prelude::*;

use crate::regex_conf::{sources_view, RegexConfSource, SourceView};
use crate::text::text_of;

verus! {

fn rule(pattern: &str, starts_with: Option<&str>, sub_system: &str, event_type: &str) -> (r:
    RegexConfSource)
    ensures
        r@ == (SourceView {
            regex: pattern@,
            starts_with: match starts_with {
                Some(s) => Some(s@),
                None => None,
            },
            sub_system: sub_system@,
            event_type: event_type@,
        }),
{
    RegexConfSource {
        regex: text_of(pattern),
        starts_with: match starts_with {
            Some(s) => Some(text_of(s)),
            None => None,
        },
        sub_system: text_of(sub_system),
        event_type: text_of(event_type),
    }
}

/// The rules that ship with the daemon, in the order they are tried.
pub open spec fn builtin_rule_table() -> Seq<SourceView> {
    seq![
        SourceView {
            regex: "^device-mapper: multipath: Failing path (?P<kdev>\\d+:\\d+)\\.$"@,
            starts_with: Some("device-mapper: multipath:"@),
            sub_system: "Multipath"@,
            event_type: "DM_MPATH_PATH_FAILED"@,
        },
        SourceView {
            regex: "^device-mapper: multipath: Reinstating path (?P<kdev>\\d+:\\d+)\\.$"@,
            starts_with: Some("device-mapper: multipath:"@),
            sub_system: "Multipath"@,
            event_type: "DM_MPATH_PATH_REINSTATED"@,
        },
        SourceView {
            regex: "^sd \\d+:\\d+:\\d+:\\d+: \\[(?P<kdev>sd[a-z]+)\\] (?:tag#\\d+ )?Sense Key : (?P<sense_key>[^\\[]+?) \\["@,
            starts_with: Some("sd "@),
            sub_system: "SCSI"@,
            event_type: "SCSI_SENSE_KEY"@,
        },
        SourceView {
            regex: "^sd \\d+:\\d+:\\d+:\\d+: \\[(?P<kdev>sd[a-z]+)\\] (?:tag#\\d+ )?Add\\. Sense: (?P<add_sense>.+)$"@,
            starts_with: Some("sd "@),
            sub_system: "SCSI"@,
            event_type: "SCSI_ADD_SENSE"@,
        },
        SourceView {
            regex: "^(?:blk_update_request|I/O error): I/O error, dev (?P<kdev>[a-z0-9]+), sector (?P<sector>\\d+)"@,
            starts_with: None,
            sub_system: "Block"@,
            event_type: "BLK_IO_ERROR"@,
        },
    ]
}

/// The rules that ship with the daemon, tried before any user rule.
pub fn builtin_rule_sources() -> (r: Vec<RegexConfSource>)
    ensures
        sources_view(r@) == builtin_rule_table(),
{
    let mut v: Vec<RegexConfSource> = Vec::new();
    v.push(
        rule(
            "^device-mapper: multipath: Failing path (?P<kdev>\\d+:\\d+)\\.$",
            Some("device-mapper: multipath:"),
            "Multipath",
            "DM_MPATH_PATH_FAILED",
        ),
    );
    v.push(
        rule(
            "^device-mapper: multipath: Reinstating path (?P<kdev>\\d+:\\d+)\\.$",
            Some("device-mapper: multipath:"),
            "Multipath",
            "DM_MPATH_PATH_REINSTATED",
        ),
    );
    v.push(
        rule(
            "^sd \\d+:\\d+:\\d+:\\d+: \\[(?P<kdev>sd[a-z]+)\\] (?:tag#\\d+ )?Sense Key : (?P<sense_key>[^\\[]+?) \\[",
            Some("sd "),
            "SCSI",
            "SCSI_SENSE_KEY",
        ),
    );
    v.push(
        rule(
            "^sd \\d+:\\d+:\\d+:\\d+: \\[(?P<kdev>sd[a-z]+)\\] (?:tag#\\d+ )?Add\\. Sense: (?P<add_sense>.+)$",
            Some("sd "),
            "SCSI",
            "SCSI_ADD_SENSE",
        ),
    );
    v.push(
        rule(
            "^(?:blk_update_request|I/O error): I/O error, dev (?P<kdev>[a-z0-9]+), sector (?P<sector>\\d+)",
            None,
            "Block",
            "BLK_IO_ERROR",
        ),
    );
    proof {
        assert(sources_view(v@) =~= builtin_rule_table());
    }
    v
}

} // verus!
