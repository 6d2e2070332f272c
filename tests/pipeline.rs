use peripety::collector::{self, Collector, JournalEntry};
use peripety::event::{pairs_get, BlkInfo, BlkType, EventType, LogSeverity, StorageEvent, StorageSubSystem};
use peripety::mpath::{enrich_mpath_event, is_handled_event_type};
use peripety::regex_conf::{ConfError, RegexConf, RegexConfSource};
use peripety::scsi::{enrich_scsi_event, scsi_lookup_name};

fn entry(msg: Option<&str>, ident: Option<&str>) -> JournalEntry {
    JournalEntry {
        message: msg.map(|s| s.to_string()),
        syslog_identifier: ident.map(|s| s.to_string()),
        is_peripety: None,
        kernel_subsystem: None,
        kernel_device: None,
        hostname: Some("node1".to_string()),
        realtime_timestamp: Some("1700000000000000".to_string()),
        priority: None,
    }
}

const SENSE_MSG: &str = "sd 0:0:0:0: [sda] Sense Key : Medium Error [current]";
const FAIL_MSG: &str = "device-mapper: multipath: Failing path 8:16.";

fn src(regex: &str, starts_with: Option<&str>, sub: &str, et: &str) -> RegexConfSource {
    RegexConfSource {
        regex: regex.to_string(),
        starts_with: starts_with.map(|s| s.to_string()),
        sub_system: sub.to_string(),
        event_type: et.to_string(),
    }
}

fn scsi_path(wwid: &str) -> BlkInfo {
    BlkInfo {
        blk_path: "/dev/sdb".to_string(),
        blk_type: BlkType::Scsi,
        name: "sdb".to_string(),
        wwid: wwid.to_string(),
        owners_wwids: Vec::new(),
        owners_types: Vec::new(),
        owners_names: Vec::new(),
        owners_paths: Vec::new(),
        uuid: None,
        mount_point: None,
    }
}

#[test]
fn sense_key_medium_error_scenario() {
    let c = collector::new();
    let mut e = entry(Some(SENSE_MSG), Some("kernel"));
    e.priority = Some("3".to_string());
    let ev = c.process(&e).expect("event");
    assert_eq!(ev.sub_system, StorageSubSystem::Scsi);
    assert_eq!(ev.severity, LogSeverity::Error);
    assert_eq!(ev.kdev, "sda");
    assert_eq!(ev.event_type, "SCSI_SENSE_KEY");
    assert_eq!(ev.raw_msg, SENSE_MSG);
    assert_eq!(ev.hostname, "node1");
    assert_eq!(pairs_get(&ev.extension, "sense_key"), Some("Medium Error".to_string()));
    assert!(!ev.timestamp.is_empty());

    let out = enrich_scsi_event(ev, None);
    assert_eq!(out.event_type, "SCSI_MEDIUM_ERROR");
    assert_eq!(out.stage, EventType::Synthetic);
    assert_eq!(out.msg, format!("{}, wwid: ''", SENSE_MSG));
}

#[test]
fn hardware_error_and_wwid_message() {
    let mut ev = StorageEvent::empty();
    ev.event_type = "SCSI_SENSE_KEY".to_string();
    ev.raw_msg = "raw".to_string();
    ev.extension.push(("sense_key".to_string(), "Hardware Error".to_string()));
    let out = enrich_scsi_event(ev, Some(scsi_path("wwid-1")));
    assert_eq!(out.event_type, "SCSI_HARDWARE_ERROR");
    assert_eq!(out.dev_path, "/dev/sdb");
    assert_eq!(out.dev_wwid, "wwid-1");
    assert_eq!(out.msg, "raw, wwid: 'wwid-1'");

    let mut other = StorageEvent::empty();
    other.event_type = "SCSI_SENSE_KEY".to_string();
    other.extension.push(("sense_key".to_string(), "Not Ready".to_string()));
    assert_eq!(enrich_scsi_event(other, None).event_type, "SCSI_SENSE_KEY");
}

#[test]
fn multipath_failing_path_scenario() {
    let c = collector::new();
    let ev = c.process(&entry(Some(FAIL_MSG), Some("kernel"))).expect("event");
    assert_eq!(ev.sub_system, StorageSubSystem::Multipath);
    assert_eq!(ev.event_type, "DM_MPATH_PATH_FAILED");
    assert_eq!(ev.kdev, "8:16");
    assert_eq!(ev.severity, LogSeverity::Unknown);

    let info = vec![("driver_name".to_string(), "iscsi_tcp".to_string())];
    let out = enrich_mpath_event(
        ev,
        Some(("mpatha".to_string(), "3600140512345".to_string())),
        Some(scsi_path("path-wwid")),
        &info,
    )
    .expect("enriched");
    assert_eq!(out.dev_path, "/dev/mapper/mpatha");
    assert_eq!(out.dev_name, "mpatha");
    assert_eq!(out.dev_wwid, "3600140512345");
    assert_eq!(out.owners_wwids, vec!["path-wwid".to_string()]);
    assert_eq!(out.owners_names, vec!["sdb".to_string()]);
    assert_eq!(out.owners_paths, vec!["/dev/sdb".to_string()]);
    assert_eq!(out.owners_types, vec![BlkType::Scsi]);
    assert_eq!(pairs_get(&out.extension, "blk_major_minor"), Some("8:16".to_string()));
    assert_eq!(pairs_get(&out.extension, "driver_name"), Some("iscsi_tcp".to_string()));
}

#[test]
fn multipath_reinstated_path() {
    let c = collector::new();
    let msg = "device-mapper: multipath: Reinstating path 65:32.";
    let ev = c.process(&entry(Some(msg), Some("kernel"))).expect("event");
    assert_eq!(ev.event_type, "DM_MPATH_PATH_REINSTATED");
    assert_eq!(ev.kdev, "65:32");
}

#[test]
fn self_marked_entry_is_skipped() {
    let c = collector::new();
    let mut e = entry(Some(SENSE_MSG), Some("kernel"));
    e.is_peripety = Some("TRUE".to_string());
    assert!(c.process(&e).is_none());
}

#[test]
fn non_kernel_entry_is_skipped() {
    let c = collector::new();
    assert!(c.process(&entry(Some(FAIL_MSG), Some("sshd"))).is_none());
    assert!(c.process(&entry(Some(FAIL_MSG), None)).is_none());
}

#[test]
fn empty_or_missing_message_is_skipped() {
    let c = collector::new();
    assert!(c.process(&entry(Some(""), Some("kernel"))).is_none());
    assert!(c.process(&entry(None, Some("kernel"))).is_none());
}

#[test]
fn path_without_holder_is_dropped() {
    let mut ev = StorageEvent::empty();
    ev.sub_system = StorageSubSystem::Multipath;
    ev.event_type = "DM_MPATH_PATH_FAILED".to_string();
    ev.kdev = "8:16".to_string();
    assert!(enrich_mpath_event(ev, None, None, &Vec::new()).is_none());
}

#[test]
fn unhandled_multipath_type_is_dropped() {
    assert!(!is_handled_event_type("DM_MPATH_OTHER"));
    let mut ev = StorageEvent::empty();
    ev.event_type = "DM_MPATH_OTHER".to_string();
    let mp = Some(("mpatha".to_string(), "w".to_string()));
    assert!(enrich_mpath_event(ev, mp, None, &Vec::new()).is_none());
}

#[test]
fn dev_path_set_exactly_when_mpath_resolved() {
    let mut ev = StorageEvent::empty();
    ev.event_type = "DM_MPATH_PATH_REINSTATED".to_string();
    ev.kdev = "8:32".to_string();
    let mp = Some(("mpathb".to_string(), "w2".to_string()));
    let out = enrich_mpath_event(ev, mp, None, &Vec::new()).expect("enriched");
    assert_eq!(out.dev_path, "/dev/mapper/mpathb");
    assert!(out.owners_wwids.is_empty());
    assert_eq!(pairs_get(&out.extension, "blk_major_minor"), Some("8:32".to_string()));
}

#[test]
fn unmatched_line_without_device_is_dropped() {
    let c = collector::new();
    assert!(c.process(&entry(Some("usb 1-1: new device"), Some("kernel"))).is_none());
}

#[test]
fn structured_kernel_fields_seed_the_event() {
    let c = collector::new();
    let mut e = entry(Some("sd 0:0:0:0: something unusual"), Some("kernel"));
    e.kernel_subsystem = Some("scsi".to_string());
    e.kernel_device = Some("+scsi:0:0:0:0".to_string());
    let ev = c.process(&e).expect("event");
    assert_eq!(ev.sub_system, StorageSubSystem::Scsi);
    assert_eq!(ev.kdev, "+scsi:0:0:0:0");
    assert_eq!(ev.event_type, "");
}

#[test]
fn missing_or_bad_timestamp_drops_event() {
    let c = collector::new();
    let mut e = entry(Some(FAIL_MSG), Some("kernel"));
    e.realtime_timestamp = None;
    assert!(c.process(&e).is_none());
    e.realtime_timestamp = Some("12x".to_string());
    assert!(c.process(&e).is_none());
}

#[test]
fn builtin_rule_beats_user_rule() {
    let mut c = Collector::with_rules(&peripety::builtin::builtin_rule_sources());
    c.apply_config(&vec![src(
        "^device-mapper: multipath: Failing path (?P<kdev>\\d+:\\d+)\\.$",
        None,
        "Multipath",
        "USER_FAILED",
    )]);
    let ev = c.process(&entry(Some(FAIL_MSG), Some("kernel"))).expect("event");
    assert_eq!(ev.event_type, "DM_MPATH_PATH_FAILED");
}

#[test]
fn user_rule_applies_when_no_builtin_matches() {
    let mut c = collector::new();
    c.apply_config(&vec![
        src("(", None, "Block", "BROKEN"),
        src("^nvme (?P<kdev>nvme\\d+n\\d+): timeout (?P<tag>\\d+)$", Some("nvme "), "Block", "NVME_TIMEOUT"),
    ]);
    assert_eq!(c.users.len(), 1);
    let ev = c.process(&entry(Some("nvme nvme0n1: timeout 17"), Some("kernel"))).expect("event");
    assert_eq!(ev.sub_system, StorageSubSystem::Block);
    assert_eq!(ev.kdev, "nvme0n1");
    assert_eq!(ev.event_type, "NVME_TIMEOUT");
    assert_eq!(pairs_get(&ev.extension, "tag"), Some("17".to_string()));
    assert_eq!(pairs_get(&ev.extension, "kdev"), None);
}

#[test]
fn prefix_guards_the_pattern() {
    let c = RegexConf::new(&src("(?P<kdev>sd[a-z]+)", Some("sd "), "SCSI", "X")).unwrap();
    assert!(c.captures("error on sda").is_none());
    assert!(c.captures("sd sda").is_some());
}

#[test]
fn rule_compile_errors() {
    assert_eq!(RegexConf::new(&src("(", None, "SCSI", "X")).err(), Some(ConfError::RegexCompile));
    assert_eq!(RegexConf::new(&src("a", None, "bogus", "X")).err(), Some(ConfError::InvalidEnum));
}

#[test]
fn scsi_lookup_names() {
    assert_eq!(scsi_lookup_name("+scsi:host3"), None);
    assert_eq!(scsi_lookup_name("+scsi:0:0:0:0"), Some("0:0:0:0".to_string()));
    assert_eq!(scsi_lookup_name("sda"), Some("sda".to_string()));
}

#[test]
fn unreadable_priority_drops_event() {
    let c = collector::new();
    let mut e = entry(Some(FAIL_MSG), Some("kernel"));
    e.priority = Some("urgent".to_string());
    assert!(c.process(&e).is_none());
    e.priority = Some("2".to_string());
    assert_eq!(c.process(&e).expect("event").severity, LogSeverity::Critical);
}

#[test]
fn timestamp_out_of_range_drops_event() {
    let c = collector::new();
    let mut e = entry(Some(FAIL_MSG), Some("kernel"));
    e.realtime_timestamp = Some("8210266876799000000".to_string());
    assert!(c.process(&e).is_none());
    e.realtime_timestamp = Some("8000000000000000000".to_string());
    assert!(c.process(&e).is_some());
}

#[test]
fn builtin_rules_all_compile() {
    let c = collector::new();
    assert_eq!(c.builtins.len(), peripety::builtin::builtin_rule_sources().len());
}
