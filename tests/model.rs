use peripety::event::{pairs_get, pairs_insert, EventType, LogSeverity, StorageEvent, StorageSubSystem};
use peripety::mpath;
use peripety::query::{display_message, event_matches, EventQuery};
use peripety::router::{route, ParserFilter};
use peripety::scsi;
use peripety::sysfs::{
    fc_host_id_of_host, get_fc_host_info, holders_dir, iscsi_connection_dir, iscsi_device_dir,
    iscsi_host_info, iscsi_host_path, iscsi_session_dir, mpath_info_from_dm, scsi_host_info,
    session_id_of_entries, transport_of, blk_type_of, wwid_of, HostTransport,
};
use peripety::event::BlkType;
use peripety::timestamp::{parse_i64, split_micros, timestamp_of_micros};

#[test]
fn sub_system_names() {
    assert_eq!(StorageSubSystem::parse("scsi"), Some(StorageSubSystem::Scsi));
    assert_eq!(StorageSubSystem::parse("MULTIPATH"), Some(StorageSubSystem::Multipath));
    assert_eq!(StorageSubSystem::parse("lvm"), Some(StorageSubSystem::Lvm));
    assert_eq!(StorageSubSystem::parse("nope"), None);
    for s in [
        StorageSubSystem::Unknown,
        StorageSubSystem::Scsi,
        StorageSubSystem::Multipath,
        StorageSubSystem::DeviceMapper,
        StorageSubSystem::Block,
        StorageSubSystem::FileSystem,
        StorageSubSystem::Lvm,
    ] {
        assert_eq!(StorageSubSystem::parse(&s.to_string()), Some(s));
    }
    assert_eq!(StorageSubSystem::Scsi.to_string(), "SCSI");
}

#[test]
fn severity_parsing() {
    assert_eq!(LogSeverity::parse("0"), Some(LogSeverity::Emergency));
    assert_eq!(LogSeverity::parse("3"), Some(LogSeverity::Error));
    assert_eq!(LogSeverity::parse("7"), Some(LogSeverity::Debug));
    assert_eq!(LogSeverity::parse("8"), None);
    assert_eq!(LogSeverity::parse("warning"), Some(LogSeverity::Warning));
    assert_eq!(LogSeverity::parse("Critical"), Some(LogSeverity::Critical));
    assert_eq!(LogSeverity::parse(""), None);
    assert_eq!(LogSeverity::Unknown.rank(), 8);
    assert_eq!(LogSeverity::from_rank(4), LogSeverity::Warning);
}

#[test]
fn decimal_parsing() {
    assert_eq!(parse_i64("1700000000000000"), Some(1700000000000000));
    assert_eq!(parse_i64("-42"), Some(-42));
    assert_eq!(parse_i64("+7"), Some(7));
    assert_eq!(parse_i64("9223372036854775807"), Some(i64::MAX));
    assert_eq!(parse_i64("-9223372036854775808"), Some(i64::MIN));
    assert_eq!(parse_i64("9223372036854775808"), None);
    assert_eq!(parse_i64("99999999999999999999999999"), None);
    assert_eq!(parse_i64(""), None);
    assert_eq!(parse_i64("-"), None);
    assert_eq!(parse_i64("1 2"), None);
}

#[test]
fn micros_split() {
    assert_eq!(split_micros(1700000000123456), (1700000000, 123456000));
    assert_eq!(split_micros(0), (0, 0));
    assert_eq!(split_micros(-1), (-1, 999999000));
    assert_eq!(split_micros(-1000000), (-1, 0));
}

#[test]
fn timestamp_round_trips() {
    for t in [1700000000000000i64, 1700000000123456, 0, 1, -1, 951782400999999] {
        let text = timestamp_of_micros(t).expect("in range");
        let back = chrono::DateTime::parse_from_rfc3339(&text).expect("rfc3339");
        assert_eq!(back.timestamp_micros(), t);
        assert_eq!(text.split('.').nth(1).map(|f| f.len() >= 6), Some(true));
    }
    assert!(timestamp_of_micros(i64::MAX).is_none());
}

#[test]
fn key_value_lists() {
    let mut v = Vec::new();
    pairs_insert(&mut v, "a".to_string(), "1".to_string());
    pairs_insert(&mut v, "b".to_string(), "2".to_string());
    pairs_insert(&mut v, "a".to_string(), "3".to_string());
    assert_eq!(v.len(), 2);
    assert_eq!(pairs_get(&v, "a"), Some("3".to_string()));
    assert_eq!(pairs_get(&v, "b"), Some("2".to_string()));
    assert_eq!(pairs_get(&v, "c"), None);
}

fn event(sub: StorageSubSystem, sev: LogSeverity, et: &str) -> StorageEvent {
    let mut e = StorageEvent::empty();
    e.sub_system = sub;
    e.severity = sev;
    e.event_type = et.to_string();
    e
}

#[test]
fn router_fans_out_by_filter() {
    let filters = vec![
        scsi::parser_filter(),
        mpath::parser_filter(),
        ParserFilter { name: "all".to_string(), event_types: vec![EventType::Raw], sub_systems: None },
        ParserFilter { name: "off".to_string(), event_types: vec![], sub_systems: None },
    ];
    let e = event(StorageSubSystem::Multipath, LogSeverity::Error, "X");
    assert_eq!(route(&filters, &e), vec![1, 2]);
    let e = event(StorageSubSystem::Scsi, LogSeverity::Error, "X");
    assert_eq!(route(&filters, &e), vec![0, 2]);
    let mut e = event(StorageSubSystem::Scsi, LogSeverity::Error, "X");
    e.stage = EventType::Synthetic;
    assert!(route(&filters, &e).is_empty());
}

#[test]
fn query_filters() {
    let mut e = event(StorageSubSystem::Scsi, LogSeverity::Error, "SCSI_MEDIUM_ERROR");
    e.owners_wwids.push("w-owner".to_string());
    let all = EventQuery { severity: None, sub_systems: None, event_types: None, blk_wwid: None };
    assert!(event_matches(&e, &all));
    let q = EventQuery { severity: Some(LogSeverity::Warning), ..all_none() };
    assert!(event_matches(&e, &q));
    let q = EventQuery { severity: Some(LogSeverity::Critical), ..all_none() };
    assert!(!event_matches(&e, &q));
    let q = EventQuery { sub_systems: Some(vec![StorageSubSystem::Multipath]), ..all_none() };
    assert!(!event_matches(&e, &q));
    let q = EventQuery { sub_systems: Some(vec![]), ..all_none() };
    assert!(event_matches(&e, &q));
    let q = EventQuery { event_types: Some(vec!["SCSI_MEDIUM_ERROR".to_string()]), ..all_none() };
    assert!(event_matches(&e, &q));
    let q = EventQuery { blk_wwid: Some("w-owner".to_string()), ..all_none() };
    assert!(event_matches(&e, &q));
    let q = EventQuery { blk_wwid: Some("w-other".to_string()), ..all_none() };
    assert!(!event_matches(&e, &q));
    assert_eq!(display_message(&e), "");
}

fn all_none() -> EventQuery {
    EventQuery { severity: None, sub_systems: None, event_types: None, blk_wwid: None }
}

#[test]
fn sysfs_paths_and_decoding() {
    assert_eq!(iscsi_host_path("3"), "/sys/class/iscsi_host/host3");
    assert_eq!(holders_dir("8:16"), "/sys/dev/block/8:16/holders");
    assert_eq!(iscsi_session_dir("2"), "/sys/class/iscsi_session/session2");
    assert_eq!(iscsi_connection_dir("2"), "/sys/class/iscsi_connection/session2:0");
    assert_eq!(
        iscsi_device_dir("../../devices/platform/host3/iscsi_host/host3"),
        Some("/sys/devices/platform/host3".to_string())
    );
    assert_eq!(iscsi_device_dir("nothing here"), None);
    let names = vec!["power".to_string(), "session7".to_string(), "session8".to_string()];
    assert_eq!(session_id_of_entries(&names), Some("7".to_string()));
    assert_eq!(session_id_of_entries(&vec!["power".to_string()]), None);
    assert_eq!(
        mpath_info_from_dm("mpatha".to_string(), "mpath-3600a".to_string()),
        Some(("mpatha".to_string(), "3600a".to_string()))
    );
    assert_eq!(mpath_info_from_dm("vg-lv".to_string(), "LVM-abc".to_string()), None);
    assert_eq!(fc_host_id_of_host("1"), None);
    assert!(get_fc_host_info("1").is_empty());
}

#[test]
fn host_info_assembly() {
    let iscsi = iscsi_host_info(
        "10.0.0.1".to_string(),
        "3260".to_string(),
        "1".to_string(),
        "iqn.x".to_string(),
        "default".to_string(),
    );
    assert_eq!(pairs_get(&iscsi, "port"), Some("3260".to_string()));
    assert_eq!(pairs_get(&iscsi, "iface_name"), Some("default".to_string()));
    let info = scsi_host_info("iscsi_tcp".to_string(), HostTransport::Iscsi, &iscsi);
    assert_eq!(pairs_get(&info, "transport"), Some("iSCSI".to_string()));
    assert_eq!(pairs_get(&info, "driver_name"), Some("iscsi_tcp".to_string()));
    assert_eq!(pairs_get(&info, "address"), Some("10.0.0.1".to_string()));
    let plain = scsi_host_info("ahci".to_string(), HostTransport::Other, &iscsi);
    assert_eq!(pairs_get(&plain, "transport"), None);
    assert_eq!(pairs_get(&plain, "address"), None);
    let fc = scsi_host_info("qla2xxx".to_string(), HostTransport::Fc, &Vec::new());
    assert_eq!(pairs_get(&fc, "transport"), Some("FC".to_string()));
}

#[test]
fn sink_marks_published_entries() {
    let mut e = StorageEvent::empty();
    e.raw_msg = "raw line".to_string();
    let f = peripety::sink::sink_fields(&e, "{}".to_string());
    assert_eq!(pairs_get(&f, "IS_PERIPETY"), Some("TRUE".to_string()));
    assert_eq!(pairs_get(&f, "JSON"), Some("{}".to_string()));
    assert_eq!(pairs_get(&f, "MESSAGE"), Some("raw line".to_string()));
    e.msg = "enriched".to_string();
    let f = peripety::sink::sink_fields(&e, "{}".to_string());
    assert_eq!(pairs_get(&f, "MESSAGE"), Some("enriched".to_string()));
}

#[test]
fn transport_and_block_kinds() {
    assert_eq!(transport_of(true, true), HostTransport::Iscsi);
    assert_eq!(transport_of(false, true), HostTransport::Fc);
    assert_eq!(transport_of(false, false), HostTransport::Other);
    assert_eq!(blk_type_of(true, "mpath-3600a", false, false), BlkType::DmMultipath);
    assert_eq!(blk_type_of(true, "LVM-xyz", false, false), BlkType::DmLvm);
    assert_eq!(blk_type_of(true, "CRYPT-abc", false, false), BlkType::Dm);
    assert_eq!(blk_type_of(false, "", true, true), BlkType::Partition);
    assert_eq!(blk_type_of(false, "", false, true), BlkType::Scsi);
    assert_eq!(blk_type_of(false, "", false, false), BlkType::Other);
    assert_eq!(wwid_of(BlkType::DmMultipath, "", "mpath-3600a"), "3600a");
    assert_eq!(wwid_of(BlkType::Scsi, "naa.1", "x"), "naa.1");
    assert_eq!(wwid_of(BlkType::DmLvm, "", "LVM-xyz"), "LVM-xyz");
    assert_eq!(wwid_of(BlkType::Partition, "a", "b"), "");
}

#[test]
fn parser_filters_are_named() {
    assert_eq!(scsi::parser_filter().name, "scsi");
    assert_eq!(mpath::parser_filter().name, "mpath");
}
