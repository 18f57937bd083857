use event_dedup::dedup::DedupIndex;
use event_dedup::event::{MalformedEvent, NormalizedEvent, RawEvent, Timestamp};
use event_dedup::fingerprint::fingerprint;
use event_dedup::processor::{Outcome, Processor};
use event_dedup::render::{decimal_string, format_duplicate, format_record, hex_string};
use event_dedup::severity::{classify, Severity};

fn raw(namespace: Option<&str>, event_type: Option<&str>, message: &str) -> RawEvent {
    RawEvent {
        namespace: namespace.map(|s| s.to_string()),
        first_timestamp: None,
        source_component: Some("kubelet".to_string()),
        message: Some(message.to_string()),
        event_type: event_type.map(|s| s.to_string()),
        reason: Some("Scheduled".to_string()),
        count: Some(1),
    }
}

fn normalized(key: &str, src: &str, ns: &str, ty: &str, msg: &str) -> NormalizedEvent {
    NormalizedEvent {
        timestamp: "rendered".to_string(),
        time_key: key.to_string(),
        source_component: src.to_string(),
        namespace: ns.to_string(),
        event_type: ty.to_string(),
        message: msg.to_string(),
        reason: String::new(),
        count: 0,
    }
}

fn fp_of(o: &Outcome) -> u64 {
    match o {
        Outcome::Novel { fingerprint, .. } => *fingerprint,
        Outcome::Duplicate { fingerprint } => *fingerprint,
    }
}

const NOW: Timestamp = Timestamp { secs: 1_700_000_000, nanos: 0 };

#[test]
fn fingerprint_is_fnv1a_over_the_concatenation() {
    // FNV-1a of "foobar" is 0x85944171f73967e8, however the text is split.
    let a = normalized("foo", "bar", "", "", "");
    let b = normalized("", "", "fo", "ob", "ar");
    assert_eq!(fingerprint(&a), 0x85944171f73967e8);
    assert_eq!(fingerprint(&b), 0x85944171f73967e8);
    assert_eq!(fingerprint(&normalized("", "", "", "", "")), 0xcbf29ce484222325);
}

#[test]
fn fingerprint_is_deterministic() {
    let e = normalized("1700000000", "kubelet", "default", "Normal", "Pod scheduled");
    let first = fingerprint(&e);
    assert_eq!(first, fingerprint(&e.clone()));
    assert_eq!(first, fingerprint(&e));
}

#[test]
fn fingerprint_ignores_reason_count_and_rendering() {
    let e = normalized("1700000000", "kubelet", "default", "Normal", "Pod scheduled");
    let mut other = e.clone();
    other.reason = "Pulled".to_string();
    other.count = 7;
    other.timestamp = "2023-11-14 22:13:20.5 +00:00".to_string();
    assert_eq!(fingerprint(&e), fingerprint(&other));
}

#[test]
fn fingerprint_is_sensitive_to_each_field() {
    let base = normalized("1700000000", "kubelet", "default", "Normal", "Pod scheduled");
    let fp = fingerprint(&base);
    let mut v = Vec::new();
    let mut e = base.clone();
    e.time_key = "1700000001".to_string();
    v.push(e);
    let mut e = base.clone();
    e.source_component = "scheduler".to_string();
    v.push(e);
    let mut e = base.clone();
    e.namespace = "kube-system".to_string();
    v.push(e);
    let mut e = base.clone();
    e.event_type = "Warning".to_string();
    v.push(e);
    let mut e = base.clone();
    e.message = "Pod scheduled!".to_string();
    v.push(e);
    for e in &v {
        assert_ne!(fingerprint(e), fp);
    }
}

#[test]
fn same_event_twice_is_novel_then_duplicate() {
    let mut p = Processor::new();
    let a = raw(Some("default"), Some("Normal"), "Pod scheduled");
    let first = p.handle(a.clone(), "2024-01-01 00:00:00 +00:00".to_string()).unwrap();
    let second = p.handle(a, "2024-01-01 00:00:00.25 +00:00".to_string()).unwrap();
    assert!(matches!(first, Outcome::Novel { .. }));
    assert!(matches!(second, Outcome::Duplicate { .. }));
    assert_eq!(fp_of(&first), fp_of(&second));
}

#[test]
fn interleaved_events_are_novel_novel_duplicate() {
    let mut p = Processor::new();
    let e1 = raw(Some("default"), Some("Normal"), "Pod scheduled");
    let e2 = raw(Some("default"), Some("Normal"), "Pulling image");
    let o1 = p.process(e1.clone(), NOW).unwrap();
    let o2 = p.process(e2, NOW).unwrap();
    let o3 = p.process(e1, NOW).unwrap();
    assert!(matches!(o1, Outcome::Novel { .. }));
    assert!(matches!(o2, Outcome::Novel { .. }));
    assert!(matches!(o3, Outcome::Duplicate { .. }));
    assert_eq!(fp_of(&o1), fp_of(&o3));
}

#[test]
fn missing_namespace_fails_without_marking() {
    let mut p = Processor::new();
    let r = p.process(raw(None, Some("Normal"), "m"), NOW);
    assert_eq!(r.unwrap_err(), MalformedEvent::MissingNamespace);
    let r = p.process(raw(None, None, "m"), NOW);
    assert_eq!(r.unwrap_err(), MalformedEvent::MissingNamespace);
    let r = p.handle(raw(None, Some("Normal"), "m"), "t".to_string());
    assert_eq!(r.unwrap_err(), MalformedEvent::MissingNamespace);
}

#[test]
fn missing_type_fails_without_marking() {
    let mut p = Processor::new();
    let r = p.process(raw(Some("default"), None, "m"), NOW);
    assert_eq!(r.unwrap_err(), MalformedEvent::MissingType);
    let ok = p.process(raw(Some("default"), Some("Normal"), "m"), NOW).unwrap();
    assert!(matches!(ok, Outcome::Novel { .. }));
}

#[test]
fn invalid_sub_second_part_is_rejected() {
    let mut p = Processor::new();
    let mut e = raw(Some("default"), Some("Normal"), "m");
    e.first_timestamp = Some(Timestamp { secs: 0, nanos: 2_000_000_000 });
    assert_eq!(p.process(e, NOW).unwrap_err(), MalformedEvent::TimestampOutOfRange);
}

#[test]
fn extreme_renderable_instants_render() {
    let mut p = Processor::new();
    for secs in [8_000_000_000_000i64, -8_000_000_000_000] {
        let mut e = raw(Some("default"), Some("Normal"), "m");
        e.first_timestamp = Some(Timestamp { secs, nanos: 999_999_999 });
        assert!(p.process(e, NOW).is_ok());
    }
}

#[test]
fn out_of_range_instant_is_rejected() {
    let mut p = Processor::new();
    let mut e = raw(Some("default"), Some("Normal"), "m");
    e.first_timestamp = Some(Timestamp { secs: i64::MAX, nanos: 0 });
    assert_eq!(p.process(e, NOW).unwrap_err(), MalformedEvent::TimestampOutOfRange);
}

#[test]
fn instant_is_rendered_as_local_time() {
    let mut p = Processor::new();
    let mut e = raw(Some("default"), Some("Normal"), "m");
    // 1970-01-11 00:00:00 UTC: any zone's offset keeps the local date on the 10th or 11th.
    e.first_timestamp = Some(Timestamp { secs: 864_000, nanos: 0 });
    match p.process(e, NOW).unwrap() {
        Outcome::Novel { event, .. } => assert!(event.timestamp.starts_with("1970-01-1")),
        Outcome::Duplicate { .. } => panic!("first delivery must be novel"),
    }
}

#[test]
fn own_instant_wins_over_now() {
    let mut p = Processor::new();
    let mut e = raw(Some("default"), Some("Normal"), "m");
    e.first_timestamp = Some(Timestamp { secs: 864_000, nanos: 0 });
    assert_eq!(e.effective_time(NOW), Timestamp { secs: 864_000, nanos: 0 });
    let o1 = p.process(e.clone(), NOW).unwrap();
    let later = Timestamp { secs: NOW.secs + 3600, nanos: 5 };
    let o2 = p.process(e.clone(), later).unwrap();
    assert!(matches!(o2, Outcome::Duplicate { .. }));
    assert_eq!(fp_of(&o1), fp_of(&o2));
    // A re-render at finer precision of the same second is still a duplicate.
    e.first_timestamp = Some(Timestamp { secs: 864_000, nanos: 500_000_000 });
    let o3 = p.process(e.clone(), NOW).unwrap();
    assert_eq!(fp_of(&o3), fp_of(&o1));
    // Another second is another event.
    e.first_timestamp = Some(Timestamp { secs: 864_001, nanos: 0 });
    assert!(matches!(p.process(e, NOW).unwrap(), Outcome::Novel { .. }));
}

#[test]
fn normalize_defaults_optional_fields() {
    let e = RawEvent {
        namespace: Some("default".to_string()),
        first_timestamp: None,
        source_component: None,
        message: None,
        event_type: Some("Normal".to_string()),
        reason: None,
        count: None,
    };
    let n = e.normalize("t".to_string()).unwrap();
    assert_eq!(n.timestamp, "t");
    assert_eq!(n.time_key, "");
    assert_eq!(n.source_component, "");
    assert_eq!(n.message, "");
    assert_eq!(n.reason, "");
    assert_eq!(n.count, 0);
    assert_eq!(n.namespace, "default");
    assert_eq!(n.event_type, "Normal");
}

#[test]
fn classifier_boundary() {
    assert_eq!(classify("Normal"), Severity::Informational);
    assert_eq!(classify("Warning"), Severity::Warning);
    assert_eq!(classify("Error"), Severity::Warning);
    assert_eq!(classify("normal"), Severity::Warning);
    assert_eq!(classify("Normal "), Severity::Warning);
    assert_eq!(classify(""), Severity::Warning);
}

#[test]
fn hex_rendering() {
    assert_eq!(hex_string(0), "0");
    assert_eq!(hex_string(255), "ff");
    assert_eq!(hex_string(0x85944171f73967e8), "85944171f73967e8");
    assert_eq!(hex_string(u64::MAX), "ffffffffffffffff");
}

#[test]
fn decimal_rendering() {
    assert_eq!(decimal_string(0), "0");
    assert_eq!(decimal_string(42), "42");
    assert_eq!(decimal_string(-12), "-12");
    assert_eq!(decimal_string(i32::MAX as i64), "2147483647");
    assert_eq!(decimal_string(i32::MIN as i64), "-2147483648");
    assert_eq!(decimal_string(i64::MAX), "9223372036854775807");
    assert_eq!(decimal_string(i64::MIN), "-9223372036854775808");
}

#[test]
fn record_line_layout() {
    let mut e = normalized("1", "kubelet", "default", "Normal", "Pod scheduled");
    e.timestamp = "T".to_string();
    e.reason = "Scheduled".to_string();
    e.count = 3;
    assert_eq!(
        format_record(&e, 255),
        "\x1b[35mT\x1b[0m kubelet@default: \x1b[1;38;2;70;130;180mPod scheduled\x1b[0m \
         (\x1b[1;37mNormal\x1b[0m)(Scheduled)(3) (fnv: ff)"
    );
    e.event_type = "Warning".to_string();
    assert_eq!(
        format_record(&e, 0),
        "\x1b[35mT\x1b[0m kubelet@default: \x1b[1;38;2;70;130;180mPod scheduled\x1b[0m \
         (\x1b[1;5;31mWarning\x1b[0m)(Scheduled)(3) (fnv: 0)"
    );
}

#[test]
fn record_line_keeps_empty_fields() {
    let mut e = normalized("", "", "", "", "");
    e.timestamp = String::new();
    assert_eq!(
        format_record(&e, 16),
        "\x1b[35m\x1b[0m @: \x1b[1;38;2;70;130;180m\x1b[0m (\x1b[1;5;31m\x1b[0m)()(0) (fnv: 10)"
    );
}

#[test]
fn duplicate_diagnostic() {
    assert_eq!(format_duplicate(0xabc), "dup event fnv: abc");
    assert_eq!(Outcome::Duplicate { fingerprint: 0x1f }.line(), "dup event fnv: 1f");
}

#[test]
fn dedup_index_marks_once() {
    let mut index = DedupIndex::new();
    assert!(!index.contains(7));
    assert!(!index.check_and_mark(7));
    assert!(index.contains(7));
    assert!(index.check_and_mark(7));
    assert!(!index.check_and_mark(8));
    assert!(index.check_and_mark(7));
}

#[test]
fn end_to_end_scenario() {
    let mut p = Processor::new();
    let a = RawEvent {
        namespace: Some("default".to_string()),
        first_timestamp: None,
        source_component: None,
        message: Some("Pod scheduled".to_string()),
        event_type: Some("Normal".to_string()),
        reason: None,
        count: None,
    };
    let mut b = a.clone();
    b.event_type = Some("Warning".to_string());

    // Each delivery happens at its own time; A carries no instant of its own.
    let o1 = p.process(a.clone(), NOW).unwrap();
    let o2 = p.process(a, Timestamp { secs: NOW.secs + 2, nanos: 123 }).unwrap();
    let o3 = p.process(b, Timestamp { secs: NOW.secs + 5, nanos: 0 }).unwrap();

    let (fa, fb) = (fp_of(&o1), fp_of(&o3));
    assert_ne!(fa, fb);
    assert!(matches!(o1, Outcome::Novel { .. }));
    assert!(matches!(o3, Outcome::Novel { .. }));
    assert!(o1.line().contains("(\x1b[1;37mNormal\x1b[0m)"));
    assert!(o1.line().ends_with(&format!("(fnv: {:x})", fa)));
    assert_eq!(o2.line(), format!("dup event fnv: {:x}", fa));
    assert!(o3.line().contains("(\x1b[1;5;31mWarning\x1b[0m)"));
    assert!(o3.line().ends_with(&format!("(fnv: {:x})", fb)));
}
