use federation::helpers::FieldMaskDef;
use federation::helpers::TimestampDef;
use federation::host::Host;

#[test]
fn field_mask_keeps_the_paths_in_order() {
    let mask = FieldMaskDef::from_paths(Some(vec!["name".to_string(), "id".to_string()]));
    assert_eq!(mask.paths, vec!["name".to_string(), "id".to_string()]);
}

#[test]
fn absent_field_mask_selects_nothing() {
    let mask = FieldMaskDef::from_paths(None);
    assert!(mask.paths.is_empty());
}

#[test]
fn timestamps_compare_by_both_parts() {
    let a = TimestampDef { seconds: 5, nanos: 1 };
    assert_eq!(a, TimestampDef { seconds: 5, nanos: 1 });
    assert_ne!(a, TimestampDef { seconds: 5, nanos: 2 });
    assert_ne!(a, TimestampDef { seconds: 6, nanos: 1 });
}

#[test]
fn hosts_are_equal_by_address() {
    let a = Host::new("10.0.0.1:50051".to_string(), true);
    let mut b = Host::new("10.0.0.1:50051".to_string(), false);
    b.last_seen = Some(TimestampDef { seconds: 1, nanos: 0 });
    let c = Host::new("10.0.0.2:50051".to_string(), true);
    assert!(a == b);
    assert!(a != c);
    assert!(a.is_at(&"10.0.0.1:50051".to_string()));
    assert!(!a.is_at(&"10.0.0.1:5005".to_string()));
}

#[test]
fn host_clone_keeps_every_field() {
    let mut a = Host::new("h".to_string(), true);
    a.last_seen = Some(TimestampDef { seconds: 9, nanos: 8 });
    let b = a.clone();
    assert_eq!(b.addr, "h");
    assert!(b.forwarder);
    assert_eq!(b.last_seen, Some(TimestampDef { seconds: 9, nanos: 8 }));
}

#[test]
fn new_host_was_never_seen() {
    let a = Host::new("h".to_string(), false);
    assert_eq!(a.addr, "h");
    assert!(!a.forwarder);
    assert_eq!(a.last_seen, None);
}
