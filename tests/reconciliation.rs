use dns_sync::batch::{batch_body, batch_outcome, partition, BatchRequest, PatchOp};
use dns_sync::desired::{build_desired, records_in_zone, DomainPolicy};
use dns_sync::reconcile::{identity_matches, reconcile};
use dns_sync::records::{DesiredRecord, ProviderEntry, ReconciledRecord, SyncError, Zone};

fn desired(name: &str, content: &str) -> DesiredRecord {
    DesiredRecord {
        record_type: "A".to_string(),
        name: name.to_string(),
        content: content.to_string(),
        ttl: 1,
        proxied: false,
    }
}

fn entry(id: &str, record_type: Option<&str>, name: &str, content: &str) -> ProviderEntry {
    ProviderEntry {
        id: id.to_string(),
        name: name.to_string(),
        content: Some(content.to_string()),
        record_type: record_type.map(|t| t.to_string()),
    }
}

#[test]
fn scenario_create_when_nothing_exists() {
    let wanted = vec![desired("foo.example", "1.2.3.4")];
    let reconciled = reconcile(&wanted, &vec![]);
    assert_eq!(reconciled, vec![ReconciledRecord::Create { record: desired("foo.example", "1.2.3.4") }]);
    let request = partition(&reconciled);
    assert_eq!(request.posts.len(), 1);
    assert_eq!(request.patches.len(), 0);
    let body = batch_body(&request);
    assert_eq!(
        body,
        r#"{"patches":[],"posts":[{"name":"foo.example","type":"A","content":"1.2.3.4","ttl":1,"proxied":false}]}"#
    );
}

#[test]
fn scenario_update_keeps_provider_id() {
    let wanted = vec![desired("foo.example", "5.6.7.8")];
    let existing = vec![entry("abc", Some("A"), "foo.example", "1.2.3.4")];
    let reconciled = reconcile(&wanted, &existing);
    assert_eq!(
        reconciled,
        vec![ReconciledRecord::Update { id: "abc".to_string(), record: desired("foo.example", "5.6.7.8") }]
    );
    let request = partition(&reconciled);
    assert_eq!(request.patches.len(), 1);
    assert_eq!(request.patches[0].id, "abc");
    assert_eq!(request.posts.len(), 0);
    let body = batch_body(&request);
    assert_eq!(
        body,
        r#"{"patches":[{"id":"abc","name":"foo.example","type":"A","content":"5.6.7.8","ttl":1,"proxied":false}],"posts":[]}"#
    );
}

#[test]
fn batch_failure_flag_is_an_error() {
    let request = BatchRequest { patches: vec![], posts: vec![desired("foo.example", "1.2.3.4")] };
    let body = r#"{"success":false,"errors":[]}"#.to_string();
    assert_eq!(batch_outcome(&request, false, body.clone()), Err(SyncError::Provider { body }));
    let ok = batch_outcome(&request, true, "{}".to_string()).unwrap();
    assert_eq!((ok.patched, ok.posted), (0, 1));
}

#[test]
fn reconcile_twice_gives_the_same_records() {
    let wanted = vec![desired("a.example", "9.9.9.9"), desired("b.example", "9.9.9.9")];
    let existing = vec![entry("x1", Some("A"), "b.example", "1.1.1.1")];
    assert_eq!(reconcile(&wanted, &existing), reconcile(&wanted, &existing));
}

#[test]
fn identity_needs_name_and_type() {
    let wanted = vec![desired("a.example", "9.9.9.9")];
    let existing = vec![
        entry("aaaa", Some("AAAA"), "a.example", "::1"),
        entry("other", Some("A"), "b.example", "1.1.1.1"),
        entry("untyped", None, "a.example", "1.1.1.1"),
    ];
    let reconciled = reconcile(&wanted, &existing);
    assert_eq!(reconciled, vec![ReconciledRecord::Create { record: desired("a.example", "9.9.9.9") }]);
    assert!(!identity_matches(&wanted[0], &existing[0]));
    assert!(identity_matches(&wanted[0], &entry("z", Some("A"), "a.example", "")));
}

#[test]
fn duplicate_keys_take_the_last() {
    let wanted = vec![desired("a.example", "9.9.9.9")];
    let existing = vec![
        entry("first", Some("A"), "a.example", "1.1.1.1"),
        entry("second", Some("A"), "a.example", "2.2.2.2"),
    ];
    let reconciled = reconcile(&wanted, &existing);
    assert_eq!(reconciled[0].id(), Some(&"second".to_string()));
}

#[test]
fn every_desired_record_is_covered_in_order() {
    let wanted = vec![desired("c.example", "1.0.0.1"), desired("a.example", "1.0.0.1"), desired("b.example", "1.0.0.1")];
    let existing = vec![entry("b", Some("A"), "b.example", "0.0.0.0"), entry("c", Some("A"), "c.example", "0.0.0.0")];
    let reconciled = reconcile(&wanted, &existing);
    assert_eq!(reconciled.len(), 3);
    for (r, d) in reconciled.iter().zip(wanted.iter()) {
        assert_eq!(r.record(), d);
    }
    assert_eq!(reconciled[0].id(), Some(&"c".to_string()));
    assert_eq!(reconciled[1].id(), None);
    assert_eq!(reconciled[2].id(), Some(&"b".to_string()));
}

#[test]
fn empty_desired_gives_nothing() {
    let existing = vec![entry("b", Some("A"), "b.example", "0.0.0.0")];
    assert!(reconcile(&vec![], &existing).is_empty());
    let request = partition(&vec![]);
    assert_eq!(batch_body(&request), r#"{"patches":[],"posts":[]}"#);
}

#[test]
fn partition_keeps_order_within_each_group() {
    let reconciled = vec![
        ReconciledRecord::Update { id: "1".to_string(), record: desired("a.example", "1.1.1.1") },
        ReconciledRecord::Create { record: desired("b.example", "1.1.1.1") },
        ReconciledRecord::Update { id: "2".to_string(), record: desired("c.example", "1.1.1.1") },
        ReconciledRecord::Create { record: desired("d.example", "1.1.1.1") },
    ];
    let request = partition(&reconciled);
    assert_eq!(
        request.patches,
        vec![
            PatchOp { id: "1".to_string(), record: desired("a.example", "1.1.1.1") },
            PatchOp { id: "2".to_string(), record: desired("c.example", "1.1.1.1") },
        ]
    );
    assert_eq!(request.posts, vec![desired("b.example", "1.1.1.1"), desired("d.example", "1.1.1.1")]);
}

#[test]
fn batch_body_escapes_strings_and_writes_numbers() {
    let record = DesiredRecord {
        record_type: "A".to_string(),
        name: "we\"ird\\.example".to_string(),
        content: "10.0.0.1".to_string(),
        ttl: 3600,
        proxied: true,
    };
    let request = BatchRequest {
        patches: vec![PatchOp { id: "i1".to_string(), record: record.clone() }],
        posts: vec![desired("x.example", "10.0.0.1"), desired("y.example", "10.0.0.1")],
    };
    let body = batch_body(&request);
    assert_eq!(
        body,
        format!(
            "{}{}{}",
            r#"{"patches":[{"id":"i1","name":"we\"ird\\.example","type":"A","content":"10.0.0.1","ttl":3600,"proxied":true}],"#,
            r#""posts":[{"name":"x.example","type":"A","content":"10.0.0.1","ttl":1,"proxied":false},"#,
            r#"{"name":"y.example","type":"A","content":"10.0.0.1","ttl":1,"proxied":false}]}"#
        )
    );
}

#[test]
fn build_desired_takes_policy_values() {
    let policies = vec![
        DomainPolicy { domain: "a.example".to_string(), port_mapping: "80:8080".to_string(), use_tls: true, ttl: None },
        DomainPolicy { domain: "b.example".to_string(), port_mapping: "443:8443".to_string(), use_tls: false, ttl: Some(120) },
    ];
    let records = build_desired(&policies, &"A".to_string(), &"203.0.113.5".to_string());
    assert_eq!(
        records,
        vec![
            DesiredRecord { record_type: "A".to_string(), name: "a.example".to_string(), content: "203.0.113.5".to_string(), ttl: 1, proxied: true },
            DesiredRecord { record_type: "A".to_string(), name: "b.example".to_string(), content: "203.0.113.5".to_string(), ttl: 120, proxied: false },
        ]
    );
    assert!(build_desired(&vec![], &"A".to_string(), &"203.0.113.5".to_string()).is_empty());
}

#[test]
fn records_in_zone_picks_by_name() {
    let wanted = vec![desired("a.example", "1.1.1.1"), desired("b.example", "1.1.1.1"), desired("a.example", "2.2.2.2")];
    let zone = Zone { id: "z".to_string(), name: "a.example".to_string() };
    assert_eq!(records_in_zone(&wanted, &zone), vec![desired("a.example", "1.1.1.1"), desired("a.example", "2.2.2.2")]);
}
