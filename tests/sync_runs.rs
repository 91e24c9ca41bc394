use node_dns::address::{IpAddress, IpFamily};
use node_dns::errors::Error;
use node_dns::linode::{
    retargeted, DomainRecordRequest, DomainRecordResponse, DomainResponse, IpAddressResponse, LinodeResponse,
};
use node_dns::records::{
    find_zone, fqdn, plan_forward, rdns_already_set, record_type, records_named, ForwardPlan, DNS_RECORD_TTL_SECS,
};
use node_dns::sync::{
    delete, update, ApplyPhase, ApplyRun, CleanupPhase, SyncAction, SyncEvent, DNS_PROPAGATION_DELAY_SECS,
};

fn v4(text: &str) -> IpAddress {
    IpAddress::new(IpFamily::V4, text.to_string())
}

fn page<T>(data: T) -> LinodeResponse<T> {
    LinodeResponse { data, page: 1, pages: 1, results: 1 }
}

fn zone(id: u64, name: &str) -> DomainResponse {
    DomainResponse {
        axfr_ips: vec![],
        description: None,
        domain: name.to_string(),
        expire_sec: 0,
        group: None,
        id,
        master_ips: vec![],
        refresh_sec: 0,
        retry_sec: 0,
        soa_email: "admin@example.com".to_string(),
        status: "active".to_string(),
        tags: vec![],
        ttl_sec: 0,
        type_: "master".to_string(),
    }
}

fn record(id: u64, name: &str, ty: &str, target: &str) -> DomainRecordResponse {
    DomainRecordResponse {
        created: "2024-01-01T00:00:00".to_string(),
        id,
        name: name.to_string(),
        port: Some(0),
        priority: Some(0),
        protocol: None,
        service: None,
        tag: Some("t".to_string()),
        target: target.to_string(),
        ttl_sec: 3600,
        type_: ty.to_string(),
        updated: "2024-01-01T00:00:00".to_string(),
        weight: Some(0),
    }
}

fn ip_entry(address: &str, rdns: Option<&str>) -> IpAddressResponse {
    IpAddressResponse {
        address: address.to_string(),
        gateway: None,
        linode_id: Some(7),
        prefix: 24,
        public: true,
        rdns: rdns.map(|s| s.to_string()),
        region: "eu-central".to_string(),
        subnet_mask: "255.255.255.0".to_string(),
        type_: "ipv4".to_string(),
    }
}

fn start_node1() -> ApplyRun {
    let (run, act) = update("example.com".to_string(), "node-1".to_string(), v4("203.0.113.5"));
    assert!(matches!(act, SyncAction::LookupForward(ref n) if n == "node-1.example.com"));
    run
}

fn to_records(run: &mut ApplyRun) {
    assert!(matches!(run.step(SyncEvent::ForwardLookup(None)), SyncAction::ListZones));
    let act = run.step(SyncEvent::Zones(Ok(page(vec![zone(3, "other.org"), zone(11, "example.com")]))));
    assert!(matches!(act, SyncAction::ListRecords(11)));
}

#[test]
fn fqdn_and_record_type() {
    assert_eq!(fqdn(&"node-1".to_string(), &"example.com".to_string()), "node-1.example.com");
    assert_eq!(record_type(&v4("203.0.113.5")), "A");
    assert_eq!(record_type(&IpAddress::new(IpFamily::V6, "2001:db8::1".to_string())), "AAAA");
}

#[test]
fn forward_lookup_match_skips_record_writes() {
    let mut run = start_node1();
    let act = run.step(SyncEvent::ForwardLookup(Some(v4("203.0.113.5"))));
    assert_eq!(run.phase, ApplyPhase::ReverseCheck);
    assert!(matches!(act, SyncAction::LookupReverse(ref ip) if ip.text == "203.0.113.5"));
    let act = run.step(SyncEvent::ReverseLookup(Some("node-1.example.com.".to_string())));
    assert!(matches!(act, SyncAction::Finish(Ok(()))));
    assert_eq!(run.phase, ApplyPhase::Finished);
}

#[test]
fn forward_lookup_mismatch_lists_zones() {
    let mut run = start_node1();
    let act = run.step(SyncEvent::ForwardLookup(Some(v4("203.0.113.9"))));
    assert!(matches!(act, SyncAction::ListZones));
    assert_eq!(run.phase, ApplyPhase::ListingZones);
}

#[test]
fn mismatched_record_is_updated_not_created() {
    let mut run = start_node1();
    to_records(&mut run);
    let records = vec![
        record(40, "node-1", "AAAA", "2001:db8::1"),
        record(41, "node-1", "A", "203.0.113.9"),
        record(42, "node-2", "A", "203.0.113.6"),
    ];
    let act = run.step(SyncEvent::Records(Ok(page(records))));
    match act {
        SyncAction::UpdateRecord(zone_id, record_id, req) => {
            assert_eq!(zone_id, 11);
            assert_eq!(record_id, 41);
            assert_eq!(req.target, "203.0.113.5");
            assert_eq!(req.name, "node-1");
            assert_eq!(req.type_, "A");
            assert_eq!(req.ttl_sec, 3600);
            assert_eq!(req.tag, Some("t".to_string()));
        },
        other => panic!("unexpected {:?}", other),
    }
    assert_eq!(run.phase, ApplyPhase::WritingRecord);
    let act = run.step(SyncEvent::Written(Ok(())));
    assert!(matches!(act, SyncAction::Sleep(60)));
    let act = run.step(SyncEvent::Slept);
    assert!(matches!(act, SyncAction::LookupReverse(_)));
}

#[test]
fn missing_record_is_created() {
    let mut run = start_node1();
    to_records(&mut run);
    let act = run.step(SyncEvent::Records(Ok(page(vec![record(42, "node-2", "A", "203.0.113.6")]))));
    match act {
        SyncAction::CreateRecord(zone_id, req) => {
            assert_eq!(zone_id, 11);
            assert_eq!(req.name, "node-1");
            assert_eq!(req.type_, "A");
            assert_eq!(req.target, "203.0.113.5");
            assert_eq!(req.ttl_sec, 300);
            assert_eq!(req.port, None);
            assert_eq!(req.tag, None);
        },
        other => panic!("unexpected {:?}", other),
    }
    assert_eq!(DNS_RECORD_TTL_SECS, 300);
    assert_eq!(DNS_PROPAGATION_DELAY_SECS, 60);
}

#[test]
fn second_apply_writes_nothing() {
    let host = "node-1".to_string();
    let ip = v4("203.0.113.5");
    let mut records = vec![record(42, "node-2", "A", "203.0.113.6")];
    let first = plan_forward(&records, &host, &ip);
    let request = match first {
        ForwardPlan::Create { request } => request,
        _ => panic!("expected a creation"),
    };
    records.push(DomainRecordResponse {
        created: String::new(),
        id: 43,
        name: request.name,
        port: request.port,
        priority: request.priority,
        protocol: request.protocol,
        service: request.service,
        tag: request.tag,
        target: request.target,
        ttl_sec: request.ttl_sec,
        type_: request.type_,
        updated: String::new(),
        weight: request.weight,
    });
    assert!(matches!(plan_forward(&records, &host, &ip), ForwardPlan::Unchanged));

    let mut run = start_node1();
    to_records(&mut run);
    let act = run.step(SyncEvent::Records(Ok(page(records))));
    assert!(matches!(act, SyncAction::LookupReverse(_)));
    assert_eq!(run.phase, ApplyPhase::ReverseCheck);
}

#[test]
fn record_request_keeps_fields() {
    let r = record(41, "node-1", "A", "203.0.113.9");
    let moved = DomainRecordRequest::from(record(41, "node-1", "A", "203.0.113.9"));
    assert_eq!(moved.target, "203.0.113.9");
    assert_eq!(moved.ttl_sec, 3600);
    assert_eq!(moved.tag, Some("t".to_string()));
    let changed = retargeted(&r, &"203.0.113.5".to_string());
    assert_eq!(changed.target, "203.0.113.5");
    assert_eq!(changed.name, "node-1");
    assert_eq!(changed.weight, Some(0));
}

#[test]
fn zone_lookup_is_exact() {
    let zones = vec![zone(3, "sub.example.com"), zone(11, "example.com"), zone(12, "example.com")];
    assert_eq!(find_zone(&zones, &"example.com".to_string()), Some(11));
    assert_eq!(find_zone(&zones, &"example.org".to_string()), None);
}

#[test]
fn zone_not_found_fails_apply() {
    let mut run = start_node1();
    run.step(SyncEvent::ForwardLookup(None));
    let act = run.step(SyncEvent::Zones(Ok(page(vec![zone(3, "other.org")]))));
    assert!(matches!(act, SyncAction::Finish(Err(Error::ZoneNotFound(ref z))) if z == "example.com"));
    assert_eq!(run.phase, ApplyPhase::Finished);
}

#[test]
fn paged_listing_is_refused() {
    let mut run = start_node1();
    run.step(SyncEvent::ForwardLookup(None));
    let listing = LinodeResponse { data: vec![zone(11, "example.com")], page: 1, pages: 2, results: 150 };
    let act = run.step(SyncEvent::Zones(Ok(listing)));
    assert!(matches!(act, SyncAction::Finish(Err(Error::PaginationUnsupported))));
    let single = LinodeResponse { data: 5u64, page: 1, pages: 1, results: 1 };
    assert_eq!(single.into_single_page().unwrap(), 5);
    let later = LinodeResponse { data: 5u64, page: 2, pages: 2, results: 1 };
    assert!(matches!(later.into_single_page(), Err(Error::PaginationUnsupported)));
}

#[test]
fn provider_failure_ends_run() {
    let mut run = start_node1();
    to_records(&mut run);
    let act = run.step(SyncEvent::Records(Err(Error::Transport("503".to_string()))));
    assert!(matches!(act, SyncAction::Finish(Err(Error::Transport(ref m))) if m == "503"));
}

#[test]
fn out_of_order_event_is_refused() {
    let mut run = start_node1();
    let act = run.step(SyncEvent::Slept);
    assert!(matches!(act, SyncAction::Finish(Err(Error::UnexpectedEvent))));
    let act = run.step(SyncEvent::ForwardLookup(None));
    assert!(matches!(act, SyncAction::Finish(Err(Error::UnexpectedEvent))));
}

#[test]
fn reverse_name_compared_as_dns_name() {
    let mut run = start_node1();
    run.step(SyncEvent::ForwardLookup(Some(v4("203.0.113.5"))));
    let act = run.step(SyncEvent::ReverseLookup(Some("NODE-1.Example.COM".to_string())));
    assert!(matches!(act, SyncAction::Finish(Ok(()))));

    let mut run = start_node1();
    run.step(SyncEvent::ForwardLookup(Some(v4("203.0.113.5"))));
    let act = run.step(SyncEvent::ReverseLookup(Some("node-1.example.com".to_string())));
    assert!(matches!(act, SyncAction::Finish(Ok(()))));

    let mut run = start_node1();
    run.step(SyncEvent::ForwardLookup(Some(v4("203.0.113.5"))));
    let act = run.step(SyncEvent::ReverseLookup(Some("node-2.example.com.".to_string())));
    assert!(matches!(act, SyncAction::ListIpAddresses));
}

#[test]
fn reverse_name_registered_is_left_alone() {
    let mut run = start_node1();
    run.step(SyncEvent::ForwardLookup(Some(v4("203.0.113.5"))));
    run.step(SyncEvent::ReverseLookup(None));
    let listing = vec![ip_entry("203.0.113.5", Some("node-1.example.com"))];
    let act = run.step(SyncEvent::IpAddresses(Ok(page(listing))));
    assert!(matches!(act, SyncAction::Finish(Ok(()))));
}

#[test]
fn reverse_name_missing_is_updated() {
    let mut run = start_node1();
    run.step(SyncEvent::ForwardLookup(Some(v4("203.0.113.5"))));
    run.step(SyncEvent::ReverseLookup(None));
    let listing = vec![ip_entry("203.0.113.5", Some("old.example.com")), ip_entry("203.0.113.6", None)];
    let act = run.step(SyncEvent::IpAddresses(Ok(page(listing))));
    match act {
        SyncAction::UpdateRdns(ip, name) => {
            assert_eq!(ip.text, "203.0.113.5");
            assert_eq!(name, "node-1.example.com");
        },
        other => panic!("unexpected {:?}", other),
    }
    assert_eq!(run.phase, ApplyPhase::UpdatingRdns);
    assert!(matches!(run.step(SyncEvent::Written(Ok(()))), SyncAction::Sleep(60)));
    assert!(matches!(run.step(SyncEvent::Slept), SyncAction::Finish(Ok(()))));
}

#[test]
fn rdns_check_needs_address_and_name() {
    let ip = v4("203.0.113.5");
    let name = "node-1.example.com".to_string();
    assert!(rdns_already_set(&vec![ip_entry("203.0.113.5", Some("node-1.example.com"))], &ip, &name));
    assert!(!rdns_already_set(&vec![ip_entry("203.0.113.6", Some("node-1.example.com"))], &ip, &name));
    assert!(!rdns_already_set(&vec![ip_entry("203.0.113.5", None)], &ip, &name));
    assert!(!rdns_already_set(&vec![], &ip, &name));
}

#[test]
fn cleanup_deletes_every_record_of_host() {
    let records = vec![
        record(40, "node-1", "AAAA", "2001:db8::1"),
        record(41, "node-1", "A", "203.0.113.5"),
        record(42, "node-2", "A", "203.0.113.6"),
        record(43, "node-1", "TXT", "hello"),
    ];
    assert_eq!(records_named(&records, &"node-1".to_string()), vec![40, 41, 43]);

    let (mut run, act) = delete("example.com".to_string(), "node-1".to_string());
    assert!(matches!(act, SyncAction::ListZones));
    let act = run.step(SyncEvent::Zones(Ok(page(vec![zone(11, "example.com")]))));
    assert!(matches!(act, SyncAction::ListRecords(11)));
    let act = run.step(SyncEvent::Records(Ok(page(records))));
    assert!(matches!(act, SyncAction::DeleteRecord(11, 40)));
    assert!(matches!(run.step(SyncEvent::Written(Ok(()))), SyncAction::DeleteRecord(11, 41)));
    assert!(matches!(run.step(SyncEvent::Written(Ok(()))), SyncAction::DeleteRecord(11, 43)));
    assert!(matches!(run.step(SyncEvent::Written(Ok(()))), SyncAction::Finish(Ok(()))));
    assert_eq!(run.phase, CleanupPhase::Finished);
}

#[test]
fn cleanup_with_nothing_to_delete_succeeds() {
    let (mut run, _) = delete("example.com".to_string(), "node-1".to_string());
    let act = run.step(SyncEvent::Zones(Ok(page(vec![zone(3, "other.org")]))));
    assert!(matches!(act, SyncAction::Finish(Ok(()))));

    let (mut run, _) = delete("example.com".to_string(), "node-1".to_string());
    run.step(SyncEvent::Zones(Ok(page(vec![zone(11, "example.com")]))));
    let act = run.step(SyncEvent::Records(Ok(page(vec![record(42, "node-2", "A", "203.0.113.6")]))));
    assert!(matches!(act, SyncAction::Finish(Ok(()))));
}

#[test]
fn cleanup_delete_failure_ends_run() {
    let (mut run, _) = delete("example.com".to_string(), "node-1".to_string());
    run.step(SyncEvent::Zones(Ok(page(vec![zone(11, "example.com")]))));
    run.step(SyncEvent::Records(Ok(page(vec![record(41, "node-1", "A", "203.0.113.5")]))));
    let act = run.step(SyncEvent::Written(Err(Error::Transport("500".to_string()))));
    assert!(matches!(act, SyncAction::Finish(Err(Error::Transport(_)))));
}
