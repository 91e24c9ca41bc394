use vstd::prelude::*;
use vstd::string::StringExecFns;
use crate::address::{IpAddress, IpFamily, IpView};
use crate::linode::{
    opt_view, retargeted, DomainRecordRequest, DomainRecordResponse, DomainResponse, IpAddressResponse,
    RecordView,
};

verus! {

/// TTL, in seconds, of the records this library creates; one of the values
/// that the provider accepts.
pub const DNS_RECORD_TTL_SECS: u64 = 5 * 60;

/// The fully qualified name of `host` in `zone`.
pub open spec fn fqdn_of(host: Seq<char>, zone: Seq<char>) -> Seq<char> {
    host + "."@ + zone
}

pub fn fqdn(host: &String, zone: &String) -> (r: String)
    ensures
        r@ == fqdn_of(host@, zone@),
{
    host.clone().concat(".").concat(zone.as_str())
}

/// The record type that maps a name to an address of `family`.
pub open spec fn record_type_of(family: IpFamily) -> Seq<char> {
    match family {
        IpFamily::V4 => "A"@,
        IpFamily::V6 => "AAAA"@,
    }
}

pub fn record_type(ip: &IpAddress) -> (r: String)
    ensures
        r@ == record_type_of(ip.family),
{
    match ip.family {
        IpFamily::V4 => String::from_str("A"),
        IpFamily::V6 => String::from_str("AAAA"),
    }
}

/// `i` is the first zone of `zones` named `name`.
pub open spec fn is_first_zone(zones: Seq<DomainResponse>, name: Seq<char>, i: int) -> bool {
    &&& 0 <= i < zones.len()
    &&& zones[i].domain@ == name
    &&& forall|j: int| 0 <= j < i ==> zones[j].domain@ != name
}

/// The id of the first zone named exactly `name`, if there is one.
pub open spec fn zone_id_of(zones: Seq<DomainResponse>, name: Seq<char>) -> Option<u64> {
    if exists|i: int| is_first_zone(zones, name, i) {
        Some(zones[choose|i: int| is_first_zone(zones, name, i)].id)
    } else {
        None
    }
}

proof fn lemma_first_zone(zones: Seq<DomainResponse>, name: Seq<char>, i: int)
    requires
        is_first_zone(zones, name, i),
    ensures
        zone_id_of(zones, name) == Some(zones[i].id),
{
    let k = choose|k: int| is_first_zone(zones, name, k);
    assert(is_first_zone(zones, name, k));
    if k < i {
        assert(zones[k].domain@ != name);
    } else if i < k {
        assert(zones[i].domain@ != name);
    }
}

pub fn find_zone(zones: &Vec<DomainResponse>, name: &String) -> (r: Option<u64>)
    ensures
        r == zone_id_of(zones@, name@),
{
    let mut i: usize = 0;
    while i < zones.len()
        invariant
            i <= zones@.len(),
            forall|j: int| 0 <= j < i ==> zones@[j].domain@ != name@,
        decreases zones.len() - i,
    {
        if zones[i].domain == *name {
            proof { lemma_first_zone(zones@, name@, i as int); }
            return Some(zones[i].id);
        }
        i = i + 1;
    }
    None
}

/// The content of every record of a listing.
pub open spec fn record_views(records: Seq<DomainRecordResponse>) -> Seq<RecordView> {
    records.map_values(|r: DomainRecordResponse| r@)
}

/// `i` is the first record of `records` with name `host` and type `ty`.
pub open spec fn is_first_record(records: Seq<RecordView>, host: Seq<char>, ty: Seq<char>, i: int) -> bool {
    &&& 0 <= i < records.len()
    &&& records[i].name == host && records[i].type_ == ty
    &&& forall|j: int| 0 <= j < i ==> !(records[j].name == host && records[j].type_ == ty)
}

/// The index of the first record with name `host` and type `ty`, if any.
pub open spec fn first_record(records: Seq<RecordView>, host: Seq<char>, ty: Seq<char>) -> Option<int> {
    if exists|i: int| is_first_record(records, host, ty, i) {
        Some(choose|i: int| is_first_record(records, host, ty, i))
    } else {
        None
    }
}

proof fn lemma_first_record(records: Seq<RecordView>, host: Seq<char>, ty: Seq<char>, i: int)
    requires
        is_first_record(records, host, ty, i),
    ensures
        first_record(records, host, ty) == Some(i),
{
    let k = choose|k: int| is_first_record(records, host, ty, k);
    assert(is_first_record(records, host, ty, k));
    if k < i {
        assert(!(records[k].name == host && records[k].type_ == ty));
    } else if i < k {
        assert(!(records[i].name == host && records[i].type_ == ty));
    }
}

/// The record created for `host` at `ip`.
pub open spec fn new_record(host: Seq<char>, ip: IpView) -> RecordView {
    RecordView {
        name: host,
        port: None,
        priority: None,
        protocol: None,
        service: None,
        tag: None,
        target: ip.text,
        ttl_sec: DNS_RECORD_TTL_SECS,
        type_: record_type_of(ip.family),
        weight: None,
    }
}

/// What must be written so that the zone maps `host` to `ip`.
pub ghost enum PlanView {
    /// The record is there with the right target.
    Unchanged,
    /// The record at this index gets this content.
    Update(int, RecordView),
    /// This record is added.
    Create(RecordView),
}

/// The first record of `host` with the type of `ip`'s family decides: right
/// target, nothing to do; another target, that record is retargeted and keeps
/// its other fields; no such record, a new one is created.
pub open spec fn forward_plan(records: Seq<RecordView>, host: Seq<char>, ip: IpView) -> PlanView {
    match first_record(records, host, record_type_of(ip.family)) {
        None => PlanView::Create(new_record(host, ip)),
        Some(i) => if records[i].target == ip.text {
            PlanView::Unchanged
        } else {
            PlanView::Update(i, RecordView { target: ip.text, ..records[i] })
        },
    }
}

/// A write to the provider that makes a forward record right.
pub enum ForwardPlan {
    Unchanged,
    Update { record_id: u64, request: DomainRecordRequest },
    Create { request: DomainRecordRequest },
}

/// `plan` carries out `view` on the listing `records`.
pub open spec fn plan_carries(plan: ForwardPlan, records: Seq<DomainRecordResponse>, view: PlanView) -> bool {
    match view {
        PlanView::Unchanged => plan is Unchanged,
        PlanView::Update(i, v) => plan matches ForwardPlan::Update { record_id, request }
            && record_id == records[i].id && request@ == v,
        PlanView::Create(v) => plan matches ForwardPlan::Create { request } && request@ == v,
    }
}

fn new_record_request(host: &String, ip: &IpAddress) -> (r: DomainRecordRequest)
    ensures
        r@ == new_record(host@, ip@),
{
    DomainRecordRequest {
        name: host.clone(),
        port: None,
        priority: None,
        protocol: None,
        service: None,
        tag: None,
        target: ip.text.clone(),
        ttl_sec: DNS_RECORD_TTL_SECS,
        type_: record_type(ip),
        weight: None,
    }
}

/// Decides, from a listing of the zone, what to write so that `host` maps to `ip`.
pub fn plan_forward(records: &Vec<DomainRecordResponse>, host: &String, ip: &IpAddress) -> (r: ForwardPlan)
    ensures
        plan_carries(r, records@, forward_plan(record_views(records@), host@, ip@)),
{
    let ty = record_type(ip);
    let ghost views = record_views(records@);
    let mut i: usize = 0;
    while i < records.len()
        invariant
            i <= records@.len(),
            views == record_views(records@),
            ty@ == record_type_of(ip.family),
            forall|j: int| 0 <= j < i ==> !(views[j].name == host@ && views[j].type_ == ty@),
        decreases records.len() - i,
    {
        if records[i].name == *host && records[i].type_ == ty {
            proof { lemma_first_record(views, host@, ty@, i as int); }
            if records[i].target == ip.text {
                return ForwardPlan::Unchanged;
            }
            let request = retargeted(&records[i], &ip.text);
            return ForwardPlan::Update { record_id: records[i].id, request };
        }
        i = i + 1;
    }
    ForwardPlan::Create { request: new_record_request(host, ip) }
}

/// The listing after `plan` was written: a retarget changes its record in
/// place, a creation adds a record at the end.
pub open spec fn after_write(records: Seq<RecordView>, plan: PlanView) -> Seq<RecordView> {
    match plan {
        PlanView::Unchanged => records,
        PlanView::Update(i, v) => records.update(i, v),
        PlanView::Create(v) => records.push(v),
    }
}

/// Applying is idempotent: once what the plan asked for is written, planning
/// again for the same host and address asks for no write.
pub proof fn lemma_forward_plan_idempotent(records: Seq<RecordView>, host: Seq<char>, ip: IpView)
    ensures
        forward_plan(after_write(records, forward_plan(records, host, ip)), host, ip) == PlanView::Unchanged,
{
    let ty = record_type_of(ip.family);
    let written = after_write(records, forward_plan(records, host, ip));
    match first_record(records, host, ty) {
        None => {
            assert forall|j: int| 0 <= j < records.len() implies !(records[j].name == host && records[j].type_ == ty) by {
                if records[j].name == host && records[j].type_ == ty {
                    lemma_exists_first(records, host, ty, j);
                }
            }
            assert(is_first_record(written, host, ty, records.len() as int));
            lemma_first_record(written, host, ty, records.len() as int);
        },
        Some(i) => {
            assert(is_first_record(records, host, ty, i));
            if records[i].target != ip.text {
                assert(is_first_record(written, host, ty, i));
                lemma_first_record(written, host, ty, i);
            }
        },
    }
}

proof fn lemma_exists_first(records: Seq<RecordView>, host: Seq<char>, ty: Seq<char>, j: int)
    requires
        0 <= j < records.len(),
        records[j].name == host && records[j].type_ == ty,
    ensures
        exists|i: int| is_first_record(records, host, ty, i),
    decreases j,
{
    if exists|m: int| 0 <= m < j && records[m].name == host && records[m].type_ == ty {
        let m = choose|m: int| 0 <= m < j && records[m].name == host && records[m].type_ == ty;
        lemma_exists_first(records, host, ty, m);
    } else {
        assert(is_first_record(records, host, ty, j));
    }
}

/// The ids of the records of `records` named `host`, of any type, in order.
pub open spec fn ids_named(records: Seq<DomainRecordResponse>, host: Seq<char>) -> Seq<u64>
    decreases records.len(),
{
    if records.len() == 0 {
        Seq::empty()
    } else {
        let before = ids_named(records.drop_last(), host);
        if records.last().name@ == host {
            before.push(records.last().id)
        } else {
            before
        }
    }
}

/// The ids of the records to delete when `host` leaves the zone.
pub fn records_named(records: &Vec<DomainRecordResponse>, host: &String) -> (r: Vec<u64>)
    ensures
        r@ == ids_named(records@, host@),
{
    let mut ids: Vec<u64> = Vec::new();
    let mut i: usize = 0;
    while i < records.len()
        invariant
            i <= records@.len(),
            ids@ == ids_named(records@.subrange(0, i as int), host@),
        decreases records.len() - i,
    {
        assert(records@.subrange(0, i as int + 1).drop_last() =~= records@.subrange(0, i as int));
        if records[i].name == *host {
            ids.push(records[i].id);
        }
        i = i + 1;
    }
    assert(records@.subrange(0, records@.len() as int) =~= records@);
    ids
}

/// Cleanup is complete: every record of the listing that deleting the ids
/// `ids_named` returns leaves in place is named otherwise than `host`.
pub proof fn lemma_cleanup_complete(records: Seq<DomainRecordResponse>, host: Seq<char>)
    ensures
        forall|i: int|
            0 <= i < records.len() && !ids_named(records, host).contains(#[trigger] records[i].id)
                ==> records[i].name@ != host,
    decreases records.len(),
{
    if records.len() > 0 {
        let before = records.drop_last();
        lemma_cleanup_complete(before, host);
        assert forall|i: int|
            0 <= i < records.len() && !ids_named(records, host).contains(#[trigger] records[i].id)
                implies records[i].name@ != host by {
            let ids = ids_named(records, host);
            if i < records.len() - 1 {
                assert(records[i] == before[i]);
                if records.last().name@ == host {
                    if ids_named(before, host).contains(records[i].id) {
                        let k = choose|k: int| 0 <= k < ids_named(before, host).len() && ids_named(before, host)[k] == records[i].id;
                        assert(ids[k] == records[i].id);
                    }
                }
            } else {
                if records[i].name@ == host {
                    assert(ids[ids.len() - 1] == records[i].id);
                }
            }
        }
    }
}

/// Whether the provider already gives address `ip_text` the reverse name `fqdn`.
pub open spec fn rdns_registered(addresses: Seq<IpAddressResponse>, ip_text: Seq<char>, fqdn: Seq<char>) -> bool {
    exists|i: int|
        0 <= i < addresses.len() && addresses[i].address@ == ip_text && opt_view(addresses[i].rdns) == Some(fqdn)
}

pub fn rdns_already_set(addresses: &Vec<IpAddressResponse>, ip: &IpAddress, fqdn: &String) -> (r: bool)
    ensures
        r == rdns_registered(addresses@, ip.text@, fqdn@),
{
    let mut i: usize = 0;
    while i < addresses.len()
        invariant
            i <= addresses@.len(),
            forall|j: int| 0 <= j < i ==> !(addresses@[j].address@ == ip.text@ && opt_view(addresses@[j].rdns) == Some(fqdn@)),
        decreases addresses.len() - i,
    {
        if addresses[i].address == ip.text {
            match &addresses[i].rdns {
                Some(name) => {
                    if *name == *fqdn {
                        return true;
                    }
                },
                None => {},
            }
        }
        i = i + 1;
    }
    false
}

} // verus!
