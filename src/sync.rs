use vstd::prelude::*;
use crate::address::IpAddress;
use crate::errors::Error;
use crate::linode::{DomainRecordRequest, DomainRecordResponse, DomainResponse, IpAddressResponse, LinodeResponse};
use crate::records::{
    find_zone, fqdn, fqdn_of, forward_plan, ids_named, plan_forward, rdns_already_set, rdns_registered,
    record_views, records_named, zone_id_of, ForwardPlan, PlanView,
};

verus! {

/// Seconds to wait after a DNS write before relying on the new value.
pub const DNS_PROPAGATION_DELAY_SECS: u64 = 60;

/// Whether two texts name the same DNS name.
pub uninterp spec fn dns_name_equal(a: Seq<char>, b: Seq<char>) -> bool;

/// Relies on trust_dns_resolver::Name: both texts are read with
/// `Name::from_str` and compared with `Name`'s `==`, which goes label by label
/// and ignores ASCII case; a text that is no DNS name matches nothing.
#[verifier::external_body]
fn same_dns_name(a: &str, b: &str) -> (r: bool)
    ensures
        r == dns_name_equal(a@, b@),
{
    match (
        <trust_dns_resolver::Name as std::str::FromStr>::from_str(a),
        <trust_dns_resolver::Name as std::str::FromStr>::from_str(b),
    ) {
        (Ok(x), Ok(y)) => x == y,
        _ => false,
    }
}

/// What the outside world answered to the last action of a run.
#[derive(Debug)]
pub enum SyncEvent {
    /// The first address that the authoritative servers give for the name;
    /// `None` where the lookup failed or gave none.
    ForwardLookup(Option<IpAddress>),
    /// The provider's listing of zones.
    Zones(Result<LinodeResponse<Vec<DomainResponse>>, Error>),
    /// The provider's listing of the records of a zone.
    Records(Result<LinodeResponse<Vec<DomainRecordResponse>>, Error>),
    /// A create, update or delete of a record, or a reverse name update, ended.
    Written(Result<(), Error>),
    /// The wait asked for is over.
    Slept,
    /// The first name that the authoritative servers give for the address;
    /// `None` where the lookup failed or gave none.
    ReverseLookup(Option<String>),
    /// The provider's listing of IP addresses.
    IpAddresses(Result<LinodeResponse<Vec<IpAddressResponse>>, Error>),
}

/// What a run asks the outside world to do next.
#[derive(Debug)]
pub enum SyncAction {
    /// Look the name up at the authoritative servers.
    LookupForward(String),
    ListZones,
    /// List the records of the zone with this id.
    ListRecords(u64),
    /// Create this record in the zone with this id.
    CreateRecord(u64, DomainRecordRequest),
    /// Replace the record (second id) of the zone (first id) with this content.
    UpdateRecord(u64, u64, DomainRecordRequest),
    /// Delete the record (second id) of the zone (first id).
    DeleteRecord(u64, u64),
    /// Wait this many seconds.
    Sleep(u64),
    /// Look the address up at the authoritative servers.
    LookupReverse(IpAddress),
    ListIpAddresses,
    /// Set the reverse name of the address.
    UpdateRdns(IpAddress, String),
    /// The run is over, with this result.
    Finish(Result<(), Error>),
}

/// Where an apply run stands.
#[derive(Clone, Copy, Debug, PartialEq, Eq, Structural)]
pub enum ApplyPhase {
    ForwardCheck,
    ListingZones,
    ListingRecords { zone_id: u64 },
    WritingRecord,
    Propagating,
    ReverseCheck,
    ListingIps,
    UpdatingRdns,
    Settling,
    Finished,
}

/// One run of the protocol that makes the forward and reverse records of a
/// host match its address, checking before each write.
#[derive(Debug)]
pub struct ApplyRun {
    pub domain: String,
    pub host_name: String,
    pub ip_address: IpAddress,
    pub fqdn: String,
    pub phase: ApplyPhase,
}

/// The action that ends a run with `result`.
pub open spec fn finished(phase: ApplyPhase, act: SyncAction, result: Result<(), Error>) -> bool {
    phase == ApplyPhase::Finished && act == SyncAction::Finish(result)
}

/// How an apply run answers `ev` in the state `run`: `phase` is its next
/// phase and `act` its next action.
pub open spec fn apply_transition(run: ApplyRun, ev: SyncEvent, phase: ApplyPhase, act: SyncAction) -> bool {
    let unexpected = finished(phase, act, Err(Error::UnexpectedEvent));
    match run.phase {
        ApplyPhase::ForwardCheck => match ev {
            SyncEvent::ForwardLookup(found) => if found matches Some(a) && a@ == run.ip_address@ {
                phase == ApplyPhase::ReverseCheck && act == SyncAction::LookupReverse(run.ip_address)
            } else {
                phase == ApplyPhase::ListingZones && act == SyncAction::ListZones
            },
            _ => unexpected,
        },
        ApplyPhase::ListingZones => match ev {
            SyncEvent::Zones(Err(e)) => finished(phase, act, Err(e)),
            SyncEvent::Zones(Ok(page)) => if !page.is_single_page() {
                finished(phase, act, Err(Error::PaginationUnsupported))
            } else {
                match zone_id_of(page.data@, run.domain@) {
                    None => finished(phase, act, Err(Error::ZoneNotFound(run.domain))),
                    Some(id) => phase == (ApplyPhase::ListingRecords { zone_id: id })
                        && act == SyncAction::ListRecords(id),
                }
            },
            _ => unexpected,
        },
        ApplyPhase::ListingRecords { zone_id } => match ev {
            SyncEvent::Records(Err(e)) => finished(phase, act, Err(e)),
            SyncEvent::Records(Ok(page)) => if !page.is_single_page() {
                finished(phase, act, Err(Error::PaginationUnsupported))
            } else {
                let records = page.data@;
                match forward_plan(record_views(records), run.host_name@, run.ip_address@) {
                    PlanView::Unchanged => phase == ApplyPhase::ReverseCheck
                        && act == SyncAction::LookupReverse(run.ip_address),
                    PlanView::Update(i, v) => phase == ApplyPhase::WritingRecord
                        && (act matches SyncAction::UpdateRecord(z, id, req)
                        && z == zone_id && id == records[i].id && req@ == v),
                    PlanView::Create(v) => phase == ApplyPhase::WritingRecord
                        && (act matches SyncAction::CreateRecord(z, req) && z == zone_id && req@ == v),
                }
            },
            _ => unexpected,
        },
        ApplyPhase::WritingRecord => match ev {
            SyncEvent::Written(Err(e)) => finished(phase, act, Err(e)),
            SyncEvent::Written(Ok(())) => phase == ApplyPhase::Propagating
                && act == SyncAction::Sleep(DNS_PROPAGATION_DELAY_SECS),
            _ => unexpected,
        },
        ApplyPhase::Propagating => match ev {
            SyncEvent::Slept => phase == ApplyPhase::ReverseCheck
                && act == SyncAction::LookupReverse(run.ip_address),
            _ => unexpected,
        },
        ApplyPhase::ReverseCheck => match ev {
            SyncEvent::ReverseLookup(found) => if found matches Some(n) && dns_name_equal(n@, run.fqdn@) {
                finished(phase, act, Ok(()))
            } else {
                phase == ApplyPhase::ListingIps && act == SyncAction::ListIpAddresses
            },
            _ => unexpected,
        },
        ApplyPhase::ListingIps => match ev {
            SyncEvent::IpAddresses(Err(e)) => finished(phase, act, Err(e)),
            SyncEvent::IpAddresses(Ok(page)) => if !page.is_single_page() {
                finished(phase, act, Err(Error::PaginationUnsupported))
            } else if rdns_registered(page.data@, run.ip_address.text@, run.fqdn@) {
                finished(phase, act, Ok(()))
            } else {
                phase == ApplyPhase::UpdatingRdns && act == SyncAction::UpdateRdns(run.ip_address, run.fqdn)
            },
            _ => unexpected,
        },
        ApplyPhase::UpdatingRdns => match ev {
            SyncEvent::Written(Err(e)) => finished(phase, act, Err(e)),
            SyncEvent::Written(Ok(())) => phase == ApplyPhase::Settling
                && act == SyncAction::Sleep(DNS_PROPAGATION_DELAY_SECS),
            _ => unexpected,
        },
        ApplyPhase::Settling => match ev {
            SyncEvent::Slept => finished(phase, act, Ok(())),
            _ => unexpected,
        },
        ApplyPhase::Finished => unexpected,
    }
}

/// Starts the update of the DNS records of `host_name` to `ip_address` in
/// the zone `domain`: a run whose first action looks the fully qualified
/// name up.
pub fn update(domain: String, host_name: String, ip_address: IpAddress) -> (r: (ApplyRun, SyncAction))
    ensures
        r.0.domain == domain,
        r.0.host_name == host_name,
        r.0.ip_address == ip_address,
        r.0.fqdn@ == fqdn_of(host_name@, domain@),
        r.0.phase == ApplyPhase::ForwardCheck,
        r.1 == SyncAction::LookupForward(r.0.fqdn),
{
    let name = fqdn(&host_name, &domain);
    let action = SyncAction::LookupForward(name.clone());
    (ApplyRun { domain, host_name, ip_address, fqdn: name, phase: ApplyPhase::ForwardCheck }, action)
}

impl ApplyRun {
    fn finish(&mut self, result: Result<(), Error>) -> (act: SyncAction)
        ensures
            final(self).phase == ApplyPhase::Finished,
            act == SyncAction::Finish(result),
            final(self).domain == old(self).domain,
            final(self).host_name == old(self).host_name,
            final(self).ip_address == old(self).ip_address,
            final(self).fqdn == old(self).fqdn,
    {
        self.phase = ApplyPhase::Finished;
        SyncAction::Finish(result)
    }

    /// The step after a reverse lookup whose first name does (`name_matches`)
    /// or does not name the host: done, or on to the provider's address list.
    pub fn after_reverse_lookup(&mut self, name_matches: bool) -> (act: SyncAction)
        ensures
            name_matches ==> finished(final(self).phase, act, Ok(())),
            !name_matches ==> final(self).phase == ApplyPhase::ListingIps && act == SyncAction::ListIpAddresses,
            final(self).domain == old(self).domain,
            final(self).host_name == old(self).host_name,
            final(self).ip_address == old(self).ip_address,
            final(self).fqdn == old(self).fqdn,
    {
        if name_matches {
            self.finish(Ok(()))
        } else {
            self.phase = ApplyPhase::ListingIps;
            SyncAction::ListIpAddresses
        }
    }

    /// Answers the outcome of the last action with the next one.
    pub fn step(&mut self, event: SyncEvent) -> (act: SyncAction)
        ensures
            apply_transition(*old(self), event, final(self).phase, act),
            final(self).domain == old(self).domain,
            final(self).host_name == old(self).host_name,
            final(self).ip_address == old(self).ip_address,
            final(self).fqdn == old(self).fqdn,
    {
        match self.phase {
            ApplyPhase::ForwardCheck => match event {
                SyncEvent::ForwardLookup(found) => {
                    let same = match &found {
                        Some(a) => a.same_as(&self.ip_address),
                        None => false,
                    };
                    if same {
                        self.phase = ApplyPhase::ReverseCheck;
                        SyncAction::LookupReverse(self.ip_address.copy())
                    } else {
                        self.phase = ApplyPhase::ListingZones;
                        SyncAction::ListZones
                    }
                },
                _ => self.finish(Err(Error::UnexpectedEvent)),
            },
            ApplyPhase::ListingZones => match event {
                SyncEvent::Zones(Err(e)) => self.finish(Err(e)),
                SyncEvent::Zones(Ok(page)) => match page.into_single_page() {
                    Err(e) => self.finish(Err(e)),
                    Ok(zones) => match find_zone(&zones, &self.domain) {
                        None => {
                            let name = self.domain.clone();
                            self.finish(Err(Error::ZoneNotFound(name)))
                        },
                        Some(id) => {
                            self.phase = ApplyPhase::ListingRecords { zone_id: id };
                            SyncAction::ListRecords(id)
                        },
                    },
                },
                _ => self.finish(Err(Error::UnexpectedEvent)),
            },
            ApplyPhase::ListingRecords { zone_id } => match event {
                SyncEvent::Records(Err(e)) => self.finish(Err(e)),
                SyncEvent::Records(Ok(page)) => match page.into_single_page() {
                    Err(e) => self.finish(Err(e)),
                    Ok(records) => match plan_forward(&records, &self.host_name, &self.ip_address) {
                        ForwardPlan::Unchanged => {
                            self.phase = ApplyPhase::ReverseCheck;
                            SyncAction::LookupReverse(self.ip_address.copy())
                        },
                        ForwardPlan::Update { record_id, request } => {
                            self.phase = ApplyPhase::WritingRecord;
                            SyncAction::UpdateRecord(zone_id, record_id, request)
                        },
                        ForwardPlan::Create { request } => {
                            self.phase = ApplyPhase::WritingRecord;
                            SyncAction::CreateRecord(zone_id, request)
                        },
                    },
                },
                _ => self.finish(Err(Error::UnexpectedEvent)),
            },
            ApplyPhase::WritingRecord => match event {
                SyncEvent::Written(Err(e)) => self.finish(Err(e)),
                SyncEvent::Written(Ok(())) => {
                    self.phase = ApplyPhase::Propagating;
                    SyncAction::Sleep(DNS_PROPAGATION_DELAY_SECS)
                },
                _ => self.finish(Err(Error::UnexpectedEvent)),
            },
            ApplyPhase::Propagating => match event {
                SyncEvent::Slept => {
                    self.phase = ApplyPhase::ReverseCheck;
                    SyncAction::LookupReverse(self.ip_address.copy())
                },
                _ => self.finish(Err(Error::UnexpectedEvent)),
            },
            ApplyPhase::ReverseCheck => match event {
                SyncEvent::ReverseLookup(found) => {
                    let name_matches = match &found {
                        Some(n) => same_dns_name(n.as_str(), self.fqdn.as_str()),
                        None => false,
                    };
                    self.after_reverse_lookup(name_matches)
                },
                _ => self.finish(Err(Error::UnexpectedEvent)),
            },
            ApplyPhase::ListingIps => match event {
                SyncEvent::IpAddresses(Err(e)) => self.finish(Err(e)),
                SyncEvent::IpAddresses(Ok(page)) => match page.into_single_page() {
                    Err(e) => self.finish(Err(e)),
                    Ok(addresses) => {
                        if rdns_already_set(&addresses, &self.ip_address, &self.fqdn) {
                            self.finish(Ok(()))
                        } else {
                            self.phase = ApplyPhase::UpdatingRdns;
                            SyncAction::UpdateRdns(self.ip_address.copy(), self.fqdn.clone())
                        }
                    },
                },
                _ => self.finish(Err(Error::UnexpectedEvent)),
            },
            ApplyPhase::UpdatingRdns => match event {
                SyncEvent::Written(Err(e)) => self.finish(Err(e)),
                SyncEvent::Written(Ok(())) => {
                    self.phase = ApplyPhase::Settling;
                    SyncAction::Sleep(DNS_PROPAGATION_DELAY_SECS)
                },
                _ => self.finish(Err(Error::UnexpectedEvent)),
            },
            ApplyPhase::Settling => match event {
                SyncEvent::Slept => self.finish(Ok(())),
                _ => self.finish(Err(Error::UnexpectedEvent)),
            },
            ApplyPhase::Finished => self.finish(Err(Error::UnexpectedEvent)),
        }
    }
}

/// A run that has passed its forward check: it only checks or fixes the
/// reverse name from here on, or has ended.
pub open spec fn past_forward_check(phase: ApplyPhase) -> bool {
    phase is ReverseCheck || phase is ListingIps || phase is UpdatingRdns || phase is Settling || phase is Finished
}

/// Verify before write: once a run has passed its forward check (because
/// the lookup gave the address, or the zone already held the record), it
/// never asks to create or update a record.
pub proof fn lemma_no_record_write_after_forward_check(
    run: ApplyRun,
    ev: SyncEvent,
    phase: ApplyPhase,
    act: SyncAction,
)
    requires
        past_forward_check(run.phase),
        apply_transition(run, ev, phase, act),
    ensures
        past_forward_check(phase),
        !(act is CreateRecord),
        !(act is UpdateRecord),
{
}

/// Where a cleanup run stands.
#[derive(Clone, Copy, Debug, PartialEq, Eq, Structural)]
pub enum CleanupPhase {
    ListingZones,
    ListingRecords { zone_id: u64 },
    Deleting { zone_id: u64 },
    Finished,
}

/// One run of the protocol that deletes every record of a host, of any type.
/// Reverse names are left as they are: they belong to the address.
#[derive(Debug)]
pub struct CleanupRun {
    pub domain: String,
    pub host_name: String,
    pub phase: CleanupPhase,
    /// The ids of the records to delete.
    pub pending: Vec<u64>,
    /// How many of `pending` were asked to be deleted.
    pub next: usize,
}

/// How a cleanup run answers `ev` in the state `run`: its next phase,
/// pending ids, count of deletions asked for, and action.
pub open spec fn cleanup_transition(
    run: CleanupRun,
    ev: SyncEvent,
    phase: CleanupPhase,
    pending: Seq<u64>,
    next: int,
    act: SyncAction,
) -> bool {
    let ends = |result: Result<(), Error>|
        phase == CleanupPhase::Finished && act == SyncAction::Finish(result) && pending == run.pending@ && next
            == run.next;
    let unexpected = ends(Err(Error::UnexpectedEvent));
    match run.phase {
        CleanupPhase::ListingZones => match ev {
            SyncEvent::Zones(Err(e)) => ends(Err(e)),
            SyncEvent::Zones(Ok(page)) => if !page.is_single_page() {
                ends(Err(Error::PaginationUnsupported))
            } else {
                match zone_id_of(page.data@, run.domain@) {
                    None => ends(Ok(())),
                    Some(id) => phase == (CleanupPhase::ListingRecords { zone_id: id }) && act
                        == SyncAction::ListRecords(id) && pending == run.pending@ && next == run.next,
                }
            },
            _ => unexpected,
        },
        CleanupPhase::ListingRecords { zone_id } => match ev {
            SyncEvent::Records(Err(e)) => ends(Err(e)),
            SyncEvent::Records(Ok(page)) => if !page.is_single_page() {
                ends(Err(Error::PaginationUnsupported))
            } else {
                let ids = ids_named(page.data@, run.host_name@);
                if ids.len() == 0 {
                    ends(Ok(()))
                } else {
                    phase == (CleanupPhase::Deleting { zone_id }) && pending == ids && next == 1 && act
                        == SyncAction::DeleteRecord(zone_id, ids[0])
                }
            },
            _ => unexpected,
        },
        CleanupPhase::Deleting { zone_id } => match ev {
            SyncEvent::Written(Err(e)) => ends(Err(e)),
            SyncEvent::Written(Ok(())) => if run.next < run.pending@.len() {
                phase == run.phase && pending == run.pending@ && next == run.next + 1 && act
                    == SyncAction::DeleteRecord(zone_id, run.pending@[run.next as int])
            } else {
                ends(Ok(()))
            },
            _ => unexpected,
        },
        CleanupPhase::Finished => unexpected,
    }
}

/// Starts the removal of every record of `host_name` in the zone `domain`:
/// a run whose first action lists the zones.
pub fn delete(domain: String, host_name: String) -> (r: (CleanupRun, SyncAction))
    ensures
        r.0.domain == domain,
        r.0.host_name == host_name,
        r.0.phase == CleanupPhase::ListingZones,
        r.0.pending@.len() == 0,
        r.0.next == 0,
        r.1 == SyncAction::ListZones,
{
    (CleanupRun { domain, host_name, phase: CleanupPhase::ListingZones, pending: Vec::new(), next: 0 }, SyncAction::ListZones)
}

/// A cleanup run that is deleting reports success only once it has asked
/// for the deletion of every pending id; before that, each answer asks for
/// the next pending id in order.
pub proof fn lemma_cleanup_deletes_all_pending(
    run: CleanupRun,
    ev: SyncEvent,
    phase: CleanupPhase,
    pending: Seq<u64>,
    next: int,
    act: SyncAction,
)
    requires
        run.phase is Deleting,
        cleanup_transition(run, ev, phase, pending, next, act),
    ensures
        act == SyncAction::Finish(Ok(())) ==> run.next >= run.pending@.len(),
        act is DeleteRecord ==> run.next < run.pending@.len() && act->DeleteRecord_1
            == run.pending@[run.next as int] && next == run.next + 1,
{
}

impl CleanupRun {
    fn finish(&mut self, result: Result<(), Error>) -> (act: SyncAction)
        ensures
            final(self).phase == CleanupPhase::Finished,
            act == SyncAction::Finish(result),
            final(self).domain == old(self).domain,
            final(self).host_name == old(self).host_name,
            final(self).pending == old(self).pending,
            final(self).next == old(self).next,
    {
        self.phase = CleanupPhase::Finished;
        SyncAction::Finish(result)
    }

    /// Answers the outcome of the last action with the next one.
    pub fn step(&mut self, event: SyncEvent) -> (act: SyncAction)
        ensures
            cleanup_transition(
                *old(self),
                event,
                final(self).phase,
                final(self).pending@,
                final(self).next as int,
                act,
            ),
            final(self).domain == old(self).domain,
            final(self).host_name == old(self).host_name,
    {
        match self.phase {
            CleanupPhase::ListingZones => match event {
                SyncEvent::Zones(Err(e)) => self.finish(Err(e)),
                SyncEvent::Zones(Ok(page)) => match page.into_single_page() {
                    Err(e) => self.finish(Err(e)),
                    Ok(zones) => match find_zone(&zones, &self.domain) {
                        None => self.finish(Ok(())),
                        Some(id) => {
                            self.phase = CleanupPhase::ListingRecords { zone_id: id };
                            SyncAction::ListRecords(id)
                        },
                    },
                },
                _ => self.finish(Err(Error::UnexpectedEvent)),
            },
            CleanupPhase::ListingRecords { zone_id } => match event {
                SyncEvent::Records(Err(e)) => self.finish(Err(e)),
                SyncEvent::Records(Ok(page)) => match page.into_single_page() {
                    Err(e) => self.finish(Err(e)),
                    Ok(records) => {
                        let ids = records_named(&records, &self.host_name);
                        if ids.len() == 0 {
                            self.finish(Ok(()))
                        } else {
                            let first = ids[0];
                            self.pending = ids;
                            self.next = 1;
                            self.phase = CleanupPhase::Deleting { zone_id };
                            SyncAction::DeleteRecord(zone_id, first)
                        }
                    },
                },
                _ => self.finish(Err(Error::UnexpectedEvent)),
            },
            CleanupPhase::Deleting { zone_id } => match event {
                SyncEvent::Written(Err(e)) => self.finish(Err(e)),
                SyncEvent::Written(Ok(())) => {
                    if self.next < self.pending.len() {
                        let id = self.pending[self.next];
                        self.next = self.next + 1;
                        SyncAction::DeleteRecord(zone_id, id)
                    } else {
                        self.finish(Ok(()))
                    }
                },
                _ => self.finish(Err(Error::UnexpectedEvent)),
            },
            CleanupPhase::Finished => self.finish(Err(Error::UnexpectedEvent)),
        }
    }
}

} // verus!
