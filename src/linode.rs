use vstd::prelude::*;
use crate::errors::Error;

verus! {

/// A DNS zone as the provider lists it.
#[derive(Debug)]
pub struct DomainResponse {
    pub axfr_ips: Vec<String>,
    pub description: Option<String>,
    pub domain: String,
    pub expire_sec: u64,
    pub group: Option<String>,
    pub id: u64,
    pub master_ips: Vec<String>,
    pub refresh_sec: u64,
    pub retry_sec: u64,
    pub soa_email: String,
    pub status: String,
    pub tags: Vec<String>,
    pub ttl_sec: u64,
    pub type_: String,
}

/// A record of a zone as the provider lists it.
#[derive(Debug)]
pub struct DomainRecordResponse {
    pub created: String,
    pub id: u64,
    pub name: String,
    pub port: Option<u64>,
    pub priority: Option<u64>,
    pub protocol: Option<String>,
    pub service: Option<String>,
    pub tag: Option<String>,
    pub target: String,
    pub ttl_sec: u64,
    pub type_: String,
    pub updated: String,
    pub weight: Option<u64>,
}

/// The body of a request that creates or replaces a record.
#[derive(Debug)]
pub struct DomainRecordRequest {
    pub name: String,
    pub port: Option<u64>,
    pub priority: Option<u64>,
    pub protocol: Option<String>,
    pub service: Option<String>,
    pub tag: Option<String>,
    pub target: String,
    pub ttl_sec: u64,
    pub type_: String,
    pub weight: Option<u64>,
}

/// The body of a request that sets the reverse name of an address.
#[derive(Debug)]
pub struct RdnsUpdateRequest {
    pub rdns: String,
}

/// What the provider answers to a reverse name update.
#[derive(Debug)]
pub struct RdnsUpdateResponse {
    pub address: String,
    pub gateway: String,
    pub linode_id: u64,
    pub prefix: u64,
    pub public: bool,
    pub region: String,
    pub subnet_mask: String,
    pub type_: String,
}

/// An IP address as the provider lists it, with its reverse name.
#[derive(Debug)]
pub struct IpAddressResponse {
    pub address: String,
    pub gateway: Option<String>,
    pub linode_id: Option<u64>,
    pub prefix: u64,
    pub public: bool,
    pub rdns: Option<String>,
    pub region: String,
    pub subnet_mask: String,
    pub type_: String,
}

/// One page of a provider listing.
#[derive(Debug)]
pub struct LinodeResponse<T> {
    pub data: T,
    pub page: u64,
    pub pages: u64,
    pub results: u64,
}

pub open spec fn opt_view(o: Option<String>) -> Option<Seq<char>> {
    match o {
        Some(s) => Some(s@),
        None => None,
    }
}

/// The content of a record: everything but its identity and timestamps.
pub ghost struct RecordView {
    pub name: Seq<char>,
    pub port: Option<u64>,
    pub priority: Option<u64>,
    pub protocol: Option<Seq<char>>,
    pub service: Option<Seq<char>>,
    pub tag: Option<Seq<char>>,
    pub target: Seq<char>,
    pub ttl_sec: u64,
    pub type_: Seq<char>,
    pub weight: Option<u64>,
}

impl View for DomainRecordRequest {
    type V = RecordView;

    open spec fn view(&self) -> RecordView {
        RecordView {
            name: self.name@,
            port: self.port,
            priority: self.priority,
            protocol: opt_view(self.protocol),
            service: opt_view(self.service),
            tag: opt_view(self.tag),
            target: self.target@,
            ttl_sec: self.ttl_sec,
            type_: self.type_@,
            weight: self.weight,
        }
    }
}

impl View for DomainRecordResponse {
    type V = RecordView;

    open spec fn view(&self) -> RecordView {
        RecordView {
            name: self.name@,
            port: self.port,
            priority: self.priority,
            protocol: opt_view(self.protocol),
            service: opt_view(self.service),
            tag: opt_view(self.tag),
            target: self.target@,
            ttl_sec: self.ttl_sec,
            type_: self.type_@,
            weight: self.weight,
        }
    }
}

impl From<DomainRecordResponse> for DomainRecordRequest {
    /// Keeps every field of the record that a request can carry.
    fn from(record: DomainRecordResponse) -> (r: DomainRecordRequest)
        ensures
            r@ == record@,
    {
        DomainRecordRequest {
            name: record.name,
            port: record.port,
            priority: record.priority,
            protocol: record.protocol,
            service: record.service,
            tag: record.tag,
            target: record.target,
            ttl_sec: record.ttl_sec,
            type_: record.type_,
            weight: record.weight,
        }
    }
}

impl vstd::std_specs::convert::FromSpecImpl<DomainRecordResponse> for DomainRecordRequest {
    open spec fn obeys_from_spec() -> bool {
        true
    }

    open spec fn from_spec(v: DomainRecordResponse) -> DomainRecordRequest {
        DomainRecordRequest {
            name: v.name,
            port: v.port,
            priority: v.priority,
            protocol: v.protocol,
            service: v.service,
            tag: v.tag,
            target: v.target,
            ttl_sec: v.ttl_sec,
            type_: v.type_,
            weight: v.weight,
        }
    }
}

fn copy_text(o: &Option<String>) -> (r: Option<String>)
    ensures
        opt_view(r) == opt_view(*o),
{
    match o {
        Some(s) => Some(s.clone()),
        None => None,
    }
}

/// A request that carries the record's content, with `target` in place of
/// its target.
pub fn retargeted(record: &DomainRecordResponse, target: &String) -> (r: DomainRecordRequest)
    ensures
        r@ == (RecordView { target: target@, ..record@ }),
{
    DomainRecordRequest {
        name: record.name.clone(),
        port: record.port,
        priority: record.priority,
        protocol: copy_text(&record.protocol),
        service: copy_text(&record.service),
        tag: copy_text(&record.tag),
        target: target.clone(),
        ttl_sec: record.ttl_sec,
        type_: record.type_.clone(),
        weight: record.weight,
    }
}

impl<T> LinodeResponse<T> {
    /// Whether the listing is complete in this page.
    pub open spec fn is_single_page(&self) -> bool {
        self.page == 1 && self.pages == 1
    }

    /// The listing's data; a listing of more than one page is refused, never
    /// cut short.
    pub fn into_single_page(self) -> (r: Result<T, Error>)
        ensures
            self.is_single_page() ==> (r matches Ok(d) && d == self.data),
            !self.is_single_page() ==> r matches Err(Error::PaginationUnsupported),
    {
        if self.page != 1 || self.pages != 1 {
            return Err(Error::PaginationUnsupported);
        }
        Ok(self.data)
    }
}

} // verus!
