use vstd::prelude::*;
use vstd::string::StringExecFns;
use crate::errors::{Error, ObjectKey};

verus! {

/// The family of an IP address.
#[derive(Clone, Copy, Debug, PartialEq, Eq, Structural)]
pub enum IpFamily {
    V4,
    V6,
}

/// An IP address, held as its family and its canonical text form
/// (dotted quad for IPv4, the compressed form for IPv6).
#[derive(Debug)]
pub struct IpAddress {
    pub family: IpFamily,
    pub text: String,
}

/// What an IP address is: its family and its canonical text.
pub ghost struct IpView {
    pub family: IpFamily,
    pub text: Seq<char>,
}

impl View for IpAddress {
    type V = IpView;

    open spec fn view(&self) -> IpView {
        IpView { family: self.family, text: self.text@ }
    }
}

impl IpAddress {
    pub fn new(family: IpFamily, text: String) -> (r: IpAddress)
        ensures
            r.family == family,
            r.text@ == text@,
    {
        IpAddress { family, text }
    }

    pub fn is_ipv4(&self) -> (r: bool)
        ensures
            r == (self.family == IpFamily::V4),
    {
        self.family == IpFamily::V4
    }

    pub fn same_as(&self, other: &IpAddress) -> (r: bool)
        ensures
            r == (self@ == other@),
    {
        self.family == other.family && self.text == other.text
    }

    pub fn copy(&self) -> (r: IpAddress)
        ensures
            r == *self,
    {
        IpAddress { family: self.family, text: self.text.clone() }
    }
}

/// One entry of a node's address list: its tag ("Hostname", "ExternalIP", ...)
/// and its value.
#[derive(Debug)]
pub struct NodeAddressEntry {
    pub type_: String,
    pub address: String,
}

/// The part of a node's status that reconciliation reads.
#[derive(Debug)]
pub struct NodeStatus {
    pub addresses: Option<Vec<NodeAddressEntry>>,
}

/// The host name and the unparsed ExternalIP text of a node.
#[derive(Debug)]
pub struct RawNodeAddresses {
    pub host_name: String,
    pub external_ip: String,
}

/// The host name and the external IP address of a node.
#[derive(Debug)]
pub struct NodeAddresses {
    pub host_name: String,
    pub ip_address: IpAddress,
}

/// `i` is the first entry of `entries` tagged `tag`.
pub open spec fn is_first_tagged(entries: Seq<NodeAddressEntry>, tag: Seq<char>, i: int) -> bool {
    &&& 0 <= i < entries.len()
    &&& entries[i].type_@ == tag
    &&& forall|j: int| 0 <= j < i ==> entries[j].type_@ != tag
}

/// Some entry of `entries` is tagged `tag`.
pub open spec fn has_tag(entries: Seq<NodeAddressEntry>, tag: Seq<char>) -> bool {
    exists|i: int| 0 <= i < entries.len() && entries[i].type_@ == tag
}

/// The index of the first entry tagged `tag`, if there is one.
pub fn find_address(entries: &Vec<NodeAddressEntry>, tag: &str) -> (r: Option<usize>)
    ensures
        r matches Some(i) ==> is_first_tagged(entries@, tag@, i as int),
        r is None <==> !has_tag(entries@, tag@),
{
    let wanted = String::from_str(tag);
    let mut i: usize = 0;
    while i < entries.len()
        invariant
            i <= entries@.len(),
            wanted@ == tag@,
            forall|j: int| 0 <= j < i ==> entries@[j].type_@ != tag@,
        decreases entries.len() - i,
    {
        if entries[i].type_ == wanted {
            return Some(i);
        }
        i = i + 1;
    }
    None
}

/// The value of the first entry tagged `tag`.
pub open spec fn first_tagged_value(entries: Seq<NodeAddressEntry>, tag: Seq<char>) -> Seq<char> {
    entries[choose|i: int| is_first_tagged(entries, tag, i)].address@
}

/// What extracting the raw addresses of a node gives: the first missing
/// field, in the order status, address list, Hostname, ExternalIP.
pub open spec fn extract_fields_error(status: Option<NodeStatus>) -> Option<ObjectKey> {
    match status {
        None => Some(ObjectKey::Status),
        Some(s) => match s.addresses {
            None => Some(ObjectKey::Addresses),
            Some(v) => if !has_tag(v@, "Hostname"@) {
                Some(ObjectKey::Hostname)
            } else if !has_tag(v@, "ExternalIP"@) {
                Some(ObjectKey::ExternalIp)
            } else {
                None
            },
        },
    }
}

proof fn lemma_first_tagged_unique(entries: Seq<NodeAddressEntry>, tag: Seq<char>, i: int)
    requires
        is_first_tagged(entries, tag, i),
    ensures
        first_tagged_value(entries, tag) == entries[i].address@,
{
    let k = choose|k: int| is_first_tagged(entries, tag, k);
    assert(is_first_tagged(entries, tag, k));
    if k < i {
        assert(entries[k].type_@ != tag);
    } else if i < k {
        assert(entries[i].type_@ != tag);
    }
}

/// Finds the Hostname and ExternalIP entries of a node's status; each
/// missing field is an error of its own, never a default.
pub fn extract_fields(status: &Option<NodeStatus>) -> (r: Result<RawNodeAddresses, Error>)
    ensures
        match extract_fields_error(*status) {
            Some(k) => r matches Err(Error::MissingObjectKey(k2)) && k2 == k,
            None => r matches Ok(raw) && {
                let v = status->Some_0.addresses->Some_0@;
                &&& raw.host_name@ == first_tagged_value(v, "Hostname"@)
                &&& raw.external_ip@ == first_tagged_value(v, "ExternalIP"@)
            },
        },
{
    let s = match status {
        None => return Err(Error::MissingObjectKey(ObjectKey::Status)),
        Some(s) => s,
    };
    let entries = match &s.addresses {
        None => return Err(Error::MissingObjectKey(ObjectKey::Addresses)),
        Some(v) => v,
    };
    let h = match find_address(entries, "Hostname") {
        None => return Err(Error::MissingObjectKey(ObjectKey::Hostname)),
        Some(h) => h,
    };
    let e = match find_address(entries, "ExternalIP") {
        None => return Err(Error::MissingObjectKey(ObjectKey::ExternalIp)),
        Some(e) => e,
    };
    proof {
        lemma_first_tagged_unique(entries@, "Hostname"@, h as int);
        lemma_first_tagged_unique(entries@, "ExternalIP"@, e as int);
    }
    Ok(RawNodeAddresses {
        host_name: entries[h].address.clone(),
        external_ip: entries[e].address.clone(),
    })
}

impl NodeAddresses {
    /// Completes an extraction with the parse of the ExternalIP text:
    /// `parsed` is that text read as an IP literal, `None` where it is none.
    pub fn from_parsed(raw: RawNodeAddresses, parsed: Option<IpAddress>) -> (r: Result<NodeAddresses, Error>)
        ensures
            match parsed {
                None => r matches Err(Error::InvalidAddress(t)) && t@ == raw.external_ip@,
                Some(ip) => r matches Ok(n) && n.host_name@ == raw.host_name@ && n.ip_address@ == ip@,
            },
    {
        match parsed {
            None => Err(Error::InvalidAddress(raw.external_ip)),
            Some(ip) => Ok(NodeAddresses { host_name: raw.host_name, ip_address: ip }),
        }
    }
}

} // verus!
