use vstd::prelude::*;
use crate::address::{IpAddress, IpView};

verus! {

/// Remembers, per host name, the address that was last applied successfully,
/// so that an unchanged node causes no DNS traffic.
pub struct DedupCache {
    entries: Vec<(String, IpAddress)>,
    contents: Ghost<Map<Seq<char>, IpView>>,
}

impl View for DedupCache {
    type V = Map<Seq<char>, IpView>;

    closed spec fn view(&self) -> Map<Seq<char>, IpView> {
        self.contents@
    }
}

/// `entries` holds each host name once, and holds exactly `contents`.
spec fn entries_hold(entries: Seq<(String, IpAddress)>, contents: Map<Seq<char>, IpView>) -> bool {
    &&& forall|i: int|
        0 <= i < entries.len() ==> #[trigger] contents.contains_key(entries[i].0@) && contents[entries[i].0@]
            == entries[i].1@
    &&& forall|i: int, j: int|
        0 <= i < entries.len() && 0 <= j < entries.len() && i != j ==> entries[i].0@ != entries[j].0@
    &&& forall|k: Seq<char>|
        #[trigger] contents.contains_key(k) ==> exists|i: int| 0 <= i < entries.len() && entries[i].0@ == k
}

/// The position of `host` in `entries`, if it is there.
fn index_of(entries: &Vec<(String, IpAddress)>, contents: Ghost<Map<Seq<char>, IpView>>, host: &String) -> (r: Option<usize>)
    requires
        entries_hold(entries@, contents@),
    ensures
        match r {
            Some(i) => i < entries@.len() && entries@[i as int].0@ == host@,
            None => !contents@.contains_key(host@),
        },
{
    let mut i: usize = 0;
    while i < entries.len()
        invariant
            entries_hold(entries@, contents@),
            i <= entries@.len(),
            forall|j: int| 0 <= j < i ==> entries@[j].0@ != host@,
        decreases entries.len() - i,
    {
        if entries[i].0 == *host {
            return Some(i);
        }
        i = i + 1;
    }
    None
}

impl DedupCache {
    #[verifier::type_invariant]
    spec fn wf(&self) -> bool {
        entries_hold(self.entries@, self.contents@)
    }

    pub fn new() -> (r: DedupCache)
        ensures
            r@ == Map::<Seq<char>, IpView>::empty(),
    {
        DedupCache { entries: Vec::new(), contents: Ghost(Map::empty()) }
    }

    /// The address last applied for `host`, if any.
    pub fn get(&self, host: &String) -> (r: Option<IpAddress>)
        ensures
            match r {
                Some(ip) => self@.contains_key(host@) && ip@ == self@[host@],
                None => !self@.contains_key(host@),
            },
    {
        proof { use_type_invariant(self); }
        match index_of(&self.entries, self.contents, host) {
            Some(i) => {
                assert(self.contents@.contains_key(self.entries@[i as int].0@));
                Some(self.entries[i].1.copy())
            },
            None => None,
        }
    }

    /// Whether `host` is recorded with exactly the address `ip`.
    pub fn holds(&self, host: &String, ip: &IpAddress) -> (r: bool)
        ensures
            r == (self@.contains_key(host@) && self@[host@] == ip@),
    {
        proof { use_type_invariant(self); }
        match index_of(&self.entries, self.contents, host) {
            Some(i) => {
                assert(self.contents@.contains_key(self.entries@[i as int].0@));
                self.entries[i].1.same_as(ip)
            },
            None => false,
        }
    }

    /// Records `ip` as the address applied for `host`, replacing any earlier one.
    pub fn put(&mut self, host: String, ip: IpAddress)
        ensures
            final(self)@ == old(self)@.insert(host@, ip@),
    {
        let mut taken = DedupCache::new();
        std::mem::swap(self, &mut taken);
        proof { use_type_invariant(&taken); }
        let DedupCache { mut entries, contents } = taken;
        let ghost before = entries@;
        let ghost k = host@;
        let ghost v = ip@;
        let ghost at: int;
        match index_of(&entries, contents, &host) {
            Some(i) => {
                entries.set(i, (host, ip));
                proof { at = i as int; }
            },
            None => {
                entries.push((host, ip));
                proof { at = entries@.len() - 1; }
            },
        }
        let ghost after = contents@.insert(k, v);
        assert(entries@[at].0@ == k);
        assert forall|k2: Seq<char>| #[trigger] after.contains_key(k2) implies exists|i: int|
            0 <= i < entries@.len() && entries@[i].0@ == k2 by {
            if k2 != k {
                let i = choose|i: int| 0 <= i < before.len() && before[i].0@ == k2;
                assert(entries@[i].0@ == k2);
            } else {
                assert(entries@[at].0@ == k2);
            }
        }
        *self = DedupCache { entries, contents: Ghost(after) };
    }

    /// Forgets `host`.
    pub fn remove(&mut self, host: &String)
        ensures
            final(self)@ == old(self)@.remove(host@),
    {
        let mut taken = DedupCache::new();
        std::mem::swap(self, &mut taken);
        proof { use_type_invariant(&taken); }
        let DedupCache { mut entries, contents } = taken;
        let ghost before = entries@;
        let ghost after = contents@.remove(host@);
        match index_of(&entries, contents, host) {
            Some(i) => {
                entries.remove(i);
                assert forall|k2: Seq<char>| #[trigger] after.contains_key(k2) implies exists|j: int|
                    0 <= j < entries@.len() && entries@[j].0@ == k2 by {
                    let j = choose|j: int| 0 <= j < before.len() && before[j].0@ == k2;
                    if j < i {
                        assert(entries@[j].0@ == k2);
                    } else {
                        assert(entries@[j - 1].0@ == k2);
                    }
                }
            },
            None => {
                assert(after =~= contents@);
            },
        }
        *self = DedupCache { entries, contents: Ghost(after) };
    }
}

/// Entries are keyed by host name alone: recording or forgetting one host
/// leaves what is known of every other host as it was.
pub proof fn lemma_hosts_independent(cache: Map<Seq<char>, IpView>, host: Seq<char>, ip: IpView, other: Seq<char>)
    requires
        host != other,
    ensures
        cache.insert(host, ip).contains_key(other) == cache.contains_key(other),
        cache.insert(host, ip)[other] == cache[other],
        cache.remove(host).contains_key(other) == cache.contains_key(other),
        cache.remove(host)[other] == cache[other],
{
}

} // verus!
