use vstd::prelude::*;
use crate::address::{IpAddress, NodeAddresses};
use crate::cache::DedupCache;
use crate::errors::Error;
use crate::records::fqdn_of;
use crate::sync::{delete, update, ApplyPhase, ApplyRun, CleanupPhase, CleanupRun, SyncAction};

verus! {

/// Delay, in seconds, before a failed reconcile is tried again.
pub const REQUEUE_DELAY_SECS: u64 = 30;

/// What a reconcile reports back to the watch that drives it.
#[derive(Clone, Copy, Debug, PartialEq, Eq, Structural)]
pub enum ReconcileOutcome {
    Success,
    /// Reconcile the node again after this many seconds.
    RequeueAfter(u64),
}

/// Where a node stands, from whether its deletion was requested and whether
/// it carries this system's finalizer.
#[derive(Clone, Copy, Debug, PartialEq, Eq, Structural)]
pub enum NodeState {
    /// Not being deleted, no finalizer: add the finalizer, then apply.
    Active,
    /// Not being deleted, finalizer present: apply.
    Applying,
    /// Being deleted, finalizer present: clean up, then remove the finalizer.
    Cleaning,
    /// Being deleted, finalizer gone: nothing is left to do.
    Removed,
}

impl NodeState {
    pub fn from_flags(deletion_requested: bool, has_finalizer: bool) -> (r: NodeState)
        ensures
            !deletion_requested && !has_finalizer ==> r == NodeState::Active,
            !deletion_requested && has_finalizer ==> r == NodeState::Applying,
            deletion_requested && has_finalizer ==> r == NodeState::Cleaning,
            deletion_requested && !has_finalizer ==> r == NodeState::Removed,
    {
        match (deletion_requested, has_finalizer) {
            (false, false) => NodeState::Active,
            (false, true) => NodeState::Applying,
            (true, true) => NodeState::Cleaning,
            (true, false) => NodeState::Removed,
        }
    }

    /// Whether DNS state must be applied for the node.
    pub fn needs_apply(&self) -> (r: bool)
        ensures
            r == (*self is Active || *self is Applying),
    {
        match self {
            NodeState::Active | NodeState::Applying => true,
            _ => false,
        }
    }

    /// Whether the node's DNS state must be cleaned up.
    pub fn needs_cleanup(&self) -> (r: bool)
        ensures
            r == (*self is Cleaning),
    {
        match self {
            NodeState::Cleaning => true,
            _ => false,
        }
    }
}

/// Every failure is taken as transient and retried after the fixed delay.
pub fn error_policy(error: &Error) -> (r: ReconcileOutcome)
    ensures
        r == ReconcileOutcome::RequeueAfter(REQUEUE_DELAY_SECS),
{
    ReconcileOutcome::RequeueAfter(REQUEUE_DELAY_SECS)
}

/// What a reconcile that ended with `result` reports: a failure is always
/// requeued after the fixed delay, never reported as success.
pub fn reconcile_outcome(result: &Result<ReconcileOutcome, Error>) -> (r: ReconcileOutcome)
    ensures
        match result {
            Ok(o) => r == *o,
            Err(_) => r == ReconcileOutcome::RequeueAfter(REQUEUE_DELAY_SECS),
        },
{
    match result {
        Ok(o) => *o,
        Err(e) => error_policy(e),
    }
}

/// Decides, per node event, what DNS work to run, and remembers what was
/// applied so that an unchanged node causes no traffic.
pub struct Reconciler {
    pub domain: String,
    pub cache: DedupCache,
}

impl Reconciler {
    /// A reconciler for the zone `domain`, with nothing applied yet.
    pub fn new(domain: String) -> (r: Reconciler)
        ensures
            r.domain == domain,
            r.cache@ == Map::<Seq<char>, crate::address::IpView>::empty(),
    {
        Reconciler { domain, cache: DedupCache::new() }
    }

    /// The apply run for a node that is present, or `None` where the cache
    /// shows that this very address was applied already: then nothing
    /// outside is contacted.
    pub fn begin_apply(&self, node: NodeAddresses) -> (r: Option<(ApplyRun, SyncAction)>)
        ensures
            self.cache@.contains_key(node.host_name@) && self.cache@[node.host_name@] == node.ip_address@
                <==> r is None,
            r matches Some((run, act)) ==> {
                &&& run.domain@ == self.domain@
                &&& run.host_name == node.host_name
                &&& run.ip_address == node.ip_address
                &&& run.fqdn@ == fqdn_of(node.host_name@, self.domain@)
                &&& run.phase == ApplyPhase::ForwardCheck
                &&& act == SyncAction::LookupForward(run.fqdn)
            },
    {
        if self.cache.holds(&node.host_name, &node.ip_address) {
            return None;
        }
        Some(update(self.domain.clone(), node.host_name, node.ip_address))
    }

    /// Takes the end of an apply run for `host` at `ip`: on success the
    /// address is remembered; on failure the cache is left as it was, so that
    /// the retry is not skipped, and the error is handed on unchanged.
    pub fn finish_apply(&mut self, host: String, ip: IpAddress, result: Result<(), Error>) -> (r: Result<
        ReconcileOutcome,
        Error,
    >)
        ensures
            final(self).domain == old(self).domain,
            match result {
                Ok(()) => r == Ok::<ReconcileOutcome, Error>(ReconcileOutcome::Success)
                    && final(self).cache@ == old(self).cache@.insert(host@, ip@),
                Err(e) => r == Err::<ReconcileOutcome, Error>(e) && final(self).cache@ == old(self).cache@,
            },
    {
        match result {
            Ok(()) => {
                self.cache.put(host, ip);
                Ok(ReconcileOutcome::Success)
            },
            Err(e) => Err(e),
        }
    }

    /// The cleanup run for a node that is being deleted.
    pub fn begin_cleanup(&self, host: String) -> (r: (CleanupRun, SyncAction))
        ensures
            r.0.domain@ == self.domain@,
            r.0.host_name == host,
            r.0.phase == CleanupPhase::ListingZones,
            r.0.pending@.len() == 0,
            r.0.next == 0,
            r.1 == SyncAction::ListZones,
    {
        delete(self.domain.clone(), host)
    }

    /// Takes the end of a cleanup run for `host`: on success `host` is
    /// forgotten; on failure the cache is left as it was and the error is
    /// handed on unchanged.
    pub fn finish_cleanup(&mut self, host: &String, result: Result<(), Error>) -> (r: Result<ReconcileOutcome, Error>)
        ensures
            final(self).domain == old(self).domain,
            match result {
                Ok(()) => r == Ok::<ReconcileOutcome, Error>(ReconcileOutcome::Success)
                    && final(self).cache@ == old(self).cache@.remove(host@),
                Err(e) => r == Err::<ReconcileOutcome, Error>(e) && final(self).cache@ == old(self).cache@,
            },
    {
        match result {
            Ok(()) => {
                self.cache.remove(host);
                Ok(ReconcileOutcome::Success)
            },
            Err(e) => Err(e),
        }
    }
}

} // verus!
