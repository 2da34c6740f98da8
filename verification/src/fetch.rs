//! The fetch planner: resource URLs for every dataset, and the admission
//! state machine that bounds how many retrievals run at once and makes the
//! first failure abort the whole fetch.

use vstd::prelude::*;
use crate::catalog::{TableId, spec_file_name, file_name, spec_catalog_order};
use crate::record::str_to_string;
use crate::types::{spec_hex_char, hex_str};

verus! {

/// The number of datasets fetched in one run.
pub const NUM_TABLES: usize = 12;

/// The most retrievals allowed in flight at once.
pub const MAX_IN_FLIGHT: usize = 4;

/// The canonical decimal text of an unsigned value.
pub open spec fn spec_u64_text(n: u64) -> Seq<char>
    decreases n,
{
    if n < 10 {
        seq![spec_hex_char((n % 10) as u8)]
    } else {
        spec_u64_text(n / 10) + seq![spec_hex_char((n % 10) as u8)]
    }
}

/// Writes an unsigned value as decimal text.
pub fn u64_text(n: u64) -> (r: String)
    ensures
        r@ == spec_u64_text(n),
    decreases n,
{
    if n < 10 {
        str_to_string(hex_str((n % 10) as u8))
    } else {
        let mut out = u64_text(n / 10);
        out.append(hex_str((n % 10) as u8));
        out
    }
}

/// The remote resource URL of a dataset: the fixed host and path, the
/// dataset's resource name, and the caller's timestamp as a cache-busting
/// query.
pub open spec fn spec_download_url(t: TableId, timestamp: u64) -> Seq<char> {
    "https://cdn.rebrickable.com/media/downloads/"@ + spec_file_name(t) + "?"@ + spec_u64_text(
        timestamp,
    )
}

/// Builds the remote resource URL of a dataset.
pub fn download_url(t: TableId, timestamp: u64) -> (r: String)
    ensures
        r@ == spec_download_url(t, timestamp),
{
    let mut out = str_to_string("https://cdn.rebrickable.com/media/downloads/");
    let name = file_name(t);
    out.append(name.as_str());
    out.append("?");
    let ts = u64_text(timestamp);
    out.append(ts.as_str());
    out
}

/// Relies on std::time::SystemTime::now and duration_since: the seconds
/// since the epoch, or `None` where the clock reads before the epoch. The
/// result depends on the clock, so nothing is promised of it.
#[verifier::external_body]
pub fn current_timestamp() -> (r: Option<u64>) {
    match std::time::SystemTime::now().duration_since(std::time::SystemTime::UNIX_EPOCH) {
        Ok(d) => Some(d.as_secs()),
        Err(_) => None,
    }
}

/// The admission state of one fetch run: how many of the catalog's tasks
/// have been handed out, how many are in flight, how many finished, and
/// whether any finished task failed.
pub struct FetchState {
    pub started: usize,
    pub in_flight: usize,
    pub completed: usize,
    pub failed: bool,
}

impl FetchState {
    /// The state's invariant: no more than the catalog's tasks are ever
    /// handed out, every handed-out task is in flight or finished, and the
    /// in-flight count never exceeds the admission bound.
    pub open spec fn wf(self) -> bool {
        &&& self.started <= NUM_TABLES
        &&& self.completed + self.in_flight == self.started
        &&& self.in_flight <= MAX_IN_FLIGHT
    }

    /// Whether the run may hand out another task: only while no task has
    /// failed, tasks remain, and a permit is free.
    pub open spec fn spec_can_start(self) -> bool {
        &&& !self.failed
        &&& self.started < NUM_TABLES
        &&& self.in_flight < MAX_IN_FLIGHT
    }

    /// Whether the run is over: every task finished, or one failed and the
    /// rest are no longer awaited.
    pub open spec fn spec_done(self) -> bool {
        ||| self.failed
        ||| (self.started == NUM_TABLES && self.in_flight == 0)
    }

    /// A fresh run: nothing started, nothing failed.
    pub fn new() -> (r: FetchState)
        ensures
            r.wf(),
            r.started == 0,
            r.in_flight == 0,
            r.completed == 0,
            !r.failed,
    {
        FetchState { started: 0, in_flight: 0, completed: 0, failed: false }
    }

    /// Whether another task may be handed out now.
    pub fn can_start(&self) -> (r: bool)
        ensures
            r == self.spec_can_start(),
    {
        !self.failed && self.started < NUM_TABLES && self.in_flight < MAX_IN_FLIGHT
    }

    /// Hands out the next task — the index into the catalog order — and
    /// takes one of the permits.
    pub fn start(&mut self) -> (r: usize)
        requires
            old(self).wf(),
            old(self).spec_can_start(),
        ensures
            final(self).wf(),
            r == old(self).started,
            r < spec_catalog_order().len(),
            final(self).started == old(self).started + 1,
            final(self).in_flight == old(self).in_flight + 1,
            final(self).completed == old(self).completed,
            final(self).failed == old(self).failed,
    {
        let r = self.started;
        self.started = self.started + 1;
        self.in_flight = self.in_flight + 1;
        r
    }

    /// Records one finished task, releasing its permit; a failure makes the
    /// whole run failed, for good.
    pub fn complete(&mut self, success: bool) -> (r: ())
        requires
            old(self).wf(),
            old(self).in_flight > 0,
        ensures
            final(self).wf(),
            final(self).started == old(self).started,
            final(self).in_flight == old(self).in_flight - 1,
            final(self).completed == old(self).completed + 1,
            final(self).failed == (old(self).failed || !success),
    {
        self.in_flight = self.in_flight - 1;
        self.completed = self.completed + 1;
        if !success {
            self.failed = true;
        }
    }

    /// Whether the run is over.
    pub fn done(&self) -> (r: bool)
        ensures
            r == self.spec_done(),
    {
        self.failed || (self.started == NUM_TABLES && self.in_flight == 0)
    }

    /// Whether a finished run succeeded: only when every task finished and
    /// none failed.
    pub fn succeeded(&self) -> (r: bool)
        ensures
            r == (!self.failed && self.completed == NUM_TABLES),
    {
        !self.failed && self.completed == NUM_TABLES
    }
}

/// The in-flight count never exceeds the admission bound in any reachable
/// state: the bound holds in every well-formed state, and every operation
/// preserves well-formedness.
pub proof fn lemma_concurrency_bound(s: FetchState)
    requires
        s.wf(),
    ensures
        s.in_flight <= 4,
{
}

/// Once a task has failed, no further task is ever handed out.
pub proof fn lemma_no_start_after_failure(s: FetchState)
    requires
        s.failed,
    ensures
        !s.spec_can_start(),
{
}

/// A failed run is done — the coordinator stops waiting at once — and is
/// never reported successful.
pub proof fn lemma_fail_fast(s: FetchState)
    requires
        s.failed,
    ensures
        s.spec_done(),
        !(!s.failed && s.completed == NUM_TABLES),
{
}

/// What the dump operation does about an output that may already exist:
/// refuse where it exists and overwriting was not asked for; remove it
/// first where it exists and overwriting was asked for.
#[derive(Copy, Clone, Eq, PartialEq, Structural, Debug)]
pub enum OutputDecision {
    Proceed,
    RemoveThenProceed,
    Refuse,
}

/// Decides how to treat a pre-existing output.
pub fn decide_output(exists: bool, overwrite: bool) -> (r: OutputDecision)
    ensures
        r == OutputDecision::Proceed <==> !exists,
        r == OutputDecision::RemoveThenProceed <==> (exists && overwrite),
        r == OutputDecision::Refuse <==> (exists && !overwrite),
{
    if !exists {
        OutputDecision::Proceed
    } else if overwrite {
        OutputDecision::RemoveThenProceed
    } else {
        OutputDecision::Refuse
    }
}

} // verus!
