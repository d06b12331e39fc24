use crate::classify::{
    body_accepted, first_text_block, is_success_status, parse_classifier_reply, reply_fields_ok,
    status_ok, ProviderResponse, ReplyFields,
};
use crate::scan::{scan, spec_candidates, spec_skips, Candidate, FsEntry, SkipRecord};
use vstd::prelude::*;

verus! {

/// The seconds a unit waits after discovery before reading its file, so a
/// file still being written has settled.
pub const DEBOUNCE_SECS: u64 = 2;

/// A suggested rename and category for one candidate, pending approval.
/// The identifier is the original file name, scoped to one run.
pub struct Proposal {
    pub id: String,
    pub original_path: String,
    pub original_name: String,
    pub proposed_name: String,
    pub proposed_category: String,
    pub reasoning: String,
}

/// One outbound notification the pipeline pushes to the user interface.
pub enum FileEvent {
    ScanSummary(usize),
    Processing(String),
    Skipped(SkipRecord),
    Proposed(Proposal),
    Failed(String),
}

impl FileEvent {
    /// The channel name under which this event is announced.
    pub fn channel(&self) -> (r: &'static str)
        ensures
            r@ == match *self {
                FileEvent::ScanSummary(_) => "scan-summary"@,
                FileEvent::Processing(_) => "file-processing"@,
                FileEvent::Skipped(_) => "file-skipped"@,
                FileEvent::Proposed(_) => "file-proposed"@,
                FileEvent::Failed(_) => "file-failed"@,
            },
    {
        match self {
            FileEvent::ScanSummary(_) => "scan-summary",
            FileEvent::Processing(_) => "file-processing",
            FileEvent::Skipped(_) => "file-skipped",
            FileEvent::Proposed(_) => "file-proposed",
            FileEvent::Failed(_) => "file-failed",
        }
    }
}

/// What a unit observed of one exchange: `None` where the request did
/// not complete at all (network failure or timeout), the status and body
/// otherwise.
pub open spec fn response_view(response: Option<&ProviderResponse>) -> Option<ProviderResponse> {
    match response {
        Some(r) => Some(*r),
        None => None,
    }
}

/// `e` is the one terminal event a unit announces for candidate `c` after
/// observing `response`: a proposal carrying exactly the accepted reply's
/// fields where the provider answered with a success status and an
/// accepted body, and a failure naming the file in every other case — a
/// transport failure, a non-success status whatever its body holds, or a
/// body that fails the reply contract.
pub open spec fn is_conclusion(c: Candidate, response: Option<ProviderResponse>, e: FileEvent) -> bool {
    match response {
        Some(r) => {
            if status_ok(r.status) && body_accepted(r.body@) {
                &&& e matches FileEvent::Proposed(p)
                &&& p.id == c.name
                &&& p.original_path == c.path
                &&& p.original_name == c.name
                &&& reply_fields_ok(
                    first_text_block(r.body@)->0,
                    ReplyFields {
                        new_filename: p.proposed_name,
                        category: p.proposed_category,
                        reasoning: p.reasoning,
                    },
                )
            } else {
                e matches FileEvent::Failed(n) && n == c.name
            }
        },
        None => e matches FileEvent::Failed(n) && n == c.name,
    }
}

/// The announcement every unit makes first, before any waiting or reading.
pub fn processing_event(c: &Candidate) -> (e: FileEvent)
    ensures
        e matches FileEvent::Processing(n) && n == c.name,
{
    FileEvent::Processing(c.name.clone())
}

/// The announcement made for one oversize file during a scan.
pub fn skipped_event(s: SkipRecord) -> (e: FileEvent)
    ensures
        e matches FileEvent::Skipped(r) && r == s,
{
    FileEvent::Skipped(s)
}

/// The announcement carrying the number of dispatched candidates.
pub fn summary_event(count: usize) -> (e: FileEvent)
    ensures
        e matches FileEvent::ScanSummary(n) && n == count,
{
    FileEvent::ScanSummary(count)
}

/// The announcement a unit makes when reading its file failed.
pub fn read_failed_event(c: &Candidate) -> (e: FileEvent)
    ensures
        is_conclusion(*c, None, e),
{
    FileEvent::Failed(c.name.clone())
}

/// Concludes one classification unit: turns the provider's response —
/// `None` where the request did not complete — into the unit's single
/// terminal event. A proposal arises only from a success status with an
/// accepted body; a non-success status is a failure even when its body
/// happens to carry the expected shape.
pub fn conclude_unit(c: &Candidate, response: Option<&ProviderResponse>) -> (e: FileEvent)
    ensures
        is_conclusion(*c, response_view(response), e),
        e is Proposed <==> (response matches Some(r) && status_ok(r.status) && body_accepted(
            r.body@,
        )),
{
    match response {
        Some(r) => {
            if is_success_status(r.status) {
                match parse_classifier_reply(r.body.as_str()) {
                    Some(f) => FileEvent::Proposed(
                        Proposal {
                            id: c.name.clone(),
                            original_path: c.path.clone(),
                            original_name: c.name.clone(),
                            proposed_name: f.new_filename,
                            proposed_category: f.category,
                            reasoning: f.reasoning,
                        },
                    ),
                    None => FileEvent::Failed(c.name.clone()),
                }
            } else {
                FileEvent::Failed(c.name.clone())
            }
        },
        None => FileEvent::Failed(c.name.clone()),
    }
}

/// For one dispatched file the observable event sequence is exactly
/// processing followed by one terminal event: proposed where the provider
/// answered with a success status and an accepted body, failed in every
/// other case — never both terminals, never a conclusion that is itself a
/// processing announcement.
pub proof fn lemma_unit_lifecycle(
    c: Candidate,
    response: Option<ProviderResponse>,
    start: FileEvent,
    end: FileEvent,
)
    requires
        start matches FileEvent::Processing(n) && n == c.name,
        is_conclusion(c, response, end),
    ensures
        start is Processing,
        end is Proposed || end is Failed,
        (end is Proposed) <==> (response matches Some(r) && status_ok(r.status) && body_accepted(
            r.body@,
        )),
        (end is Failed) <==> !(response matches Some(r) && status_ok(r.status) && body_accepted(
            r.body@,
        )),
        !(end is Processing),
{
}

/// The bounded work pool of one run: the candidates not yet dispatched
/// and the number of units in flight, capped by the configured limit.
pub struct Dispatcher {
    pub pending: Vec<Candidate>,
    pub in_flight: usize,
    pub limit: usize,
}

impl Dispatcher {
    /// The pool invariant: a positive limit that the number of in-flight
    /// units never exceeds.
    pub open spec fn wf(&self) -> bool {
        1 <= self.limit && self.in_flight <= self.limit
    }

    /// Creates the pool for one run with the given concurrency limit.
    pub fn new(candidates: Vec<Candidate>, limit: usize) -> (d: Dispatcher)
        requires
            limit >= 1,
        ensures
            d.wf(),
            d.pending == candidates,
            d.in_flight == 0,
            d.limit == limit,
    {
        Dispatcher { pending: candidates, in_flight: 0, limit }
    }

    /// Hands out the next candidate to dispatch, or refuses: `None`
    /// exactly when the cap is reached or the pool is drained. Units are
    /// handed out in no promised order.
    pub fn try_start(&mut self) -> (r: Option<Candidate>)
        requires
            old(self).wf(),
        ensures
            final(self).wf(),
            final(self).limit == old(self).limit,
            r is Some <==> (old(self).in_flight < old(self).limit && old(self).pending@.len()
                > 0),
            r matches Some(c) ==> c == old(self).pending@.last() && final(self).pending@ == old(
                self,
            ).pending@.drop_last() && final(self).in_flight == old(self).in_flight + 1,
            r is None ==> final(self).pending@ == old(self).pending@ && final(self).in_flight
                == old(self).in_flight,
    {
        if self.in_flight < self.limit {
            match self.pending.pop() {
                Some(c) => {
                    self.in_flight = self.in_flight + 1;
                    Some(c)
                },
                None => None,
            }
        } else {
            None
        }
    }

    /// Records the completion of one in-flight unit, freeing its slot.
    pub fn finish_one(&mut self)
        requires
            old(self).wf(),
            old(self).in_flight > 0,
        ensures
            final(self).wf(),
            final(self).in_flight == old(self).in_flight - 1,
            final(self).pending == old(self).pending,
            final(self).limit == old(self).limit,
    {
        self.in_flight = self.in_flight - 1;
    }
}

/// With a configured limit, at no instant are more units in flight than
/// the limit allows: the bound is part of the pool invariant, and every
/// pool operation preserves it.
pub proof fn lemma_concurrency_bound(d: Dispatcher)
    requires
        d.wf(),
    ensures
        d.in_flight <= d.limit,
{
}

/// Everything the start of a run decides before any unit is launched:
/// the skip announcements, the summary count, and the bounded pool
/// holding every accepted candidate.
pub struct RunPlan {
    pub skipped: Vec<SkipRecord>,
    pub summary: usize,
    pub pool: Dispatcher,
}

/// Plans one classification run over the scanned entries: partitions them,
/// counts the candidates for the summary announcement, and fills the pool.
pub fn plan_run(entries: &Vec<FsEntry>, limit: usize) -> (r: RunPlan)
    requires
        limit >= 1,
    ensures
        r.skipped@ == spec_skips(entries@),
        r.summary == spec_candidates(entries@).len(),
        r.pool.wf(),
        r.pool.pending@ == spec_candidates(entries@),
        r.pool.in_flight == 0,
        r.pool.limit == limit,
{
    let sr = scan(entries);
    let summary = sr.candidates.len();
    RunPlan { skipped: sr.skipped, summary, pool: Dispatcher::new(sr.candidates, limit) }
}

/// The acknowledgment of a stop request. Stopping is coarse and
/// best-effort: no new work is accepted, but units already dispatched run
/// to completion and are not cancelled mid-flight.
pub fn stop_acknowledgment() -> (r: &'static str)
    ensures
        r@ == "Stopped watching"@,
{
    "Stopped watching"
}

/// The state one session keeps across runs: the current credential,
/// replaced wholesale each time a new run starts.
pub struct RunState {
    pub api_key: String,
}

impl RunState {
    /// A session holding no credential yet.
    pub fn new() -> (s: RunState)
        ensures
            s.api_key@ == Seq::<char>::empty(),
    {
        RunState { api_key: String::new() }
    }

    /// Starting a run replaces the stored credential with the one supplied.
    pub fn set_credential(&mut self, key: String)
        ensures
            final(self).api_key == key,
    {
        self.api_key = key;
    }
}

} // verus!
