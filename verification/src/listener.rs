//! The event-dispatch core: classifies each received metric event and renders
//! the matching report. The suspending channel loop itself is unverified
//! plumbing around this module; every decision it takes — which renderer an
//! event goes to, that events are handled one at a time in arrival order, and
//! that exhaustion of the queue is the only termination — is stated and
//! proved here.
use vstd::prelude::*;

use crate::cache::{print_state_size, record_report_v, state_size_v, CacheDbRecord, CycleRate};
use crate::commons::{lemma_lines_v_concat, lines_v, LineV, ReportLine};

verus! {

/// A metric event: one variant per metric family that is compiled in, each
/// carrying the block number it was measured at and the family's counter
/// snapshot. Consumed exactly once, never mutated.
pub enum MetricEvent {
    /// Cached-state metrics: the state size at the block, and the cache
    /// counter snapshot with its penalty percentile histogram.
    CacheDbInfo { block_number: u64, size: usize, record: CacheDbRecord },
}

impl MetricEvent {
    pub open spec fn wf(self) -> bool {
        match self {
            MetricEvent::CacheDbInfo { record, .. } => record.wf(),
        }
    }

    /// Executable check of `wf`, for the unverified channel shell.
    pub fn wf_check(&self) -> (b: bool)
        ensures
            b == self.wf(),
    {
        match self {
            MetricEvent::CacheDbInfo { record, .. } => record.wf_check(),
        }
    }
}

/// The report one event is answered with: the state-size announcement, then
/// the snapshot's full report.
pub open spec fn event_report_v(e: MetricEvent, rate: CycleRate) -> Seq<LineV> {
    match e {
        MetricEvent::CacheDbInfo { block_number, size, record } => state_size_v(block_number, size)
            + record_report_v(record, rate),
    }
}

/// Classifies one event by its kind and renders the matching report.
pub fn handle_event(event: &MetricEvent, rate: &CycleRate) -> (r: Vec<ReportLine>)
    requires
        event.wf(),
        rate.wf(),
    ensures
        lines_v(r@) == event_report_v(*event, *rate),
{
    match event {
        MetricEvent::CacheDbInfo { block_number, size, record } => {
            let mut r = print_state_size(*block_number, *size);
            let ghost head = r@;
            let mut report = record.print(*block_number, rate);
            let ghost report_snap = report@;
            r.append(&mut report);
            proof {
                lemma_lines_v_concat(head, report_snap);
            }
            r
        },
    }
}

/// What one turn of the dispatch loop did with what the channel handed it.
pub enum DispatchStep {
    /// An event arrived and was rendered to this report.
    Report(Vec<ReportLine>),
    /// The channel is closed and drained: the loop is over.
    Terminated,
}

/// One turn of the dispatch loop: an arrived event is classified and
/// rendered; a closed channel — and nothing else — ends the loop.
pub fn dispatch_step(next: Option<MetricEvent>, rate: &CycleRate) -> (s: DispatchStep)
    requires
        rate.wf(),
        next matches Some(e) ==> e.wf(),
    ensures
        match next {
            Some(e) => s matches DispatchStep::Report(lines) && lines_v(lines@)
                == event_report_v(e, *rate),
            None => s is Terminated,
        },
{
    match next {
        Some(event) => DispatchStep::Report(handle_event(&event, rate)),
        None => DispatchStep::Terminated,
    }
}

/// The dispatch loop over a whole queue of events: every event is handled
/// exactly once, in arrival order, and the loop terminates exactly when the
/// queue is exhausted — three enqueued events mean exactly three reports, in
/// the order the events came; an empty queue means none.
pub fn handle_all(events: &Vec<MetricEvent>, rate: &CycleRate) -> (reports: Vec<Vec<ReportLine>>)
    requires
        rate.wf(),
        forall|i: int| 0 <= i < events@.len() ==> (#[trigger] events@[i]).wf(),
    ensures
        reports@.len() == events@.len(),
        forall|i: int|
            0 <= i < events@.len() ==> lines_v(#[trigger] reports@[i]@) == event_report_v(
                events@[i],
                *rate,
            ),
{
    let mut reports: Vec<Vec<ReportLine>> = Vec::new();
    let mut i: usize = 0;
    while i < events.len()
        invariant
            rate.wf(),
            forall|t: int| 0 <= t < events@.len() ==> (#[trigger] events@[t]).wf(),
            0 <= i <= events@.len(),
            reports@.len() == i,
            forall|t: int|
                0 <= t < i ==> lines_v(#[trigger] reports@[t]@) == event_report_v(
                    events@[t],
                    *rate,
                ),
        decreases events@.len() - i,
    {
        let report = handle_event(&events[i], rate);
        reports.push(report);
        i = i + 1;
    }
    reports
}

} // verus!
