use vstd::prelude::*;

verus! {

/// After how many blocks the poller asks the node again for the number of its
/// latest block.
pub const RESYNC_INTERVAL: u64 = 20;

/// The seconds from one block to the next.
pub const BLOCK_SECONDS: u64 = 12;

/// What has happened since the poller last said what to do.
#[derive(Debug, Clone, Copy, PartialEq, Eq, Structural)]
pub enum PollEvent {
    /// A cycle begins.
    CycleStarted,
    /// The node has told the number of its latest block.
    Resynced(u64),
    /// The node could not be asked for that number.
    ResyncFailed,
    /// The report on the block was derived and shown.
    Reported,
    /// No report on the block could be had.
    ReportFailed,
}

/// What the caller has to do next.
#[derive(Debug, Clone, Copy, PartialEq, Eq, Structural)]
pub enum PollAction {
    /// Ask the node for the number of its latest block.
    Resync,
    /// Fetch this block and show the report on it.
    Report(u64),
    /// Wait this many seconds, clear the screen and begin the next cycle.
    Rest(u64),
    /// Say that the latest block number could not be had, and begin the next
    /// cycle.
    NoticeResyncFailed,
    /// Say that no report on this block could be had, and begin the next
    /// cycle.
    NoticeReportFailed(u64),
}

/// The block that is tracked after `event`, and what is to be done then.
///
/// A cycle begins with a resync where the tracked number is a multiple of
/// `RESYNC_INTERVAL`, else with the report on the tracked block. A resync
/// sets the tracked number and leads on to the report. A report that was
/// shown moves the poller on by one block; one that failed leaves it on its
/// block, which the next cycle tries again. A failed resync is not tried
/// again: it moves the poller on by one block.
pub open spec fn step_of(block: u64, event: PollEvent) -> (u64, PollAction) {
    match event {
        PollEvent::CycleStarted => if block % RESYNC_INTERVAL == 0 {
            (block, PollAction::Resync)
        } else {
            (block, PollAction::Report(block))
        },
        PollEvent::Resynced(latest) => (latest, PollAction::Report(latest)),
        PollEvent::ResyncFailed => ((block + 1) as u64, PollAction::NoticeResyncFailed),
        PollEvent::Reported => ((block + 1) as u64, PollAction::Rest(BLOCK_SECONDS)),
        PollEvent::ReportFailed => (block, PollAction::NoticeReportFailed(block)),
    }
}

/// Whether `event` moves the poller on by one block.
pub open spec fn advances(event: PollEvent) -> bool {
    event is Reported || event is ResyncFailed
}

/// Decides what follows `event` while `block` is tracked. The last block that
/// a `u64` can number cannot be left behind.
pub fn step(block: u64, event: PollEvent) -> (r: (u64, PollAction))
    requires
        advances(event) ==> block < u64::MAX,
    ensures
        r == step_of(block, event),
{
    match event {
        PollEvent::CycleStarted => {
            if block % RESYNC_INTERVAL == 0 {
                (block, PollAction::Resync)
            } else {
                (block, PollAction::Report(block))
            }
        },
        PollEvent::Resynced(latest) => (latest, PollAction::Report(latest)),
        PollEvent::ResyncFailed => (block + 1, PollAction::NoticeResyncFailed),
        PollEvent::Reported => (block + 1, PollAction::Rest(BLOCK_SECONDS)),
        PollEvent::ReportFailed => (block, PollAction::NoticeReportFailed(block)),
    }
}

} // verus!
