//! The course of a scan: resolve the target, locate its heap, then read
//! and render window after window. The caller does the outside work that
//! each state asks for and reports what came of it.

use vstd::prelude::*;
use crate::dump::{
    failure_line, failure_text, render, renders, text_of, DumpConfig, Outcome, ReadWindow, WINDOW,
};
use crate::maps::{locate_heap, located, LocateError, MemoryRegion};
use crate::resolve::{parse_pid, resolved, ResolveError};

verus! {

/// Why a scan ended before its first window.
#[derive(Clone, Copy, Debug, PartialEq, Eq, Structural)]
pub enum ScanError {
    /// No process has the name.
    NotFound,
    /// The lookup's answer names no process identifier.
    MalformedResult,
    /// The region table could not be read.
    AccessDenied,
    /// The region table has no heap.
    HeapNotFound,
    /// The heap's line of the region table names no range.
    MalformedEntry,
}

/// Where a scan stands, and with it what the caller is to do next.
#[derive(Clone, Copy, Debug, PartialEq, Eq, Structural)]
pub enum ScanState {
    /// Nothing was done yet.
    Start,
    /// The caller looks the target up by name.
    Resolving,
    /// The caller reads the region table of `pid`.
    Locating { pid: i32 },
    /// The caller reads the window at `cursor` from `pid`.
    Scanning { pid: i32, region: MemoryRegion, cursor: usize },
    /// Every window was visited.
    Done,
    /// The scan was given up.
    Aborted { error: ScanError },
}

/// The state in which the scan of a region begins: at its start, or done
/// at once where the region holds no address.
pub open spec fn entered(pid: i32, region: MemoryRegion) -> ScanState {
    if region.start <= region.end {
        ScanState::Scanning { pid, region, cursor: region.start }
    } else {
        ScanState::Done
    }
}

/// The state after the lookup has answered `output`.
pub open spec fn lookup_step(state: ScanState, output: Seq<u8>) -> ScanState {
    match state {
        ScanState::Resolving => match resolved(output) {
            Ok(pid) => ScanState::Locating { pid },
            Err(ResolveError::NotFound) => ScanState::Aborted { error: ScanError::NotFound },
            Err(ResolveError::MalformedResult) => ScanState::Aborted {
                error: ScanError::MalformedResult,
            },
        },
        other => other,
    }
}

/// The state after the region table was read, or could not be.
pub open spec fn table_step(state: ScanState, table: Option<Seq<u8>>) -> ScanState {
    match state {
        ScanState::Locating { pid } => match table {
            None => ScanState::Aborted { error: ScanError::AccessDenied },
            Some(text) => match located(text) {
                Ok(region) => entered(pid, region),
                Err(LocateError::HeapNotFound) => ScanState::Aborted {
                    error: ScanError::HeapNotFound,
                },
                Err(LocateError::MalformedEntry) => ScanState::Aborted {
                    error: ScanError::MalformedEntry,
                },
            },
        },
        other => other,
    }
}

/// The state after the read of the current window. `delivered` tells
/// whether the read gave its bytes; the step is the same either way.
pub open spec fn window_step(state: ScanState, delivered: bool) -> ScanState {
    match state {
        ScanState::Scanning { pid, region, cursor } => if cursor + WINDOW <= region.end {
            ScanState::Scanning { pid, region, cursor: (cursor + WINDOW) as usize }
        } else {
            ScanState::Done
        },
        other => other,
    }
}

/// The cursor of a scan under way lies within the region, a whole number
/// of windows from its start.
pub open spec fn well_formed(state: ScanState) -> bool {
    match state {
        ScanState::Scanning { pid, region, cursor } => {
            &&& region.start <= cursor <= region.end
            &&& (cursor - region.start) % (WINDOW as int) == 0
        },
        _ => true,
    }
}

/// No step leads out of the well-formed states, and a scan enters its
/// region in one.
pub proof fn lemma_steps_keep_well_formed(
    state: ScanState,
    output: Seq<u8>,
    table: Option<Seq<u8>>,
    delivered: bool,
)
    requires
        well_formed(state),
    ensures
        well_formed(lookup_step(state, output)),
        well_formed(table_step(state, table)),
        well_formed(window_step(state, delivered)),
{
}

/// The number of windows that the scan of a region reads.
pub open spec fn window_count(region: MemoryRegion) -> nat {
    if region.start <= region.end {
        ((region.end - region.start) / (WINDOW as int) + 1) as nat
    } else {
        0
    }
}

/// The address of window `k` of a region, counted from zero.
pub open spec fn window_address(region: MemoryRegion, k: nat) -> int {
    region.start + k * WINDOW
}

/// The state of the scan of a region after one read for each entry of
/// `outcomes`, which tells whether that read delivered.
pub open spec fn state_after(pid: i32, region: MemoryRegion, outcomes: Seq<bool>) -> ScanState
    decreases outcomes.len(),
{
    if outcomes.len() == 0 {
        entered(pid, region)
    } else {
        window_step(state_after(pid, region, outcomes.drop_last()), outcomes.last())
    }
}

/// The windows of a region lie one window's length apart from its start
/// on, each at an address within the region, and the address after the
/// last is the first beyond the region's end.
pub proof fn lemma_window_addresses(region: MemoryRegion, k: nat)
    ensures
        window_address(region, 0) == region.start,
        window_address(region, k + 1) == window_address(region, k) + WINDOW,
        k < window_count(region) <==> window_address(region, k) <= region.end,
{
    assert((k + 1) * 16 == k * 16 + 16);
}

/// Whatever the reads deliver, the scan visits the same windows: after
/// `n` reads it stands at window `n`, or is done once the region's windows
/// are used up. So no failed read halts it or makes it skip a window.
pub proof fn lemma_scan_visits_each_window(pid: i32, region: MemoryRegion, outcomes: Seq<bool>)
    ensures
        state_after(pid, region, outcomes) == if outcomes.len() < window_count(region) {
            ScanState::Scanning {
                pid,
                region,
                cursor: window_address(region, outcomes.len()) as usize,
            }
        } else {
            ScanState::Done
        },
        outcomes.len() < window_count(region) ==> region.start <= window_address(
            region,
            outcomes.len(),
        ) <= region.end,
    decreases outcomes.len(),
{
    lemma_window_addresses(region, outcomes.len());
    if outcomes.len() > 0 {
        let before = outcomes.drop_last();
        lemma_scan_visits_each_window(pid, region, before);
        lemma_window_addresses(region, before.len());
    }
}

impl ScanState {
    /// A scan on which nothing was done yet.
    pub fn new() -> (state: ScanState)
        ensures
            state == ScanState::Start,
    {
        ScanState::Start
    }

    /// Sets out: from `Start` to `Resolving`. Any other state stays.
    pub fn begin(self) -> (next: ScanState)
        ensures
            next == if self == ScanState::Start {
                ScanState::Resolving
            } else {
                self
            },
    {
        match self {
            ScanState::Start => ScanState::Resolving,
            other => other,
        }
    }

    /// Takes the lookup's answer: on to `Locating` with the first
    /// identifier listed, or given up where there is none.
    pub fn on_lookup(self, output: &[u8]) -> (next: ScanState)
        ensures
            next == lookup_step(self, output@),
    {
        match self {
            ScanState::Resolving => match parse_pid(output) {
                Ok(pid) => ScanState::Locating { pid },
                Err(ResolveError::NotFound) => ScanState::Aborted { error: ScanError::NotFound },
                Err(ResolveError::MalformedResult) => ScanState::Aborted {
                    error: ScanError::MalformedResult,
                },
            },
            other => other,
        }
    }

    /// Takes the text of the region table, or `None` where it could not be
    /// read: on to the first window of the heap, or given up.
    pub fn on_table(self, table: Option<&[u8]>) -> (next: ScanState)
        ensures
            next == table_step(
                self,
                match table {
                    Some(text) => Some(text@),
                    None => None,
                },
            ),
    {
        match self {
            ScanState::Locating { pid } => match table {
                None => ScanState::Aborted { error: ScanError::AccessDenied },
                Some(text) => match locate_heap(text) {
                    Ok(region) => if region.start <= region.end {
                        ScanState::Scanning { pid, region, cursor: region.start }
                    } else {
                        ScanState::Done
                    },
                    Err(LocateError::HeapNotFound) => ScanState::Aborted {
                        error: ScanError::HeapNotFound,
                    },
                    Err(LocateError::MalformedEntry) => ScanState::Aborted {
                        error: ScanError::MalformedEntry,
                    },
                },
            },
            other => other,
        }
    }

    /// Takes what the read of the current window gave, its bytes or `None`
    /// for a failed read: the line to write, if any, and the state for the
    /// next window. The next state is the same whether the read failed or
    /// not. Outside `Scanning` nothing is written and the state stays.
    pub fn on_window(self, bytes: Option<[u8; 16]>, config: &DumpConfig) -> (r: (
        ScanState,
        Option<String>,
    ))
        ensures
            r.0 == window_step(self, bytes.is_some()),
            match self {
                ScanState::Scanning { pid, region, cursor } => match bytes {
                    Some(b) => renders(
                        text_of(r.1),
                        (ReadWindow { address: cursor, bytes: b, outcome: Outcome::Success }),
                        *config,
                    ),
                    None => text_of(r.1) == Some(failure_text()),
                },
                _ => r.1.is_none(),
            },
    {
        match self {
            ScanState::Scanning { pid, region, cursor } => {
                let line = match bytes {
                    Some(b) => render(
                        &ReadWindow { address: cursor, bytes: b, outcome: Outcome::Success },
                        config,
                    ),
                    None => Some(failure_line()),
                };
                let next = if cursor <= region.end && region.end - cursor >= WINDOW {
                    ScanState::Scanning { pid, region, cursor: cursor + WINDOW }
                } else {
                    ScanState::Done
                };
                (next, line)
            },
            other => (other, None),
        }
    }
}

} // verus!
