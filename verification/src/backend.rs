//! Detection of the delay mechanism to sleep with.
//!
//! Under a compatibility layer that reimplements the native interface,
//! high-resolution waitable timers are missing or imprecise, while the
//! lower-level delay call stays precise. The layer gives itself away by a
//! marker symbol in the system's core library. Detection is a short chain of
//! lookups, each made only if the one before it succeeded: the caller performs
//! a lookup, reports whether it found anything, and is told what comes next.

use vstd::prelude::*;

verus! {

/// The mechanism through which coarse delays are issued.
#[derive(Clone, Copy, Debug, PartialEq, Eq)]
pub enum DelayBackend {
    /// The low-level delay entry point of the core library.
    NativeDelay,
    /// A high-resolution waitable timer owned by the sleeping thread.
    WaitableTimer,
}

/// One lookup of the detection chain.
#[derive(Clone, Copy, Debug, PartialEq, Eq)]
pub enum Lookup {
    /// Locate the system's core library.
    CoreLibrary,
    /// Resolve the marker symbol that only the compatibility layer exports.
    CompatibilityMarker,
    /// Resolve the low-level delay entry point.
    DelayEntry,
}

/// How far detection has come.
#[derive(Clone, Copy, Debug, PartialEq, Eq)]
pub enum Detection {
    /// The lookup to perform next.
    Pending(Lookup),
    /// The backend that was chosen; nothing is left to look up.
    Selected(DelayBackend),
}

/// The backend that fits the outcomes of the three lookups: the native delay
/// call where the core library, the marker and the delay entry point were all
/// found, the waitable timer otherwise.
pub open spec fn backend_for(library: bool, marker: bool, entry: bool) -> DelayBackend {
    if library && marker && entry {
        DelayBackend::NativeDelay
    } else {
        DelayBackend::WaitableTimer
    }
}

/// Detection before any lookup was made.
pub open spec fn detection_start() -> Detection {
    Detection::Pending(Lookup::CoreLibrary)
}

/// Detection after the pending lookup reported `found`. A failed lookup
/// settles for the waitable timer; a selection, once made, stays.
pub open spec fn detection_next(state: Detection, found: bool) -> Detection {
    match state {
        Detection::Pending(Lookup::CoreLibrary) => if found {
            Detection::Pending(Lookup::CompatibilityMarker)
        } else {
            Detection::Selected(DelayBackend::WaitableTimer)
        },
        Detection::Pending(Lookup::CompatibilityMarker) => if found {
            Detection::Pending(Lookup::DelayEntry)
        } else {
            Detection::Selected(DelayBackend::WaitableTimer)
        },
        Detection::Pending(Lookup::DelayEntry) => if found {
            Detection::Selected(DelayBackend::NativeDelay)
        } else {
            Detection::Selected(DelayBackend::WaitableTimer)
        },
        Detection::Selected(backend) => Detection::Selected(backend),
    }
}

/// Starts detection: the core library is looked up first.
pub fn begin_detection() -> (r: Detection)
    ensures
        r == detection_start(),
{
    Detection::Pending(Lookup::CoreLibrary)
}

/// Advances detection by the outcome of the pending lookup.
pub fn select_backend(state: Detection, found: bool) -> (r: Detection)
    ensures
        r == detection_next(state, found),
{
    match state {
        Detection::Pending(lookup) => {
            if !found {
                Detection::Selected(DelayBackend::WaitableTimer)
            } else {
                match lookup {
                    Lookup::CoreLibrary => Detection::Pending(Lookup::CompatibilityMarker),
                    Lookup::CompatibilityMarker => Detection::Pending(Lookup::DelayEntry),
                    Lookup::DelayEntry => Detection::Selected(DelayBackend::NativeDelay),
                }
            }
        },
        Detection::Selected(backend) => Detection::Selected(backend),
    }
}

/// Three reports always settle detection, and on the backend that fits them:
/// the native delay call exactly when all three lookups succeeded.
pub proof fn lemma_detection_settles(library: bool, marker: bool, entry: bool)
    ensures
        detection_next(detection_next(detection_next(detection_start(), library), marker), entry)
            == Detection::Selected(backend_for(library, marker, entry)),
{
}

/// A lookup is asked for only while every lookup before it succeeded: the
/// marker only once the core library was found, the delay entry point only
/// once the marker was found too. Until then detection has settled for the
/// waitable timer.
pub proof fn lemma_lookups_in_order(library: bool, marker: bool)
    ensures
        detection_next(detection_start(), library) == (if library {
            Detection::Pending(Lookup::CompatibilityMarker)
        } else {
            Detection::Selected(DelayBackend::WaitableTimer)
        }),
        detection_next(detection_next(detection_start(), library), marker) == (if library
            && marker {
            Detection::Pending(Lookup::DelayEntry)
        } else {
            Detection::Selected(DelayBackend::WaitableTimer)
        }),
{
}

/// A selection is final: whatever is reported afterwards, and however often,
/// the backend stays the one that was selected first.
pub proof fn lemma_selection_is_final(backend: DelayBackend, found: bool)
    ensures
        detection_next(Detection::Selected(backend), found) == Detection::Selected(backend),
{
}

} // verus!
