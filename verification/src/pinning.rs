//! Scoped CPU-affinity control.
//!
//! The OS affinity mask is global mutable state that is easy to leak: a pin
//! that is not undone silently degrades every later build onto the wrong
//! cores.  The controller here therefore offers no bare set/unset pair; the
//! only way to change the mask is [`with_pinned`], which captures the current
//! mask, applies the new one, runs the body, and restores the captured mask on
//! every exit path.  A failed restoration is reported separately and never
//! hides the body's own outcome.

use vstd::prelude::*;
use vstd::seq_lib::*;

verus! {

/// Capacity of the fixed-size CPU set the pinning backend fills: unit indices
/// at or above this bound cannot be represented in one mask.
pub const UNIT_LIMIT: usize = 1024;

/// Handle on the calling thread's OS affinity mask.
///
/// The ghost state models the OS: `avail` is the set of execution units the
/// kernel grants this thread (fixed for the life of the thread), and `mask`
/// is the thread's current affinity mask.  Both exist from the start and are
/// unknown until observed.  The model assumes this controller is the only
/// manipulator of the thread's mask while it is in use, and that the grant
/// set does not change under it.
pub struct AffinityCtl {
    avail: Ghost<Set<usize>>,
    mask: Ghost<Set<usize>>,
}

/// Error from an affinity get or set operation, carrying the OS-level
/// diagnostic text.
#[derive(Debug)]
pub struct AffinityError {
    pub message: String,
}

/// Outcome of a scoped pin whose body ran: the body's own result, plus the
/// error of the mask restoration if that failed.  Restoration failure is
/// reported here rather than as a top-level error so that it never masks the
/// body's outcome.
#[derive(Debug)]
pub struct PinOutcome<T> {
    pub result: T,
    pub restore_error: Option<AffinityError>,
}

impl AffinityCtl {
    /// The thread's current affinity mask, as the model knows it.
    pub closed spec fn spec_mask(self) -> Set<usize> {
        self.mask@
    }

    /// The set of execution units the kernel grants this thread.
    pub closed spec fn spec_avail(self) -> Set<usize> {
        self.avail@
    }

    /// The model is coherent: the current mask holds granted units only.
    pub open spec fn wf(self) -> bool {
        self.spec_mask().subset_of(self.spec_avail())
    }

    /// Relies on `affinity::get_thread_affinity`: probes the thread's mask
    /// once, so a host where affinity cannot be read fails here and not in
    /// the middle of a run.  The thread's actual mask always lies within what
    /// the kernel grants; a failure carries the OS diagnostic.
    #[verifier::external_body]
    fn acquire_raw() -> (r: Result<AffinityCtl, String>)
        ensures
            r matches Ok(c) ==> c.wf(),
            r matches Err(m) ==> "failed to get affinity: "@.is_prefix_of(m@),
    {
        match affinity::get_thread_affinity() {
            Ok(_) => Ok(AffinityCtl { avail: Ghost(arbitrary()), mask: Ghost(arbitrary()) }),
            Err(e) => Err(format!("failed to get affinity: {e:?}")),
        }
    }

    /// Opens a controller on the calling thread's affinity mask; fails only
    /// when the OS cannot report the mask at all.
    pub fn new() -> (r: Result<AffinityCtl, AffinityError>)
        ensures
            r matches Ok(c) ==> c.wf(),
            r matches Err(e) ==> "failed to get affinity: "@.is_prefix_of(e.message@),
    {
        match Self::acquire_raw() {
            Ok(c) => Ok(c),
            Err(message) => Err(AffinityError { message }),
        }
    }

    /// Relies on `affinity::get_thread_affinity`: on success it returns
    /// exactly the unit indices of the thread's current mask, in ascending
    /// order without duplicates, each below the backend's fixed set capacity.
    /// The mask itself is never changed by reading it; a failure carries the
    /// OS diagnostic.
    #[verifier::external_body]
    fn read_mask(&self) -> (r: Result<Vec<usize>, String>)
        ensures
            r matches Ok(v) ==> {
                &&& v@.to_set() == self.spec_mask()
                &&& v@.no_duplicates()
                &&& forall|i: int, j: int| 0 <= i < j < v@.len() ==> v@[i] < v@[j]
                &&& forall|i: int| 0 <= i < v@.len() ==> v@[i] < UNIT_LIMIT
            },
            r matches Err(m) ==> "failed to get affinity: "@.is_prefix_of(m@),
    {
        match affinity::get_thread_affinity() {
            Ok(v) => Ok(v),
            Err(e) => Err(format!("failed to get affinity: {e:?}")),
        }
    }

    /// Relies on `affinity::set_thread_affinity`: on success the thread's
    /// mask becomes the requested units restricted to those the kernel
    /// grants; on failure the mask is untouched and the error carries the OS
    /// diagnostic.  Unit indices at or above the backend's fixed set capacity
    /// cannot be represented, so they are excluded up front.
    #[verifier::external_body]
    fn set_mask(&mut self, units: &Vec<usize>) -> (r: Result<(), String>)
        requires
            forall|i: int| 0 <= i < units@.len() ==> units@[i] < UNIT_LIMIT,
        ensures
            final(self).avail@ == old(self).avail@,
            r matches Ok(_) ==> final(self).mask@ == units@.to_set().intersect(old(self).avail@),
            r matches Err(m) ==> final(self).mask@ == old(self).mask@
                && "failed to set affinity: "@.is_prefix_of(m@),
    {
        match affinity::set_thread_affinity(units.as_slice()) {
            Ok(()) => Ok(()),
            Err(e) => Err(format!("failed to set affinity: {e:?}")),
        }
    }

    /// Reads the thread's current affinity mask: on success the returned
    /// units are exactly the current mask, duplicate-free and in ascending
    /// order, and the mask is untouched.
    pub fn current_units(&self) -> (r: Result<Vec<usize>, AffinityError>)
        ensures
            r matches Ok(v) ==> {
                &&& v@.to_set() == self.spec_mask()
                &&& v@.no_duplicates()
                &&& forall|i: int, j: int| 0 <= i < j < v@.len() ==> v@[i] < v@[j]
            },
            r matches Err(e) ==> "failed to get affinity: "@.is_prefix_of(e.message@),
    {
        match self.read_mask() {
            Ok(v) => Ok(v),
            Err(message) => Err(AffinityError { message }),
        }
    }
}

/// Runs `body` with the thread pinned to `units`, restoring the previous
/// affinity mask on every exit path.
///
/// Evidence of the pin in force while the body of [`with_pinned`] runs: the
/// units the thread may be scheduled on from the moment the pin is applied
/// until it is restored — the requested units, restricted to those the
/// kernel grants.  Only [`with_pinned`] creates one, at the moment the pin
/// holds, so a body that receives it ran pinned.
pub struct PinEvidence {
    mask: Ghost<Set<usize>>,
}

impl PinEvidence {
    /// The units the thread may run on under the pin.
    pub closed spec fn spec_mask(self) -> Set<usize> {
        self.mask@
    }
}

/// The pre-call mask is captured, the new mask applied, `body` run, and the
/// captured mask restored — also when `body`'s result is a failure of its
/// own, which is invisible here.  An error before `body` runs is returned as
/// `Err`, names the get or set operation that failed, and leaves the mask
/// exactly as it was.  A failed restoration is reported in the outcome
/// without masking the body's result.
///
/// The body receives a [`PinEvidence`] whose mask is the pin in force, a
/// subset of the requested units; on success the body's postcondition is
/// known to hold of that evidence and the returned result.
pub fn with_pinned<T, F: FnOnce(PinEvidence) -> T>(
    ctl: &mut AffinityCtl,
    units: &Vec<usize>,
    body: F,
) -> (r: Result<PinOutcome<T>, AffinityError>)
    requires
        forall|w: PinEvidence|
            w.spec_mask().subset_of(units@.to_set()) ==> call_requires(body, (w,)),
        forall|i: int| 0 <= i < units@.len() ==> units@[i] < UNIT_LIMIT,
        old(ctl).wf(),
    ensures
        final(ctl).wf(),
        final(ctl).spec_avail() == old(ctl).spec_avail(),
        r matches Err(e) ==> final(ctl).spec_mask() == old(ctl).spec_mask()
            && ("failed to get affinity: "@.is_prefix_of(e.message@)
                || "failed to set affinity: "@.is_prefix_of(e.message@)),
        r matches Ok(p) ==> exists|w: PinEvidence|
            {
                &&& w.spec_mask() == units@.to_set().intersect(old(ctl).spec_avail())
                &&& w.spec_mask().subset_of(units@.to_set())
                &&& call_ensures(body, (w,), p.result)
            },
        r matches Ok(p) ==> (p.restore_error is None ==> final(ctl).spec_mask() == old(
            ctl,
        ).spec_mask()),
        r matches Ok(p) ==> (p.restore_error matches Some(e)
            ==> "failed to set affinity: "@.is_prefix_of(e.message@) && final(ctl).spec_mask()
                == units@.to_set().intersect(old(ctl).spec_avail())),
{
    let saved = match ctl.read_mask() {
        Ok(v) => v,
        Err(message) => { return Err(AffinityError { message }) },
    };
    if let Err(message) = ctl.set_mask(units) {
        return Err(AffinityError { message });
    }
    let evidence = PinEvidence { mask: Ghost(units@.to_set().intersect(ctl.avail@)) };
    proof {
        assert(evidence.spec_mask().subset_of(units@.to_set()));
    }
    let result = body(evidence);
    match ctl.set_mask(&saved) {
        Ok(()) => {
            proof {
                assert(saved@.to_set().intersect(ctl.avail@) =~= saved@.to_set());
            }
            Ok(PinOutcome { result, restore_error: None })
        },
        Err(message) => Ok(
            PinOutcome { result, restore_error: Some(AffinityError { message }) },
        ),
    }
}

} // verus!
