//! The background-resize job's state machine and the work its worker
//! performs. The machine itself is a plain value — `Idle`, `Running`, or
//! `ReadyToCollect` with a result pair in its slot — with exactly the five
//! legal transitions; the caller owns it behind its own lock and drives the
//! worker thread, which computes `resize_job_work` and reports `finish`.

use vstd::prelude::*;
use crate::geometry::Size;
use crate::image::filter_id;
use crate::image::resized_rgba;
use crate::image::FilterKind;
use crate::image::ImageView;
use crate::image::RasterImage;

verus! {

/// Where a resize job stands.
#[derive(Clone, Copy, PartialEq, Eq, Structural, Debug)]
pub enum ResizeJobState {
    Idle,
    Running,
    ReadyToCollect,
}

/// The shared slot and state tag of one background resize.
pub struct ResizeJob {
    state: ResizeJobState,
    slot: Option<(RasterImage, RasterImage)>,
}

impl ResizeJob {
    #[verifier::type_invariant]
    spec fn inv(self) -> bool {
        (self.state is ReadyToCollect) <==> (self.slot is Some)
    }

    pub closed spec fn state_view(self) -> ResizeJobState {
        self.state
    }

    pub closed spec fn slot_view(self) -> Option<(ImageView, ImageView)> {
        match self.slot {
            Some(pair) => Some((pair.0@, pair.1@)),
            None => None,
        }
    }

    pub fn state(&self) -> (r: ResizeJobState)
        ensures
            r == self.state_view(),
    {
        self.state
    }

    /// Tries to launch a worker: rejected while one is still running; a
    /// result left uncollected from an earlier run is discarded.
    pub fn start(&mut self) -> (accepted: bool)
        ensures
            old(self).state_view() is Running ==> !accepted
                && final(self).state_view() == old(self).state_view()
                && final(self).slot_view() == old(self).slot_view(),
            !(old(self).state_view() is Running) ==> accepted && final(self).state_view()
                is Running && final(self).slot_view() is None,
    {
        proof {
            use_type_invariant(&*self);
        }
        match self.state {
            ResizeJobState::Running => false,
            _ => {
                *self = ResizeJob { state: ResizeJobState::Running, slot: None };
                true
            },
        }
    }

    /// The worker's report: stores the result pair and flags it ready,
    /// in one step, so a collector never sees one without the other.
    pub fn finish(&mut self, resized_original: RasterImage, resized_current: RasterImage)
        requires
            old(self).state_view() is Running,
        ensures
            final(self).state_view() is ReadyToCollect,
            final(self).slot_view() == Some((resized_original@, resized_current@)),
    {
        proof {
            use_type_invariant(&*self);
        }
        *self = ResizeJob {
            state: ResizeJobState::ReadyToCollect,
            slot: Some((resized_original, resized_current)),
        };
    }

    /// Takes the result: only the `ReadyToCollect` state yields one, and
    /// doing so resets the job to `Idle`; any other state returns nothing
    /// and changes nothing.
    pub fn collect(&mut self) -> (r: Option<(RasterImage, RasterImage)>)
        ensures
            old(self).state_view() is ReadyToCollect ==> match r {
                Some(pair) => Some((pair.0@, pair.1@)) == old(self).slot_view()
                    && final(self).state_view() is Idle && final(self).slot_view() is None,
                None => false,
            },
            !(old(self).state_view() is ReadyToCollect) ==> r is None && final(self).state_view()
                == old(self).state_view() && final(self).slot_view() == old(self).slot_view(),
    {
        proof {
            use_type_invariant(&*self);
        }
        let mut taken = ResizeJob { state: ResizeJobState::Idle, slot: None };
        std::mem::swap(self, &mut taken);
        let state = taken.state;
        match state {
            ResizeJobState::ReadyToCollect => {
                let ResizeJob { state: _, slot } = taken;
                slot
            },
            _ => {
                std::mem::swap(self, &mut taken);
                None
            },
        }
    }
}

impl Default for ResizeJob {
    /// A fresh job: idle, its slot empty.
    fn default() -> (r: Self)
        ensures
            r.state_view() is Idle,
            r.slot_view() is None,
    {
        ResizeJob { state: ResizeJobState::Idle, slot: None }
    }
}

/// What the worker computes off-thread: the original resized to the target
/// with the high-quality filter, paired with a working copy of it.
pub fn resize_job_work(original: &RasterImage, target: Size) -> (r: (RasterImage, RasterImage))
    ensures
        r.0@ == resized_rgba(
            original@,
            target.width as nat,
            target.height as nat,
            filter_id(FilterKind::CatmullRom),
        ),
        r.1@ == r.0@,
{
    let resized = original.resize(target.width, target.height, FilterKind::CatmullRom);
    let working = resized.clone();
    (resized, working)
}

} // verus!
