//! The modifier pipeline: the full-resolution original, a cached `base`
//! (the original resized to the preview viewport), a cached `current` (the
//! base with every enabled modifier folded over it, in list order), and the
//! rules deciding when each cache is recomputed.

use vstd::prelude::*;
use crate::geometry::Size;
use crate::image::resized_rgba;
use crate::image::filter_id;
use crate::image::FilterKind;
use crate::image::ImageView;
use crate::image::RasterImage;
use crate::modifier::apply_view;
use crate::modifier::Modifier;
use crate::pixels::clip;

verus! {

/// Every enabled modifier of `ms` applied in list order to `img`.
pub open spec fn fold_enabled(ms: Seq<Modifier>, img: ImageView) -> ImageView
    decreases ms.len(),
{
    if ms.len() == 0 {
        img
    } else {
        let prev = fold_enabled(ms.drop_last(), img);
        if ms.last().enabled_view() {
            apply_view(ms.last(), prev)
        } else {
            prev
        }
    }
}

/// Folds every enabled modifier over an image, in list order.
pub fn fold_modifiers(ms: &Vec<Modifier>, base: RasterImage) -> (r: RasterImage)
    ensures
        r@ == fold_enabled(ms@, base@),
{
    let ghost base_v = base@;
    let mut acc = base;
    let n = ms.len();
    let mut i: usize = 0;
    while i < n
        invariant
            i <= n,
            n == ms@.len(),
            acc@ == fold_enabled(ms@.subrange(0, i as int), base_v),
        decreases n - i,
    {
        let m = &ms[i];
        if m.enabled() {
            acc = m.apply(acc);
        }
        proof {
            let s = ms@.subrange(0, i + 1);
            assert(s.drop_last() =~= ms@.subrange(0, i as int));
            assert(s.last() == ms@[i as int]);
        }
        i = i + 1;
    }
    proof {
        assert(ms@.subrange(0, n as int) =~= ms@);
    }
    acc
}

/// Orchestrates the ordered application of modifiers over the original
/// image, caching the derived copies.
pub struct ModifierPipeline {
    original_image: RasterImage,
    base_image: Option<RasterImage>,
    current_image: Option<RasterImage>,
    preview_size: Size,
    modifiers: Vec<Modifier>,
}

impl ModifierPipeline {
    pub closed spec fn original_view(self) -> ImageView {
        self.original_image@
    }

    pub closed spec fn base_view(self) -> Option<ImageView> {
        match self.base_image {
            Some(b) => Some(b@),
            None => None,
        }
    }

    pub closed spec fn current_view(self) -> Option<ImageView> {
        match self.current_image {
            Some(c) => Some(c@),
            None => None,
        }
    }

    pub closed spec fn preview_size_view(self) -> Size {
        self.preview_size
    }

    pub closed spec fn modifiers_view(self) -> Seq<Modifier> {
        self.modifiers@
    }

    /// The image a reader sees: current, else base, else the original.
    pub open spec fn displayed_view(self) -> ImageView {
        match self.current_view() {
            Some(c) => c,
            None => match self.base_view() {
                Some(b) => b,
                None => self.original_view(),
            },
        }
    }

    /// What one authoritative recompute leaves behind: the base freshly
    /// resized from the original with the fast filter, and — as soon as any
    /// modifier is pushed — the current image folded from that base.
    pub open spec fn fresh_base_view(self) -> ImageView {
        resized_rgba(
            self.original_view(),
            self.preview_size_view().width as nat,
            self.preview_size_view().height as nat,
            filter_id(FilterKind::Nearest),
        )
    }

    pub open spec fn reevaluated(self) -> bool {
        &&& self.base_view() == Some(self.fresh_base_view())
        &&& self.current_view() == (if self.modifiers_view().len() > 0 {
            Some(fold_enabled(self.modifiers_view(), self.fresh_base_view()))
        } else {
            None::<ImageView>
        })
    }

    /// Whether a new preview width is far enough from the displayed image's
    /// width to warrant a full recompute: more than 10% away.
    pub open spec fn beyond_threshold(self, new_width: int) -> bool {
        let cw = self.displayed_view().width as int;
        let d = if new_width >= cw {
            new_width - cw
        } else {
            cw - new_width
        };
        cw == 0 || 10 * d > cw
    }

    pub fn new(original_image: RasterImage, preview_size: Size) -> (r: Self)
        ensures
            r.original_view() == original_image@,
            r.base_view() is None,
            r.current_view() is None,
            r.preview_size_view() == preview_size,
            r.modifiers_view() == Seq::<Modifier>::empty(),
    {
        let r = ModifierPipeline {
            original_image,
            base_image: None,
            current_image: None,
            preview_size,
            modifiers: Vec::new(),
        };
        proof {
            assert(r.modifiers_view() =~= Seq::<Modifier>::empty());
        }
        r
    }

    pub fn preview_size(&self) -> (r: Size)
        ensures
            r == self.preview_size_view(),
    {
        self.preview_size
    }

    pub fn original_image(&self) -> (r: &RasterImage)
        ensures
            r@ == self.original_view(),
    {
        &self.original_image
    }

    /// The cached base, falling back to the original.
    pub fn base_image(&self) -> (r: &RasterImage)
        ensures
            r@ == (match self.base_view() {
                Some(b) => b,
                None => self.original_view(),
            }),
    {
        match &self.base_image {
            Some(b) => b,
            None => &self.original_image,
        }
    }

    /// The cached current image, falling back to base, then the original.
    pub fn current_image(&self) -> (r: &RasterImage)
        ensures
            r@ == self.displayed_view(),
    {
        match &self.current_image {
            Some(c) => c,
            None => self.base_image(),
        }
    }

    /// Appends a modifier; order is significant. Caches are left alone
    /// until the next recompute.
    pub fn push_modifier(&mut self, modifier: Modifier)
        ensures
            final(self).modifiers_view() == old(self).modifiers_view().push(modifier),
            final(self).original_view() == old(self).original_view(),
            final(self).base_view() == old(self).base_view(),
            final(self).current_view() == old(self).current_view(),
            final(self).preview_size_view() == old(self).preview_size_view(),
    {
        self.modifiers.push(modifier);
    }

    pub fn modifier_count(&self) -> (r: usize)
        ensures
            r == self.modifiers_view().len(),
    {
        self.modifiers.len()
    }

    /// The authoritative full recompute: the base is resized from the
    /// original (never from a stale base), then every enabled modifier is
    /// folded over it; both caches are replaced together.
    pub fn reevaluate(&mut self)
        ensures
            final(self).reevaluated(),
            final(self).original_view() == old(self).original_view(),
            final(self).modifiers_view() == old(self).modifiers_view(),
            final(self).preview_size_view() == old(self).preview_size_view(),
    {
        let base = self.original_image.resize(
            self.preview_size.width,
            self.preview_size.height,
            FilterKind::Nearest,
        );
        let current = if self.modifiers.len() > 0 {
            Some(fold_modifiers(&self.modifiers, base.clone()))
        } else {
            None
        };
        self.base_image = Some(base);
        self.current_image = current;
    }

    /// The cheap recompute after a parameter edit: re-folds the modifiers
    /// over the already-cached base; only when no base is cached yet does
    /// it fall back to the full recompute.
    pub fn refold(&mut self)
        ensures
            final(self).original_view() == old(self).original_view(),
            final(self).modifiers_view() == old(self).modifiers_view(),
            final(self).preview_size_view() == old(self).preview_size_view(),
            match old(self).base_view() {
                Some(b) => final(self).base_view() == Some(b) && final(self).current_view() == (
                if old(self).modifiers_view().len() > 0 {
                    Some(fold_enabled(old(self).modifiers_view(), b))
                } else {
                    None::<ImageView>
                }),
                None => final(self).reevaluated(),
            },
    {
        if self.base_image.is_some() {
            let base = self.base_image.as_ref().unwrap().clone();
            let current = if self.modifiers.len() > 0 {
                Some(fold_modifiers(&self.modifiers, base))
            } else {
                None
            };
            self.current_image = current;
        } else {
            self.reevaluate();
        }
    }

    /// Edits one modifier's percent (clamped into its range) and re-folds
    /// over the cached base.
    pub fn set_modifier_percent(&mut self, index: usize, value_milli: i32)
        requires
            index < old(self).modifiers_view().len(),
        ensures
            final(self).original_view() == old(self).original_view(),
            final(self).preview_size_view() == old(self).preview_size_view(),
            final(self).modifiers_view().len() == old(self).modifiers_view().len(),
            forall|j: int|
                0 <= j < old(self).modifiers_view().len() && j != index
                    ==> final(self).modifiers_view()[j] == old(self).modifiers_view()[j],
            ({
                let m = final(self).modifiers_view()[index as int];
                let o = old(self).modifiers_view()[index as int];
                m.kind_view() == o.kind_view() && m.neutral_view() == o.neutral_view()
                    && m.enabled_view() == o.enabled_view() && m.percent_view() == clip(
                    value_milli as int,
                    o.param_view().min_view(),
                    o.param_view().max_view(),
                )
            }),
            match old(self).base_view() {
                Some(b) => final(self).base_view() == Some(b) && final(self).current_view()
                    == Some(fold_enabled(final(self).modifiers_view(), b)),
                None => final(self).reevaluated(),
            },
    {
        let mut m = self.modifiers.remove(index);
        m.set_percent(value_milli);
        self.modifiers.insert(index, m);
        self.refold();
    }

    /// Reacts to a viewport change: a no-op on the same size; beyond the
    /// 10% hysteresis threshold (measured against the displayed image's
    /// width) a full recompute; within it the caches are kept untouched.
    pub fn resize(&mut self, size: Size)
        ensures
            final(self).preview_size_view() == size,
            final(self).original_view() == old(self).original_view(),
            final(self).modifiers_view() == old(self).modifiers_view(),
            size == old(self).preview_size_view() ==> final(self).base_view() == old(
                self,
            ).base_view() && final(self).current_view() == old(self).current_view(),
            size != old(self).preview_size_view() && !old(self).beyond_threshold(
                size.width as int,
            ) ==> final(self).base_view() == old(self).base_view() && final(self).current_view()
                == old(self).current_view(),
            size != old(self).preview_size_view() && old(self).beyond_threshold(size.width as int)
                ==> final(self).reevaluated(),
    {
        if size.width != self.preview_size.width || size.height != self.preview_size.height {
            self.preview_size = size;
            let cur_w = self.current_image().width();
            let nw = size.width;
            let d: u64 = if nw >= cur_w {
                (nw - cur_w) as u64
            } else {
                (cur_w - nw) as u64
            };
            if cur_w == 0 || 10 * d > (cur_w as u64) {
                self.reevaluate();
            }
        }
    }
}

/// A pipeline with zero modifiers, once recomputed, shows the same image
/// through `current_image`, `base_image` and the cached base: the original
/// resized to the preview size.
pub proof fn lemma_zero_modifiers(p: ModifierPipeline)
    requires
        p.modifiers_view().len() == 0,
        p.reevaluated(),
    ensures
        p.displayed_view() == p.fresh_base_view(),
        p.base_view() == Some(p.fresh_base_view()),
        p.current_view() is None,
{
}

} // verus!
