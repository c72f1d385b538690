//! A modifier: one parametrized, composable pixel-space transform. The
//! nine concrete transforms form a closed tagged union dispatched by a
//! single `apply`; each modifier owns its parameter (a clamped percent in
//! milli units, an enable flag, a title and a unit label) and two preview
//! thumbnails rendered near the ends of its range.

use vstd::prelude::*;
use crate::blur::blur_map;
use crate::blur::blur_passes_s;
use crate::blur::blurred_s;
use crate::fixedpoint::div_trunc;
use crate::fixedpoint::tdiv;
use crate::image::hue_rotated;
use crate::image::img_view;
use crate::image::thumbnailed_rgba;
use crate::image::ImageView;
use crate::image::RasterImage;
use crate::pixels::bmul_data;
use crate::pixels::channelwise_map;
use crate::pixels::clip;
use crate::pixels::contrast_data;
use crate::pixels::exposure_data;
use crate::pixels::gamma_data;
use crate::pixels::grading_data;
use crate::pixels::grading_map;
use crate::pixels::luma_data;
use crate::pixels::luma_map;
use crate::pixels::sepia_data;
use crate::pixels::sepia_map;
use crate::pixels::GradingMatrix;

verus! {

/// The percent knob of a modifier, always held inside `[min, max]`
/// (all in milli units), with its neutral value, enable flag and labels.
pub struct ModifierParameter {
    percent_milli: i32,
    min_milli: i32,
    max_milli: i32,
    neutral_milli: i32,
    enabled: bool,
    title: &'static str,
    units: &'static str,
}

impl ModifierParameter {
    #[verifier::type_invariant]
    spec fn inv(self) -> bool {
        self.min_milli <= self.neutral_milli <= self.max_milli
            && self.min_milli <= self.percent_milli <= self.max_milli
    }

    pub closed spec fn percent_view(self) -> int {
        self.percent_milli as int
    }

    pub closed spec fn min_view(self) -> int {
        self.min_milli as int
    }

    pub closed spec fn max_view(self) -> int {
        self.max_milli as int
    }

    pub closed spec fn neutral_view(self) -> int {
        self.neutral_milli as int
    }

    pub closed spec fn enabled_view(self) -> bool {
        self.enabled
    }

    pub closed spec fn title_view(self) -> Seq<char> {
        self.title@
    }

    pub closed spec fn units_view(self) -> Seq<char> {
        self.units@
    }

    fn new(
        min_milli: i32,
        max_milli: i32,
        neutral_milli: i32,
        title: &'static str,
        units: &'static str,
    ) -> (r: Self)
        requires
            min_milli <= neutral_milli <= max_milli,
        ensures
            r.percent_view() == neutral_milli,
            r.min_view() == min_milli,
            r.max_view() == max_milli,
            r.neutral_view() == neutral_milli,
            r.enabled_view(),
            r.title_view() == title@,
            r.units_view() == units@,
    {
        ModifierParameter {
            percent_milli: neutral_milli,
            min_milli,
            max_milli,
            neutral_milli,
            enabled: true,
            title,
            units,
        }
    }

    pub fn percent_milli(&self) -> (r: i32)
        ensures
            r == self.percent_view(),
    {
        self.percent_milli
    }

    pub fn min_milli(&self) -> (r: i32)
        ensures
            r == self.min_view(),
    {
        self.min_milli
    }

    pub fn max_milli(&self) -> (r: i32)
        ensures
            r == self.max_view(),
    {
        self.max_milli
    }

    pub fn neutral_milli(&self) -> (r: i32)
        ensures
            r == self.neutral_view(),
    {
        self.neutral_milli
    }

    pub fn enabled(&self) -> (r: bool)
        ensures
            r == self.enabled_view(),
    {
        self.enabled
    }

    pub fn title(&self) -> (r: &'static str)
        ensures
            r@ == self.title_view(),
    {
        self.title
    }

    pub fn units_name(&self) -> (r: &'static str)
        ensures
            r@ == self.units_view(),
    {
        self.units
    }

    /// Sets the percent, silently clamped into `[min, max]`.
    pub fn set_percent(&mut self, value_milli: i32)
        ensures
            final(self).percent_view() == clip(
                value_milli as int,
                old(self).min_view(),
                old(self).max_view(),
            ),
            final(self).min_view() == old(self).min_view(),
            final(self).max_view() == old(self).max_view(),
            final(self).neutral_view() == old(self).neutral_view(),
            final(self).enabled_view() == old(self).enabled_view(),
            final(self).title_view() == old(self).title_view(),
            final(self).units_view() == old(self).units_view(),
    {
        proof {
            use_type_invariant(&*self);
        }
        self.percent_milli = if value_milli < self.min_milli {
            self.min_milli
        } else if value_milli > self.max_milli {
            self.max_milli
        } else {
            value_milli
        };
    }

    /// Turns the modifier on or off.
    pub fn set_enabled(&mut self, enabled: bool)
        ensures
            final(self).percent_view() == old(self).percent_view(),
            final(self).min_view() == old(self).min_view(),
            final(self).max_view() == old(self).max_view(),
            final(self).neutral_view() == old(self).neutral_view(),
            final(self).enabled_view() == enabled,
            final(self).title_view() == old(self).title_view(),
            final(self).units_view() == old(self).units_view(),
    {
        proof {
            use_type_invariant(&*self);
        }
        self.enabled = enabled;
    }
}

/// Which transform a modifier performs, with its structural parameters.
pub enum ModifierKind {
    Exposure,
    Contrast,
    Gamma,
    Blur,
    Tint,
    Sepia,
    BrightnessMultiply,
    BrightnessMultiplyLuma { gamma_milli: i32 },
    ColorGrading { matrix: GradingMatrix },
}

/// What a transform kind makes of an image at percent `pm` (milli): the
/// neutral percent is an identity, any other runs the kind's algorithm.
pub open spec fn apply_kind_view(kind: ModifierKind, pm: int, neutral: int, img: ImageView) -> ImageView {
    if pm == neutral {
        img
    } else {
        match kind {
            ModifierKind::Exposure => img_view(img.width, img.height, exposure_data(img.data, pm)),
            ModifierKind::Contrast => img_view(img.width, img.height, contrast_data(img.data, pm)),
            ModifierKind::Gamma => img_view(img.width, img.height, gamma_data(img.data, pm)),
            ModifierKind::Blur => img_view(
                img.width,
                img.height,
                blurred_s(img.data, img.width as int, img.height as int, blur_passes_s(pm)),
            ),
            ModifierKind::Tint => img_view(
                img.width,
                img.height,
                hue_rotated(img.data, tdiv(pm, 1000)),
            ),
            ModifierKind::Sepia => img_view(img.width, img.height, sepia_data(img.data, pm)),
            ModifierKind::BrightnessMultiply => img_view(
                img.width,
                img.height,
                bmul_data(img.data, pm),
            ),
            ModifierKind::BrightnessMultiplyLuma { gamma_milli } => img_view(
                img.width,
                img.height,
                luma_data(img.data, pm, gamma_milli as int),
            ),
            ModifierKind::ColorGrading { matrix } => img_view(
                img.width,
                img.height,
                grading_data(img.data, pm, matrix),
            ),
        }
    }
}

/// One parametrized pixel-space transform of the pipeline.
pub struct Modifier {
    param: ModifierParameter,
    kind: ModifierKind,
    min_thumbnail: Option<RasterImage>,
    max_thumbnail: Option<RasterImage>,
}

/// What `apply` makes of an image under this modifier.
pub open spec fn apply_view(m: Modifier, img: ImageView) -> ImageView {
    apply_kind_view(m.kind_view(), m.percent_view(), m.neutral_view(), img)
}

impl Modifier {
    pub closed spec fn kind_view(self) -> ModifierKind {
        self.kind
    }

    pub closed spec fn param_view(self) -> ModifierParameter {
        self.param
    }

    pub open spec fn percent_view(self) -> int {
        self.param_view().percent_view()
    }

    pub open spec fn neutral_view(self) -> int {
        self.param_view().neutral_view()
    }

    pub open spec fn enabled_view(self) -> bool {
        self.param_view().enabled_view()
    }

    pub closed spec fn min_thumbnail_view(self) -> Option<ImageView> {
        match self.min_thumbnail {
            Some(i) => Some(i@),
            None => None,
        }
    }

    pub closed spec fn max_thumbnail_view(self) -> Option<ImageView> {
        match self.max_thumbnail {
            Some(i) => Some(i@),
            None => None,
        }
    }
}

/// The image a preview thumbnail is rendered from: the source bounded to a
/// 50-pixel box where it is larger, else the source itself.
pub open spec fn preview_source(img: ImageView) -> ImageView {
    if img.width > 50 || img.height > 50 {
        thumbnailed_rgba(img, 50, 50)
    } else {
        img
    }
}

impl Modifier {
    fn from_parts(param: ModifierParameter, kind: ModifierKind) -> (r: Self)
        ensures
            r.param_view() == param,
            r.kind_view() == kind,
            r.min_thumbnail_view() is None,
            r.max_thumbnail_view() is None,
    {
        Modifier { param, kind, min_thumbnail: None, max_thumbnail: None }
    }

    /// Exposure: a linear channel offset, `[-100, 100]` percent, neutral 0.
    pub fn exposure() -> (r: Self)
        ensures
            r.kind_view() == ModifierKind::Exposure,
            r.is_default(),
            r.neutral_view() == 0,
            r.param_view().min_view() == -100000,
            r.param_view().max_view() == 100000,
    {
        Self::from_parts(
            ModifierParameter::new(-100000, 100000, 0, "Exposure", "%"),
            ModifierKind::Exposure,
        )
    }

    /// Contrast: a stretch around mid-gray, `[-100, 100]` percent, neutral 0.
    pub fn contrast() -> (r: Self)
        ensures
            r.kind_view() == ModifierKind::Contrast,
            r.is_default(),
    {
        Self::from_parts(
            ModifierParameter::new(-100000, 100000, 0, "Contrast", "%"),
            ModifierKind::Contrast,
        )
    }

    /// Gamma: exponent `1 - percent`, `[-1, 1]`, neutral 0.
    pub fn gamma() -> (r: Self)
        ensures
            r.kind_view() == ModifierKind::Gamma,
            r.is_default(),
            r.neutral_view() == 0,
            r.param_view().min_view() == -1000,
            r.param_view().max_view() == 1000,
    {
        Self::from_parts(ModifierParameter::new(-1000, 1000, 0, "Gamma", ""), ModifierKind::Gamma)
    }

    /// Blur: radius ramping to about three pixels, `[0, 100]` percent,
    /// neutral 0.
    pub fn blur() -> (r: Self)
        ensures
            r.kind_view() == ModifierKind::Blur,
            r.is_default(),
    {
        Self::from_parts(ModifierParameter::new(0, 100000, 0, "Blur", "%"), ModifierKind::Blur)
    }

    /// Tint: hue rotation, `[0, 360]` degrees, neutral 0.
    pub fn tint() -> (r: Self)
        ensures
            r.kind_view() == ModifierKind::Tint,
            r.is_default(),
    {
        Self::from_parts(ModifierParameter::new(0, 360000, 0, "Tint", "%"), ModifierKind::Tint)
    }

    /// Sepia: a blend toward the fixed sepia matrix, `[0, 100]` percent,
    /// neutral 0.
    pub fn sepia() -> (r: Self)
        ensures
            r.kind_view() == ModifierKind::Sepia,
            r.is_default(),
            r.neutral_view() == 0,
            r.param_view().min_view() == 0,
            r.param_view().max_view() == 100000,
    {
        Self::from_parts(ModifierParameter::new(0, 100000, 0, "Sepia", "%"), ModifierKind::Sepia)
    }

    /// Brightness multiply: channels scaled by the knob, `[0, 3]`,
    /// neutral 1.
    pub fn brightness_multiply() -> (r: Self)
        ensures
            r.kind_view() == ModifierKind::BrightnessMultiply,
            r.is_default(),
            r.neutral_view() == 1000,
            r.param_view().min_view() == 0,
            r.param_view().max_view() == 3000,
    {
        Self::from_parts(
            ModifierParameter::new(0, 3000, 1000, "Brightness multiply", ""),
            ModifierKind::BrightnessMultiply,
        )
    }

    /// Luma-aware brightness: the luma channel scaled, shaped by a gamma
    /// knob (default 0.5), `[-2, 2]`, neutral 0.
    pub fn brightness_multiply_luma() -> (r: Self)
        ensures
            r.kind_view() == (ModifierKind::BrightnessMultiplyLuma { gamma_milli: 500 }),
            r.is_default(),
            r.neutral_view() == 0,
            r.param_view().min_view() == -2000,
            r.param_view().max_view() == 2000,
    {
        Self::from_parts(
            ModifierParameter::new(-2000, 2000, 0, "Brightness multiply luma", ""),
            ModifierKind::BrightnessMultiplyLuma { gamma_milli: 500 },
        )
    }

    /// Free-form color grading: a 3x3 matrix blended toward identity by the
    /// percent, `[0, 100]` percent, neutral 0.
    pub fn color_grading() -> (r: Self)
        ensures
            r.kind_view() == (ModifierKind::ColorGrading { matrix: GradingMatrix {
                m00: 1000, m01: 0, m02: 0,
                m10: 0, m11: 1000, m12: 0,
                m20: 0, m21: 0, m22: 1000,
            } }),
            r.is_default(),
            r.neutral_view() == 0,
            r.param_view().min_view() == 0,
            r.param_view().max_view() == 100000,
    {
        Self::from_parts(
            ModifierParameter::new(0, 100000, 0, "Custom", "%"),
            ModifierKind::ColorGrading { matrix: GradingMatrix::identity() },
        )
    }

    /// A freshly built modifier: percent at neutral, enabled, no previews.
    pub open spec fn is_default(self) -> bool {
        self.percent_view() == self.neutral_view() && self.enabled_view()
            && self.min_thumbnail_view() is None && self.max_thumbnail_view() is None
    }

    pub fn title(&self) -> (r: &'static str)
        ensures
            r@ == self.param_view().title_view(),
    {
        self.param.title()
    }

    pub fn percent_milli(&self) -> (r: i32)
        ensures
            r == self.percent_view(),
    {
        self.param.percent_milli()
    }

    pub fn neutral_milli(&self) -> (r: i32)
        ensures
            r == self.neutral_view(),
    {
        self.param.neutral_milli()
    }

    pub fn min_milli(&self) -> (r: i32)
        ensures
            r == self.param_view().min_view(),
    {
        self.param.min_milli()
    }

    pub fn max_milli(&self) -> (r: i32)
        ensures
            r == self.param_view().max_view(),
    {
        self.param.max_milli()
    }

    pub fn units_name(&self) -> (r: &'static str)
        ensures
            r@ == self.param_view().units_view(),
    {
        self.param.units_name()
    }

    pub fn enabled(&self) -> (r: bool)
        ensures
            r == self.enabled_view(),
    {
        self.param.enabled()
    }

    /// Sets the percent, silently clamped into the modifier's range.
    pub fn set_percent(&mut self, value_milli: i32)
        ensures
            final(self).percent_view() == clip(
                value_milli as int,
                old(self).param_view().min_view(),
                old(self).param_view().max_view(),
            ),
            final(self).kind_view() == old(self).kind_view(),
            final(self).neutral_view() == old(self).neutral_view(),
            final(self).enabled_view() == old(self).enabled_view(),
            final(self).param_view().min_view() == old(self).param_view().min_view(),
            final(self).param_view().max_view() == old(self).param_view().max_view(),
            final(self).min_thumbnail_view() == old(self).min_thumbnail_view(),
            final(self).max_thumbnail_view() == old(self).max_thumbnail_view(),
    {
        self.param.set_percent(value_milli);
    }

    /// Turns the modifier on or off.
    pub fn set_enabled(&mut self, enabled: bool)
        ensures
            final(self).enabled_view() == enabled,
            final(self).percent_view() == old(self).percent_view(),
            final(self).kind_view() == old(self).kind_view(),
            final(self).neutral_view() == old(self).neutral_view(),
            final(self).param_view().min_view() == old(self).param_view().min_view(),
            final(self).param_view().max_view() == old(self).param_view().max_view(),
            final(self).min_thumbnail_view() == old(self).min_thumbnail_view(),
            final(self).max_thumbnail_view() == old(self).max_thumbnail_view(),
    {
        self.param.set_enabled(enabled);
    }

    /// Replaces the grading matrix; does nothing on any other kind.
    pub fn set_grading_matrix(&mut self, matrix: GradingMatrix)
        ensures
            final(self).kind_view() == (match old(self).kind_view() {
                ModifierKind::ColorGrading { .. } => ModifierKind::ColorGrading { matrix },
                k => k,
            }),
            final(self).percent_view() == old(self).percent_view(),
            final(self).neutral_view() == old(self).neutral_view(),
            final(self).enabled_view() == old(self).enabled_view(),
            final(self).param_view() == old(self).param_view(),
            final(self).min_thumbnail_view() == old(self).min_thumbnail_view(),
            final(self).max_thumbnail_view() == old(self).max_thumbnail_view(),
    {
        match &self.kind {
            ModifierKind::ColorGrading { .. } => {
                self.kind = ModifierKind::ColorGrading { matrix };
            },
            _ => (),
        }
    }

    /// Replaces the luma gamma knob, clamped into `[0.1, 1.5]`; does
    /// nothing on any other kind.
    pub fn set_luma_gamma(&mut self, gamma_milli: i32)
        ensures
            final(self).kind_view() == (match old(self).kind_view() {
                ModifierKind::BrightnessMultiplyLuma { .. } => ModifierKind::BrightnessMultiplyLuma {
                    gamma_milli: clip(gamma_milli as int, 100, 1500) as i32,
                },
                k => k,
            }),
            final(self).percent_view() == old(self).percent_view(),
            final(self).neutral_view() == old(self).neutral_view(),
            final(self).enabled_view() == old(self).enabled_view(),
            final(self).param_view() == old(self).param_view(),
            final(self).min_thumbnail_view() == old(self).min_thumbnail_view(),
            final(self).max_thumbnail_view() == old(self).max_thumbnail_view(),
    {
        let g = if gamma_milli < 100 {
            100
        } else if gamma_milli > 1500 {
            1500
        } else {
            gamma_milli
        };
        match &self.kind {
            ModifierKind::BrightnessMultiplyLuma { .. } => {
                self.kind = ModifierKind::BrightnessMultiplyLuma { gamma_milli: g };
            },
            _ => (),
        }
    }

    /// The preview rendered near the bottom of the range, if built.
    pub fn min_thumbnail(&self) -> (r: Option<&RasterImage>)
        ensures
            match r {
                Some(i) => self.min_thumbnail_view() == Some(i@),
                None => self.min_thumbnail_view() is None,
            },
    {
        self.min_thumbnail.as_ref()
    }

    /// The preview rendered near the top of the range, if built.
    pub fn max_thumbnail(&self) -> (r: Option<&RasterImage>)
        ensures
            match r {
                Some(i) => self.max_thumbnail_view() == Some(i@),
                None => self.max_thumbnail_view() is None,
            },
    {
        self.max_thumbnail.as_ref()
    }

    /// Applies the transform: a pure function of the modifier's knob and
    /// the image; the identity at the neutral percent.
    pub fn apply(&self, image: RasterImage) -> (r: RasterImage)
        ensures
            r@ == apply_view(*self, image@),
            r@.wf(),
            self.percent_view() == self.neutral_view() ==> r@ == image@,
    {
        proof {
            use_type_invariant(&image);
            use_type_invariant(&self.param);
            vstd::arithmetic::div_mod::lemma_mod_multiples_basic(
                (image@.width * image@.height) as int,
                4,
            );
            assert(4 * image@.width * image@.height == 4 * (image@.width * image@.height))
                by (nonlinear_arith);
        }
        let pm = self.param.percent_milli();
        if pm == self.param.neutral_milli() {
            return image;
        }
        let w = image.width();
        let h = image.height();
        let data = match &self.kind {
            ModifierKind::Exposure => channelwise_map(image.pixels(), pm, 0),
            ModifierKind::Contrast => channelwise_map(image.pixels(), pm, 1),
            ModifierKind::Gamma => channelwise_map(image.pixels(), pm, 2),
            ModifierKind::Blur => blur_map(image.pixels(), w, h, pm),
            ModifierKind::Tint => {
                let deg = div_trunc(pm as i64, 1000) as i32;
                return image.hue_rotate(deg);
            },
            ModifierKind::Sepia => sepia_map(image.pixels(), pm),
            ModifierKind::BrightnessMultiply => channelwise_map(image.pixels(), pm, 3),
            ModifierKind::BrightnessMultiplyLuma { gamma_milli } => luma_map(
                image.pixels(),
                pm,
                *gamma_milli,
            ),
            ModifierKind::ColorGrading { matrix } => grading_map(image.pixels(), pm, matrix),
        };
        RasterImage::from_pixels(w, h, data).unwrap()
    }

    /// Builds a modifier of the same kind at its default state, with the
    /// two preview thumbnails rendered at 20% and 80% of its range against
    /// a small thumbnail of the source.
    pub fn with_thumbnails(self, source: &RasterImage) -> (r: Self)
        ensures
            r.kind_view() == self.kind_view(),
            r.percent_view() == self.percent_view(),
            r.neutral_view() == self.neutral_view(),
            r.enabled_view() == self.enabled_view(),
            r.param_view().min_view() == self.param_view().min_view(),
            r.param_view().max_view() == self.param_view().max_view(),
            ({
                let lo = self.param_view().min_view() + (self.param_view().max_view()
                    - self.param_view().min_view()) / 5;
                let hi = self.param_view().min_view() + 4 * (self.param_view().max_view()
                    - self.param_view().min_view()) / 5;
                let tn = preview_source(source@);
                r.min_thumbnail_view() == Some(
                    apply_kind_view(self.kind_view(), lo, self.neutral_view(), tn),
                ) && r.max_thumbnail_view() == Some(
                    apply_kind_view(self.kind_view(), hi, self.neutral_view(), tn),
                )
            }),
    {
        proof {
            use_type_invariant(&self.param);
        }
        let orig_percent = self.param.percent_milli();
        let tn = if source.width() > 50 || source.height() > 50 {
            source.thumbnail(50, 50)
        } else {
            source.clone()
        };
        let min = self.param.min_milli();
        let max = self.param.max_milli();
        let span = (max as i64) - (min as i64);
        let lo = ((min as i64) + div_trunc(span, 5)) as i32;
        let hi = ((min as i64) + div_trunc(4 * span, 5)) as i32;
        let mut probe = Modifier {
            param: self.param,
            kind: self.kind,
            min_thumbnail: None,
            max_thumbnail: None,
        };
        probe.param.set_percent(lo);
        let low_image = probe.apply(tn.clone());
        probe.param.set_percent(hi);
        let high_image = probe.apply(tn);
        probe.param.set_percent(orig_percent);
        Modifier {
            param: probe.param,
            kind: probe.kind,
            min_thumbnail: Some(low_image),
            max_thumbnail: Some(high_image),
        }
    }
}

/// Every modifier at its neutral percent is an identity transform, on
/// every image.
pub proof fn lemma_apply_neutral_identity(m: Modifier, img: ImageView)
    requires
        m.percent_view() == m.neutral_view(),
    ensures
        apply_view(m, img) == img,
{
}

/// A modifier whose neutral percent is zero — as the shipped `Sepia`,
/// `BrightnessMultiplyLuma` and `ColorGrading` are — is an identity
/// transform at percent zero, on every image.
pub proof fn lemma_zero_percent_identity(m: Modifier, img: ImageView)
    requires
        m.neutral_view() == 0,
        m.percent_view() == 0,
    ensures
        apply_view(m, img) == img,
{
}

} // verus!
