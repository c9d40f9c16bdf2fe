//! Zoom levels, the render scale they stand for, and the window size.
use vstd::prelude::*;

verus! {

/// A render scale, kept exact so that the renderer evaluates it once.
#[derive(Clone, Copy, Debug, PartialEq, Eq, Structural)]
pub enum Scale {
    /// The scale `fifths / 5`.
    Linear { fifths: u64 },
    /// The scale `exp(exponent_fifths / 5)`, for a negative exponent.
    Exponential { exponent_fifths: i64 },
}

/// The scale of zoom level `zoom`: `1 + zoom / 5` from zero up, and
/// `exp(zoom / 5)` below zero.
pub open spec fn scale_of(zoom: int) -> Scale {
    if zoom >= 0 {
        Scale::Linear { fifths: (5 + zoom) as u64 }
    } else {
        Scale::Exponential { exponent_fifths: zoom as i64 }
    }
}

impl Scale {
    /// The scale is greater than zero. An exponential is always positive.
    pub open spec fn is_positive(self) -> bool {
        match self {
            Scale::Linear { fifths } => fifths > 0,
            Scale::Exponential { .. } => true,
        }
    }

    /// The scale `self` is smaller than `other`. An exponential scale has
    /// a negative exponent, so it lies below 1, and no linear scale of
    /// this module does.
    pub open spec fn below(self, other: Scale) -> bool {
        match (self, other) {
            (Scale::Linear { fifths: a }, Scale::Linear { fifths: b }) => a < b,
            (
                Scale::Exponential { exponent_fifths: a },
                Scale::Exponential { exponent_fifths: b },
            ) => a < b,
            (Scale::Exponential { .. }, Scale::Linear { fifths }) => fifths >= 5,
            (Scale::Linear { .. }, Scale::Exponential { .. }) => false,
        }
    }
}

/// Converts a zoom level to its render scale.
pub fn zoom_to_scale(zoom: i32) -> (s: Scale)
    ensures
        s == scale_of(zoom as int),
{
    if zoom >= 0 {
        Scale::Linear { fifths: 5 + zoom as u64 }
    } else {
        Scale::Exponential { exponent_fifths: zoom as i64 }
    }
}

/// Zoom level 0 is the scale 5/5, exactly 1; level 1 is 6/5; levels -1 and
/// -2 are `exp(-1/5)` and `exp(-2/5)`. Every scale is positive, and a
/// higher zoom level always gives a larger scale.
pub proof fn lemma_scale_laws(a: int, b: int)
    requires
        i32::MIN <= a < b <= i32::MAX,
    ensures
        scale_of(0) == (Scale::Linear { fifths: 5 }),
        scale_of(1) == (Scale::Linear { fifths: 6 }),
        scale_of(-1) == (Scale::Exponential { exponent_fifths: -1i64 }),
        scale_of(-2) == (Scale::Exponential { exponent_fifths: -2i64 }),
        scale_of(a).is_positive(),
        scale_of(a).below(scale_of(b)),
{
}

/// The view's own state: zoom level and last known window size.
#[derive(Clone, Copy, Debug, PartialEq, Eq, Structural)]
pub struct ViewState {
    pub zoom_level: i32,
    pub window_width: i32,
    pub window_height: i32,
}

impl ViewState {
    /// Zoom level 0 and no window yet.
    pub fn new() -> (v: ViewState)
        ensures
            v == (ViewState { zoom_level: 0, window_width: 0, window_height: 0 }),
    {
        ViewState { zoom_level: 0, window_width: 0, window_height: 0 }
    }

    /// One scroll step up: the zoom level rises by one, and stays at the
    /// largest level once there.
    pub fn zoom_in(&mut self) -> (s: Scale)
        ensures
            final(self).zoom_level == if old(self).zoom_level == i32::MAX {
                i32::MAX as int
            } else {
                old(self).zoom_level + 1
            },
            final(self).window_width == old(self).window_width,
            final(self).window_height == old(self).window_height,
            s == scale_of(final(self).zoom_level as int),
    {
        if self.zoom_level < i32::MAX {
            self.zoom_level = self.zoom_level + 1;
        }
        zoom_to_scale(self.zoom_level)
    }

    /// One scroll step down: the zoom level falls by one, and stays at the
    /// smallest level once there.
    pub fn zoom_out(&mut self) -> (s: Scale)
        ensures
            final(self).zoom_level == if old(self).zoom_level == i32::MIN {
                i32::MIN as int
            } else {
                old(self).zoom_level - 1
            },
            final(self).window_width == old(self).window_width,
            final(self).window_height == old(self).window_height,
            s == scale_of(final(self).zoom_level as int),
    {
        if self.zoom_level > i32::MIN {
            self.zoom_level = self.zoom_level - 1;
        }
        zoom_to_scale(self.zoom_level)
    }

    /// Back to zoom level 0, the scale 1.
    pub fn reset_zoom(&mut self) -> (s: Scale)
        ensures
            *final(self) == (ViewState { zoom_level: 0, ..*old(self) }),
            s == (Scale::Linear { fifths: 5 }),
    {
        self.zoom_level = 0;
        zoom_to_scale(0)
    }

    /// Records the window's new size.
    pub fn resize(&mut self, width: i32, height: i32)
        ensures
            *final(self) == (ViewState { window_width: width, window_height: height, ..*old(self) }),
    {
        self.window_width = width;
        self.window_height = height;
    }
}

} // verus!
