//! Resolution of the output pixel geometry from the scene's intrinsic size
//! and the operator's overrides.
//!
//! The scale factor is carried in thousandths (a scale of 1.0 is 1000), so
//! that scaling and rounding are exact integer arithmetic: scaling an axis
//! rounds to the nearest pixel with ties away from zero, while deriving a
//! missing axis from the other multiplies and truncates. Values that would
//! exceed `u32::MAX` saturate to it.

use vstd::prelude::*;

verus! {

/// Thousandths that stand for a scale factor of one.
pub const SCALE_ONE_MILLI: u32 = 1000;

/// A resolved output size in pixels. Both axes are positive.
#[derive(Clone, Copy, Debug, PartialEq, Eq, Structural)]
pub struct Dimensions {
    pub width: u32,
    pub height: u32,
}

/// Rejection of degenerate geometry.
#[derive(Clone, Copy, Debug, PartialEq, Eq, Structural)]
pub enum GeometryError {
    /// The scene's intrinsic width or height is zero.
    DegenerateSceneSize,
    /// The resolved output width or height is zero.
    DegenerateOutputSize,
}

/// An axis scaled by `milli` thousandths, rounded to the nearest integer
/// with ties away from zero.
pub open spec fn scaled_axis(base: int, milli: int) -> int {
    (base * milli + 500) / 1000
}

/// The missing axis derived from the given one so that the intrinsic aspect
/// ratio is kept: multiply, then truncate toward zero.
pub open spec fn derived_axis(given: int, base_missing: int, base_given: int) -> int {
    (given * base_missing) / base_given
}

/// A non-negative value saturated to the `u32` range.
pub open spec fn saturate_u32(v: int) -> int {
    if v > u32::MAX {
        u32::MAX as int
    } else {
        v
    }
}

/// The resolved width before the zero check.
pub open spec fn resolved_width_spec(
    base_width: int,
    base_height: int,
    width: Option<u32>,
    height: Option<u32>,
    scale_milli: int,
) -> int {
    match width {
        Some(w) => w as int,
        None => match height {
            Some(h) => saturate_u32(derived_axis(h as int, base_width, base_height)),
            None => saturate_u32(scaled_axis(base_width, scale_milli)),
        },
    }
}

/// The resolved height before the zero check.
pub open spec fn resolved_height_spec(
    base_width: int,
    base_height: int,
    width: Option<u32>,
    height: Option<u32>,
    scale_milli: int,
) -> int {
    match height {
        Some(h) => h as int,
        None => match width {
            Some(w) => saturate_u32(derived_axis(w as int, base_height, base_width)),
            None => saturate_u32(scaled_axis(base_height, scale_milli)),
        },
    }
}

/// What dimension resolution yields: explicit axes verbatim, a single
/// missing axis derived to keep the aspect ratio, and otherwise both axes
/// scaled; a zero intrinsic axis or a zero result is rejected.
pub open spec fn resolve_spec(
    base_width: int,
    base_height: int,
    width: Option<u32>,
    height: Option<u32>,
    scale_milli: int,
) -> Result<Dimensions, GeometryError> {
    if base_width == 0 || base_height == 0 {
        Err(GeometryError::DegenerateSceneSize)
    } else {
        let w = resolved_width_spec(base_width, base_height, width, height, scale_milli);
        let h = resolved_height_spec(base_width, base_height, width, height, scale_milli);
        if w == 0 || h == 0 {
            Err(GeometryError::DegenerateOutputSize)
        } else {
            Ok(Dimensions { width: w as u32, height: h as u32 })
        }
    }
}

/// Scales `base` by `milli` thousandths, rounding half away from zero, and
/// saturates to the `u32` range.
fn scale_axis_exec(base: u32, milli: u32) -> (r: u32)
    ensures
        r == saturate_u32(scaled_axis(base as int, milli as int)),
{
    proof {
        assert((base as u64) * (milli as u64) <= 0xffff_ffff * 0xffff_ffff) by (nonlinear_arith)
            requires
                base <= 0xffff_ffffu64,
                milli <= 0xffff_ffffu64,
        ;
    }
    let v: u64 = ((base as u64) * (milli as u64) + 500) / 1000;
    if v > u32::MAX as u64 {
        u32::MAX
    } else {
        v as u32
    }
}

/// Derives the missing axis from the given one: multiply by the missing
/// intrinsic axis, divide by the given one, truncate, saturate.
fn derive_axis_exec(given: u32, base_missing: u32, base_given: u32) -> (r: u32)
    requires
        base_given > 0,
    ensures
        r == saturate_u32(derived_axis(given as int, base_missing as int, base_given as int)),
{
    proof {
        assert((given as u64) * (base_missing as u64) <= 0xffff_ffff * 0xffff_ffff)
            by (nonlinear_arith)
            requires
                given <= 0xffff_ffffu64,
                base_missing <= 0xffff_ffffu64,
        ;
    }
    let v: u64 = ((given as u64) * (base_missing as u64)) / (base_given as u64);
    if v > u32::MAX as u64 {
        u32::MAX
    } else {
        v as u32
    }
}

/// Resolves the output size from the intrinsic size, the optional explicit
/// width and height, and the scale in thousandths.
///
/// When both axes are given they are used verbatim; when one is given the
/// other keeps the intrinsic aspect ratio; when neither is given both axes
/// are scaled by `scale_milli`. A zero intrinsic axis and a zero result are
/// rejected rather than allowed to reach canvas allocation.
pub fn resolve_dimensions(
    base_width: u32,
    base_height: u32,
    width: Option<u32>,
    height: Option<u32>,
    scale_milli: u32,
) -> (r: Result<Dimensions, GeometryError>)
    ensures
        r == resolve_spec(
            base_width as int,
            base_height as int,
            width,
            height,
            scale_milli as int,
        ),
        r is Ok ==> r->Ok_0.width > 0 && r->Ok_0.height > 0,
{
    if base_width == 0 || base_height == 0 {
        return Err(GeometryError::DegenerateSceneSize);
    }
    let w: u32 = match width {
        Some(w) => w,
        None => match height {
            Some(h) => derive_axis_exec(h, base_width, base_height),
            None => scale_axis_exec(base_width, scale_milli),
        },
    };
    let h: u32 = match height {
        Some(h) => h,
        None => match width {
            Some(w) => derive_axis_exec(w, base_height, base_width),
            None => scale_axis_exec(base_height, scale_milli),
        },
    };
    if w == 0 || h == 0 {
        return Err(GeometryError::DegenerateOutputSize);
    }
    Ok(Dimensions { width: w, height: h })
}

/// Law: when both axes are explicit, the result is exactly those values,
/// whatever the intrinsic size and scale, provided neither is zero.
pub proof fn lemma_explicit_axes_verbatim(
    base_width: int,
    base_height: int,
    w: u32,
    h: u32,
    scale_milli: int,
)
    requires
        base_width > 0,
        base_height > 0,
        w > 0,
        h > 0,
    ensures
        resolve_spec(base_width, base_height, Some(w), Some(h), scale_milli) == Result::<
            Dimensions,
            GeometryError,
        >::Ok(Dimensions { width: w, height: h }),
{
}

/// Law: a scale of one with no explicit axis keeps the intrinsic size.
pub proof fn lemma_identity_scale(base_width: u32, base_height: u32)
    requires
        base_width > 0,
        base_height > 0,
    ensures
        resolve_spec(
            base_width as int,
            base_height as int,
            None,
            None,
            SCALE_ONE_MILLI as int,
        ) == Result::<Dimensions, GeometryError>::Ok(
            Dimensions { width: base_width, height: base_height },
        ),
{
    assert(scaled_axis(base_width as int, 1000) == base_width) by (nonlinear_arith)
        requires
            base_width > 0,
    ;
    assert(scaled_axis(base_height as int, 1000) == base_height) by (nonlinear_arith)
        requires
            base_height > 0,
    ;
}

} // verus!
