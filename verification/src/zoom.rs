//! The projection scale that keeps a fixed span of the world visible across a
//! window of any width.

use vstd::prelude::*;
use vstd::arithmetic::div_mod::{
    lemma_basic_div,
    lemma_div_is_ordered_by_denominator,
    lemma_div_pos_is_pos,
    lemma_fundamental_div_mod,
    lemma_remainder,
};
use crate::fixed::UNIT;

verus! {

/// The span of the world that the scale is measured against: 15.
pub const REFERENCE_SPAN: i64 = 15_000_000;

/// The reference span measured in steps of scale times steps of width.
pub open spec fn spec_span() -> int {
    REFERENCE_SPAN * UNIT
}

/// The reference span over `width`, in whole steps of scale, the fraction of a
/// step dropped. It has a meaning for a positive `width` only.
pub open spec fn spec_window_scale(width: int) -> int
    recommends
        width > 0,
{
    spec_span() / width
}

/// The scale is the reference span over the width to within one step: times the
/// width it does not exceed the span, and one step more would.
pub proof fn lemma_scale_exact(width: int)
    requires
        width > 0,
    ensures
        0 <= spec_window_scale(width) <= spec_span(),
        spec_window_scale(width) * width <= spec_span(),
        spec_span() < (spec_window_scale(width) + 1) * width,
{
    let span = spec_span();
    let scale = span / width;
    lemma_fundamental_div_mod(span, width);
    lemma_remainder(span, width);
    lemma_div_pos_is_pos(span, width);
    assert(width * scale == scale * width) by (nonlinear_arith);
    assert((scale + 1) * width == scale * width + width) by (nonlinear_arith);
    lemma_div_is_ordered_by_denominator(span, 1, width);
}

/// A wider window never has the larger scale, and a window so wide that the
/// reference span is less than one step of scale on it has the scale zero.
pub proof fn lemma_scale_vanishes(narrow: int, wide: int)
    requires
        0 < narrow <= wide,
    ensures
        spec_window_scale(wide) <= spec_window_scale(narrow),
        wide > spec_span() ==> spec_window_scale(wide) == 0,
{
    let span = spec_span();
    lemma_div_is_ordered_by_denominator(span, narrow, wide);
    if wide > span {
        lemma_basic_div(span, wide);
    }
}

/// The scale for a window `width` wide; none for a window without width.
pub fn window_scale(width: u64) -> (scale: Option<i64>)
    ensures
        scale == if width == 0 {
            None
        } else {
            Some(spec_window_scale(width as int) as i64)
        },
        width > 0 ==> 0 <= spec_window_scale(width as int) <= spec_span() <= i64::MAX,
{
    if width == 0 {
        None
    } else {
        proof {
            assert(REFERENCE_SPAN * UNIT == 15_000_000_000_000);
            lemma_scale_exact(width as int);
        }
        let span: u64 = REFERENCE_SPAN as u64 * UNIT as u64;
        Some((span / width) as i64)
    }
}

} // verus!
