//! Pointer-to-sample lookup for interactive read-outs.
//!
//! A window stores its samples newest first, while the time axis is drawn
//! oldest to the left. Resolving a horizontal pixel position therefore
//! inverts the storage order: the viewport's left edge maps to the oldest
//! retained sample, its right edge to the newest.

use vstd::prelude::*;
use vstd::arithmetic::div_mod::{lemma_basic_div, lemma_div_multiples_vanish_fancy};

verus! {

/// `num / den` rounded to the nearest integer, halves away from zero, for a
/// non-negative numerator and positive denominator.
pub open spec fn spec_round_div(num: int, den: int) -> int {
    (2 * num + den) / (2 * den)
}

/// How many samples the cursor stands from the viewport's left edge: the
/// cursor offset scaled by samples per pixel, rounded to nearest, and zero
/// for a cursor left of the viewport.
pub open spec fn spec_raw_hover_index(x_pos: int, data_size: int, width: int, x0: int) -> int {
    if x_pos < x0 {
        0
    } else {
        spec_round_div((x_pos - x0) * data_size, width)
    }
}

/// The resolved sample index: the raw pixel-derived index inverted against
/// the newest-first storage order, saturating at zero, and clamped into
/// `[0, data_size - 1]`.
pub open spec fn spec_hover_index(x_pos: int, data_size: int, width: int, x0: int) -> int {
    let raw = spec_raw_hover_index(x_pos, data_size, width, x0);
    let inverted = if raw >= data_size {
        0int
    } else {
        data_size - raw
    };
    if inverted >= data_size {
        data_size - 1
    } else {
        inverted
    }
}

/// Resolves a horizontal cursor position to the index of the sample it
/// hovers over, or nothing when the window is empty or the cursor has no
/// position. Coordinates are pixels; the bounds keep every intermediate
/// product well inside the arithmetic range.
pub fn calc_hover_index(
    x_pos_option: Option<i64>,
    data_size: usize,
    bounds_width: i64,
    bounds_x: i64,
) -> (r: Option<usize>)
    requires
        0 < bounds_width <= 1_000_000_000,
        -1_000_000_000 <= bounds_x <= 1_000_000_000,
        (x_pos_option is Some ==> -1_000_000_000 <= x_pos_option.unwrap()
            <= 1_000_000_000),
    ensures
        ((r is None) <==> (data_size == 0 || x_pos_option is None)),
        (r is Some ==> r.unwrap() < data_size && r.unwrap() == spec_hover_index(
            x_pos_option.unwrap() as int,
            data_size as int,
            bounds_width as int,
            bounds_x as int,
        )),
{
    if data_size == 0 {
        return None;
    }
    match x_pos_option {
        Some(x_pos) => {
            let n: i128 = data_size as i128;
            let raw: i128 = if x_pos < bounds_x {
                0
            } else {
                let diff: i128 = x_pos as i128 - bounds_x as i128;
                proof {
                    assert(0 <= diff * n <= 2_000_000_000 * 0x1_0000_0000_0000_0000i128)
                        by (nonlinear_arith)
                        requires
                            0 <= diff <= 2_000_000_000,
                            0 <= n <= 0x1_0000_0000_0000_0000i128,
                    ;
                }
                let num: i128 = diff * n;
                let den: i128 = bounds_width as i128;
                (2 * num + den) / (2 * den)
            };
            let inverted: i128 = if raw >= n {
                0
            } else {
                n - raw
            };
            let clamped: i128 = if inverted >= n {
                n - 1
            } else {
                inverted
            };
            Some(clamped as usize)
        },
        None => None,
    }
}

/// Hover index inversion: in a non-empty window the viewport's left edge
/// resolves to the oldest retained sample and its right edge to the newest.
pub proof fn lemma_hover_inversion(data_size: int, width: int, x0: int)
    requires
        data_size >= 1,
        width >= 1,
    ensures
        spec_hover_index(x0, data_size, width, x0) == data_size - 1,
        spec_hover_index(x0 + width, data_size, width, x0) == 0,
{
    lemma_basic_div(width, 2 * width);
    assert(spec_raw_hover_index(x0, data_size, width, x0) == 0);
    lemma_div_multiples_vanish_fancy(data_size, width, 2 * width);
    assert((2 * width) * data_size == 2 * (width * data_size)) by (nonlinear_arith);
    assert(spec_raw_hover_index(x0 + width, data_size, width, x0) == data_size);
}

} // verus!
