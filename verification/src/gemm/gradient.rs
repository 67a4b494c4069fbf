//! Single-kernel gradients of a matrix product.
use crate::error::Result;
use crate::gemm::dims;
use crate::plan::{Arg, Launch, Plan};
use crate::plan;
use crate::shape;
use crate::text::Text;
use crate::text;
use vstd::prelude::*;

verus! {

/// The answer of [`gemm_bf16_backward_dA_view`].
pub open spec fn gemm_bf16_backward_dA_view_plan(
    dc_len: int, b_len: int, da_len: int, m: int, n: int, k: int,
) -> Plan {
    if let Some(fault) = dims::gemm_dims_fault(m, n, k) {
        Plan::Fail(fault)
    } else {
        Plan::launch(
            "gemm_bf16_backward_dA"@,
            "gemm_bf16_backward_dA"@,
            (shape::ceil_div(m, 8), shape::ceil_div(k, 32), 1),
            (256, 1, 1),
            0,
            seq![
                Arg::buffer(0), Arg::buffer(1), Arg::buffer(2), Arg::word(m), Arg::word(n),
                Arg::word(k),
            ],
        )
    }
}

/// View-accepting variant of `gemm_bf16_backward_dA`. (`dA` matches the
/// standard math notation for ∂L/∂A; the lowercase-after-d is intentional.)
#[allow(non_snake_case)]
pub fn gemm_bf16_backward_dA_view(
    dc_len: usize,
    b_len: usize,
    da_len: usize,
    m: u32,
    n: u32,
    k: u32,
) -> (r: Result<Launch>)
    ensures
        plan::outcome(r) == gemm_bf16_backward_dA_view_plan(
            dc_len as int, b_len as int, da_len as int, m as int, n as int, k as int,
        ),
        plan::launchable(r, 3),
{
    if let Err(e) = dims::validate_gemm_dims(m, n, k) {
        return Err(e);
    }
    Ok(
        Launch::new(
            "gemm_bf16_backward_dA",
            "gemm_bf16_backward_dA",
            (shape::div_ceil(m, 8), shape::div_ceil(k, 32), 1),
            (256, 1, 1),
            0,
            vec![
                Arg::param(0), Arg::param(1), Arg::param(2), Arg::Word(m), Arg::Word(n),
                Arg::Word(k),
            ],
        ),
    )
}

/// The answer of [`gemm_bf16_backward_dB_view`].
pub open spec fn gemm_bf16_backward_dB_view_plan(
    a_len: int, dc_len: int, db_len: int, m: int, n: int, k: int,
) -> Plan {
    if let Some(fault) = dims::gemm_dims_fault(m, n, k) {
        Plan::Fail(fault)
    } else {
        Plan::launch(
            "gemm_bf16_backward_dB"@,
            "gemm_bf16_backward_dB"@,
            (shape::ceil_div(k, 8), shape::ceil_div(n, 32), 1),
            (256, 1, 1),
            0,
            seq![
                Arg::buffer(0), Arg::buffer(1), Arg::buffer(2), Arg::word(m), Arg::word(n),
                Arg::word(k),
            ],
        )
    }
}

/// View-accepting variant of `gemm_bf16_backward_dB`.
#[allow(non_snake_case)]
pub fn gemm_bf16_backward_dB_view(
    a_len: usize,
    dc_len: usize,
    db_len: usize,
    m: u32,
    n: u32,
    k: u32,
) -> (r: Result<Launch>)
    ensures
        plan::outcome(r) == gemm_bf16_backward_dB_view_plan(
            a_len as int, dc_len as int, db_len as int, m as int, n as int, k as int,
        ),
        plan::launchable(r, 3),
{
    if let Err(e) = dims::validate_gemm_dims(m, n, k) {
        return Err(e);
    }
    Ok(
        Launch::new(
            "gemm_bf16_backward_dB",
            "gemm_bf16_backward_dB",
            (shape::div_ceil(k, 8), shape::div_ceil(n, 32), 1),
            (256, 1, 1),
            0,
            vec![
                Arg::param(0), Arg::param(1), Arg::param(2), Arg::Word(m), Arg::Word(n),
                Arg::Word(k),
            ],
        ),
    )
}

/// The answer of [`gemm_bf16_backward_dA`].
pub open spec fn gemm_bf16_backward_dA_plan(
    dc_len: int, b_len: int, da_len: int, m: int, n: int, k: int,
) -> Plan {
    let grid_x = shape::ceil_div(m, 8);
    let grid_y = shape::ceil_div(k, 32);
    if let Some(fault) = dims::gemm_dims_fault(m, n, k) {
        Plan::Fail(fault)
    } else if dc_len < m * n {
        Plan::invalid("dC too small: "@ + text::decimal(dc_len) + " < "@ + text::decimal(m * n))
    } else if b_len < k * n {
        Plan::invalid("B too small: "@ + text::decimal(b_len) + " < "@ + text::decimal(k * n))
    } else if da_len < m * k {
        Plan::invalid("dA too small: "@ + text::decimal(da_len) + " < "@ + text::decimal(m * k))
    } else {
        Plan::launch(
            "gemm_bf16_backward_dA"@,
            "gemm_bf16_backward_dA"@,
            (grid_x, grid_y, 1),
            (256, 1, 1),
            0,
            seq![
                Arg::buffer(0), Arg::buffer(1), Arg::buffer(2), Arg::word(m), Arg::word(n),
                Arg::word(k),
            ],
        )
    }
}

/// Backward pass for `gemm_bf16` — `dA` gradient.
#[allow(non_snake_case)]
pub fn gemm_bf16_backward_dA(
    dc_len: usize,
    b_len: usize,
    da_len: usize,
    m: u32,
    n: u32,
    k: u32,
) -> (r: Result<Launch>)
    ensures
        plan::outcome(r) == gemm_bf16_backward_dA_plan(
            dc_len as int, b_len as int, da_len as int, m as int, n as int, k as int,
        ),
        plan::launchable(r, 3),
{
    if let Err(e) = dims::validate_gemm_dims(m, n, k) {
        return Err(e);
    }
    if (dc_len as u64) < shape::product(m, n) {
        return Text::new("dC too small: ").n(dc_len as u64).s(" < ").n(shape::product(m, n))
            .refuse();
    }
    if (b_len as u64) < shape::product(k, n) {
        return Text::new("B too small: ").n(b_len as u64).s(" < ").n(shape::product(k, n)).refuse();
    }
    if (da_len as u64) < shape::product(m, k) {
        return Text::new("dA too small: ").n(da_len as u64).s(" < ").n(shape::product(m, k))
            .refuse();
    }
    let grid_x: u32 = shape::div_ceil(m, 8);
    let grid_y: u32 = shape::div_ceil(k, 32);
    Ok(
        Launch::new(
            "gemm_bf16_backward_dA",
            "gemm_bf16_backward_dA",
            (grid_x, grid_y, 1),
            (256, 1, 1),
            0,
            vec![
                Arg::param(0), Arg::param(1), Arg::param(2), Arg::Word(m), Arg::Word(n),
                Arg::Word(k),
            ],
        ),
    )
}

/// The answer of [`gemm_bf16_backward_dB`].
pub open spec fn gemm_bf16_backward_dB_plan(
    a_len: int, dc_len: int, db_len: int, m: int, n: int, k: int,
) -> Plan {
    let grid_x = shape::ceil_div(k, 8);
    let grid_y = shape::ceil_div(n, 32);
    if let Some(fault) = dims::gemm_dims_fault(m, n, k) {
        Plan::Fail(fault)
    } else if a_len < m * k {
        Plan::invalid("A too small: "@ + text::decimal(a_len) + " < "@ + text::decimal(m * k))
    } else if dc_len < m * n {
        Plan::invalid("dC too small: "@ + text::decimal(dc_len) + " < "@ + text::decimal(m * n))
    } else if db_len < k * n {
        Plan::invalid("dB too small: "@ + text::decimal(db_len) + " < "@ + text::decimal(k * n))
    } else {
        Plan::launch(
            "gemm_bf16_backward_dB"@,
            "gemm_bf16_backward_dB"@,
            (grid_x, grid_y, 1),
            (256, 1, 1),
            0,
            seq![
                Arg::buffer(0), Arg::buffer(1), Arg::buffer(2), Arg::word(m), Arg::word(n),
                Arg::word(k),
            ],
        )
    }
}

/// Backward pass for `gemm_bf16` — `dB` gradient.
#[allow(non_snake_case)]
pub fn gemm_bf16_backward_dB(
    a_len: usize,
    dc_len: usize,
    db_len: usize,
    m: u32,
    n: u32,
    k: u32,
) -> (r: Result<Launch>)
    ensures
        plan::outcome(r) == gemm_bf16_backward_dB_plan(
            a_len as int, dc_len as int, db_len as int, m as int, n as int, k as int,
        ),
        plan::launchable(r, 3),
{
    if let Err(e) = dims::validate_gemm_dims(m, n, k) {
        return Err(e);
    }
    if (a_len as u64) < shape::product(m, k) {
        return Text::new("A too small: ").n(a_len as u64).s(" < ").n(shape::product(m, k)).refuse();
    }
    if (dc_len as u64) < shape::product(m, n) {
        return Text::new("dC too small: ").n(dc_len as u64).s(" < ").n(shape::product(m, n))
            .refuse();
    }
    if (db_len as u64) < shape::product(k, n) {
        return Text::new("dB too small: ").n(db_len as u64).s(" < ").n(shape::product(k, n))
            .refuse();
    }
    let grid_x: u32 = shape::div_ceil(k, 8);
    let grid_y: u32 = shape::div_ceil(n, 32);
    Ok(
        Launch::new(
            "gemm_bf16_backward_dB",
            "gemm_bf16_backward_dB",
            (grid_x, grid_y, 1),
            (256, 1, 1),
            0,
            vec![
                Arg::param(0), Arg::param(1), Arg::param(2), Arg::Word(m), Arg::Word(n),
                Arg::Word(k),
            ],
        ),
    )
}

} // verus!
