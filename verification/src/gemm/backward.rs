//! Gradients of a matrix product that take more than one kernel.
use crate::gemm::dense;
use crate::gemm::gradient;
use crate::plan::{F32, Place};
use crate::program::{Binding, BindingView, Elem, Program, ProgramView, Step, StepView};
use vstd::prelude::*;

verus! {

/// A zeroed BF16 scratch buffer under the number 0.
pub open spec fn scratch(len: int, failure: Seq<char>) -> StepView {
    StepView::Alloc { scratch: 0, elem: Elem::U16, len, failure: Some(failure) }
}

fn alloc_scratch(len: u32, failure: &'static str) -> (r: Step)
    ensures
        r@ == scratch(len as int, failure@),
{
    Step::Alloc { scratch: 0, elem: Elem::U16, len: len as u64, failure: Some(failure) }
}

/// The answer of [`gemm_bf16_backward_dA_mma`].
#[allow(non_snake_case)]
pub open spec fn gemm_bf16_backward_dA_mma_program(
    dc_len: int, b_len: int, da_len: int, m: int, n: int, k: int,
) -> ProgramView {
    if m % 128 != 0 || k % 64 != 0 || n % 16 != 0 {
        ProgramView::single(
            gradient::gemm_bf16_backward_dA_plan(dc_len, b_len, da_len, m, n, k),
        )
    } else if k * n > u32::MAX {
        ProgramView::undefined()
    } else {
        ProgramView::empty().step(scratch(k * n, "alloc Bt scratch: "@)).then_launch(
            dense::transpose_bf16_plan(b_len, k * n, k, n),
            seq![Place::of_param(1), Place::of_scratch(0)],
        ).then_launch(
            dense::gemm_bf16_mma_plan(dc_len, k * n, da_len, m, k, n),
            seq![Place::of_param(0), Place::of_scratch(0), Place::of_param(2)],
        )
    }
}

/// MMA-backed BF16 GEMM backward — `dA = dC @ B^T`. Materializes B^T into
/// scratch then dispatches to the forward MMA kernel; falls back to
/// the scalar path when MMA alignment requirements aren't met.
///
/// Alignment for the MMA path: M%128 == 0, K%64 == 0, N%16 == 0.
#[allow(non_snake_case)]
pub fn gemm_bf16_backward_dA_mma(
    dc_len: usize,
    b_len: usize,
    da_len: usize,
    m: u32,
    n: u32,
    k: u32,
) -> (r: Program)
    requires
        gemm_bf16_backward_dA_mma_program(
            dc_len as int, b_len as int, da_len as int, m as int, n as int, k as int,
        ).end !is Undefined,
    ensures
        r@ == gemm_bf16_backward_dA_mma_program(
            dc_len as int, b_len as int, da_len as int, m as int, n as int, k as int,
        ),
{
    let mma_eligible = m % 128 == 0 && k % 64 == 0 && n % 16 == 0;
    if !mma_eligible {
        return Program::of_launch(
            gradient::gemm_bf16_backward_dA(dc_len, b_len, da_len, m, n, k),
        );
    }
    let n_b_t: u32 = k * n;
    let mut p = Program::new();
    p.push(alloc_scratch(n_b_t, "alloc Bt scratch: "));
    p.launch(
        dense::transpose_bf16(b_len, n_b_t as usize, k, n),
        vec![Place::param(1), Place::scratch(0)],
    );
    if p.end.is_err() {
        return p;
    }
    p.launch(
        dense::gemm_bf16_mma(dc_len, n_b_t as usize, da_len, m, k, n),
        vec![Place::param(0), Place::scratch(0), Place::param(2)],
    );
    p
}

/// The answer of [`gemm_bf16_backward_dB_mma`].
#[allow(non_snake_case)]
pub open spec fn gemm_bf16_backward_dB_mma_program(
    a_len: int, dc_len: int, db_len: int, m: int, n: int, k: int,
) -> ProgramView {
    if k % 128 != 0 || n % 64 != 0 || m % 16 != 0 {
        ProgramView::single(
            gradient::gemm_bf16_backward_dB_plan(a_len, dc_len, db_len, m, n, k),
        )
    } else if m * k > u32::MAX {
        ProgramView::undefined()
    } else {
        ProgramView::empty().step(scratch(m * k, "alloc At scratch: "@)).then_launch(
            dense::transpose_bf16_plan(a_len, m * k, m, k),
            seq![Place::of_param(0), Place::of_scratch(0)],
        ).then_launch(
            dense::gemm_bf16_mma_plan(m * k, dc_len, db_len, k, n, m),
            seq![Place::of_scratch(0), Place::of_param(1), Place::of_param(2)],
        )
    }
}

/// MMA-backed BF16 GEMM backward — `dB = A^T @ dC`: transposes A, then runs the forward MMA
/// kernel; falls back to the scalar path when MMA alignment requirements aren't met.
///
/// Alignment for the MMA path: K%128 == 0, N%64 == 0, M%16 == 0.
#[allow(non_snake_case)]
pub fn gemm_bf16_backward_dB_mma(
    a_len: usize,
    dc_len: usize,
    db_len: usize,
    m: u32,
    n: u32,
    k: u32,
) -> (r: Program)
    requires
        gemm_bf16_backward_dB_mma_program(
            a_len as int, dc_len as int, db_len as int, m as int, n as int, k as int,
        ).end !is Undefined,
    ensures
        r@ == gemm_bf16_backward_dB_mma_program(
            a_len as int, dc_len as int, db_len as int, m as int, n as int, k as int,
        ),
{
    let mma_eligible = k % 128 == 0 && n % 64 == 0 && m % 16 == 0;
    if !mma_eligible {
        return Program::of_launch(
            gradient::gemm_bf16_backward_dB(a_len, dc_len, db_len, m, n, k),
        );
    }
    let n_a_t: u32 = m * k;
    let mut p = Program::new();
    p.push(alloc_scratch(n_a_t, "alloc At scratch: "));
    p.launch(
        dense::transpose_bf16(a_len, n_a_t as usize, m, k),
        vec![Place::param(0), Place::scratch(0)],
    );
    if p.end.is_err() {
        return p;
    }
    p.launch(
        dense::gemm_bf16_mma(n_a_t as usize, dc_len, db_len, k, n, m),
        vec![Place::scratch(0), Place::param(1), Place::param(2)],
    );
    p
}

/// The answer of [`gemm_fp8_w8a16_backward_dA`].
#[allow(non_snake_case)]
pub open spec fn gemm_fp8_w8a16_backward_dA_program(
    dc_len: int, b_fp8_len: int, b_scale: F32, da_len: int, m: int, n: int, k: int,
) -> ProgramView {
    if k * n > u32::MAX {
        ProgramView::undefined()
    } else {
        ProgramView::empty().step(scratch(k * n, "alloc b_bf16 scratch: "@)).step(
            StepView::Dequant {
                from: Place::of_param(1),
                to: Place::of_scratch(0),
                n: k * n,
                scale: b_scale,
            },
        ).then_run(
            gemm_bf16_backward_dA_mma_program(dc_len, k * n, da_len, m, n, k),
            BindingView {
                places: seq![Place::of_param(0), Place::of_scratch(0), Place::of_param(2)],
                base: 1,
            },
        )
    }
}

/// FP8 W8A16 GEMM backward — `dA` gradient via dequant-then-BF16: dequantizes the weights into
/// scratch, then runs [`gemm_bf16_backward_dA_mma`]. Gradients flow in BF16.
#[allow(non_snake_case)]
pub fn gemm_fp8_w8a16_backward_dA(
    dc_len: usize,
    b_fp8_len: usize,
    b_scale: F32,
    da_len: usize,
    m: u32,
    n: u32,
    k: u32,
) -> (r: Program)
    requires
        gemm_fp8_w8a16_backward_dA_program(
            dc_len as int, b_fp8_len as int, b_scale, da_len as int, m as int, n as int, k as int,
        ).end !is Undefined,
    ensures
        r@ == gemm_fp8_w8a16_backward_dA_program(
            dc_len as int, b_fp8_len as int, b_scale, da_len as int, m as int, n as int, k as int,
        ),
{
    let kn: u32 = k * n;
    let mut p = Program::new();
    p.push(alloc_scratch(kn, "alloc b_bf16 scratch: "));
    p.push(
        Step::Dequant { from: Place::param(1), to: Place::scratch(0), n: kn, scale: b_scale },
    );
    let inner = gemm_bf16_backward_dA_mma(dc_len, kn as usize, da_len, m, n, k);
    p.run(
        inner,
        Binding {
            places: vec![Place::param(0), Place::scratch(0), Place::param(2)],
            base: 1,
        },
    );
    p
}

/// The answer of [`gemm_fp8_w8a16_backward_dB`].
#[allow(non_snake_case)]
pub open spec fn gemm_fp8_w8a16_backward_dB_program(
    a_len: int, dc_len: int, db_len: int, m: int, n: int, k: int,
) -> ProgramView {
    gemm_bf16_backward_dB_mma_program(a_len, dc_len, db_len, m, n, k)
}

/// FP8 W8A16 GEMM backward — `dB` gradient. dB stays in BF16, so this is
/// [`gemm_bf16_backward_dB_mma`].
#[allow(non_snake_case)]
pub fn gemm_fp8_w8a16_backward_dB(
    a_len: usize,
    dc_len: usize,
    db_len: usize,
    m: u32,
    n: u32,
    k: u32,
) -> (r: Program)
    requires
        gemm_fp8_w8a16_backward_dB_program(
            a_len as int, dc_len as int, db_len as int, m as int, n as int, k as int,
        ).end !is Undefined,
    ensures
        r@ == gemm_fp8_w8a16_backward_dB_program(
            a_len as int, dc_len as int, db_len as int, m as int, n as int, k as int,
        ),
{
    gemm_bf16_backward_dB_mma(a_len, dc_len, db_len, m, n, k)
}

/// The gradient by quantized weights does not depend on their quantization.
#[allow(non_snake_case)]
pub proof fn quantized_weight_gradient_is_plain(
    a_len: int, dc_len: int, db_len: int, m: int, n: int, k: int,
)
    ensures
        gemm_fp8_w8a16_backward_dB_program(a_len, dc_len, db_len, m, n, k)
            == gemm_bf16_backward_dB_mma_program(a_len, dc_len, db_len, m, n, k),
{
}

} // verus!
