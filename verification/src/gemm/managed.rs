//! Split-K matrix-vector products together with the clearing of their accumulator and the
//! final cast.
//!
//! The split-K kernels add partial sums in whatever order the device schedules them, so that
//! equal inputs may give different roundings. In deterministic mode the partial sums are staged
//! per shard and reduced in a fixed order instead.
use crate::activation;
use crate::gemm::gemv;
use crate::plan::{F32, Place, Slot};
use crate::program::{Elem, Program, ProgramView, Step, StepView};
use crate::shape;
use vstd::prelude::*;
use vstd::string::*;

verus! {

/// The code of a character, with the letters `A` to `Z` taken as `a` to `z`.
pub open spec fn lower_code(c: char) -> int {
    if 65 <= c as int <= 90 {
        c as int + 32
    } else {
        c as int
    }
}

/// Whether two texts differ at most in the case of ASCII letters.
pub open spec fn same_ignoring_case(a: Seq<char>, b: Seq<char>) -> bool {
    a.len() == b.len() && forall|i: int|
        0 <= i < a.len() ==> lower_code(#[trigger] a[i]) == lower_code(b[i])
}

fn code(c: char) -> (r: u32)
    ensures
        r == lower_code(c),
{
    let c: u32 = c as u32;
    if 65 <= c && c <= 90 {
        c + 32
    } else {
        c
    }
}

fn equal_ignoring_case(a: &str, b: &str) -> (r: bool)
    ensures
        r == same_ignoring_case(a@, b@),
{
    let n: usize = a.unicode_len();
    if n != b.unicode_len() {
        return false;
    }
    let mut i: usize = 0;
    while i < n
        invariant
            i <= n,
            n == a@.len(),
            n == b@.len(),
            forall|j: int| 0 <= j < i ==> lower_code(#[trigger] a@[j]) == lower_code(b@[j]),
        decreases n - i,
    {
        if code(a.get_char(i)) != code(b.get_char(i)) {
            assert(lower_code(a@[i as int]) != lower_code(b@[i as int]));
            return false;
        }
        i = i + 1;
    }
    true
}

/// Whether the value of the environment variable `SPARK_DETERMINISTIC` asks for bytewise equal
/// results of equal inputs: it is `1`, or `true` in any case.
pub fn is_deterministic(setting: Option<&str>) -> (r: bool)
    ensures
        r == match setting {
            Some(v) => v@ == "1"@ || same_ignoring_case(v@, "true"@),
            None => false,
        },
{
    match setting {
        Some(v) => {
            let one = "1".to_owned();
            v.to_owned() == one || equal_ignoring_case(v, "true")
        },
        None => false,
    }
}

/// Clears the accumulator in buffer parameter 2.
pub open spec fn clear() -> ProgramView {
    ProgramView::empty().step(StepView::Zero { slot: Slot::Param(2) })
}

fn cleared() -> (p: Program)
    ensures
        p@ == clear(),
        p@.end is Done,
{
    let mut p = Program::new();
    p.push(Step::Zero { slot: Slot::Param(2) });
    p
}

/// The tensors of the product: the vector, the matrix and the accumulator.
pub open spec fn operands() -> Seq<Place> {
    seq![Place::of_param(0), Place::of_param(1), Place::of_param(2)]
}

/// The accumulator and the result.
pub open spec fn result() -> Seq<Place> {
    seq![Place::of_param(2), Place::of_param(3)]
}

fn operand_places() -> (r: Vec<Place>)
    ensures
        r@ == operands(),
{
    vec![Place::param(0), Place::param(1), Place::param(2)]
}

fn result_places() -> (r: Vec<Place>)
    ensures
        r@ == result(),
{
    vec![Place::param(2), Place::param(3)]
}

/// Staging memory of the program's own for `len` partial sums.
pub open spec fn stage(len: int) -> ProgramView {
    ProgramView::empty().step(
        StepView::Alloc { scratch: 0, elem: Elem::F32, len, failure: None },
    )
}

fn staging(len: u64) -> (p: Program)
    ensures
        p@ == stage(len as int),
        p@.end is Done,
{
    let mut p = Program::new();
    p.push(Step::Alloc { scratch: 0, elem: Elem::F32, len, failure: None });
    p
}

/// The tensors of a product that is staged in the program's own memory.
pub open spec fn staged_operands() -> Seq<Place> {
    seq![Place::of_param(0), Place::of_param(1), Place::of_scratch(0)]
}

/// The program's own staging memory and the result.
pub open spec fn staged_result() -> Seq<Place> {
    seq![Place::of_scratch(0), Place::of_param(3)]
}

/// The answer of [`gemv_w8a16_split_k_managed`].
pub open spec fn gemv_w8a16_split_k_managed_program(
    x_len: int, b_fp8_len: int, b_scale: F32, scratch_len: int, out_len: int, n: int, k: int,
    num_shards: int, deterministic: bool,
) -> ProgramView {
    let need = num_shards * n;
    let split = gemv::gemv_w8a16_split_k_plan(
        x_len, b_fp8_len, b_scale, scratch_len, n, k, num_shards,
    );
    if deterministic && scratch_len >= need {
        ProgramView::empty().then_launch(
            gemv::gemv_w8a16_split_k_det_plan(
                x_len, b_fp8_len, b_scale, scratch_len, n, k, num_shards,
            ),
            operands(),
        ).then_launch(
            gemv::f32_shard_reduce_to_bf16_plan(scratch_len, out_len, n, num_shards),
            result(),
        )
    } else if deterministic && split is Launch {
        stage(need).then_launch(
            gemv::gemv_w8a16_split_k_det_plan(x_len, b_fp8_len, b_scale, need, n, k, num_shards),
            staged_operands(),
        ).then_launch(
            gemv::f32_shard_reduce_to_bf16_plan(need, out_len, n, num_shards),
            staged_result(),
        )
    } else {
        clear().then_launch(split, operands()).then_launch(
            activation::f32_to_bf16_plan(scratch_len, out_len, n),
            result(),
        )
    }
}

/// Zero F32 scratch → split-K W8A16 GEMV → cast to BF16. In deterministic mode the staged kernel
/// and the shard reducer take their place. They stage one row per shard, in the scratch where it
/// has the room and else in memory of the program's own.
pub fn gemv_w8a16_split_k_managed(
    x_len: usize,
    b_fp8_len: usize,
    b_scale: F32,
    scratch_len: usize,
    out_len: usize,
    n: u32,
    k: u32,
    num_shards: u32,
    deterministic: bool,
) -> (r: Program)
    ensures
        r@ == gemv_w8a16_split_k_managed_program(
            x_len as int, b_fp8_len as int, b_scale, scratch_len as int, out_len as int, n as int,
            k as int, num_shards as int, deterministic,
        ),
{
    let need: u64 = shape::product(num_shards, n);
    if deterministic && scratch_len as u64 >= need {
        let mut p = Program::new();
        p.launch(
            gemv::gemv_w8a16_split_k_det(
                x_len, b_fp8_len, b_scale, scratch_len, n, k, num_shards,
            ),
            operand_places(),
        );
        if p.end.is_err() {
            return p;
        }
        p.launch(
            gemv::f32_shard_reduce_to_bf16(scratch_len, out_len, n, num_shards),
            result_places(),
        );
        return p;
    }
    let split = gemv::gemv_w8a16_split_k(
        x_len, b_fp8_len, b_scale, scratch_len, n, k, num_shards,
    );
    if deterministic && split.is_ok() {
        let mut p = staging(need);
        p.launch(
            gemv::w8a16_staged(x_len, b_fp8_len, b_scale, need, n, k, num_shards),
            vec![Place::param(0), Place::param(1), Place::scratch(0)],
        );
        if p.end.is_err() {
            return p;
        }
        p.launch(
            gemv::shards_reduced(need, out_len, n, num_shards),
            vec![Place::scratch(0), Place::param(3)],
        );
        return p;
    }
    let mut p = cleared();
    p.launch(split, operand_places());
    if p.end.is_err() {
        return p;
    }
    p.launch(activation::f32_to_bf16(scratch_len, out_len, n), result_places());
    p
}

/// The answer of [`gemv_w8a16_split_k_w16_managed`].
pub open spec fn gemv_w8a16_split_k_w16_managed_program(
    x_len: int, b_fp8_len: int, b_scale: F32, scratch_len: int, out_len: int, n: int, k: int,
    num_shards: int, deterministic: bool,
) -> ProgramView {
    let need = num_shards * n;
    let split = gemv::gemv_w8a16_split_k_w16_plan(
        x_len, b_fp8_len, b_scale, scratch_len, n, k, num_shards,
    );
    if deterministic && scratch_len >= need {
        ProgramView::empty().then_launch(
            gemv::gemv_w8a16_split_k_w16_det_plan(
                x_len, b_fp8_len, b_scale, scratch_len, n, k, num_shards,
            ),
            operands(),
        ).then_launch(
            gemv::f32_shard_reduce_to_bf16_plan(scratch_len, out_len, n, num_shards),
            result(),
        )
    } else if deterministic && split is Launch {
        stage(need).then_launch(
            gemv::gemv_w8a16_split_k_w16_det_plan(x_len, b_fp8_len, b_scale, need, n, k, num_shards),
            staged_operands(),
        ).then_launch(
            gemv::f32_shard_reduce_to_bf16_plan(need, out_len, n, num_shards),
            staged_result(),
        )
    } else {
        clear().then_launch(split, operands()).then_launch(
            activation::f32_to_bf16_plan(scratch_len, out_len, n),
            result(),
        )
    }
}

/// Combined wrapper for the wider-block W8A16 GEMV, with the same deterministic route as
/// [`gemv_w8a16_split_k_managed`].
pub fn gemv_w8a16_split_k_w16_managed(
    x_len: usize,
    b_fp8_len: usize,
    b_scale: F32,
    scratch_len: usize,
    out_len: usize,
    n: u32,
    k: u32,
    num_shards: u32,
    deterministic: bool,
) -> (r: Program)
    requires
        gemv_w8a16_split_k_w16_managed_program(
            x_len as int, b_fp8_len as int, b_scale, scratch_len as int, out_len as int, n as int,
            k as int, num_shards as int, deterministic,
        ).end !is Undefined,
    ensures
        r@ == gemv_w8a16_split_k_w16_managed_program(
            x_len as int, b_fp8_len as int, b_scale, scratch_len as int, out_len as int, n as int,
            k as int, num_shards as int, deterministic,
        ),
{
    let need: u64 = shape::product(num_shards, n);
    if deterministic && scratch_len as u64 >= need {
        let mut p = Program::new();
        p.launch(
            gemv::gemv_w8a16_split_k_w16_det(
                x_len, b_fp8_len, b_scale, scratch_len, n, k, num_shards,
            ),
            operand_places(),
        );
        if p.end.is_err() {
            return p;
        }
        p.launch(
            gemv::f32_shard_reduce_to_bf16(scratch_len, out_len, n, num_shards),
            result_places(),
        );
        return p;
    }
    let split = gemv::gemv_w8a16_split_k_w16(
        x_len, b_fp8_len, b_scale, scratch_len, n, k, num_shards,
    );
    if deterministic && split.is_ok() {
        let mut p = staging(need);
        p.launch(
            gemv::w8a16_w16_staged(x_len, b_fp8_len, b_scale, need, n, k, num_shards),
            vec![Place::param(0), Place::param(1), Place::scratch(0)],
        );
        if p.end.is_err() {
            return p;
        }
        p.launch(
            gemv::shards_reduced(need, out_len, n, num_shards),
            vec![Place::scratch(0), Place::param(3)],
        );
        return p;
    }
    let mut p = cleared();
    p.launch(split, operand_places());
    if p.end.is_err() {
        return p;
    }
    p.launch(activation::f32_to_bf16(scratch_len, out_len, n), result_places());
    p
}

/// The answer of [`gemv_bf16_split_k_w16_managed`].
pub open spec fn gemv_bf16_split_k_w16_managed_program(
    x_len: int, b_len: int, scratch_len: int, out_len: int, n: int, k: int, num_shards: int,
) -> ProgramView {
    clear().then_launch(
        gemv::gemv_bf16_split_k_w16_plan(x_len, b_len, scratch_len, n, k, num_shards),
        operands(),
    ).then_launch(activation::f32_to_bf16_plan(scratch_len, out_len, n), result())
}

/// Combined wrapper for the wider-block BF16 split-K GEMV.
pub fn gemv_bf16_split_k_w16_managed(
    x_len: usize,
    b_len: usize,
    scratch_len: usize,
    out_len: usize,
    n: u32,
    k: u32,
    num_shards: u32,
) -> (r: Program)
    ensures
        r@ == gemv_bf16_split_k_w16_managed_program(
            x_len as int, b_len as int, scratch_len as int, out_len as int, n as int, k as int,
            num_shards as int,
        ),
{
    let mut p = cleared();
    p.launch(
        gemv::gemv_bf16_split_k_w16(x_len, b_len, scratch_len, n, k, num_shards),
        operand_places(),
    );
    if p.end.is_err() {
        return p;
    }
    p.launch(activation::f32_to_bf16(scratch_len, out_len, n), result_places());
    p
}

/// The answer of [`gemv_bf16_split_k_managed`].
pub open spec fn gemv_bf16_split_k_managed_program(
    x_len: int, b_len: int, scratch_len: int, out_len: int, n: int, k: int, num_shards: int,
    deterministic: bool,
) -> ProgramView {
    if deterministic && scratch_len < num_shards * n {
        ProgramView::empty().then_launch(
            gemv::gemv_bf16_plan(x_len, b_len, out_len, n, k),
            seq![Place::of_param(0), Place::of_param(1), Place::of_param(3)],
        )
    } else if deterministic {
        ProgramView::empty().then_launch(
            gemv::gemv_bf16_split_k_det_plan(x_len, b_len, scratch_len, n, k, num_shards),
            operands(),
        ).then_launch(
            gemv::f32_shard_reduce_to_bf16_plan(scratch_len, out_len, n, num_shards),
            result(),
        )
    } else {
        clear().then_launch(
            gemv::gemv_bf16_split_k_plan(x_len, b_len, scratch_len, n, k, num_shards),
            operands(),
        ).then_launch(activation::f32_to_bf16_plan(scratch_len, out_len, n), result())
    }
}

/// GEMV split-K with managed F32 scratch + final cast to BF16. In deterministic mode the partial
/// sums are staged per shard; where the scratch has no room for them, the kernel that does not
/// split K runs instead.
pub fn gemv_bf16_split_k_managed(
    x_len: usize,
    b_len: usize,
    scratch_len: usize,
    out_len: usize,
    n: u32,
    k: u32,
    num_shards: u32,
    deterministic: bool,
) -> (r: Program)
    ensures
        r@ == gemv_bf16_split_k_managed_program(
            x_len as int, b_len as int, scratch_len as int, out_len as int, n as int, k as int,
            num_shards as int, deterministic,
        ),
{
    if deterministic {
        let need: u64 = crate::shape::product(num_shards, n);
        let mut p = Program::new();
        if (scratch_len as u64) < need {
            p.launch(
                gemv::gemv_bf16(x_len, b_len, out_len, n, k),
                vec![Place::param(0), Place::param(1), Place::param(3)],
            );
            return p;
        }
        p.launch(
            gemv::gemv_bf16_split_k_det(x_len, b_len, scratch_len, n, k, num_shards),
            operand_places(),
        );
        if p.end.is_err() {
            return p;
        }
        p.launch(
            gemv::f32_shard_reduce_to_bf16(scratch_len, out_len, n, num_shards),
            result_places(),
        );
        return p;
    }
    let mut p = cleared();
    p.launch(
        gemv::gemv_bf16_split_k(x_len, b_len, scratch_len, n, k, num_shards),
        operand_places(),
    );
    if p.end.is_err() {
        return p;
    }
    p.launch(activation::f32_to_bf16(scratch_len, out_len, n), result_places());
    p
}

/// The answer of [`gemv_bf16_split_k_managed_view`].
pub open spec fn gemv_bf16_split_k_managed_view_program(
    x_len: int, b_len: int, scratch_len: int, out_len: int, n: int, k: int, num_shards: int,
) -> ProgramView {
    clear().then_launch(
        gemv::gemv_bf16_split_k_view_plan(x_len, b_len, scratch_len, n, k, num_shards),
        operands(),
    ).then_launch(activation::f32_to_bf16_plan(scratch_len, out_len, n), result())
}

/// View variant of [`gemv_bf16_split_k_managed`]: zeros F32 scratch, runs the view-based split-K
/// gemv, casts to BF16.
pub fn gemv_bf16_split_k_managed_view(
    x_len: usize,
    b_len: usize,
    scratch_len: usize,
    out_len: usize,
    n: u32,
    k: u32,
    num_shards: u32,
) -> (r: Program)
    ensures
        r@ == gemv_bf16_split_k_managed_view_program(
            x_len as int, b_len as int, scratch_len as int, out_len as int, n as int, k as int,
            num_shards as int,
        ),
{
    let mut p = cleared();
    p.launch(
        gemv::gemv_bf16_split_k_view(x_len, b_len, scratch_len, n, k, num_shards),
        operand_places(),
    );
    if p.end.is_err() {
        return p;
    }
    p.launch(activation::f32_to_bf16(scratch_len, out_len, n), result_places());
    p
}

/// The answer of [`gemv_bf16_split_k_v4_managed`].
pub open spec fn gemv_bf16_split_k_v4_managed_program(
    x_len: int, b_len: int, scratch_len: int, out_len: int, n: int, k: int, num_shards: int,
) -> ProgramView {
    clear().then_launch(
        gemv::gemv_bf16_split_k_v4_plan(x_len, b_len, scratch_len, n, k, num_shards),
        operands(),
    ).then_launch(activation::f32_to_bf16_plan(scratch_len, out_len, n), result())
}

/// v4 managed wrapper: zero + gemv_split_k_v4 + cast.
pub fn gemv_bf16_split_k_v4_managed(
    x_len: usize,
    b_len: usize,
    scratch_len: usize,
    out_len: usize,
    n: u32,
    k: u32,
    num_shards: u32,
) -> (r: Program)
    ensures
        r@ == gemv_bf16_split_k_v4_managed_program(
            x_len as int, b_len as int, scratch_len as int, out_len as int, n as int, k as int,
            num_shards as int,
        ),
{
    let mut p = cleared();
    p.launch(
        gemv::gemv_bf16_split_k_v4(x_len, b_len, scratch_len, n, k, num_shards),
        operand_places(),
    );
    if p.end.is_err() {
        return p;
    }
    p.launch(activation::f32_to_bf16(scratch_len, out_len, n), result_places());
    p
}

/// The answer of [`gemm_bf16_split_k_det_managed`].
pub open spec fn gemm_bf16_split_k_det_managed_program(
    x_len: int, b_len: int, stage_len: int, out_len: int, n: int, k: int, m: int, num_shards: int,
) -> ProgramView {
    let staged = ProgramView::empty().then_launch(
        gemv::gemm_bf16_split_k_det_plan(x_len, b_len, stage_len, n, k, m, num_shards),
        operands(),
    );
    if staged.end is Done && m * n > u32::MAX {
        ProgramView::undefined()
    } else {
        staged.then_launch(
            gemv::f32_shard_reduce_to_bf16_plan(stage_len, out_len, m * n, num_shards),
            result(),
        )
    }
}

/// Managed batched split-K: stages the partial sums of `m` rows, then runs the shard reducer
/// over the flattened `M*N` output.
pub fn gemm_bf16_split_k_det_managed(
    x_len: usize,
    b_len: usize,
    stage_len: usize,
    out_len: usize,
    n: u32,
    k: u32,
    m: u32,
    num_shards: u32,
) -> (r: Program)
    requires
        gemm_bf16_split_k_det_managed_program(
            x_len as int, b_len as int, stage_len as int, out_len as int, n as int, k as int,
            m as int, num_shards as int,
        ).end !is Undefined,
    ensures
        r@ == gemm_bf16_split_k_det_managed_program(
            x_len as int, b_len as int, stage_len as int, out_len as int, n as int, k as int,
            m as int, num_shards as int,
        ),
{
    let mut p = Program::new();
    p.launch(
        gemv::gemm_bf16_split_k_det(x_len, b_len, stage_len, n, k, m, num_shards),
        operand_places(),
    );
    if p.end.is_err() {
        return p;
    }
    p.launch(
        gemv::f32_shard_reduce_to_bf16(stage_len, out_len, m * n, num_shards),
        result_places(),
    );
    p
}

/// Whether a program adds no partial sums in an order that the device chooses: all it launches
/// is the kernel `product` and the shard reducer.
pub open spec fn ordered(p: ProgramView, product: Seq<char>) -> bool {
    forall|i: int|
        0 <= i < p.steps.len() ==> ((#[trigger] p.steps[i]) matches StepView::Launch(l)
            ==> l.kernel == product || l.kernel == "f32_shard_reduce_to_bf16"@)
}

/// In deterministic mode the BF16 product never adds partial sums in an order that the device
/// chooses: they are staged, or the inner dimension is not split at all.
pub proof fn deterministic_bf16_product_is_ordered(
    x_len: int, b_len: int, scratch_len: int, out_len: int, n: int, k: int, num_shards: int,
)
    ensures
        ({
            let p = gemv_bf16_split_k_managed_program(
                x_len, b_len, scratch_len, out_len, n, k, num_shards, true,
            );
            if scratch_len < num_shards * n {
                ordered(p, "gemv_bf16"@)
            } else {
                ordered(p, "gemv_bf16_split_k_det"@)
            }
        }),
{
}

/// In deterministic mode the W8A16 products never add partial sums in an order that the device
/// chooses, however small the scratch is.
pub proof fn deterministic_w8a16_products_are_ordered(
    x_len: int, b_fp8_len: int, b_scale: F32, scratch_len: int, out_len: int, n: int, k: int,
    num_shards: int,
)
    ensures
        ordered(
            gemv_w8a16_split_k_managed_program(
                x_len, b_fp8_len, b_scale, scratch_len, out_len, n, k, num_shards, true,
            ),
            "gemv_w8a16_split_k_det"@,
        ),
        ordered(
            gemv_w8a16_split_k_w16_managed_program(
                x_len, b_fp8_len, b_scale, scratch_len, out_len, n, k, num_shards, true,
            ),
            "gemv_w8a16_split_k_w16_det"@,
        ),
{
}

/// Deterministic mode refuses no product that is done without it, and takes none that is refused
/// without it.
pub proof fn deterministic_w8a16_products_are_done_alike(
    x_len: int, b_fp8_len: int, b_scale: F32, scratch_len: int, out_len: int, n: int, k: int,
    num_shards: int,
)
    requires
        n >= 0,
        k > 0,
        num_shards > 0,
    ensures
        gemv_w8a16_split_k_managed_program(
            x_len, b_fp8_len, b_scale, scratch_len, out_len, n, k, num_shards, true,
        ).end is Done <==> gemv_w8a16_split_k_managed_program(
            x_len, b_fp8_len, b_scale, scratch_len, out_len, n, k, num_shards, false,
        ).end is Done,
        gemv_w8a16_split_k_w16_managed_program(
            x_len, b_fp8_len, b_scale, scratch_len, out_len, n, k, num_shards, true,
        ).end is Done <==> gemv_w8a16_split_k_w16_managed_program(
            x_len, b_fp8_len, b_scale, scratch_len, out_len, n, k, num_shards, false,
        ).end is Done,
{
    assert(num_shards * n >= n) by (nonlinear_arith)
        requires
            n >= 0,
            num_shards > 0,
    ;
}

} // verus!
