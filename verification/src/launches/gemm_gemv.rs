//! What the launches of `gemm::gemv` hand to their kernels.
use crate::gemm::gemv;
use crate::launches::role::Role;
use crate::meaning;
use crate::plan::{Arg, F32, Plan};
use crate::shape;
use vstd::prelude::*;

verus! {

/// What the kernel `gemv_bf16` takes, in order.
pub open spec fn gemv_bf16_takes() -> Seq<Role> {
    seq![Role::Input, Role::Right, Role::Out, Role::Columns, Role::Depth]
}

/// `gemv_bf16` launches its kernel exactly where the sizes of the request are right, with every
/// argument what its role asks for, on blocks that cover the result.
pub proof fn gemv_bf16_launches(x_len: int, b_len: int, out_len: int, n: int, k: int)
    requires
        n >= 0,
    ensures
        gemv::gemv_bf16_plan(x_len, b_len, out_len, n, k) matches Plan::Fail(
            f,
        ) ==> f is InvalidArgument,
        gemv::gemv_bf16_plan(x_len, b_len, out_len, n, k) !is Undefined,
        gemv::gemv_bf16_plan(x_len, b_len, out_len, n, k) is Launch <==> {
            &&& n != 0
            &&& k != 0
            &&& x_len >= k
            &&& b_len >= k * n
            &&& out_len >= n
            &&& k * 2 <= 96 * 1024
        },
        gemv::gemv_bf16_plan(x_len, b_len, out_len, n, k) matches Plan::Launch(l) ==> {
            &&& l.entry == "gemv_bf16"@
            &&& l.kernel == "gemv_bf16"@
            &&& l.args =~= gemv_bf16_takes().map_values(
                |r: Role|
                    match r {
                        Role::Input => Arg::buffer(0),
                        Role::Right => Arg::buffer(1),
                        Role::Out => Arg::buffer(2),
                        Role::Columns => Arg::word(n),
                        Role::Depth => Arg::word(k),
                        _ => Arg::Word(0),
                    },
            )
            &&& meaning::covers(l.grid.0, 256, n)
            &&& l.grid.1 == 1
            &&& l.grid.2 == 1
            &&& l.block == (256int, 1int, 1int)
            &&& l.shared_mem == k * 2
            &&& l.opt_in is None
            &&& l.failure is None
            &&& l.tensor_maps.len() == 0
        },
{
    shape::lemma_ceil_div(n, 256);
}

/// What the kernel `gemv_bf16_v2` takes, in order.
pub open spec fn gemv_bf16_v2_takes() -> Seq<Role> {
    seq![Role::Input, Role::Right, Role::Out, Role::Columns, Role::Depth]
}

/// `gemv_bf16_v2` launches its kernel exactly where the sizes of the request are right, with
/// every argument what its role asks for, on blocks that cover the result.
pub proof fn gemv_bf16_v2_launches(x_len: int, b_len: int, out_len: int, n: int, k: int)
    requires
        n >= 0,
    ensures
        gemv::gemv_bf16_v2_plan(x_len, b_len, out_len, n, k) matches Plan::Fail(
            f,
        ) ==> f is InvalidArgument,
        gemv::gemv_bf16_v2_plan(x_len, b_len, out_len, n, k) !is Undefined,
        gemv::gemv_bf16_v2_plan(x_len, b_len, out_len, n, k) is Launch <==> {
            &&& n != 0
            &&& k != 0
            &&& n % 8 == 0
            &&& k * 2 <= 96 * 1024
            &&& x_len >= k
            &&& b_len >= k * n
            &&& out_len >= n
        },
        gemv::gemv_bf16_v2_plan(x_len, b_len, out_len, n, k) matches Plan::Launch(l) ==> {
            &&& l.entry == "gemv_bf16_v2"@
            &&& l.kernel == "gemv_bf16_v2"@
            &&& l.args =~= gemv_bf16_v2_takes().map_values(
                |r: Role|
                    match r {
                        Role::Input => Arg::buffer(0),
                        Role::Right => Arg::buffer(1),
                        Role::Out => Arg::buffer(2),
                        Role::Columns => Arg::word(n),
                        Role::Depth => Arg::word(k),
                        _ => Arg::Word(0),
                    },
            )
            &&& meaning::covers(l.grid.0, 1024, n)
            &&& l.grid.1 == 1
            &&& l.grid.2 == 1
            &&& l.block == (128int, 1int, 1int)
            &&& l.shared_mem == k * 2
            &&& l.opt_in is None
            &&& l.failure is None
            &&& l.tensor_maps.len() == 0
        },
{
    shape::lemma_ceil_div(n, 1024);
}

/// What the kernel `gemv_w4a16_nvfp4_split_k` takes, in order.
pub open spec fn gemv_w4a16_nvfp4_split_k_takes() -> Seq<Role> {
    seq![
        Role::Input, Role::BPacked, Role::BScales, Role::OutF32, Role::Columns, Role::Depth,
        Role::ChunkDepth,
    ]
}

/// `gemv_w4a16_nvfp4_split_k` launches its kernel exactly where the sizes of the request are
/// right, with every argument what its role asks for, on blocks that cover the result.
pub proof fn gemv_w4a16_nvfp4_split_k_launches(
    x_len: int, b_packed_len: int, b_scales_len: int, out_f32_len: int, n: int, k: int,
    num_shards: int,
)
    requires
        n >= 0,
    ensures
        gemv::gemv_w4a16_nvfp4_split_k_plan(
            x_len, b_packed_len, b_scales_len, out_f32_len, n, k, num_shards,
        ) matches Plan::Fail(f) ==> f is InvalidArgument,
        gemv::gemv_w4a16_nvfp4_split_k_plan(
            x_len, b_packed_len, b_scales_len, out_f32_len, n, k, num_shards,
        ) !is Undefined,
        gemv::gemv_w4a16_nvfp4_split_k_plan(
            x_len, b_packed_len, b_scales_len, out_f32_len, n, k, num_shards,
        ) is Launch <==> {
            &&& n != 0
            &&& k != 0
            &&& num_shards != 0
            &&& n % 16 == 0
            &&& (shape::ceil_div(k, num_shards) * 2) <= 96 * 1024
            &&& x_len >= k
            &&& b_packed_len >= k * (n / 2)
            &&& b_scales_len >= k * (n / 16)
            &&& out_f32_len >= n
        },
        gemv::gemv_w4a16_nvfp4_split_k_plan(
            x_len, b_packed_len, b_scales_len, out_f32_len, n, k, num_shards,
        ) matches Plan::Launch(l) ==> {
            &&& l.entry == "gemv_w4a16_nvfp4_split_k"@
            &&& l.kernel == "gemv_w4a16_nvfp4_split_k"@
            &&& l.args =~= gemv_w4a16_nvfp4_split_k_takes().map_values(
                |r: Role|
                    match r {
                        Role::Input => Arg::buffer(0),
                        Role::BPacked => Arg::buffer(1),
                        Role::BScales => Arg::buffer(2),
                        Role::OutF32 => Arg::buffer(3),
                        Role::Columns => Arg::word(n),
                        Role::Depth => Arg::word(k),
                        Role::ChunkDepth => Arg::word(shape::ceil_div(k, num_shards)),
                        _ => Arg::Word(0),
                    },
            )
            &&& meaning::covers(l.grid.0, 1024, n)
            &&& l.grid.1 == num_shards
            &&& l.grid.2 == 1
            &&& l.block == (128int, 1int, 1int)
            &&& l.shared_mem == shape::ceil_div(k, num_shards) * 2
            &&& l.opt_in is None
            &&& l.failure is None
            &&& l.tensor_maps.len() == 0
        },
{
    shape::lemma_ceil_div(n, 1024);
}

/// What the kernel `gemv_w4a16_nvfp4_split_k_det` takes, in order.
pub open spec fn gemv_w4a16_nvfp4_split_k_det_takes() -> Seq<Role> {
    seq![
        Role::Input, Role::BPacked, Role::BScales, Role::StageF32, Role::Columns, Role::Depth,
        Role::ChunkDepth,
    ]
}

/// `gemv_w4a16_nvfp4_split_k_det` launches its kernel exactly where the sizes of the request are
/// right, with every argument what its role asks for, on blocks that cover the result.
pub proof fn gemv_w4a16_nvfp4_split_k_det_launches(
    x_len: int, b_packed_len: int, b_scales_len: int, stage_f32_len: int, n: int, k: int,
    num_shards: int,
)
    requires
        n >= 0,
    ensures
        gemv::gemv_w4a16_nvfp4_split_k_det_plan(
            x_len, b_packed_len, b_scales_len, stage_f32_len, n, k, num_shards,
        ) matches Plan::Fail(f) ==> f is InvalidArgument,
        gemv::gemv_w4a16_nvfp4_split_k_det_plan(
            x_len, b_packed_len, b_scales_len, stage_f32_len, n, k, num_shards,
        ) is Launch <==> {
            &&& n % 16 == 0
            &&& num_shards != 0
            &&& (shape::ceil_div(k, num_shards) * 2) <= 96 * 1024
            &&& stage_f32_len >= num_shards * n
        },
        gemv::gemv_w4a16_nvfp4_split_k_det_plan(
            x_len, b_packed_len, b_scales_len, stage_f32_len, n, k, num_shards,
        ) matches Plan::Launch(l) ==> {
            &&& l.entry == "gemv_w4a16_nvfp4_split_k_det"@
            &&& l.kernel == "gemv_w4a16_nvfp4_split_k_det"@
            &&& l.args =~= gemv_w4a16_nvfp4_split_k_det_takes().map_values(
                |r: Role|
                    match r {
                        Role::Input => Arg::buffer(0),
                        Role::BPacked => Arg::buffer(1),
                        Role::BScales => Arg::buffer(2),
                        Role::StageF32 => Arg::buffer(3),
                        Role::Columns => Arg::word(n),
                        Role::Depth => Arg::word(k),
                        Role::ChunkDepth => Arg::word(shape::ceil_div(k, num_shards)),
                        _ => Arg::Word(0),
                    },
            )
            &&& meaning::covers(l.grid.0, 1024, n)
            &&& l.grid.1 == num_shards
            &&& l.grid.2 == 1
            &&& l.block == (128int, 1int, 1int)
            &&& l.shared_mem == shape::ceil_div(k, num_shards) * 2
            &&& l.opt_in is None
            &&& l.failure is None
            &&& l.tensor_maps.len() == 0
        },
{
    shape::lemma_ceil_div(n, 1024);
}

/// What the kernel `gemv_w8a16_split_k` takes, in order.
pub open spec fn gemv_w8a16_split_k_takes() -> Seq<Role> {
    seq![
        Role::Input, Role::BFp8, Role::OutF32, Role::BScale, Role::Columns, Role::Depth,
        Role::ChunkDepth,
    ]
}

/// `gemv_w8a16_split_k` launches its kernel exactly where the sizes of the request are right,
/// with every argument what its role asks for, on blocks that cover the result.
pub proof fn gemv_w8a16_split_k_launches(
    x_len: int, b_fp8_len: int, b_scale: F32, out_f32_len: int, n: int, k: int, num_shards: int,
)
    requires
        n >= 0,
    ensures
        gemv::gemv_w8a16_split_k_plan(
            x_len, b_fp8_len, b_scale, out_f32_len, n, k, num_shards,
        ) matches Plan::Fail(f) ==> f is InvalidArgument,
        gemv::gemv_w8a16_split_k_plan(
            x_len, b_fp8_len, b_scale, out_f32_len, n, k, num_shards,
        ) !is Undefined,
        gemv::gemv_w8a16_split_k_plan(
            x_len, b_fp8_len, b_scale, out_f32_len, n, k, num_shards,
        ) is Launch <==> {
            &&& n != 0
            &&& k != 0
            &&& num_shards != 0
            &&& n % 8 == 0
            &&& (shape::ceil_div(k, num_shards) * 2) <= 96 * 1024
            &&& x_len >= k
            &&& b_fp8_len >= k * n
            &&& out_f32_len >= n
        },
        gemv::gemv_w8a16_split_k_plan(
            x_len, b_fp8_len, b_scale, out_f32_len, n, k, num_shards,
        ) matches Plan::Launch(l) ==> {
            &&& l.entry == "gemv_w8a16_split_k"@
            &&& l.kernel == "gemv_w8a16_split_k"@
            &&& l.args =~= gemv_w8a16_split_k_takes().map_values(
                |r: Role|
                    match r {
                        Role::Input => Arg::buffer(0),
                        Role::BFp8 => Arg::buffer(1),
                        Role::OutF32 => Arg::buffer(2),
                        Role::BScale => Arg::Scalar(b_scale),
                        Role::Columns => Arg::word(n),
                        Role::Depth => Arg::word(k),
                        Role::ChunkDepth => Arg::word(shape::ceil_div(k, num_shards)),
                        _ => Arg::Word(0),
                    },
            )
            &&& meaning::covers(l.grid.0, 1024, n)
            &&& l.grid.1 == num_shards
            &&& l.grid.2 == 1
            &&& l.block == (128int, 1int, 1int)
            &&& l.shared_mem == shape::ceil_div(k, num_shards) * 2
            &&& l.opt_in is None
            &&& l.failure is None
            &&& l.tensor_maps.len() == 0
        },
{
    shape::lemma_ceil_div(n, 1024);
}

/// What the kernel `gemv_w8a16_split_k_det` takes, in order.
pub open spec fn gemv_w8a16_split_k_det_takes() -> Seq<Role> {
    seq![
        Role::Input, Role::BFp8, Role::StageF32, Role::BScale, Role::Columns, Role::Depth,
        Role::ChunkDepth,
    ]
}

/// `gemv_w8a16_split_k_det` launches its kernel exactly where the sizes of the request are right,
/// with every argument what its role asks for, on blocks that cover the result.
pub proof fn gemv_w8a16_split_k_det_launches(
    x_len: int, b_fp8_len: int, b_scale: F32, stage_f32_len: int, n: int, k: int, num_shards: int,
)
    requires
        n >= 0,
    ensures
        gemv::gemv_w8a16_split_k_det_plan(
            x_len, b_fp8_len, b_scale, stage_f32_len, n, k, num_shards,
        ) matches Plan::Fail(f) ==> f is InvalidArgument,
        gemv::gemv_w8a16_split_k_det_plan(
            x_len, b_fp8_len, b_scale, stage_f32_len, n, k, num_shards,
        ) !is Undefined,
        gemv::gemv_w8a16_split_k_det_plan(
            x_len, b_fp8_len, b_scale, stage_f32_len, n, k, num_shards,
        ) is Launch <==> {
            &&& n != 0
            &&& k != 0
            &&& num_shards != 0
            &&& n % 8 == 0
            &&& (shape::ceil_div(k, num_shards) * 2) <= 96 * 1024
            &&& x_len >= k
            &&& b_fp8_len >= k * n
            &&& stage_f32_len >= num_shards * n
        },
        gemv::gemv_w8a16_split_k_det_plan(
            x_len, b_fp8_len, b_scale, stage_f32_len, n, k, num_shards,
        ) matches Plan::Launch(l) ==> {
            &&& l.entry == "gemv_w8a16_split_k_det"@
            &&& l.kernel == "gemv_w8a16_split_k_det"@
            &&& l.args =~= gemv_w8a16_split_k_det_takes().map_values(
                |r: Role|
                    match r {
                        Role::Input => Arg::buffer(0),
                        Role::BFp8 => Arg::buffer(1),
                        Role::StageF32 => Arg::buffer(2),
                        Role::BScale => Arg::Scalar(b_scale),
                        Role::Columns => Arg::word(n),
                        Role::Depth => Arg::word(k),
                        Role::ChunkDepth => Arg::word(shape::ceil_div(k, num_shards)),
                        _ => Arg::Word(0),
                    },
            )
            &&& meaning::covers(l.grid.0, 1024, n)
            &&& l.grid.1 == num_shards
            &&& l.grid.2 == 1
            &&& l.block == (128int, 1int, 1int)
            &&& l.shared_mem == shape::ceil_div(k, num_shards) * 2
            &&& l.opt_in is None
            &&& l.failure is None
            &&& l.tensor_maps.len() == 0
        },
{
    shape::lemma_ceil_div(n, 1024);
}

/// What the kernel `gemv_w8a16_fused_bf16` takes, in order.
pub open spec fn gemv_w8a16_fused_bf16_takes() -> Seq<Role> {
    seq![Role::Input, Role::BFp8, Role::OutBf16, Role::BScale, Role::Columns, Role::Depth]
}

/// `gemv_w8a16_fused_bf16` launches its kernel exactly where the sizes of the request are right,
/// with every argument what its role asks for, on blocks that cover the result.
pub proof fn gemv_w8a16_fused_bf16_launches(
    x_len: int, b_fp8_len: int, b_scale: F32, out_bf16_len: int, n: int, k: int,
)
    requires
        n >= 0,
    ensures
        gemv::gemv_w8a16_fused_bf16_plan(
            x_len, b_fp8_len, b_scale, out_bf16_len, n, k,
        ) matches Plan::Fail(f) ==> f is InvalidArgument,
        gemv::gemv_w8a16_fused_bf16_plan(
            x_len, b_fp8_len, b_scale, out_bf16_len, n, k,
        ) is Launch <==> {
            &&& n != 0
            &&& k != 0
            &&& n % 8 == 0
            &&& x_len >= k
            &&& k * n <= u32::MAX
            &&& b_fp8_len >= k * n
            &&& out_bf16_len >= n
            &&& k * 2 <= 99 * 1024
        },
        gemv::gemv_w8a16_fused_bf16_plan(
            x_len, b_fp8_len, b_scale, out_bf16_len, n, k,
        ) matches Plan::Launch(l) ==> {
            &&& l.entry == "gemv_w8a16_fused_bf16"@
            &&& l.kernel == "gemv_w8a16_fused_bf16"@
            &&& l.args =~= gemv_w8a16_fused_bf16_takes().map_values(
                |r: Role|
                    match r {
                        Role::Input => Arg::buffer(0),
                        Role::BFp8 => Arg::buffer(1),
                        Role::OutBf16 => Arg::buffer(2),
                        Role::BScale => Arg::Scalar(b_scale),
                        Role::Columns => Arg::word(n),
                        Role::Depth => Arg::word(k),
                        _ => Arg::Word(0),
                    },
            )
            &&& meaning::covers(l.grid.0, 1024, n)
            &&& l.grid.1 == 1
            &&& l.grid.2 == 1
            &&& l.block == (128int, 1int, 1int)
            &&& l.shared_mem == k * 2
            &&& l.opt_in is None
            &&& l.failure is None
            &&& l.tensor_maps.len() == 0
        },
{
    shape::lemma_ceil_div(n, 1024);
}

/// What the kernel `gemv_w8a16_split_k_w16` takes, in order.
pub open spec fn gemv_w8a16_split_k_w16_takes() -> Seq<Role> {
    seq![
        Role::Input, Role::BFp8, Role::OutF32, Role::BScale, Role::Columns, Role::Depth,
        Role::ChunkDepth,
    ]
}

/// `gemv_w8a16_split_k_w16` launches its kernel exactly where the sizes of the request are right,
/// with every argument what its role asks for, on blocks that cover the result.
pub proof fn gemv_w8a16_split_k_w16_launches(
    x_len: int, b_fp8_len: int, b_scale: F32, out_f32_len: int, n: int, k: int, num_shards: int,
)
    requires
        n >= 0,
    ensures
        gemv::gemv_w8a16_split_k_w16_plan(
            x_len, b_fp8_len, b_scale, out_f32_len, n, k, num_shards,
        ) matches Plan::Fail(f) ==> f is InvalidArgument,
        gemv::gemv_w8a16_split_k_w16_plan(
            x_len, b_fp8_len, b_scale, out_f32_len, n, k, num_shards,
        ) !is Undefined,
        gemv::gemv_w8a16_split_k_w16_plan(
            x_len, b_fp8_len, b_scale, out_f32_len, n, k, num_shards,
        ) is Launch <==> {
            &&& n != 0
            &&& k != 0
            &&& num_shards != 0
            &&& n % 16 == 0
            &&& (shape::ceil_div(k, num_shards) * 2) <= 96 * 1024
            &&& x_len >= k
            &&& b_fp8_len >= k * n
            &&& out_f32_len >= n
        },
        gemv::gemv_w8a16_split_k_w16_plan(
            x_len, b_fp8_len, b_scale, out_f32_len, n, k, num_shards,
        ) matches Plan::Launch(l) ==> {
            &&& l.entry == "gemv_w8a16_split_k_w16"@
            &&& l.kernel == "gemv_w8a16_split_k_w16"@
            &&& l.args =~= gemv_w8a16_split_k_w16_takes().map_values(
                |r: Role|
                    match r {
                        Role::Input => Arg::buffer(0),
                        Role::BFp8 => Arg::buffer(1),
                        Role::OutF32 => Arg::buffer(2),
                        Role::BScale => Arg::Scalar(b_scale),
                        Role::Columns => Arg::word(n),
                        Role::Depth => Arg::word(k),
                        Role::ChunkDepth => Arg::word(shape::ceil_div(k, num_shards)),
                        _ => Arg::Word(0),
                    },
            )
            &&& meaning::covers(l.grid.0, 2048, n)
            &&& l.grid.1 == num_shards
            &&& l.grid.2 == 1
            &&& l.block == (128int, 1int, 1int)
            &&& l.shared_mem == shape::ceil_div(k, num_shards) * 2
            &&& l.opt_in is None
            &&& l.failure is None
            &&& l.tensor_maps.len() == 0
        },
{
    shape::lemma_ceil_div(n, 2048);
}

/// What the kernel `gemv_w8a16_split_k_w16_det` takes, in order.
pub open spec fn gemv_w8a16_split_k_w16_det_takes() -> Seq<Role> {
    seq![
        Role::Input, Role::BFp8, Role::StageF32, Role::BScale, Role::Columns, Role::Depth,
        Role::ChunkDepth,
    ]
}

/// `gemv_w8a16_split_k_w16_det` launches its kernel exactly where the sizes of the request are
/// right, with every argument what its role asks for, on blocks that cover the result.
pub proof fn gemv_w8a16_split_k_w16_det_launches(
    x_len: int, b_fp8_len: int, b_scale: F32, stage_f32_len: int, n: int, k: int, num_shards: int,
)
    requires
        n >= 0,
    ensures
        gemv::gemv_w8a16_split_k_w16_det_plan(
            x_len, b_fp8_len, b_scale, stage_f32_len, n, k, num_shards,
        ) matches Plan::Fail(f) ==> f is InvalidArgument,
        gemv::gemv_w8a16_split_k_w16_det_plan(
            x_len, b_fp8_len, b_scale, stage_f32_len, n, k, num_shards,
        ) is Launch <==> {
            &&& n % 16 == 0
            &&& num_shards != 0
            &&& (shape::ceil_div(k, num_shards) * 2) <= 96 * 1024
            &&& x_len >= k
            &&& b_fp8_len >= k * n
            &&& stage_f32_len >= num_shards * n
        },
        gemv::gemv_w8a16_split_k_w16_det_plan(
            x_len, b_fp8_len, b_scale, stage_f32_len, n, k, num_shards,
        ) matches Plan::Launch(l) ==> {
            &&& l.entry == "gemv_w8a16_split_k_w16_det"@
            &&& l.kernel == "gemv_w8a16_split_k_w16_det"@
            &&& l.args =~= gemv_w8a16_split_k_w16_det_takes().map_values(
                |r: Role|
                    match r {
                        Role::Input => Arg::buffer(0),
                        Role::BFp8 => Arg::buffer(1),
                        Role::StageF32 => Arg::buffer(2),
                        Role::BScale => Arg::Scalar(b_scale),
                        Role::Columns => Arg::word(n),
                        Role::Depth => Arg::word(k),
                        Role::ChunkDepth => Arg::word(shape::ceil_div(k, num_shards)),
                        _ => Arg::Word(0),
                    },
            )
            &&& meaning::covers(l.grid.0, 2048, n)
            &&& l.grid.1 == num_shards
            &&& l.grid.2 == 1
            &&& l.block == (128int, 1int, 1int)
            &&& l.shared_mem == shape::ceil_div(k, num_shards) * 2
            &&& l.opt_in is None
            &&& l.failure is None
            &&& l.tensor_maps.len() == 0
        },
{
    shape::lemma_ceil_div(n, 2048);
}

/// What the kernel `gemv_bf16_split_k_w16` takes, in order.
pub open spec fn gemv_bf16_split_k_w16_takes() -> Seq<Role> {
    seq![Role::Input, Role::Right, Role::OutF32, Role::Columns, Role::Depth, Role::ChunkDepth]
}

/// `gemv_bf16_split_k_w16` launches its kernel exactly where the sizes of the request are right,
/// with every argument what its role asks for, on blocks that cover the result.
pub proof fn gemv_bf16_split_k_w16_launches(
    x_len: int, b_len: int, out_f32_len: int, n: int, k: int, num_shards: int,
)
    requires
        n >= 0,
    ensures
        gemv::gemv_bf16_split_k_w16_plan(
            x_len, b_len, out_f32_len, n, k, num_shards,
        ) matches Plan::Fail(f) ==> f is InvalidArgument,
        gemv::gemv_bf16_split_k_w16_plan(
            x_len, b_len, out_f32_len, n, k, num_shards,
        ) !is Undefined,
        gemv::gemv_bf16_split_k_w16_plan(
            x_len, b_len, out_f32_len, n, k, num_shards,
        ) is Launch <==> {
            &&& n != 0
            &&& k != 0
            &&& num_shards != 0
            &&& n % 16 == 0
            &&& (shape::ceil_div(k, num_shards) * 2) <= 96 * 1024
            &&& x_len >= k
            &&& b_len >= k * n
            &&& out_f32_len >= n
        },
        gemv::gemv_bf16_split_k_w16_plan(
            x_len, b_len, out_f32_len, n, k, num_shards,
        ) matches Plan::Launch(l) ==> {
            &&& l.entry == "gemv_bf16_split_k_w16"@
            &&& l.kernel == "gemv_bf16_split_k_w16"@
            &&& l.args =~= gemv_bf16_split_k_w16_takes().map_values(
                |r: Role|
                    match r {
                        Role::Input => Arg::buffer(0),
                        Role::Right => Arg::buffer(1),
                        Role::OutF32 => Arg::buffer(2),
                        Role::Columns => Arg::word(n),
                        Role::Depth => Arg::word(k),
                        Role::ChunkDepth => Arg::word(shape::ceil_div(k, num_shards)),
                        _ => Arg::Word(0),
                    },
            )
            &&& meaning::covers(l.grid.0, 2048, n)
            &&& l.grid.1 == num_shards
            &&& l.grid.2 == 1
            &&& l.block == (128int, 1int, 1int)
            &&& l.shared_mem == shape::ceil_div(k, num_shards) * 2
            &&& l.opt_in is None
            &&& l.failure is None
            &&& l.tensor_maps.len() == 0
        },
{
    shape::lemma_ceil_div(n, 2048);
}

/// What the kernel `gemv_bf16_split_k` takes, in order.
pub open spec fn gemv_bf16_split_k_takes() -> Seq<Role> {
    seq![Role::Input, Role::Right, Role::OutF32, Role::Columns, Role::Depth, Role::ChunkDepth]
}

/// `gemv_bf16_split_k` launches its kernel exactly where the sizes of the request are right, with
/// every argument what its role asks for, on blocks that cover the result.
pub proof fn gemv_bf16_split_k_launches(
    x_len: int, b_len: int, out_f32_len: int, n: int, k: int, num_shards: int,
)
    requires
        n >= 0,
    ensures
        gemv::gemv_bf16_split_k_plan(
            x_len, b_len, out_f32_len, n, k, num_shards,
        ) matches Plan::Fail(f) ==> f is InvalidArgument,
        gemv::gemv_bf16_split_k_plan(
            x_len, b_len, out_f32_len, n, k, num_shards,
        ) !is Undefined,
        gemv::gemv_bf16_split_k_plan(
            x_len, b_len, out_f32_len, n, k, num_shards,
        ) is Launch <==> {
            &&& n != 0
            &&& k != 0
            &&& num_shards != 0
            &&& n % 8 == 0
            &&& (shape::ceil_div(k, num_shards) * 2) <= 96 * 1024
            &&& x_len >= k
            &&& b_len >= k * n
            &&& out_f32_len >= n
        },
        gemv::gemv_bf16_split_k_plan(
            x_len, b_len, out_f32_len, n, k, num_shards,
        ) matches Plan::Launch(l) ==> {
            &&& l.entry == "gemv_bf16_split_k"@
            &&& l.kernel == "gemv_bf16_split_k"@
            &&& l.args =~= gemv_bf16_split_k_takes().map_values(
                |r: Role|
                    match r {
                        Role::Input => Arg::buffer(0),
                        Role::Right => Arg::buffer(1),
                        Role::OutF32 => Arg::buffer(2),
                        Role::Columns => Arg::word(n),
                        Role::Depth => Arg::word(k),
                        Role::ChunkDepth => Arg::word(shape::ceil_div(k, num_shards)),
                        _ => Arg::Word(0),
                    },
            )
            &&& meaning::covers(l.grid.0, 1024, n)
            &&& l.grid.1 == num_shards
            &&& l.grid.2 == 1
            &&& l.block == (128int, 1int, 1int)
            &&& l.shared_mem == shape::ceil_div(k, num_shards) * 2
            &&& l.opt_in is None
            &&& l.failure is None
            &&& l.tensor_maps.len() == 0
        },
{
    shape::lemma_ceil_div(n, 1024);
}

/// What the kernel `gemv_bf16_split_k_det` takes, in order.
pub open spec fn gemv_bf16_split_k_det_takes() -> Seq<Role> {
    seq![Role::Input, Role::Right, Role::StageF32, Role::Columns, Role::Depth, Role::ChunkDepth]
}

/// `gemv_bf16_split_k_det` launches its kernel exactly where the sizes of the request are right,
/// with every argument what its role asks for, on blocks that cover the result.
pub proof fn gemv_bf16_split_k_det_launches(
    x_len: int, b_len: int, stage_f32_len: int, n: int, k: int, num_shards: int,
)
    requires
        n >= 0,
    ensures
        gemv::gemv_bf16_split_k_det_plan(
            x_len, b_len, stage_f32_len, n, k, num_shards,
        ) matches Plan::Fail(f) ==> f is InvalidArgument,
        gemv::gemv_bf16_split_k_det_plan(
            x_len, b_len, stage_f32_len, n, k, num_shards,
        ) !is Undefined,
        gemv::gemv_bf16_split_k_det_plan(
            x_len, b_len, stage_f32_len, n, k, num_shards,
        ) is Launch <==> {
            &&& n != 0
            &&& k != 0
            &&& num_shards != 0
            &&& n % 8 == 0
            &&& (shape::ceil_div(k, num_shards) * 2) <= 96 * 1024
            &&& x_len >= k
            &&& b_len >= k * n
            &&& stage_f32_len >= num_shards * n
        },
        gemv::gemv_bf16_split_k_det_plan(
            x_len, b_len, stage_f32_len, n, k, num_shards,
        ) matches Plan::Launch(l) ==> {
            &&& l.entry == "gemv_bf16_split_k_det"@
            &&& l.kernel == "gemv_bf16_split_k_det"@
            &&& l.args =~= gemv_bf16_split_k_det_takes().map_values(
                |r: Role|
                    match r {
                        Role::Input => Arg::buffer(0),
                        Role::Right => Arg::buffer(1),
                        Role::StageF32 => Arg::buffer(2),
                        Role::Columns => Arg::word(n),
                        Role::Depth => Arg::word(k),
                        Role::ChunkDepth => Arg::word(shape::ceil_div(k, num_shards)),
                        _ => Arg::Word(0),
                    },
            )
            &&& meaning::covers(l.grid.0, 1024, n)
            &&& l.grid.1 == num_shards
            &&& l.grid.2 == 1
            &&& l.block == (128int, 1int, 1int)
            &&& l.shared_mem == shape::ceil_div(k, num_shards) * 2
            &&& l.opt_in is None
            &&& l.failure is None
            &&& l.tensor_maps.len() == 0
        },
{
    shape::lemma_ceil_div(n, 1024);
}

/// What the kernel `gemm_bf16_split_k_det` takes, in order.
pub open spec fn gemm_bf16_split_k_det_takes() -> Seq<Role> {
    seq![
        Role::Input, Role::Right, Role::StageF32, Role::Columns, Role::Depth, Role::ChunkDepth,
        Role::Rows,
    ]
}

/// `gemm_bf16_split_k_det` launches its kernel exactly where the sizes of the request are right,
/// with every argument what its role asks for, on blocks that cover the result.
pub proof fn gemm_bf16_split_k_det_launches(
    x_len: int, b_len: int, stage_f32_len: int, n: int, k: int, m: int, num_shards: int,
)
    requires
        n >= 0,
    ensures
        gemv::gemm_bf16_split_k_det_plan(
            x_len, b_len, stage_f32_len, n, k, m, num_shards,
        ) matches Plan::Fail(f) ==> f is InvalidArgument,
        gemv::gemm_bf16_split_k_det_plan(
            x_len, b_len, stage_f32_len, n, k, m, num_shards,
        ) is Launch <==> {
            &&& n != 0
            &&& k != 0
            &&& num_shards != 0
            &&& m != 0
            &&& n % 8 == 0
            &&& m <= 8
            &&& (m * shape::ceil_div(k, num_shards) * 2) <= 48 * 1024
            &&& num_shards * m * n <= u64::MAX
            &&& x_len >= m * k
            &&& b_len >= k * n
            &&& stage_f32_len >= num_shards * m * n
        },
        gemv::gemm_bf16_split_k_det_plan(
            x_len, b_len, stage_f32_len, n, k, m, num_shards,
        ) matches Plan::Launch(l) ==> {
            &&& l.entry == "gemm_bf16_split_k_det"@
            &&& l.kernel == "gemm_bf16_split_k_det"@
            &&& l.args =~= gemm_bf16_split_k_det_takes().map_values(
                |r: Role|
                    match r {
                        Role::Input => Arg::buffer(0),
                        Role::Right => Arg::buffer(1),
                        Role::StageF32 => Arg::buffer(2),
                        Role::Columns => Arg::word(n),
                        Role::Depth => Arg::word(k),
                        Role::ChunkDepth => Arg::word(shape::ceil_div(k, num_shards)),
                        Role::Rows => Arg::word(m),
                        _ => Arg::Word(0),
                    },
            )
            &&& meaning::covers(l.grid.0, 1024, n)
            &&& l.grid.1 == num_shards
            &&& l.grid.2 == 1
            &&& l.block == (128int, 1int, 1int)
            &&& l.shared_mem == m * shape::ceil_div(k, num_shards) * 2
            &&& l.opt_in is None
            &&& l.failure is None
            &&& l.tensor_maps.len() == 0
        },
{
    shape::lemma_ceil_div(n, 1024);
}

/// What the kernel `f32_shard_reduce_to_bf16` takes, in order.
pub open spec fn f32_shard_reduce_to_bf16_takes() -> Seq<Role> {
    seq![Role::StageF32, Role::OutBf16, Role::Columns, Role::NumShards]
}

/// `f32_shard_reduce_to_bf16` launches its kernel exactly where the sizes of the request are
/// right, with every argument what its role asks for, on blocks that cover the result.
pub proof fn f32_shard_reduce_to_bf16_launches(
    stage_f32_len: int, out_bf16_len: int, n: int, num_shards: int,
)
    requires
        n >= 0,
    ensures
        gemv::f32_shard_reduce_to_bf16_plan(
            stage_f32_len, out_bf16_len, n, num_shards,
        ) matches Plan::Fail(f) ==> f is InvalidArgument,
        gemv::f32_shard_reduce_to_bf16_plan(
            stage_f32_len, out_bf16_len, n, num_shards,
        ) !is Undefined,
        gemv::f32_shard_reduce_to_bf16_plan(
            stage_f32_len, out_bf16_len, n, num_shards,
        ) is Launch <==> {
            &&& n != 0
            &&& num_shards != 0
            &&& stage_f32_len >= num_shards * n
            &&& out_bf16_len >= n
        },
        gemv::f32_shard_reduce_to_bf16_plan(
            stage_f32_len, out_bf16_len, n, num_shards,
        ) matches Plan::Launch(l) ==> {
            &&& l.entry == "f32_shard_reduce_to_bf16"@
            &&& l.kernel == "f32_shard_reduce_to_bf16"@
            &&& l.args =~= f32_shard_reduce_to_bf16_takes().map_values(
                |r: Role|
                    match r {
                        Role::StageF32 => Arg::buffer(0),
                        Role::OutBf16 => Arg::buffer(1),
                        Role::Columns => Arg::word(n),
                        Role::NumShards => Arg::word(num_shards),
                        _ => Arg::Word(0),
                    },
            )
            &&& meaning::covers(l.grid.0, 256, n)
            &&& l.grid.1 == 1
            &&& l.grid.2 == 1
            &&& l.block == (256int, 1int, 1int)
            &&& l.shared_mem == 0
            &&& l.opt_in is None
            &&& l.failure is None
            &&& l.tensor_maps.len() == 0
        },
{
    shape::lemma_ceil_div(n, 256);
}

/// `gemv_bf16_split_k_view` launches its kernel exactly where the sizes of the request are right,
/// with every argument what its role asks for, on blocks that cover the result.
pub proof fn gemv_bf16_split_k_view_launches(
    x_len: int, b_len: int, out_f32_len: int, n: int, k: int, num_shards: int,
)
    requires
        n >= 0,
    ensures
        gemv::gemv_bf16_split_k_view_plan(
            x_len, b_len, out_f32_len, n, k, num_shards,
        ) matches Plan::Fail(f) ==> f is InvalidArgument,
        gemv::gemv_bf16_split_k_view_plan(
            x_len, b_len, out_f32_len, n, k, num_shards,
        ) !is Undefined,
        gemv::gemv_bf16_split_k_view_plan(
            x_len, b_len, out_f32_len, n, k, num_shards,
        ) is Launch <==> {
            &&& n != 0
            &&& k != 0
            &&& num_shards != 0
            &&& n % 8 == 0
            &&& (shape::ceil_div(k, num_shards) * 2) <= 96 * 1024
            &&& x_len >= k
            &&& b_len >= k * n
            &&& out_f32_len >= n
        },
        gemv::gemv_bf16_split_k_view_plan(
            x_len, b_len, out_f32_len, n, k, num_shards,
        ) matches Plan::Launch(l) ==> {
            &&& l.entry == "gemv_bf16_split_k"@
            &&& l.kernel == "gemv_bf16_split_k"@
            &&& l.args =~= gemv_bf16_split_k_takes().map_values(
                |r: Role|
                    match r {
                        Role::Input => Arg::buffer(0),
                        Role::Right => Arg::buffer(1),
                        Role::OutF32 => Arg::buffer(2),
                        Role::Columns => Arg::word(n),
                        Role::Depth => Arg::word(k),
                        Role::ChunkDepth => Arg::word(shape::ceil_div(k, num_shards)),
                        _ => Arg::Word(0),
                    },
            )
            &&& meaning::covers(l.grid.0, 1024, n)
            &&& l.grid.1 == num_shards
            &&& l.grid.2 == 1
            &&& l.block == (128int, 1int, 1int)
            &&& l.shared_mem == shape::ceil_div(k, num_shards) * 2
            &&& l.opt_in is None
            &&& l.failure is None
            &&& l.tensor_maps.len() == 0
        },
{
    shape::lemma_ceil_div(n, 1024);
}

/// What the kernel `gemv_bf16_split_k_v4` takes, in order.
pub open spec fn gemv_bf16_split_k_v4_takes() -> Seq<Role> {
    seq![Role::Input, Role::Right, Role::OutF32, Role::Columns, Role::Depth, Role::ChunkDepth]
}

/// `gemv_bf16_split_k_v4` launches its kernel exactly where the sizes of the request are right,
/// with every argument what its role asks for, on blocks that cover the result.
pub proof fn gemv_bf16_split_k_v4_launches(
    x_len: int, b_len: int, out_f32_len: int, n: int, k: int, num_shards: int,
)
    requires
        n >= 0,
    ensures
        gemv::gemv_bf16_split_k_v4_plan(
            x_len, b_len, out_f32_len, n, k, num_shards,
        ) matches Plan::Fail(f) ==> f is InvalidArgument,
        gemv::gemv_bf16_split_k_v4_plan(
            x_len, b_len, out_f32_len, n, k, num_shards,
        ) !is Undefined,
        gemv::gemv_bf16_split_k_v4_plan(
            x_len, b_len, out_f32_len, n, k, num_shards,
        ) is Launch <==> {
            &&& n != 0
            &&& k != 0
            &&& num_shards != 0
            &&& n % 8 == 0
            &&& (shape::ceil_div(k, num_shards) * 2) <= 96 * 1024
        },
        gemv::gemv_bf16_split_k_v4_plan(
            x_len, b_len, out_f32_len, n, k, num_shards,
        ) matches Plan::Launch(l) ==> {
            &&& l.entry == "gemv_bf16_split_k_v4"@
            &&& l.kernel == "gemv_bf16_split_k_v4"@
            &&& l.args =~= gemv_bf16_split_k_v4_takes().map_values(
                |r: Role|
                    match r {
                        Role::Input => Arg::buffer(0),
                        Role::Right => Arg::buffer(1),
                        Role::OutF32 => Arg::buffer(2),
                        Role::Columns => Arg::word(n),
                        Role::Depth => Arg::word(k),
                        Role::ChunkDepth => Arg::word(shape::ceil_div(k, num_shards)),
                        _ => Arg::Word(0),
                    },
            )
            &&& meaning::covers(l.grid.0, 1024, n)
            &&& l.grid.1 == num_shards
            &&& l.grid.2 == 1
            &&& l.block == (128int, 1int, 1int)
            &&& l.shared_mem == shape::ceil_div(k, num_shards) * 2
            &&& l.opt_in is None
            &&& l.failure is None
            &&& l.tensor_maps.len() == 0
        },
{
    shape::lemma_ceil_div(n, 1024);
}

} // verus!
