//! What the launches of `attention::decode` hand to their kernels.
use crate::attention::decode;
use crate::launches::role::Role;
use crate::plan::{Arg, F32, Plan};
use crate::shape;
use vstd::prelude::*;

verus! {

/// What the kernel `fa_bf16_decode_d128_gqa` takes, in order.
pub open spec fn fa_bf16_decode_d128_gqa_takes() -> Seq<Role> {
    seq![
        Role::Query, Role::Key, Role::Value, Role::Output, Role::NumHeads, Role::NumKvHeads,
        Role::SeqKv, Role::KvStride, Role::Scale,
    ]
}

/// `flash_attn_bf16_decode_d128_gqa` launches its kernel exactly where the sizes of the request
/// are right, with every argument what its role asks for, on blocks that cover the result.
pub proof fn flash_attn_bf16_decode_d128_gqa_launches(
    q_len: int, k_len: int, v_len: int, o_len: int, batch: int, num_heads: int, num_kv_heads: int,
    seq_kv: int, kv_stride: int, scale: F32,
)
    ensures
        decode::flash_attn_bf16_decode_d128_gqa_plan(
            q_len, k_len, v_len, o_len, batch, num_heads, num_kv_heads, seq_kv, kv_stride, scale,
        ) matches Plan::Fail(f) ==> f is InvalidArgument,
        decode::flash_attn_bf16_decode_d128_gqa_plan(
            q_len, k_len, v_len, o_len, batch, num_heads, num_kv_heads, seq_kv, kv_stride, scale,
        ) is Launch <==> {
            &&& batch != 0
            &&& num_heads != 0
            &&& num_kv_heads != 0
            &&& seq_kv != 0
            &&& kv_stride != 0
            &&& num_heads % num_kv_heads == 0
            &&& seq_kv <= kv_stride
            &&& batch * num_heads * 128 <= u64::MAX
            &&& batch * num_kv_heads * kv_stride * 128 <= u64::MAX
            &&& q_len >= batch * num_heads * 128
            &&& k_len >= batch * num_kv_heads * kv_stride * 128
            &&& v_len >= batch * num_kv_heads * kv_stride * 128
            &&& o_len >= batch * num_heads * 128
        },
        decode::flash_attn_bf16_decode_d128_gqa_plan(
            q_len, k_len, v_len, o_len, batch, num_heads, num_kv_heads, seq_kv, kv_stride, scale,
        ) matches Plan::Launch(l) ==> {
            &&& l.entry == "fa_bf16_decode_d128_gqa"@
            &&& l.kernel == "fa_bf16_decode_d128_gqa"@
            &&& l.args =~= fa_bf16_decode_d128_gqa_takes().map_values(
                |r: Role|
                    match r {
                        Role::Query => Arg::buffer(0),
                        Role::Key => Arg::buffer(1),
                        Role::Value => Arg::buffer(2),
                        Role::Output => Arg::buffer(3),
                        Role::NumHeads => Arg::word(num_heads),
                        Role::NumKvHeads => Arg::word(num_kv_heads),
                        Role::SeqKv => Arg::word(seq_kv),
                        Role::KvStride => Arg::word(kv_stride),
                        Role::Scale => Arg::Scalar(scale),
                        _ => Arg::Word(0),
                    },
            )
            &&& l.grid.0 == num_heads
            &&& l.grid.1 == batch
            &&& l.grid.2 == 1
            &&& l.block == (128int, 1int, 1int)
            &&& l.shared_mem == 0
            &&& l.opt_in is None
            &&& l.failure is None
            &&& l.tensor_maps.len() == 0
        },
{
}

/// What the kernel `fa_bf16_decode_d192_dv128_gqa` takes, in order.
pub open spec fn fa_bf16_decode_d192_dv128_gqa_takes() -> Seq<Role> {
    seq![
        Role::Query, Role::Key, Role::Value, Role::Output, Role::NumHeads, Role::NumKvHeads,
        Role::SeqKv, Role::KvStride, Role::Scale,
    ]
}

/// `flash_attn_bf16_decode_d192_dv128_gqa` launches its kernel exactly where the sizes of the
/// request are right, with every argument what its role asks for, on blocks that cover the
/// result.
pub proof fn flash_attn_bf16_decode_d192_dv128_gqa_launches(
    q_len: int, k_len: int, v_len: int, o_len: int, batch: int, num_heads: int, num_kv_heads: int,
    seq_kv: int, kv_stride: int, scale: F32,
)
    ensures
        decode::flash_attn_bf16_decode_d192_dv128_gqa_plan(
            q_len, k_len, v_len, o_len, batch, num_heads, num_kv_heads, seq_kv, kv_stride, scale,
        ) matches Plan::Fail(f) ==> f is InvalidArgument,
        decode::flash_attn_bf16_decode_d192_dv128_gqa_plan(
            q_len, k_len, v_len, o_len, batch, num_heads, num_kv_heads, seq_kv, kv_stride, scale,
        ) is Launch <==> {
            &&& batch != 0
            &&& num_heads != 0
            &&& num_kv_heads != 0
            &&& seq_kv != 0
            &&& kv_stride != 0
            &&& num_heads % num_kv_heads == 0
            &&& seq_kv <= kv_stride
            &&& batch * num_heads * 192 <= u64::MAX
            &&& batch * num_heads * 128 <= u64::MAX
            &&& batch * num_kv_heads * kv_stride * 192 <= u64::MAX
            &&& batch * num_kv_heads * kv_stride * 128 <= u64::MAX
            &&& q_len >= batch * num_heads * 192
            &&& k_len >= batch * num_kv_heads * kv_stride * 192
            &&& v_len >= batch * num_kv_heads * kv_stride * 128
            &&& o_len >= batch * num_heads * 128
        },
        decode::flash_attn_bf16_decode_d192_dv128_gqa_plan(
            q_len, k_len, v_len, o_len, batch, num_heads, num_kv_heads, seq_kv, kv_stride, scale,
        ) matches Plan::Launch(l) ==> {
            &&& l.entry == "fa_bf16_decode_d192_dv128_gqa"@
            &&& l.kernel == "fa_bf16_decode_d192_dv128_gqa"@
            &&& l.args =~= fa_bf16_decode_d192_dv128_gqa_takes().map_values(
                |r: Role|
                    match r {
                        Role::Query => Arg::buffer(0),
                        Role::Key => Arg::buffer(1),
                        Role::Value => Arg::buffer(2),
                        Role::Output => Arg::buffer(3),
                        Role::NumHeads => Arg::word(num_heads),
                        Role::NumKvHeads => Arg::word(num_kv_heads),
                        Role::SeqKv => Arg::word(seq_kv),
                        Role::KvStride => Arg::word(kv_stride),
                        Role::Scale => Arg::Scalar(scale),
                        _ => Arg::Word(0),
                    },
            )
            &&& l.grid.0 == num_heads
            &&& l.grid.1 == batch
            &&& l.grid.2 == 1
            &&& l.block == (192int, 1int, 1int)
            &&& l.shared_mem == 0
            &&& l.opt_in is None
            &&& l.failure is None
            &&& l.tensor_maps.len() == 0
        },
{
}

/// What the kernel `fa_bf16_fp8kv_decode_d128_gqa` takes, in order.
pub open spec fn fa_bf16_fp8kv_decode_d128_gqa_takes() -> Seq<Role> {
    seq![
        Role::Query, Role::Key, Role::Value, Role::Output, Role::NumQHeads, Role::NumKvHeads,
        Role::SeqKv, Role::KvStride, Role::Scale, Role::KvScale,
    ]
}

/// `fa_bf16_fp8kv_decode_d128_gqa` launches its kernel exactly where the sizes of the request are
/// right, with every argument what its role asks for, on blocks that cover the result.
pub proof fn fa_bf16_fp8kv_decode_d128_gqa_launches(
    q_len: int, k_len: int, v_len: int, o_len: int, batch: int, num_q_heads: int,
    num_kv_heads: int, seq_kv: int, kv_stride: int, scale: F32, kv_scale: F32,
)
    ensures
        decode::fa_bf16_fp8kv_decode_d128_gqa_plan(
            q_len, k_len, v_len, o_len, batch, num_q_heads, num_kv_heads, seq_kv, kv_stride,
            scale, kv_scale,
        ) matches Plan::Fail(f) ==> f is InvalidArgument,
        decode::fa_bf16_fp8kv_decode_d128_gqa_plan(
            q_len, k_len, v_len, o_len, batch, num_q_heads, num_kv_heads, seq_kv, kv_stride,
            scale, kv_scale,
        ) is Launch <==> {
            &&& batch != 0
            &&& num_q_heads != 0
            &&& num_kv_heads != 0
            &&& seq_kv != 0
            &&& kv_stride != 0
            &&& num_q_heads % num_kv_heads == 0
            &&& seq_kv <= kv_stride
            &&& batch * num_q_heads * 128 <= u32::MAX
            &&& q_len >= batch * num_q_heads * 128
            &&& o_len >= batch * num_q_heads * 128
            &&& batch * num_kv_heads <= u32::MAX
            &&& batch * num_kv_heads * kv_stride * 128 <= u32::MAX
            &&& k_len >= batch * num_kv_heads * kv_stride * 128
            &&& v_len >= batch * num_kv_heads * kv_stride * 128
        },
        decode::fa_bf16_fp8kv_decode_d128_gqa_plan(
            q_len, k_len, v_len, o_len, batch, num_q_heads, num_kv_heads, seq_kv, kv_stride,
            scale, kv_scale,
        ) matches Plan::Launch(l) ==> {
            &&& l.entry == "fa_bf16_fp8kv_decode_d128_gqa"@
            &&& l.kernel == "fa_bf16_fp8kv_decode_d128_gqa"@
            &&& l.args =~= fa_bf16_fp8kv_decode_d128_gqa_takes().map_values(
                |r: Role|
                    match r {
                        Role::Query => Arg::buffer(0),
                        Role::Key => Arg::buffer(1),
                        Role::Value => Arg::buffer(2),
                        Role::Output => Arg::buffer(3),
                        Role::NumQHeads => Arg::word(num_q_heads),
                        Role::NumKvHeads => Arg::word(num_kv_heads),
                        Role::SeqKv => Arg::word(seq_kv),
                        Role::KvStride => Arg::word(kv_stride),
                        Role::Scale => Arg::Scalar(scale),
                        Role::KvScale => Arg::Scalar(kv_scale),
                        _ => Arg::Word(0),
                    },
            )
            &&& l.grid.0 == num_q_heads
            &&& l.grid.1 == batch
            &&& l.grid.2 == 1
            &&& l.block == (128int, 1int, 1int)
            &&& l.shared_mem == 0
            &&& l.opt_in is None
            &&& l.failure is None
            &&& l.tensor_maps.len() == 0
        },
{
}

/// What the kernel `fa_bf16_fp8kv_decode_d256_gqa_pos_dev` takes, in order.
pub open spec fn fa_bf16_fp8kv_decode_d256_gqa_pos_dev_takes() -> Seq<Role> {
    seq![
        Role::Query, Role::Key, Role::Value, Role::Output, Role::NumQHeads, Role::NumKvHeads,
        Role::KvStride, Role::PosPtr, Role::SlidingWindow, Role::Scale, Role::KvScale,
    ]
}

/// `flash_attn_bf16_fp8kv_decode_d256_gqa_pos_dev` launches its kernel exactly where the sizes of
/// the request are right, with every argument what its role asks for, on blocks that cover the
/// result.
pub proof fn flash_attn_bf16_fp8kv_decode_d256_gqa_pos_dev_launches(
    q_len: int, k_len: int, v_len: int, o_len: int, batch: int, num_q_heads: int,
    num_kv_heads: int, kv_stride: int, pos_ptr_len: int, sliding_window: int, scale: F32,
    kv_scale: F32,
)
    ensures
        decode::flash_attn_bf16_fp8kv_decode_d256_gqa_pos_dev_plan(
            q_len, k_len, v_len, o_len, batch, num_q_heads, num_kv_heads, kv_stride, pos_ptr_len,
            sliding_window, scale, kv_scale,
        ) matches Plan::Fail(f) ==> f is InvalidArgument,
        decode::flash_attn_bf16_fp8kv_decode_d256_gqa_pos_dev_plan(
            q_len, k_len, v_len, o_len, batch, num_q_heads, num_kv_heads, kv_stride, pos_ptr_len,
            sliding_window, scale, kv_scale,
        ) is Launch <==> {
            &&& batch != 0
            &&& num_q_heads != 0
            &&& num_kv_heads != 0
            &&& kv_stride != 0
            &&& num_q_heads % num_kv_heads == 0
            &&& shape::low_word(pos_ptr_len) >= batch
            &&& batch * num_q_heads * 256 <= u64::MAX
            &&& batch * num_kv_heads * kv_stride * 256 <= u64::MAX
            &&& q_len >= batch * num_q_heads * 256
            &&& o_len >= batch * num_q_heads * 256
            &&& k_len >= batch * num_kv_heads * kv_stride * 256
            &&& v_len >= batch * num_kv_heads * kv_stride * 256
        },
        decode::flash_attn_bf16_fp8kv_decode_d256_gqa_pos_dev_plan(
            q_len, k_len, v_len, o_len, batch, num_q_heads, num_kv_heads, kv_stride, pos_ptr_len,
            sliding_window, scale, kv_scale,
        ) matches Plan::Launch(l) ==> {
            &&& l.entry == "fa_bf16_fp8kv_decode_d256_gqa_pos_dev"@
            &&& l.kernel == "fa_bf16_fp8kv_decode_d256_gqa_pos_dev"@
            &&& l.args =~= fa_bf16_fp8kv_decode_d256_gqa_pos_dev_takes().map_values(
                |r: Role|
                    match r {
                        Role::Query => Arg::buffer(0),
                        Role::Key => Arg::buffer(1),
                        Role::Value => Arg::buffer(2),
                        Role::Output => Arg::buffer(3),
                        Role::NumQHeads => Arg::word(num_q_heads),
                        Role::NumKvHeads => Arg::word(num_kv_heads),
                        Role::KvStride => Arg::word(kv_stride),
                        Role::PosPtr => Arg::buffer(4),
                        Role::SlidingWindow => Arg::word(sliding_window),
                        Role::Scale => Arg::Scalar(scale),
                        Role::KvScale => Arg::Scalar(kv_scale),
                        _ => Arg::Word(0),
                    },
            )
            &&& l.grid.0 == num_q_heads
            &&& l.grid.1 == batch
            &&& l.grid.2 == 1
            &&& l.block == (256int, 1int, 1int)
            &&& l.shared_mem == 0
            &&& l.opt_in is None
            &&& l.failure is None
            &&& l.tensor_maps.len() == 0
        },
{
}

/// What the kernel `fa_bf16_fp8kv_decode_d512_gqa_pos_dev` takes, in order.
pub open spec fn fa_bf16_fp8kv_decode_d512_gqa_pos_dev_takes() -> Seq<Role> {
    seq![
        Role::Query, Role::Key, Role::Value, Role::Output, Role::NumQHeads, Role::NumKvHeads,
        Role::KvStride, Role::PosPtr, Role::Scale, Role::KvScale,
    ]
}

/// `flash_attn_bf16_fp8kv_decode_d512_gqa_pos_dev` launches its kernel exactly where the sizes of
/// the request are right, with every argument what its role asks for, on blocks that cover the
/// result.
pub proof fn flash_attn_bf16_fp8kv_decode_d512_gqa_pos_dev_launches(
    q_len: int, k_len: int, v_len: int, o_len: int, batch: int, num_q_heads: int,
    num_kv_heads: int, kv_stride: int, pos_ptr_len: int, scale: F32, kv_scale: F32,
)
    ensures
        decode::flash_attn_bf16_fp8kv_decode_d512_gqa_pos_dev_plan(
            q_len, k_len, v_len, o_len, batch, num_q_heads, num_kv_heads, kv_stride, pos_ptr_len,
            scale, kv_scale,
        ) matches Plan::Fail(f) ==> f is InvalidArgument,
        decode::flash_attn_bf16_fp8kv_decode_d512_gqa_pos_dev_plan(
            q_len, k_len, v_len, o_len, batch, num_q_heads, num_kv_heads, kv_stride, pos_ptr_len,
            scale, kv_scale,
        ) is Launch <==> {
            &&& batch != 0
            &&& num_q_heads != 0
            &&& num_kv_heads != 0
            &&& kv_stride != 0
            &&& num_q_heads % num_kv_heads == 0
            &&& shape::low_word(pos_ptr_len) >= batch
            &&& batch * num_q_heads * 512 <= u64::MAX
            &&& batch * num_kv_heads * kv_stride * 512 <= u64::MAX
            &&& q_len >= batch * num_q_heads * 512
            &&& o_len >= batch * num_q_heads * 512
            &&& k_len >= batch * num_kv_heads * kv_stride * 512
            &&& v_len >= batch * num_kv_heads * kv_stride * 512
        },
        decode::flash_attn_bf16_fp8kv_decode_d512_gqa_pos_dev_plan(
            q_len, k_len, v_len, o_len, batch, num_q_heads, num_kv_heads, kv_stride, pos_ptr_len,
            scale, kv_scale,
        ) matches Plan::Launch(l) ==> {
            &&& l.entry == "fa_bf16_fp8kv_decode_d512_gqa_pos_dev"@
            &&& l.kernel == "fa_bf16_fp8kv_decode_d512_gqa_pos_dev"@
            &&& l.args =~= fa_bf16_fp8kv_decode_d512_gqa_pos_dev_takes().map_values(
                |r: Role|
                    match r {
                        Role::Query => Arg::buffer(0),
                        Role::Key => Arg::buffer(1),
                        Role::Value => Arg::buffer(2),
                        Role::Output => Arg::buffer(3),
                        Role::NumQHeads => Arg::word(num_q_heads),
                        Role::NumKvHeads => Arg::word(num_kv_heads),
                        Role::KvStride => Arg::word(kv_stride),
                        Role::PosPtr => Arg::buffer(4),
                        Role::Scale => Arg::Scalar(scale),
                        Role::KvScale => Arg::Scalar(kv_scale),
                        _ => Arg::Word(0),
                    },
            )
            &&& l.grid.0 == num_q_heads
            &&& l.grid.1 == batch
            &&& l.grid.2 == 1
            &&& l.block == (512int, 1int, 1int)
            &&& l.shared_mem == 0
            &&& l.opt_in is None
            &&& l.failure is None
            &&& l.tensor_maps.len() == 0
        },
{
}

/// What the kernel `fa_bf16_fp8kv_decode_d128_causal` takes, in order.
pub open spec fn fa_bf16_fp8kv_decode_d128_causal_takes() -> Seq<Role> {
    seq![
        Role::Query, Role::Key, Role::Value, Role::Output, Role::QPos, Role::NumHeads,
        Role::SeqKv, Role::Scale, Role::KvScale,
    ]
}

/// `fa_bf16_fp8kv_decode_d128_causal` launches its kernel exactly where the sizes of the request
/// are right, with every argument what its role asks for, on blocks that cover the result.
pub proof fn fa_bf16_fp8kv_decode_d128_causal_launches(
    q_len: int, k_len: int, v_len: int, o_len: int, q_pos_len: int, batch: int, num_heads: int,
    seq_kv: int, scale: F32, kv_scale: F32,
)
    ensures
        decode::fa_bf16_fp8kv_decode_d128_causal_plan(
            q_len, k_len, v_len, o_len, q_pos_len, batch, num_heads, seq_kv, scale, kv_scale,
        ) matches Plan::Fail(f) ==> f is InvalidArgument,
        decode::fa_bf16_fp8kv_decode_d128_causal_plan(
            q_len, k_len, v_len, o_len, q_pos_len, batch, num_heads, seq_kv, scale, kv_scale,
        ) is Launch <==> {
            &&& batch != 0
            &&& num_heads != 0
            &&& seq_kv != 0
            &&& q_pos_len >= batch
            &&& batch * num_heads * 128 <= u32::MAX
            &&& q_len >= batch * num_heads * 128
            &&& o_len >= batch * num_heads * 128
            &&& batch * num_heads <= u32::MAX
            &&& batch * num_heads * seq_kv * 128 <= u32::MAX
            &&& k_len >= batch * num_heads * seq_kv * 128
            &&& v_len >= batch * num_heads * seq_kv * 128
        },
        decode::fa_bf16_fp8kv_decode_d128_causal_plan(
            q_len, k_len, v_len, o_len, q_pos_len, batch, num_heads, seq_kv, scale, kv_scale,
        ) matches Plan::Launch(l) ==> {
            &&& l.entry == "fa_bf16_fp8kv_decode_d128_causal"@
            &&& l.kernel == "fa_bf16_fp8kv_decode_d128_causal"@
            &&& l.args =~= fa_bf16_fp8kv_decode_d128_causal_takes().map_values(
                |r: Role|
                    match r {
                        Role::Query => Arg::buffer(0),
                        Role::Key => Arg::buffer(1),
                        Role::Value => Arg::buffer(2),
                        Role::Output => Arg::buffer(3),
                        Role::QPos => Arg::buffer(4),
                        Role::NumHeads => Arg::word(num_heads),
                        Role::SeqKv => Arg::word(seq_kv),
                        Role::Scale => Arg::Scalar(scale),
                        Role::KvScale => Arg::Scalar(kv_scale),
                        _ => Arg::Word(0),
                    },
            )
            &&& l.grid.0 == num_heads
            &&& l.grid.1 == batch
            &&& l.grid.2 == 1
            &&& l.block == (128int, 1int, 1int)
            &&& l.shared_mem == 0
            &&& l.opt_in is None
            &&& l.failure is None
            &&& l.tensor_maps.len() == 0
        },
{
}

/// What the kernel `fp8_mma_qk_microkernel` takes, in order.
pub open spec fn fp8_mma_qk_microkernel_takes() -> Seq<Role> {
    seq![Role::Query, Role::Key, Role::QkOut, Role::Scale]
}

/// `fp8_mma_qk_microkernel` launches its kernel exactly where the sizes of the request are right,
/// with every argument what its role asks for, on blocks that cover the result.
pub proof fn fp8_mma_qk_microkernel_launches(q_len: int, k_len: int, qk_out_len: int, scale: F32)
    ensures
        decode::fp8_mma_qk_microkernel_plan(
            q_len, k_len, qk_out_len, scale,
        ) matches Plan::Fail(f) ==> f is InvalidArgument,
        decode::fp8_mma_qk_microkernel_plan(
            q_len, k_len, qk_out_len, scale,
        ) !is Undefined,
        decode::fp8_mma_qk_microkernel_plan(
            q_len, k_len, qk_out_len, scale,
        ) is Launch <==> {
            &&& q_len >= 16 * 512
            &&& k_len >= 8 * 512
            &&& qk_out_len >= 16 * 8
        },
        decode::fp8_mma_qk_microkernel_plan(
            q_len, k_len, qk_out_len, scale,
        ) matches Plan::Launch(l) ==> {
            &&& l.entry == "fp8_mma_qk_microkernel"@
            &&& l.kernel == "fp8_mma_qk_microkernel"@
            &&& l.args =~= fp8_mma_qk_microkernel_takes().map_values(
                |r: Role|
                    match r {
                        Role::Query => Arg::buffer(0),
                        Role::Key => Arg::buffer(1),
                        Role::QkOut => Arg::buffer(2),
                        Role::Scale => Arg::Scalar(scale),
                        _ => Arg::Word(0),
                    },
            )
            &&& l.grid.0 == 1
            &&& l.grid.1 == 1
            &&& l.grid.2 == 1
            &&& l.block == (32int, 1int, 1int)
            &&& l.shared_mem == 0
            &&& l.opt_in is None
            &&& l.failure is None
            &&& l.tensor_maps.len() == 0
        },
{
}

/// What the kernel `fa_bf16_fp8kv_decode_d128` takes, in order.
pub open spec fn fa_bf16_fp8kv_decode_d128_takes() -> Seq<Role> {
    seq![
        Role::Query, Role::Key, Role::Value, Role::Output, Role::NumHeads, Role::SeqKv,
        Role::Scale, Role::KvScale,
    ]
}

/// `fa_bf16_fp8kv_decode_d128` launches its kernel exactly where the sizes of the request are
/// right, with every argument what its role asks for, on blocks that cover the result.
pub proof fn fa_bf16_fp8kv_decode_d128_launches(
    q_len: int, k_len: int, v_len: int, o_len: int, batch: int, num_heads: int, seq_kv: int,
    scale: F32, kv_scale: F32,
)
    ensures
        decode::fa_bf16_fp8kv_decode_d128_plan(
            q_len, k_len, v_len, o_len, batch, num_heads, seq_kv, scale, kv_scale,
        ) matches Plan::Fail(f) ==> f is InvalidArgument,
        decode::fa_bf16_fp8kv_decode_d128_plan(
            q_len, k_len, v_len, o_len, batch, num_heads, seq_kv, scale, kv_scale,
        ) is Launch <==> {
            &&& batch != 0
            &&& num_heads != 0
            &&& seq_kv != 0
            &&& batch * num_heads * 128 <= u32::MAX
            &&& q_len >= batch * num_heads * 128
            &&& o_len >= batch * num_heads * 128
            &&& batch * num_heads <= u32::MAX
            &&& batch * num_heads * seq_kv * 128 <= u32::MAX
            &&& k_len >= batch * num_heads * seq_kv * 128
            &&& v_len >= batch * num_heads * seq_kv * 128
        },
        decode::fa_bf16_fp8kv_decode_d128_plan(
            q_len, k_len, v_len, o_len, batch, num_heads, seq_kv, scale, kv_scale,
        ) matches Plan::Launch(l) ==> {
            &&& l.entry == "fa_bf16_fp8kv_decode_d128"@
            &&& l.kernel == "fa_bf16_fp8kv_decode_d128"@
            &&& l.args =~= fa_bf16_fp8kv_decode_d128_takes().map_values(
                |r: Role|
                    match r {
                        Role::Query => Arg::buffer(0),
                        Role::Key => Arg::buffer(1),
                        Role::Value => Arg::buffer(2),
                        Role::Output => Arg::buffer(3),
                        Role::NumHeads => Arg::word(num_heads),
                        Role::SeqKv => Arg::word(seq_kv),
                        Role::Scale => Arg::Scalar(scale),
                        Role::KvScale => Arg::Scalar(kv_scale),
                        _ => Arg::Word(0),
                    },
            )
            &&& l.grid.0 == num_heads
            &&& l.grid.1 == batch
            &&& l.grid.2 == 1
            &&& l.block == (128int, 1int, 1int)
            &&& l.shared_mem == 0
            &&& l.opt_in is None
            &&& l.failure is None
            &&& l.tensor_maps.len() == 0
        },
{
}

/// What the kernel `fa_bf16_decode_d256_gqa` takes, in order.
pub open spec fn fa_bf16_decode_d256_gqa_takes() -> Seq<Role> {
    seq![
        Role::Query, Role::Key, Role::Value, Role::Output, Role::NumHeads, Role::NumKvHeads,
        Role::SeqKv, Role::KvStride, Role::QPos, Role::SlidingWindow, Role::Scale,
    ]
}

/// `flash_attn_bf16_decode_d256_gqa` launches its kernel exactly where the sizes of the request
/// are right, with every argument what its role asks for, on blocks that cover the result.
pub proof fn flash_attn_bf16_decode_d256_gqa_launches(
    q_len: int, k_len: int, v_len: int, o_len: int, batch: int, num_heads: int, num_kv_heads: int,
    seq_kv: int, kv_stride: int, q_pos: int, sliding_window: int, scale: F32,
)
    ensures
        decode::flash_attn_bf16_decode_d256_gqa_plan(
            q_len, k_len, v_len, o_len, batch, num_heads, num_kv_heads, seq_kv, kv_stride, q_pos,
            sliding_window, scale,
        ) matches Plan::Fail(f) ==> f is InvalidArgument,
        decode::flash_attn_bf16_decode_d256_gqa_plan(
            q_len, k_len, v_len, o_len, batch, num_heads, num_kv_heads, seq_kv, kv_stride, q_pos,
            sliding_window, scale,
        ) is Launch <==> {
            &&& batch != 0
            &&& num_heads != 0
            &&& num_kv_heads != 0
            &&& seq_kv != 0
            &&& kv_stride != 0
            &&& num_heads % num_kv_heads == 0
            &&& seq_kv <= kv_stride
            &&& batch * num_heads * 256 <= u64::MAX
            &&& batch * num_kv_heads * kv_stride * 256 <= u64::MAX
            &&& q_len >= batch * num_heads * 256
            &&& k_len >= batch * num_kv_heads * kv_stride * 256
            &&& v_len >= batch * num_kv_heads * kv_stride * 256
            &&& o_len >= batch * num_heads * 256
        },
        decode::flash_attn_bf16_decode_d256_gqa_plan(
            q_len, k_len, v_len, o_len, batch, num_heads, num_kv_heads, seq_kv, kv_stride, q_pos,
            sliding_window, scale,
        ) matches Plan::Launch(l) ==> {
            &&& l.entry == "fa_bf16_decode_d256_gqa"@
            &&& l.kernel == "fa_bf16_decode_d256_gqa"@
            &&& l.args =~= fa_bf16_decode_d256_gqa_takes().map_values(
                |r: Role|
                    match r {
                        Role::Query => Arg::buffer(0),
                        Role::Key => Arg::buffer(1),
                        Role::Value => Arg::buffer(2),
                        Role::Output => Arg::buffer(3),
                        Role::NumHeads => Arg::word(num_heads),
                        Role::NumKvHeads => Arg::word(num_kv_heads),
                        Role::SeqKv => Arg::word(seq_kv),
                        Role::KvStride => Arg::word(kv_stride),
                        Role::QPos => Arg::word(q_pos),
                        Role::SlidingWindow => Arg::word(sliding_window),
                        Role::Scale => Arg::Scalar(scale),
                        _ => Arg::Word(0),
                    },
            )
            &&& l.grid.0 == num_heads
            &&& l.grid.1 == batch
            &&& l.grid.2 == 1
            &&& l.block == (256int, 1int, 1int)
            &&& l.shared_mem == 0
            &&& l.opt_in is None
            &&& l.failure is None
            &&& l.tensor_maps.len() == 0
        },
{
}

/// What the kernel `fa_bf16_decode_d512_gqa` takes, in order.
pub open spec fn fa_bf16_decode_d512_gqa_takes() -> Seq<Role> {
    seq![
        Role::Query, Role::Key, Role::Value, Role::Output, Role::NumHeads, Role::NumKvHeads,
        Role::SeqKv, Role::KvStride, Role::Scale,
    ]
}

/// `flash_attn_bf16_decode_d512_gqa` launches its kernel exactly where the sizes of the request
/// are right, with every argument what its role asks for, on blocks that cover the result.
pub proof fn flash_attn_bf16_decode_d512_gqa_launches(
    q_len: int, k_len: int, v_len: int, o_len: int, batch: int, num_heads: int, num_kv_heads: int,
    seq_kv: int, kv_stride: int, scale: F32,
)
    ensures
        decode::flash_attn_bf16_decode_d512_gqa_plan(
            q_len, k_len, v_len, o_len, batch, num_heads, num_kv_heads, seq_kv, kv_stride, scale,
        ) matches Plan::Fail(f) ==> f is InvalidArgument,
        decode::flash_attn_bf16_decode_d512_gqa_plan(
            q_len, k_len, v_len, o_len, batch, num_heads, num_kv_heads, seq_kv, kv_stride, scale,
        ) is Launch <==> {
            &&& batch != 0
            &&& num_heads != 0
            &&& num_kv_heads != 0
            &&& seq_kv != 0
            &&& kv_stride != 0
            &&& num_heads % num_kv_heads == 0
            &&& seq_kv <= kv_stride
            &&& batch * num_heads * 512 <= u64::MAX
            &&& batch * num_kv_heads * kv_stride * 512 <= u64::MAX
            &&& q_len >= batch * num_heads * 512
            &&& k_len >= batch * num_kv_heads * kv_stride * 512
            &&& v_len >= batch * num_kv_heads * kv_stride * 512
            &&& o_len >= batch * num_heads * 512
        },
        decode::flash_attn_bf16_decode_d512_gqa_plan(
            q_len, k_len, v_len, o_len, batch, num_heads, num_kv_heads, seq_kv, kv_stride, scale,
        ) matches Plan::Launch(l) ==> {
            &&& l.entry == "fa_bf16_decode_d512_gqa"@
            &&& l.kernel == "fa_bf16_decode_d512_gqa"@
            &&& l.args =~= fa_bf16_decode_d512_gqa_takes().map_values(
                |r: Role|
                    match r {
                        Role::Query => Arg::buffer(0),
                        Role::Key => Arg::buffer(1),
                        Role::Value => Arg::buffer(2),
                        Role::Output => Arg::buffer(3),
                        Role::NumHeads => Arg::word(num_heads),
                        Role::NumKvHeads => Arg::word(num_kv_heads),
                        Role::SeqKv => Arg::word(seq_kv),
                        Role::KvStride => Arg::word(kv_stride),
                        Role::Scale => Arg::Scalar(scale),
                        _ => Arg::Word(0),
                    },
            )
            &&& l.grid.0 == num_heads
            &&& l.grid.1 == batch
            &&& l.grid.2 == 1
            &&& l.block == (512int, 1int, 1int)
            &&& l.shared_mem == 0
            &&& l.opt_in is None
            &&& l.failure is None
            &&& l.tensor_maps.len() == 0
        },
{
}

/// What the kernel `fa_bf16_decode_d256_gqa_pos_dev` takes, in order.
pub open spec fn fa_bf16_decode_d256_gqa_pos_dev_takes() -> Seq<Role> {
    seq![
        Role::Query, Role::Key, Role::Value, Role::Output, Role::NumHeads, Role::NumKvHeads,
        Role::KvStride, Role::PosPtr, Role::SlidingWindow, Role::Scale,
    ]
}

/// `flash_attn_bf16_decode_d256_gqa_pos_dev_view` launches its kernel exactly where the sizes of
/// the request are right, with every argument what its role asks for, on blocks that cover the
/// result.
pub proof fn flash_attn_bf16_decode_d256_gqa_pos_dev_view_launches(
    q_len: int, k_len: int, v_len: int, o_len: int, batch: int, num_heads: int, num_kv_heads: int,
    kv_stride: int, pos_ptr_len: int, sliding_window: int, scale: F32,
)
    ensures
        decode::flash_attn_bf16_decode_d256_gqa_pos_dev_view_plan(
            q_len, k_len, v_len, o_len, batch, num_heads, num_kv_heads, kv_stride, pos_ptr_len,
            sliding_window, scale,
        ) matches Plan::Fail(f) ==> f is InvalidArgument,
        decode::flash_attn_bf16_decode_d256_gqa_pos_dev_view_plan(
            q_len, k_len, v_len, o_len, batch, num_heads, num_kv_heads, kv_stride, pos_ptr_len,
            sliding_window, scale,
        ) !is Undefined,
        decode::flash_attn_bf16_decode_d256_gqa_pos_dev_view_plan(
            q_len, k_len, v_len, o_len, batch, num_heads, num_kv_heads, kv_stride, pos_ptr_len,
            sliding_window, scale,
        ) is Launch <==> {
            &&& batch != 0
            &&& num_heads != 0
            &&& num_kv_heads != 0
            &&& kv_stride != 0
            &&& num_heads % num_kv_heads == 0
        },
        decode::flash_attn_bf16_decode_d256_gqa_pos_dev_view_plan(
            q_len, k_len, v_len, o_len, batch, num_heads, num_kv_heads, kv_stride, pos_ptr_len,
            sliding_window, scale,
        ) matches Plan::Launch(l) ==> {
            &&& l.entry == "fa_bf16_decode_d256_gqa_pos_dev"@
            &&& l.kernel == "fa_bf16_decode_d256_gqa_pos_dev"@
            &&& l.args =~= fa_bf16_decode_d256_gqa_pos_dev_takes().map_values(
                |r: Role|
                    match r {
                        Role::Query => Arg::buffer(0),
                        Role::Key => Arg::buffer(1),
                        Role::Value => Arg::buffer(2),
                        Role::Output => Arg::buffer(3),
                        Role::NumHeads => Arg::word(num_heads),
                        Role::NumKvHeads => Arg::word(num_kv_heads),
                        Role::KvStride => Arg::word(kv_stride),
                        Role::PosPtr => Arg::buffer(4),
                        Role::SlidingWindow => Arg::word(sliding_window),
                        Role::Scale => Arg::Scalar(scale),
                        _ => Arg::Word(0),
                    },
            )
            &&& l.grid.0 == num_heads
            &&& l.grid.1 == batch
            &&& l.grid.2 == 1
            &&& l.block == (256int, 1int, 1int)
            &&& l.shared_mem == 0
            &&& l.opt_in is None
            &&& l.failure is None
            &&& l.tensor_maps.len() == 0
        },
{
}

/// `flash_attn_bf16_decode_d256_gqa_pos_dev` launches its kernel exactly where the sizes of the
/// request are right, with every argument what its role asks for, on blocks that cover the
/// result.
pub proof fn flash_attn_bf16_decode_d256_gqa_pos_dev_launches(
    q_len: int, k_len: int, v_len: int, o_len: int, batch: int, num_heads: int, num_kv_heads: int,
    kv_stride: int, pos_ptr_len: int, sliding_window: int, scale: F32,
)
    ensures
        decode::flash_attn_bf16_decode_d256_gqa_pos_dev_plan(
            q_len, k_len, v_len, o_len, batch, num_heads, num_kv_heads, kv_stride, pos_ptr_len,
            sliding_window, scale,
        ) matches Plan::Fail(f) ==> f is InvalidArgument,
        decode::flash_attn_bf16_decode_d256_gqa_pos_dev_plan(
            q_len, k_len, v_len, o_len, batch, num_heads, num_kv_heads, kv_stride, pos_ptr_len,
            sliding_window, scale,
        ) is Launch <==> {
            &&& batch != 0
            &&& num_heads != 0
            &&& num_kv_heads != 0
            &&& kv_stride != 0
            &&& num_heads % num_kv_heads == 0
            &&& shape::low_word(pos_ptr_len) >= batch
            &&& batch * num_heads * 256 <= u64::MAX
            &&& batch * num_kv_heads * kv_stride * 256 <= u64::MAX
            &&& q_len >= batch * num_heads * 256
            &&& k_len >= batch * num_kv_heads * kv_stride * 256
            &&& v_len >= batch * num_kv_heads * kv_stride * 256
            &&& o_len >= batch * num_heads * 256
        },
        decode::flash_attn_bf16_decode_d256_gqa_pos_dev_plan(
            q_len, k_len, v_len, o_len, batch, num_heads, num_kv_heads, kv_stride, pos_ptr_len,
            sliding_window, scale,
        ) matches Plan::Launch(l) ==> {
            &&& l.entry == "fa_bf16_decode_d256_gqa_pos_dev"@
            &&& l.kernel == "fa_bf16_decode_d256_gqa_pos_dev"@
            &&& l.args =~= fa_bf16_decode_d256_gqa_pos_dev_takes().map_values(
                |r: Role|
                    match r {
                        Role::Query => Arg::buffer(0),
                        Role::Key => Arg::buffer(1),
                        Role::Value => Arg::buffer(2),
                        Role::Output => Arg::buffer(3),
                        Role::NumHeads => Arg::word(num_heads),
                        Role::NumKvHeads => Arg::word(num_kv_heads),
                        Role::KvStride => Arg::word(kv_stride),
                        Role::PosPtr => Arg::buffer(4),
                        Role::SlidingWindow => Arg::word(sliding_window),
                        Role::Scale => Arg::Scalar(scale),
                        _ => Arg::Word(0),
                    },
            )
            &&& l.grid.0 == num_heads
            &&& l.grid.1 == batch
            &&& l.grid.2 == 1
            &&& l.block == (256int, 1int, 1int)
            &&& l.shared_mem == 0
            &&& l.opt_in is None
            &&& l.failure is None
            &&& l.tensor_maps.len() == 0
        },
{
}

/// What the kernel `fa_bf16_decode_d512_gqa_pos_dev` takes, in order.
pub open spec fn fa_bf16_decode_d512_gqa_pos_dev_takes() -> Seq<Role> {
    seq![
        Role::Query, Role::Key, Role::Value, Role::Output, Role::NumHeads, Role::NumKvHeads,
        Role::KvStride, Role::PosPtr, Role::Scale,
    ]
}

/// `flash_attn_bf16_decode_d512_gqa_pos_dev` launches its kernel exactly where the sizes of the
/// request are right, with every argument what its role asks for, on blocks that cover the
/// result.
pub proof fn flash_attn_bf16_decode_d512_gqa_pos_dev_launches(
    q_len: int, k_len: int, v_len: int, o_len: int, batch: int, num_heads: int, num_kv_heads: int,
    kv_stride: int, pos_ptr_len: int, scale: F32,
)
    ensures
        decode::flash_attn_bf16_decode_d512_gqa_pos_dev_plan(
            q_len, k_len, v_len, o_len, batch, num_heads, num_kv_heads, kv_stride, pos_ptr_len,
            scale,
        ) matches Plan::Fail(f) ==> f is InvalidArgument,
        decode::flash_attn_bf16_decode_d512_gqa_pos_dev_plan(
            q_len, k_len, v_len, o_len, batch, num_heads, num_kv_heads, kv_stride, pos_ptr_len,
            scale,
        ) is Launch <==> {
            &&& batch != 0
            &&& num_heads != 0
            &&& num_kv_heads != 0
            &&& kv_stride != 0
            &&& num_heads % num_kv_heads == 0
            &&& shape::low_word(pos_ptr_len) >= batch
            &&& batch * num_heads * 512 <= u64::MAX
            &&& batch * num_kv_heads * kv_stride * 512 <= u64::MAX
            &&& q_len >= batch * num_heads * 512
            &&& k_len >= batch * num_kv_heads * kv_stride * 512
            &&& v_len >= batch * num_kv_heads * kv_stride * 512
            &&& o_len >= batch * num_heads * 512
        },
        decode::flash_attn_bf16_decode_d512_gqa_pos_dev_plan(
            q_len, k_len, v_len, o_len, batch, num_heads, num_kv_heads, kv_stride, pos_ptr_len,
            scale,
        ) matches Plan::Launch(l) ==> {
            &&& l.entry == "fa_bf16_decode_d512_gqa_pos_dev"@
            &&& l.kernel == "fa_bf16_decode_d512_gqa_pos_dev"@
            &&& l.args =~= fa_bf16_decode_d512_gqa_pos_dev_takes().map_values(
                |r: Role|
                    match r {
                        Role::Query => Arg::buffer(0),
                        Role::Key => Arg::buffer(1),
                        Role::Value => Arg::buffer(2),
                        Role::Output => Arg::buffer(3),
                        Role::NumHeads => Arg::word(num_heads),
                        Role::NumKvHeads => Arg::word(num_kv_heads),
                        Role::KvStride => Arg::word(kv_stride),
                        Role::PosPtr => Arg::buffer(4),
                        Role::Scale => Arg::Scalar(scale),
                        _ => Arg::Word(0),
                    },
            )
            &&& l.grid.0 == num_heads
            &&& l.grid.1 == batch
            &&& l.grid.2 == 1
            &&& l.block == (512int, 1int, 1int)
            &&& l.shared_mem == 0
            &&& l.opt_in is None
            &&& l.failure is None
            &&& l.tensor_maps.len() == 0
        },
{
}

/// `flash_attn_bf16_decode_d512_gqa_pos_dev_view` launches its kernel exactly where the sizes of
/// the request are right, with every argument what its role asks for, on blocks that cover the
/// result.
pub proof fn flash_attn_bf16_decode_d512_gqa_pos_dev_view_unwindowed_launches(
    q_len: int, k_len: int, v_len: int, o_len: int, batch: int, num_heads: int, num_kv_heads: int,
    kv_stride: int, pos_ptr_len: int, sliding_window: int, scale: F32,
)
    requires
        sliding_window == 0,
    ensures
        decode::flash_attn_bf16_decode_d512_gqa_pos_dev_view_plan(
            q_len, k_len, v_len, o_len, batch, num_heads, num_kv_heads, kv_stride, pos_ptr_len,
            sliding_window, scale,
        ) matches Plan::Fail(f) ==> f is InvalidArgument,
        decode::flash_attn_bf16_decode_d512_gqa_pos_dev_view_plan(
            q_len, k_len, v_len, o_len, batch, num_heads, num_kv_heads, kv_stride, pos_ptr_len,
            sliding_window, scale,
        ) !is Undefined,
        decode::flash_attn_bf16_decode_d512_gqa_pos_dev_view_plan(
            q_len, k_len, v_len, o_len, batch, num_heads, num_kv_heads, kv_stride, pos_ptr_len,
            sliding_window, scale,
        ) is Launch <==> {
            &&& batch != 0
            &&& num_heads != 0
            &&& num_kv_heads != 0
            &&& kv_stride != 0
            &&& num_heads % num_kv_heads == 0
        },
        decode::flash_attn_bf16_decode_d512_gqa_pos_dev_view_plan(
            q_len, k_len, v_len, o_len, batch, num_heads, num_kv_heads, kv_stride, pos_ptr_len,
            sliding_window, scale,
        ) matches Plan::Launch(l) ==> {
            &&& l.entry == "fa_bf16_decode_d512_gqa_pos_dev"@
            &&& l.kernel == "fa_bf16_decode_d512_gqa_pos_dev"@
            &&& l.args =~= fa_bf16_decode_d512_gqa_pos_dev_takes().map_values(
                |r: Role|
                    match r {
                        Role::Query => Arg::buffer(0),
                        Role::Key => Arg::buffer(1),
                        Role::Value => Arg::buffer(2),
                        Role::Output => Arg::buffer(3),
                        Role::NumHeads => Arg::word(num_heads),
                        Role::NumKvHeads => Arg::word(num_kv_heads),
                        Role::KvStride => Arg::word(kv_stride),
                        Role::PosPtr => Arg::buffer(4),
                        Role::Scale => Arg::Scalar(scale),
                        _ => Arg::Word(0),
                    },
            )
            &&& l.grid.0 == num_heads
            &&& l.grid.1 == batch
            &&& l.grid.2 == 1
            &&& l.block == (512int, 1int, 1int)
            &&& l.shared_mem == 0
            &&& l.opt_in is None
            &&& l.failure is None
            &&& l.tensor_maps.len() == 0
        },
{
}

/// What the kernel `fa_bf16_decode_d512_gqa_pos_dev` takes, in order.
pub open spec fn flash_attn_bf16_decode_d512_gqa_pos_dev_view_windowed_takes() -> Seq<Role> {
    seq![
        Role::Query, Role::Key, Role::Value, Role::Output, Role::NumHeads, Role::NumKvHeads,
        Role::KvStride, Role::PosPtr, Role::SlidingWindow, Role::Scale,
    ]
}

/// `flash_attn_bf16_decode_d512_gqa_pos_dev_view` launches its kernel exactly where the sizes of
/// the request are right, with every argument what its role asks for, on blocks that cover the
/// result.
pub proof fn flash_attn_bf16_decode_d512_gqa_pos_dev_view_windowed_launches(
    q_len: int, k_len: int, v_len: int, o_len: int, batch: int, num_heads: int, num_kv_heads: int,
    kv_stride: int, pos_ptr_len: int, sliding_window: int, scale: F32,
)
    requires
        sliding_window != 0,
    ensures
        decode::flash_attn_bf16_decode_d512_gqa_pos_dev_view_plan(
            q_len, k_len, v_len, o_len, batch, num_heads, num_kv_heads, kv_stride, pos_ptr_len,
            sliding_window, scale,
        ) matches Plan::Fail(f) ==> f is InvalidArgument,
        decode::flash_attn_bf16_decode_d512_gqa_pos_dev_view_plan(
            q_len, k_len, v_len, o_len, batch, num_heads, num_kv_heads, kv_stride, pos_ptr_len,
            sliding_window, scale,
        ) !is Undefined,
        decode::flash_attn_bf16_decode_d512_gqa_pos_dev_view_plan(
            q_len, k_len, v_len, o_len, batch, num_heads, num_kv_heads, kv_stride, pos_ptr_len,
            sliding_window, scale,
        ) is Launch <==> {
            &&& batch != 0
            &&& num_heads != 0
            &&& num_kv_heads != 0
            &&& kv_stride != 0
            &&& num_heads % num_kv_heads == 0
        },
        decode::flash_attn_bf16_decode_d512_gqa_pos_dev_view_plan(
            q_len, k_len, v_len, o_len, batch, num_heads, num_kv_heads, kv_stride, pos_ptr_len,
            sliding_window, scale,
        ) matches Plan::Launch(l) ==> {
            &&& l.entry == "fa_bf16_decode_d512_gqa_pos_dev"@
            &&& l.kernel == "fa_bf16_decode_d512_gqa_pos_dev"@
            &&& l.args =~= flash_attn_bf16_decode_d512_gqa_pos_dev_view_windowed_takes().map_values(
                |r: Role|
                    match r {
                        Role::Query => Arg::buffer(0),
                        Role::Key => Arg::buffer(1),
                        Role::Value => Arg::buffer(2),
                        Role::Output => Arg::buffer(3),
                        Role::NumHeads => Arg::word(num_heads),
                        Role::NumKvHeads => Arg::word(num_kv_heads),
                        Role::KvStride => Arg::word(kv_stride),
                        Role::PosPtr => Arg::buffer(4),
                        Role::SlidingWindow => Arg::word(sliding_window),
                        Role::Scale => Arg::Scalar(scale),
                        _ => Arg::Word(0),
                    },
            )
            &&& l.grid.0 == num_heads
            &&& l.grid.1 == batch
            &&& l.grid.2 == 1
            &&& l.block == (512int, 1int, 1int)
            &&& l.shared_mem == 0
            &&& l.opt_in is None
            &&& l.failure is None
            &&& l.tensor_maps.len() == 0
        },
{
}

} // verus!
