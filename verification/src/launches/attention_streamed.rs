//! What the launches of `attention::streamed` hand to their kernels.
use crate::attention::streamed;
use crate::launches::role::Role;
use crate::launches::role;
use crate::meaning;
use crate::plan::{Arg, F32, MapElem, Plan, Swizzle};
use crate::shape;
use vstd::prelude::*;

verus! {

/// What the kernel `flash_attn_bf16_v8_tma_db_d128` takes, in order.
pub open spec fn flash_attn_bf16_v8_tma_db_d128_takes() -> Seq<Role> {
    seq![
        Role::QueryTiles, Role::KeyTiles, Role::ValueTiles, Role::Output, Role::SeqQ, Role::SeqKv,
        Role::NumHeads, Role::Scale,
    ]
}

/// `flash_attn_bf16_v8_tma_db_d128` launches its kernel exactly where the sizes of the request
/// are right, with every argument what its role asks for, on blocks that cover the result.
pub proof fn flash_attn_bf16_v8_tma_db_d128_launches(
    q_len: int, k_len: int, v_len: int, o_len: int, batch: int, num_heads: int, seq_q: int,
    seq_kv: int, scale: F32,
)
    requires
        seq_q >= 0,
    ensures
        streamed::flash_attn_bf16_v8_tma_db_d128_plan(
            q_len, k_len, v_len, o_len, batch, num_heads, seq_q, seq_kv, scale,
        ) matches Plan::Fail(f) ==> f is InvalidArgument,
        streamed::flash_attn_bf16_v8_tma_db_d128_plan(
            q_len, k_len, v_len, o_len, batch, num_heads, seq_q, seq_kv, scale,
        ) is Launch <==> {
            &&& batch != 0
            &&& num_heads != 0
            &&& seq_q != 0
            &&& seq_kv != 0
            &&& batch * num_heads * seq_q * 128 <= u64::MAX
            &&& batch * num_heads * seq_kv * 128 <= u64::MAX
            &&& q_len >= batch * num_heads * seq_q * 128
            &&& k_len >= batch * num_heads * seq_kv * 128
            &&& v_len >= batch * num_heads * seq_kv * 128
            &&& o_len >= batch * num_heads * seq_q * 128
            &&& batch * num_heads <= u32::MAX
            &&& batch * num_heads * seq_q <= u32::MAX
            &&& batch * num_heads * seq_kv <= u32::MAX
        },
        streamed::flash_attn_bf16_v8_tma_db_d128_plan(
            q_len, k_len, v_len, o_len, batch, num_heads, seq_q, seq_kv, scale,
        ) matches Plan::Launch(l) ==> {
            &&& l.entry == "flash_attn_bf16_v8_tma_db_d128"@
            &&& l.kernel == "fa_bf16_v8_tma_db_d128"@
            &&& l.args =~= flash_attn_bf16_v8_tma_db_d128_takes().map_values(
                |r: Role|
                    match r {
                        Role::QueryTiles => Arg::Descriptor(0),
                        Role::KeyTiles => Arg::Descriptor(1),
                        Role::ValueTiles => Arg::Descriptor(2),
                        Role::Output => Arg::buffer(3),
                        Role::SeqQ => Arg::word(seq_q),
                        Role::SeqKv => Arg::word(seq_kv),
                        Role::NumHeads => Arg::word(num_heads),
                        Role::Scale => Arg::Scalar(scale),
                        _ => Arg::Word(0),
                    },
            )
            &&& meaning::covers(l.grid.0, 64, seq_q)
            &&& l.grid.1 == num_heads
            &&& l.grid.2 == batch
            &&& l.block == (160int, 1int, 1int)
            &&& l.shared_mem == 82032
            &&& l.opt_in is Some
            &&& l.failure is Some
            &&& l.tensor_maps.len() == 3
            &&& role::tiles(
                l.tensor_maps[0],
                0,
                MapElem::Bf16,
                batch * num_heads * seq_q,
                128,
                64,
                128,
                Swizzle::Plain,
            )
            &&& role::tiles(
                l.tensor_maps[1],
                1,
                MapElem::Bf16,
                batch * num_heads * seq_kv,
                128,
                64,
                128,
                Swizzle::Plain,
            )
            &&& role::tiles(
                l.tensor_maps[2],
                2,
                MapElem::Bf16,
                batch * num_heads * seq_kv,
                128,
                64,
                128,
                Swizzle::Plain,
            )
        },
{
    shape::lemma_ceil_div(seq_q, 64);
}

/// What the kernel `flash_attn_bf16_v11_fused_scale` takes, in order.
pub open spec fn flash_attn_bf16_v11_fused_scale_takes() -> Seq<Role> {
    seq![
        Role::QueryTiles, Role::KeyTiles, Role::ValueTiles, Role::Output, Role::SeqQ, Role::SeqKv,
        Role::NumHeads, Role::Scale,
    ]
}

/// `flash_attn_bf16_v11_fused_scale` launches its kernel exactly where the sizes of the request
/// are right, with every argument what its role asks for, on blocks that cover the result.
pub proof fn flash_attn_bf16_v11_fused_scale_launches(
    q_len: int, k_len: int, v_len: int, o_len: int, batch: int, num_heads: int, seq_q: int,
    seq_kv: int, scale: F32,
)
    requires
        seq_q >= 0,
    ensures
        streamed::flash_attn_bf16_v11_fused_scale_plan(
            q_len, k_len, v_len, o_len, batch, num_heads, seq_q, seq_kv, scale,
        ) matches Plan::Fail(f) ==> f is InvalidArgument,
        streamed::flash_attn_bf16_v11_fused_scale_plan(
            q_len, k_len, v_len, o_len, batch, num_heads, seq_q, seq_kv, scale,
        ) is Launch <==> {
            &&& batch != 0
            &&& num_heads != 0
            &&& seq_q != 0
            &&& seq_kv != 0
            &&& batch * num_heads * seq_q * 128 <= u64::MAX
            &&& batch * num_heads * seq_kv * 128 <= u64::MAX
            &&& q_len >= batch * num_heads * seq_q * 128
            &&& k_len >= batch * num_heads * seq_kv * 128
            &&& v_len >= batch * num_heads * seq_kv * 128
            &&& o_len >= batch * num_heads * seq_q * 128
            &&& batch * num_heads <= u32::MAX
            &&& batch * num_heads * seq_q <= u32::MAX
            &&& batch * num_heads * seq_kv <= u32::MAX
        },
        streamed::flash_attn_bf16_v11_fused_scale_plan(
            q_len, k_len, v_len, o_len, batch, num_heads, seq_q, seq_kv, scale,
        ) matches Plan::Launch(l) ==> {
            &&& l.entry == "flash_attn_bf16_v11_fused_scale"@
            &&& l.kernel == "fa_bf16_v11_fused_scale"@
            &&& l.args =~= flash_attn_bf16_v11_fused_scale_takes().map_values(
                |r: Role|
                    match r {
                        Role::QueryTiles => Arg::Descriptor(0),
                        Role::KeyTiles => Arg::Descriptor(1),
                        Role::ValueTiles => Arg::Descriptor(2),
                        Role::Output => Arg::buffer(3),
                        Role::SeqQ => Arg::word(seq_q),
                        Role::SeqKv => Arg::word(seq_kv),
                        Role::NumHeads => Arg::word(num_heads),
                        Role::Scale => Arg::Scalar(scale),
                        _ => Arg::Word(0),
                    },
            )
            &&& meaning::covers(l.grid.0, 64, seq_q)
            &&& l.grid.1 == num_heads
            &&& l.grid.2 == batch
            &&& l.block == (160int, 1int, 1int)
            &&& l.shared_mem == 82032
            &&& l.opt_in is Some
            &&& l.failure is Some
            &&& l.tensor_maps.len() == 3
            &&& role::tiles(
                l.tensor_maps[0],
                0,
                MapElem::Bf16,
                batch * num_heads * seq_q,
                128,
                64,
                64,
                Swizzle::Bytes128,
            )
            &&& role::tiles(
                l.tensor_maps[1],
                1,
                MapElem::Bf16,
                batch * num_heads * seq_kv,
                128,
                64,
                64,
                Swizzle::Bytes128,
            )
            &&& role::tiles(
                l.tensor_maps[2],
                2,
                MapElem::Bf16,
                batch * num_heads * seq_kv,
                128,
                64,
                64,
                Swizzle::Bytes128,
            )
        },
{
    shape::lemma_ceil_div(seq_q, 64);
}

/// What the kernel `flash_attn_bf16_v12_persistent` takes, in order.
pub open spec fn flash_attn_bf16_v12_persistent_takes() -> Seq<Role> {
    seq![
        Role::QueryTiles, Role::KeyTiles, Role::ValueTiles, Role::Output, Role::SeqQ, Role::SeqKv,
        Role::NumHeads, Role::Scale,
    ]
}

/// `flash_attn_bf16_v12_persistent` launches its kernel exactly where the sizes of the request
/// are right, with every argument what its role asks for, on blocks that cover the result.
pub proof fn flash_attn_bf16_v12_persistent_launches(
    q_len: int, k_len: int, v_len: int, o_len: int, batch: int, num_heads: int, seq_q: int,
    seq_kv: int, scale: F32,
)
    ensures
        streamed::flash_attn_bf16_v12_persistent_plan(
            q_len, k_len, v_len, o_len, batch, num_heads, seq_q, seq_kv, scale,
        ) matches Plan::Fail(f) ==> f is InvalidArgument,
        streamed::flash_attn_bf16_v12_persistent_plan(
            q_len, k_len, v_len, o_len, batch, num_heads, seq_q, seq_kv, scale,
        ) is Launch <==> {
            &&& batch != 0
            &&& num_heads != 0
            &&& seq_q != 0
            &&& seq_kv != 0
            &&& batch * num_heads * seq_q * 128 <= u64::MAX
            &&& batch * num_heads * seq_kv * 128 <= u64::MAX
            &&& q_len >= batch * num_heads * seq_q * 128
            &&& k_len >= batch * num_heads * seq_kv * 128
            &&& v_len >= batch * num_heads * seq_kv * 128
            &&& o_len >= batch * num_heads * seq_q * 128
            &&& batch * num_heads <= u32::MAX
            &&& batch * num_heads * seq_q <= u32::MAX
            &&& batch * num_heads * seq_kv <= u32::MAX
        },
        streamed::flash_attn_bf16_v12_persistent_plan(
            q_len, k_len, v_len, o_len, batch, num_heads, seq_q, seq_kv, scale,
        ) matches Plan::Launch(l) ==> {
            &&& l.entry == "flash_attn_bf16_v12_persistent"@
            &&& l.kernel == "fa_bf16_v12_persistent"@
            &&& l.args =~= flash_attn_bf16_v12_persistent_takes().map_values(
                |r: Role|
                    match r {
                        Role::QueryTiles => Arg::Descriptor(0),
                        Role::KeyTiles => Arg::Descriptor(1),
                        Role::ValueTiles => Arg::Descriptor(2),
                        Role::Output => Arg::buffer(3),
                        Role::SeqQ => Arg::word(seq_q),
                        Role::SeqKv => Arg::word(seq_kv),
                        Role::NumHeads => Arg::word(num_heads),
                        Role::Scale => Arg::Scalar(scale),
                        _ => Arg::Word(0),
                    },
            )
            &&& l.grid.0 == shape::lesser(shape::ceil_div(seq_q, 64), 48)
            &&& l.grid.1 == num_heads
            &&& l.grid.2 == batch
            &&& l.block == (160int, 1int, 1int)
            &&& l.shared_mem == 82032
            &&& l.opt_in is Some
            &&& l.failure is Some
            &&& l.tensor_maps.len() == 3
            &&& role::tiles(
                l.tensor_maps[0],
                0,
                MapElem::Bf16,
                batch * num_heads * seq_q,
                128,
                64,
                64,
                Swizzle::Bytes128,
            )
            &&& role::tiles(
                l.tensor_maps[1],
                1,
                MapElem::Bf16,
                batch * num_heads * seq_kv,
                128,
                64,
                64,
                Swizzle::Bytes128,
            )
            &&& role::tiles(
                l.tensor_maps[2],
                2,
                MapElem::Bf16,
                batch * num_heads * seq_kv,
                128,
                64,
                64,
                Swizzle::Bytes128,
            )
        },
{
}

/// What the kernel `flash_attn_bf16_v13_bc32_d128` takes, in order.
pub open spec fn flash_attn_bf16_v13_bc32_d128_takes() -> Seq<Role> {
    seq![
        Role::QueryTiles, Role::KeyTiles, Role::ValueTiles, Role::Output, Role::SeqQ, Role::SeqKv,
        Role::NumHeads, Role::Scale,
    ]
}

/// `flash_attn_bf16_v13_bc32_d128` launches its kernel exactly where the sizes of the request are
/// right, with every argument what its role asks for, on blocks that cover the result.
pub proof fn flash_attn_bf16_v13_bc32_d128_launches(
    q_len: int, k_len: int, v_len: int, o_len: int, batch: int, num_heads: int, seq_q: int,
    seq_kv: int, scale: F32,
)
    requires
        seq_q >= 0,
    ensures
        streamed::flash_attn_bf16_v13_bc32_d128_plan(
            q_len, k_len, v_len, o_len, batch, num_heads, seq_q, seq_kv, scale,
        ) matches Plan::Fail(f) ==> f is InvalidArgument,
        streamed::flash_attn_bf16_v13_bc32_d128_plan(
            q_len, k_len, v_len, o_len, batch, num_heads, seq_q, seq_kv, scale,
        ) is Launch <==> {
            &&& batch != 0
            &&& num_heads != 0
            &&& seq_q != 0
            &&& seq_kv != 0
            &&& batch * num_heads * seq_q * 128 <= u64::MAX
            &&& batch * num_heads * seq_kv * 128 <= u64::MAX
            &&& q_len >= batch * num_heads * seq_q * 128
            &&& k_len >= batch * num_heads * seq_kv * 128
            &&& v_len >= batch * num_heads * seq_kv * 128
            &&& o_len >= batch * num_heads * seq_q * 128
            &&& batch * num_heads <= u32::MAX
            &&& batch * num_heads * seq_q <= u32::MAX
            &&& batch * num_heads * seq_kv <= u32::MAX
        },
        streamed::flash_attn_bf16_v13_bc32_d128_plan(
            q_len, k_len, v_len, o_len, batch, num_heads, seq_q, seq_kv, scale,
        ) matches Plan::Launch(l) ==> {
            &&& l.entry == "flash_attn_bf16_v13_bc32_d128"@
            &&& l.kernel == "fa_bf16_v13_bc32_d128"@
            &&& l.args =~= flash_attn_bf16_v13_bc32_d128_takes().map_values(
                |r: Role|
                    match r {
                        Role::QueryTiles => Arg::Descriptor(0),
                        Role::KeyTiles => Arg::Descriptor(1),
                        Role::ValueTiles => Arg::Descriptor(2),
                        Role::Output => Arg::buffer(3),
                        Role::SeqQ => Arg::word(seq_q),
                        Role::SeqKv => Arg::word(seq_kv),
                        Role::NumHeads => Arg::word(num_heads),
                        Role::Scale => Arg::Scalar(scale),
                        _ => Arg::Word(0),
                    },
            )
            &&& meaning::covers(l.grid.0, 64, seq_q)
            &&& l.grid.1 == num_heads
            &&& l.grid.2 == batch
            &&& l.block == (160int, 1int, 1int)
            &&& l.shared_mem == 0
            &&& l.opt_in is None
            &&& l.failure is Some
            &&& l.tensor_maps.len() == 3
            &&& role::tiles(
                l.tensor_maps[0],
                0,
                MapElem::Bf16,
                batch * num_heads * seq_q,
                128,
                64,
                64,
                Swizzle::Bytes128,
            )
            &&& role::tiles(
                l.tensor_maps[1],
                1,
                MapElem::Bf16,
                batch * num_heads * seq_kv,
                128,
                32,
                64,
                Swizzle::Bytes128,
            )
            &&& role::tiles(
                l.tensor_maps[2],
                2,
                MapElem::Bf16,
                batch * num_heads * seq_kv,
                128,
                32,
                64,
                Swizzle::Bytes128,
            )
        },
{
    shape::lemma_ceil_div(seq_q, 64);
}

/// What the kernel `flash_attn_bf16_v11_causal` takes, in order.
pub open spec fn flash_attn_bf16_v11_causal_takes() -> Seq<Role> {
    seq![
        Role::QueryTiles, Role::KeyTiles, Role::ValueTiles, Role::Output, Role::SeqQ, Role::SeqKv,
        Role::NumHeads, Role::Scale,
    ]
}

/// `flash_attn_bf16_v11_causal` launches its kernel exactly where the sizes of the request are
/// right, with every argument what its role asks for, on blocks that cover the result.
pub proof fn flash_attn_bf16_v11_causal_launches(
    q_len: int, k_len: int, v_len: int, o_len: int, batch: int, num_heads: int, seq_q: int,
    seq_kv: int, scale: F32,
)
    requires
        seq_q >= 0,
    ensures
        streamed::flash_attn_bf16_v11_causal_plan(
            q_len, k_len, v_len, o_len, batch, num_heads, seq_q, seq_kv, scale,
        ) matches Plan::Fail(f) ==> f is InvalidArgument,
        streamed::flash_attn_bf16_v11_causal_plan(
            q_len, k_len, v_len, o_len, batch, num_heads, seq_q, seq_kv, scale,
        ) is Launch <==> {
            &&& batch != 0
            &&& num_heads != 0
            &&& seq_q != 0
            &&& seq_kv != 0
            &&& batch * num_heads * seq_q * 128 <= u64::MAX
            &&& batch * num_heads * seq_kv * 128 <= u64::MAX
            &&& q_len >= batch * num_heads * seq_q * 128
            &&& k_len >= batch * num_heads * seq_kv * 128
            &&& v_len >= batch * num_heads * seq_kv * 128
            &&& o_len >= batch * num_heads * seq_q * 128
            &&& batch * num_heads <= u32::MAX
            &&& batch * num_heads * seq_q <= u32::MAX
            &&& batch * num_heads * seq_kv <= u32::MAX
        },
        streamed::flash_attn_bf16_v11_causal_plan(
            q_len, k_len, v_len, o_len, batch, num_heads, seq_q, seq_kv, scale,
        ) matches Plan::Launch(l) ==> {
            &&& l.entry == "flash_attn_bf16_v11_causal"@
            &&& l.kernel == "fa_bf16_v11_causal"@
            &&& l.args =~= flash_attn_bf16_v11_causal_takes().map_values(
                |r: Role|
                    match r {
                        Role::QueryTiles => Arg::Descriptor(0),
                        Role::KeyTiles => Arg::Descriptor(1),
                        Role::ValueTiles => Arg::Descriptor(2),
                        Role::Output => Arg::buffer(3),
                        Role::SeqQ => Arg::word(seq_q),
                        Role::SeqKv => Arg::word(seq_kv),
                        Role::NumHeads => Arg::word(num_heads),
                        Role::Scale => Arg::Scalar(scale),
                        _ => Arg::Word(0),
                    },
            )
            &&& meaning::covers(l.grid.0, 64, seq_q)
            &&& l.grid.1 == num_heads
            &&& l.grid.2 == batch
            &&& l.block == (160int, 1int, 1int)
            &&& l.shared_mem == 82032
            &&& l.opt_in is Some
            &&& l.failure is Some
            &&& l.tensor_maps.len() == 3
            &&& role::tiles(
                l.tensor_maps[0],
                0,
                MapElem::Bf16,
                batch * num_heads * seq_q,
                128,
                64,
                64,
                Swizzle::Bytes128,
            )
            &&& role::tiles(
                l.tensor_maps[1],
                1,
                MapElem::Bf16,
                batch * num_heads * seq_kv,
                128,
                64,
                64,
                Swizzle::Bytes128,
            )
            &&& role::tiles(
                l.tensor_maps[2],
                2,
                MapElem::Bf16,
                batch * num_heads * seq_kv,
                128,
                64,
                64,
                Swizzle::Bytes128,
            )
        },
{
    shape::lemma_ceil_div(seq_q, 64);
}

/// What the kernel `flash_attn_bf16_v11_varlen` takes, in order.
pub open spec fn flash_attn_bf16_v11_varlen_takes() -> Seq<Role> {
    seq![
        Role::QueryTiles, Role::KeyTiles, Role::ValueTiles, Role::Output, Role::CuSeqlensQ,
        Role::CuSeqlensK, Role::TotalQ, Role::TotalKv, Role::Scale,
    ]
}

/// `flash_attn_bf16_v11_varlen` launches its kernel exactly where the sizes of the request are
/// right, with every argument what its role asks for, on blocks that cover the result.
pub proof fn flash_attn_bf16_v11_varlen_launches(
    q_len: int, k_len: int, v_len: int, o_len: int, cu_seqlens_q_len: int, cu_seqlens_k_len: int,
    batch: int, num_heads: int, max_seqlen_q: int, total_q: int, total_kv: int, scale: F32,
)
    requires
        max_seqlen_q >= 0,
    ensures
        streamed::flash_attn_bf16_v11_varlen_plan(
            q_len, k_len, v_len, o_len, cu_seqlens_q_len, cu_seqlens_k_len, batch, num_heads,
            max_seqlen_q, total_q, total_kv, scale,
        ) matches Plan::Fail(f) ==> f is InvalidArgument,
        streamed::flash_attn_bf16_v11_varlen_plan(
            q_len, k_len, v_len, o_len, cu_seqlens_q_len, cu_seqlens_k_len, batch, num_heads,
            max_seqlen_q, total_q, total_kv, scale,
        ) is Launch <==> {
            &&& batch != 0
            &&& num_heads != 0
            &&& max_seqlen_q != 0
            &&& total_q != 0
            &&& total_kv != 0
            &&& batch + 1 <= u32::MAX
            &&& cu_seqlens_q_len >= batch + 1
            &&& cu_seqlens_k_len >= batch + 1
            &&& num_heads * total_q <= u32::MAX
            &&& num_heads * total_kv <= u32::MAX
        },
        streamed::flash_attn_bf16_v11_varlen_plan(
            q_len, k_len, v_len, o_len, cu_seqlens_q_len, cu_seqlens_k_len, batch, num_heads,
            max_seqlen_q, total_q, total_kv, scale,
        ) matches Plan::Launch(l) ==> {
            &&& l.entry == "flash_attn_bf16_v11_varlen"@
            &&& l.kernel == "fa_bf16_v11_varlen"@
            &&& l.args =~= flash_attn_bf16_v11_varlen_takes().map_values(
                |r: Role|
                    match r {
                        Role::QueryTiles => Arg::Descriptor(0),
                        Role::KeyTiles => Arg::Descriptor(1),
                        Role::ValueTiles => Arg::Descriptor(2),
                        Role::Output => Arg::buffer(3),
                        Role::CuSeqlensQ => Arg::buffer(4),
                        Role::CuSeqlensK => Arg::buffer(5),
                        Role::TotalQ => Arg::word(total_q),
                        Role::TotalKv => Arg::word(total_kv),
                        Role::Scale => Arg::Scalar(scale),
                        _ => Arg::Word(0),
                    },
            )
            &&& meaning::covers(l.grid.0, 64, max_seqlen_q)
            &&& l.grid.1 == num_heads
            &&& l.grid.2 == batch
            &&& l.block == (160int, 1int, 1int)
            &&& l.shared_mem == 82032
            &&& l.opt_in is Some
            &&& l.failure is Some
            &&& l.tensor_maps.len() == 3
            &&& role::tiles(
                l.tensor_maps[0],
                0,
                MapElem::Bf16,
                num_heads * total_q,
                128,
                64,
                64,
                Swizzle::Bytes128,
            )
            &&& role::tiles(
                l.tensor_maps[1],
                1,
                MapElem::Bf16,
                num_heads * total_kv,
                128,
                64,
                64,
                Swizzle::Bytes128,
            )
            &&& role::tiles(
                l.tensor_maps[2],
                2,
                MapElem::Bf16,
                num_heads * total_kv,
                128,
                64,
                64,
                Swizzle::Bytes128,
            )
        },
{
    shape::lemma_ceil_div(max_seqlen_q, 64);
}

/// What the kernel `flash_attn_bf16_v11_varlen_causal` takes, in order.
pub open spec fn flash_attn_bf16_v11_varlen_causal_takes() -> Seq<Role> {
    seq![
        Role::QueryTiles, Role::KeyTiles, Role::ValueTiles, Role::Output, Role::CuSeqlensQ,
        Role::CuSeqlensK, Role::TotalQ, Role::TotalKv, Role::Scale,
    ]
}

/// `flash_attn_bf16_v11_varlen_causal` launches its kernel exactly where the sizes of the request
/// are right, with every argument what its role asks for, on blocks that cover the result.
pub proof fn flash_attn_bf16_v11_varlen_causal_launches(
    q_len: int, k_len: int, v_len: int, o_len: int, cu_seqlens_q_len: int, cu_seqlens_k_len: int,
    batch: int, num_heads: int, max_seqlen_q: int, total_q: int, total_kv: int, scale: F32,
)
    requires
        max_seqlen_q >= 0,
    ensures
        streamed::flash_attn_bf16_v11_varlen_causal_plan(
            q_len, k_len, v_len, o_len, cu_seqlens_q_len, cu_seqlens_k_len, batch, num_heads,
            max_seqlen_q, total_q, total_kv, scale,
        ) matches Plan::Fail(f) ==> f is InvalidArgument,
        streamed::flash_attn_bf16_v11_varlen_causal_plan(
            q_len, k_len, v_len, o_len, cu_seqlens_q_len, cu_seqlens_k_len, batch, num_heads,
            max_seqlen_q, total_q, total_kv, scale,
        ) is Launch <==> {
            &&& batch != 0
            &&& num_heads != 0
            &&& max_seqlen_q != 0
            &&& total_q != 0
            &&& total_kv != 0
            &&& batch + 1 <= u32::MAX
            &&& cu_seqlens_q_len >= batch + 1
            &&& cu_seqlens_k_len >= batch + 1
            &&& num_heads * total_q <= u32::MAX
            &&& num_heads * total_kv <= u32::MAX
        },
        streamed::flash_attn_bf16_v11_varlen_causal_plan(
            q_len, k_len, v_len, o_len, cu_seqlens_q_len, cu_seqlens_k_len, batch, num_heads,
            max_seqlen_q, total_q, total_kv, scale,
        ) matches Plan::Launch(l) ==> {
            &&& l.entry == "flash_attn_bf16_v11_varlen_causal"@
            &&& l.kernel == "fa_bf16_v11_varlen_causal"@
            &&& l.args =~= flash_attn_bf16_v11_varlen_causal_takes().map_values(
                |r: Role|
                    match r {
                        Role::QueryTiles => Arg::Descriptor(0),
                        Role::KeyTiles => Arg::Descriptor(1),
                        Role::ValueTiles => Arg::Descriptor(2),
                        Role::Output => Arg::buffer(3),
                        Role::CuSeqlensQ => Arg::buffer(4),
                        Role::CuSeqlensK => Arg::buffer(5),
                        Role::TotalQ => Arg::word(total_q),
                        Role::TotalKv => Arg::word(total_kv),
                        Role::Scale => Arg::Scalar(scale),
                        _ => Arg::Word(0),
                    },
            )
            &&& meaning::covers(l.grid.0, 64, max_seqlen_q)
            &&& l.grid.1 == num_heads
            &&& l.grid.2 == batch
            &&& l.block == (160int, 1int, 1int)
            &&& l.shared_mem == 82032
            &&& l.opt_in is Some
            &&& l.failure is Some
            &&& l.tensor_maps.len() == 3
            &&& role::tiles(
                l.tensor_maps[0],
                0,
                MapElem::Bf16,
                num_heads * total_q,
                128,
                64,
                64,
                Swizzle::Bytes128,
            )
            &&& role::tiles(
                l.tensor_maps[1],
                1,
                MapElem::Bf16,
                num_heads * total_kv,
                128,
                64,
                64,
                Swizzle::Bytes128,
            )
            &&& role::tiles(
                l.tensor_maps[2],
                2,
                MapElem::Bf16,
                num_heads * total_kv,
                128,
                64,
                64,
                Swizzle::Bytes128,
            )
        },
{
    shape::lemma_ceil_div(max_seqlen_q, 64);
}

/// What the kernel `flash_attn_bf16_v11_gqa` takes, in order.
pub open spec fn flash_attn_bf16_v11_gqa_takes() -> Seq<Role> {
    seq![
        Role::QueryTiles, Role::KeyTiles, Role::ValueTiles, Role::Output, Role::SeqQ, Role::SeqKv,
        Role::NumHeadsQ, Role::NumHeadsKv, Role::Scale,
    ]
}

/// `flash_attn_bf16_v11_gqa` launches its kernel exactly where the sizes of the request are
/// right, with every argument what its role asks for, on blocks that cover the result.
pub proof fn flash_attn_bf16_v11_gqa_launches(
    q_len: int, k_len: int, v_len: int, o_len: int, batch: int, num_heads_q: int,
    num_heads_kv: int, seq_q: int, seq_kv: int, scale: F32,
)
    requires
        seq_q >= 0,
    ensures
        streamed::flash_attn_bf16_v11_gqa_plan(
            q_len, k_len, v_len, o_len, batch, num_heads_q, num_heads_kv, seq_q, seq_kv, scale,
        ) matches Plan::Fail(f) ==> f is InvalidArgument,
        streamed::flash_attn_bf16_v11_gqa_plan(
            q_len, k_len, v_len, o_len, batch, num_heads_q, num_heads_kv, seq_q, seq_kv, scale,
        ) is Launch <==> {
            &&& batch != 0
            &&& num_heads_q != 0
            &&& num_heads_kv != 0
            &&& seq_q != 0
            &&& seq_kv != 0
            &&& num_heads_q % num_heads_kv == 0
            &&& batch * num_heads_q <= u32::MAX
            &&& batch * num_heads_q * seq_q <= u32::MAX
            &&& batch * num_heads_kv <= u32::MAX
            &&& batch * num_heads_kv * seq_kv <= u32::MAX
        },
        streamed::flash_attn_bf16_v11_gqa_plan(
            q_len, k_len, v_len, o_len, batch, num_heads_q, num_heads_kv, seq_q, seq_kv, scale,
        ) matches Plan::Launch(l) ==> {
            &&& l.entry == "flash_attn_bf16_v11_gqa"@
            &&& l.kernel == "fa_bf16_v11_gqa"@
            &&& l.args =~= flash_attn_bf16_v11_gqa_takes().map_values(
                |r: Role|
                    match r {
                        Role::QueryTiles => Arg::Descriptor(0),
                        Role::KeyTiles => Arg::Descriptor(1),
                        Role::ValueTiles => Arg::Descriptor(2),
                        Role::Output => Arg::buffer(3),
                        Role::SeqQ => Arg::word(seq_q),
                        Role::SeqKv => Arg::word(seq_kv),
                        Role::NumHeadsQ => Arg::word(num_heads_q),
                        Role::NumHeadsKv => Arg::word(num_heads_kv),
                        Role::Scale => Arg::Scalar(scale),
                        _ => Arg::Word(0),
                    },
            )
            &&& meaning::covers(l.grid.0, 64, seq_q)
            &&& l.grid.1 == num_heads_q
            &&& l.grid.2 == batch
            &&& l.block == (160int, 1int, 1int)
            &&& l.shared_mem == 82032
            &&& l.opt_in is Some
            &&& l.failure is Some
            &&& l.tensor_maps.len() == 3
            &&& role::tiles(
                l.tensor_maps[0],
                0,
                MapElem::Bf16,
                batch * num_heads_q * seq_q,
                128,
                64,
                64,
                Swizzle::Bytes128,
            )
            &&& role::tiles(
                l.tensor_maps[1],
                1,
                MapElem::Bf16,
                batch * num_heads_kv * seq_kv,
                128,
                64,
                64,
                Swizzle::Bytes128,
            )
            &&& role::tiles(
                l.tensor_maps[2],
                2,
                MapElem::Bf16,
                batch * num_heads_kv * seq_kv,
                128,
                64,
                64,
                Swizzle::Bytes128,
            )
        },
{
    shape::lemma_ceil_div(seq_q, 64);
}

/// What the kernel `flash_attn_bf16_v11_gqa_causal` takes, in order.
pub open spec fn flash_attn_bf16_v11_gqa_causal_takes() -> Seq<Role> {
    seq![
        Role::QueryTiles, Role::KeyTiles, Role::ValueTiles, Role::Output, Role::SeqQ, Role::SeqKv,
        Role::NumHeadsQ, Role::NumHeadsKv, Role::Scale,
    ]
}

/// `flash_attn_bf16_v11_gqa_causal` launches its kernel exactly where the sizes of the request
/// are right, with every argument what its role asks for, on blocks that cover the result.
pub proof fn flash_attn_bf16_v11_gqa_causal_launches(
    q_len: int, k_len: int, v_len: int, o_len: int, batch: int, num_heads_q: int,
    num_heads_kv: int, seq_q: int, seq_kv: int, scale: F32,
)
    requires
        seq_q >= 0,
    ensures
        streamed::flash_attn_bf16_v11_gqa_causal_plan(
            q_len, k_len, v_len, o_len, batch, num_heads_q, num_heads_kv, seq_q, seq_kv, scale,
        ) matches Plan::Fail(f) ==> f is InvalidArgument,
        streamed::flash_attn_bf16_v11_gqa_causal_plan(
            q_len, k_len, v_len, o_len, batch, num_heads_q, num_heads_kv, seq_q, seq_kv, scale,
        ) is Launch <==> {
            &&& batch != 0
            &&& num_heads_q != 0
            &&& num_heads_kv != 0
            &&& seq_q != 0
            &&& seq_kv != 0
            &&& num_heads_q % num_heads_kv == 0
            &&& batch * num_heads_q <= u32::MAX
            &&& batch * num_heads_q * seq_q <= u32::MAX
            &&& batch * num_heads_kv <= u32::MAX
            &&& batch * num_heads_kv * seq_kv <= u32::MAX
        },
        streamed::flash_attn_bf16_v11_gqa_causal_plan(
            q_len, k_len, v_len, o_len, batch, num_heads_q, num_heads_kv, seq_q, seq_kv, scale,
        ) matches Plan::Launch(l) ==> {
            &&& l.entry == "flash_attn_bf16_v11_gqa_causal"@
            &&& l.kernel == "fa_bf16_v11_gqa_causal"@
            &&& l.args =~= flash_attn_bf16_v11_gqa_causal_takes().map_values(
                |r: Role|
                    match r {
                        Role::QueryTiles => Arg::Descriptor(0),
                        Role::KeyTiles => Arg::Descriptor(1),
                        Role::ValueTiles => Arg::Descriptor(2),
                        Role::Output => Arg::buffer(3),
                        Role::SeqQ => Arg::word(seq_q),
                        Role::SeqKv => Arg::word(seq_kv),
                        Role::NumHeadsQ => Arg::word(num_heads_q),
                        Role::NumHeadsKv => Arg::word(num_heads_kv),
                        Role::Scale => Arg::Scalar(scale),
                        _ => Arg::Word(0),
                    },
            )
            &&& meaning::covers(l.grid.0, 64, seq_q)
            &&& l.grid.1 == num_heads_q
            &&& l.grid.2 == batch
            &&& l.block == (160int, 1int, 1int)
            &&& l.shared_mem == 82032
            &&& l.opt_in is Some
            &&& l.failure is Some
            &&& l.tensor_maps.len() == 3
            &&& role::tiles(
                l.tensor_maps[0],
                0,
                MapElem::Bf16,
                batch * num_heads_q * seq_q,
                128,
                64,
                64,
                Swizzle::Bytes128,
            )
            &&& role::tiles(
                l.tensor_maps[1],
                1,
                MapElem::Bf16,
                batch * num_heads_kv * seq_kv,
                128,
                64,
                64,
                Swizzle::Bytes128,
            )
            &&& role::tiles(
                l.tensor_maps[2],
                2,
                MapElem::Bf16,
                batch * num_heads_kv * seq_kv,
                128,
                64,
                64,
                Swizzle::Bytes128,
            )
        },
{
    shape::lemma_ceil_div(seq_q, 64);
}

/// What the kernel `flash_attn_bf16_v11_varlen_gqa` takes, in order.
pub open spec fn flash_attn_bf16_v11_varlen_gqa_takes() -> Seq<Role> {
    seq![
        Role::QueryTiles, Role::KeyTiles, Role::ValueTiles, Role::Output, Role::CuSeqlensQ,
        Role::CuSeqlensK, Role::TotalQ, Role::TotalKv, Role::NumHeadsQ, Role::NumHeadsKv,
        Role::Scale,
    ]
}

/// `flash_attn_bf16_v11_varlen_gqa` launches its kernel exactly where the sizes of the request
/// are right, with every argument what its role asks for, on blocks that cover the result.
pub proof fn flash_attn_bf16_v11_varlen_gqa_launches(
    q_len: int, k_len: int, v_len: int, o_len: int, cu_seqlens_q_len: int, cu_seqlens_k_len: int,
    batch: int, num_heads_q: int, num_heads_kv: int, max_seqlen_q: int, total_q: int,
    total_kv: int, scale: F32,
)
    requires
        max_seqlen_q >= 0,
    ensures
        streamed::flash_attn_bf16_v11_varlen_gqa_plan(
            q_len, k_len, v_len, o_len, cu_seqlens_q_len, cu_seqlens_k_len, batch, num_heads_q,
            num_heads_kv, max_seqlen_q, total_q, total_kv, scale,
        ) matches Plan::Fail(f) ==> f is InvalidArgument,
        streamed::flash_attn_bf16_v11_varlen_gqa_plan(
            q_len, k_len, v_len, o_len, cu_seqlens_q_len, cu_seqlens_k_len, batch, num_heads_q,
            num_heads_kv, max_seqlen_q, total_q, total_kv, scale,
        ) is Launch <==> {
            &&& batch != 0
            &&& num_heads_q != 0
            &&& num_heads_kv != 0
            &&& num_heads_q % num_heads_kv == 0
            &&& max_seqlen_q != 0
            &&& total_q != 0
            &&& total_kv != 0
            &&& batch + 1 <= u32::MAX
            &&& cu_seqlens_q_len >= batch + 1
            &&& cu_seqlens_k_len >= batch + 1
            &&& num_heads_q * total_q <= u32::MAX
            &&& num_heads_kv * total_kv <= u32::MAX
        },
        streamed::flash_attn_bf16_v11_varlen_gqa_plan(
            q_len, k_len, v_len, o_len, cu_seqlens_q_len, cu_seqlens_k_len, batch, num_heads_q,
            num_heads_kv, max_seqlen_q, total_q, total_kv, scale,
        ) matches Plan::Launch(l) ==> {
            &&& l.entry == "flash_attn_bf16_v11_varlen_gqa"@
            &&& l.kernel == "fa_bf16_v11_varlen_gqa"@
            &&& l.args =~= flash_attn_bf16_v11_varlen_gqa_takes().map_values(
                |r: Role|
                    match r {
                        Role::QueryTiles => Arg::Descriptor(0),
                        Role::KeyTiles => Arg::Descriptor(1),
                        Role::ValueTiles => Arg::Descriptor(2),
                        Role::Output => Arg::buffer(3),
                        Role::CuSeqlensQ => Arg::buffer(4),
                        Role::CuSeqlensK => Arg::buffer(5),
                        Role::TotalQ => Arg::word(total_q),
                        Role::TotalKv => Arg::word(total_kv),
                        Role::NumHeadsQ => Arg::word(num_heads_q),
                        Role::NumHeadsKv => Arg::word(num_heads_kv),
                        Role::Scale => Arg::Scalar(scale),
                        _ => Arg::Word(0),
                    },
            )
            &&& meaning::covers(l.grid.0, 64, max_seqlen_q)
            &&& l.grid.1 == num_heads_q
            &&& l.grid.2 == batch
            &&& l.block == (160int, 1int, 1int)
            &&& l.shared_mem == 82032
            &&& l.opt_in is Some
            &&& l.failure is Some
            &&& l.tensor_maps.len() == 3
            &&& role::tiles(
                l.tensor_maps[0],
                0,
                MapElem::Bf16,
                num_heads_q * total_q,
                128,
                64,
                64,
                Swizzle::Bytes128,
            )
            &&& role::tiles(
                l.tensor_maps[1],
                1,
                MapElem::Bf16,
                num_heads_kv * total_kv,
                128,
                64,
                64,
                Swizzle::Bytes128,
            )
            &&& role::tiles(
                l.tensor_maps[2],
                2,
                MapElem::Bf16,
                num_heads_kv * total_kv,
                128,
                64,
                64,
                Swizzle::Bytes128,
            )
        },
{
    shape::lemma_ceil_div(max_seqlen_q, 64);
}

/// What the kernel `flash_attn_bf16_v11_varlen_gqa_causal` takes, in order.
pub open spec fn flash_attn_bf16_v11_varlen_gqa_causal_takes() -> Seq<Role> {
    seq![
        Role::QueryTiles, Role::KeyTiles, Role::ValueTiles, Role::Output, Role::CuSeqlensQ,
        Role::CuSeqlensK, Role::TotalQ, Role::TotalKv, Role::NumHeadsQ, Role::NumHeadsKv,
        Role::Scale,
    ]
}

/// `flash_attn_bf16_v11_varlen_gqa_causal` launches its kernel exactly where the sizes of the
/// request are right, with every argument what its role asks for, on blocks that cover the
/// result.
pub proof fn flash_attn_bf16_v11_varlen_gqa_causal_launches(
    q_len: int, k_len: int, v_len: int, o_len: int, cu_seqlens_q_len: int, cu_seqlens_k_len: int,
    batch: int, num_heads_q: int, num_heads_kv: int, max_seqlen_q: int, total_q: int,
    total_kv: int, scale: F32,
)
    requires
        max_seqlen_q >= 0,
    ensures
        streamed::flash_attn_bf16_v11_varlen_gqa_causal_plan(
            q_len, k_len, v_len, o_len, cu_seqlens_q_len, cu_seqlens_k_len, batch, num_heads_q,
            num_heads_kv, max_seqlen_q, total_q, total_kv, scale,
        ) matches Plan::Fail(f) ==> f is InvalidArgument,
        streamed::flash_attn_bf16_v11_varlen_gqa_causal_plan(
            q_len, k_len, v_len, o_len, cu_seqlens_q_len, cu_seqlens_k_len, batch, num_heads_q,
            num_heads_kv, max_seqlen_q, total_q, total_kv, scale,
        ) is Launch <==> {
            &&& batch != 0
            &&& num_heads_q != 0
            &&& num_heads_kv != 0
            &&& num_heads_q % num_heads_kv == 0
            &&& max_seqlen_q != 0
            &&& total_q != 0
            &&& total_kv != 0
            &&& batch + 1 <= u32::MAX
            &&& cu_seqlens_q_len >= batch + 1
            &&& cu_seqlens_k_len >= batch + 1
            &&& num_heads_q * total_q <= u32::MAX
            &&& num_heads_kv * total_kv <= u32::MAX
        },
        streamed::flash_attn_bf16_v11_varlen_gqa_causal_plan(
            q_len, k_len, v_len, o_len, cu_seqlens_q_len, cu_seqlens_k_len, batch, num_heads_q,
            num_heads_kv, max_seqlen_q, total_q, total_kv, scale,
        ) matches Plan::Launch(l) ==> {
            &&& l.entry == "flash_attn_bf16_v11_varlen_gqa_causal"@
            &&& l.kernel == "fa_bf16_v11_varlen_gqa_causal"@
            &&& l.args =~= flash_attn_bf16_v11_varlen_gqa_causal_takes().map_values(
                |r: Role|
                    match r {
                        Role::QueryTiles => Arg::Descriptor(0),
                        Role::KeyTiles => Arg::Descriptor(1),
                        Role::ValueTiles => Arg::Descriptor(2),
                        Role::Output => Arg::buffer(3),
                        Role::CuSeqlensQ => Arg::buffer(4),
                        Role::CuSeqlensK => Arg::buffer(5),
                        Role::TotalQ => Arg::word(total_q),
                        Role::TotalKv => Arg::word(total_kv),
                        Role::NumHeadsQ => Arg::word(num_heads_q),
                        Role::NumHeadsKv => Arg::word(num_heads_kv),
                        Role::Scale => Arg::Scalar(scale),
                        _ => Arg::Word(0),
                    },
            )
            &&& meaning::covers(l.grid.0, 64, max_seqlen_q)
            &&& l.grid.1 == num_heads_q
            &&& l.grid.2 == batch
            &&& l.block == (160int, 1int, 1int)
            &&& l.shared_mem == 82032
            &&& l.opt_in is Some
            &&& l.failure is Some
            &&& l.tensor_maps.len() == 3
            &&& role::tiles(
                l.tensor_maps[0],
                0,
                MapElem::Bf16,
                num_heads_q * total_q,
                128,
                64,
                64,
                Swizzle::Bytes128,
            )
            &&& role::tiles(
                l.tensor_maps[1],
                1,
                MapElem::Bf16,
                num_heads_kv * total_kv,
                128,
                64,
                64,
                Swizzle::Bytes128,
            )
            &&& role::tiles(
                l.tensor_maps[2],
                2,
                MapElem::Bf16,
                num_heads_kv * total_kv,
                128,
                64,
                64,
                Swizzle::Bytes128,
            )
        },
{
    shape::lemma_ceil_div(max_seqlen_q, 64);
}

/// What the kernel `flash_attn_bf16_v20_tma_bc128` takes, in order.
pub open spec fn flash_attn_bf16_v20_tma_bc128_takes() -> Seq<Role> {
    seq![
        Role::QueryTiles, Role::KeyTiles, Role::ValueTiles, Role::Output, Role::SeqQ, Role::SeqKv,
        Role::NumHeads, Role::Scale,
    ]
}

/// `flash_attn_bf16_v20_tma_bc128` launches its kernel exactly where the sizes of the request are
/// right, with every argument what its role asks for, on blocks that cover the result.
pub proof fn flash_attn_bf16_v20_tma_bc128_launches(
    q_len: int, k_len: int, v_len: int, o_len: int, batch: int, num_heads: int, seq_q: int,
    seq_kv: int, scale: F32,
)
    requires
        seq_q >= 0,
    ensures
        streamed::flash_attn_bf16_v20_tma_bc128_plan(
            q_len, k_len, v_len, o_len, batch, num_heads, seq_q, seq_kv, scale,
        ) matches Plan::Fail(f) ==> f is InvalidArgument,
        streamed::flash_attn_bf16_v20_tma_bc128_plan(
            q_len, k_len, v_len, o_len, batch, num_heads, seq_q, seq_kv, scale,
        ) is Launch <==> {
            &&& batch != 0
            &&& num_heads != 0
            &&& seq_q != 0
            &&& seq_kv != 0
            &&& batch * num_heads * seq_q * 128 <= u64::MAX
            &&& batch * num_heads * seq_kv * 128 <= u64::MAX
            &&& q_len >= batch * num_heads * seq_q * 128
            &&& k_len >= batch * num_heads * seq_kv * 128
            &&& v_len >= batch * num_heads * seq_kv * 128
            &&& o_len >= batch * num_heads * seq_q * 128
            &&& batch * num_heads <= u32::MAX
            &&& batch * num_heads * seq_q <= u32::MAX
            &&& batch * num_heads * seq_kv <= u32::MAX
        },
        streamed::flash_attn_bf16_v20_tma_bc128_plan(
            q_len, k_len, v_len, o_len, batch, num_heads, seq_q, seq_kv, scale,
        ) matches Plan::Launch(l) ==> {
            &&& l.entry == "flash_attn_bf16_v20_tma_bc128"@
            &&& l.kernel == "fa_bf16_v20_tma_bc128"@
            &&& l.args =~= flash_attn_bf16_v20_tma_bc128_takes().map_values(
                |r: Role|
                    match r {
                        Role::QueryTiles => Arg::Descriptor(0),
                        Role::KeyTiles => Arg::Descriptor(1),
                        Role::ValueTiles => Arg::Descriptor(2),
                        Role::Output => Arg::buffer(3),
                        Role::SeqQ => Arg::word(seq_q),
                        Role::SeqKv => Arg::word(seq_kv),
                        Role::NumHeads => Arg::word(num_heads),
                        Role::Scale => Arg::Scalar(scale),
                        _ => Arg::Word(0),
                    },
            )
            &&& meaning::covers(l.grid.0, 64, seq_q)
            &&& l.grid.1 == num_heads
            &&& l.grid.2 == batch
            &&& l.block == (160int, 1int, 1int)
            &&& l.shared_mem == 98368
            &&& l.opt_in is Some
            &&& l.failure is Some
            &&& l.tensor_maps.len() == 3
            &&& role::tiles(
                l.tensor_maps[0],
                0,
                MapElem::Bf16,
                batch * num_heads * seq_q,
                128,
                64,
                64,
                Swizzle::Bytes128,
            )
            &&& role::tiles(
                l.tensor_maps[1],
                1,
                MapElem::Bf16,
                batch * num_heads * seq_kv,
                128,
                128,
                64,
                Swizzle::Bytes128,
            )
            &&& role::tiles(
                l.tensor_maps[2],
                2,
                MapElem::Bf16,
                batch * num_heads * seq_kv,
                128,
                128,
                64,
                Swizzle::Bytes128,
            )
        },
{
    shape::lemma_ceil_div(seq_q, 64);
}

/// What the kernel `flash_attn_bf16_v21_streaming_p` takes, in order.
pub open spec fn flash_attn_bf16_v21_streaming_p_takes() -> Seq<Role> {
    seq![
        Role::QueryTiles, Role::KeyTiles, Role::ValueTiles, Role::Output, Role::SeqQ, Role::SeqKv,
        Role::NumHeads, Role::Scale,
    ]
}

/// `flash_attn_bf16_v21_streaming_p` launches its kernel exactly where the sizes of the request
/// are right, with every argument what its role asks for, on blocks that cover the result.
pub proof fn flash_attn_bf16_v21_streaming_p_launches(
    q_len: int, k_len: int, v_len: int, o_len: int, batch: int, num_heads: int, seq_q: int,
    seq_kv: int, scale: F32,
)
    requires
        seq_q >= 0,
    ensures
        streamed::flash_attn_bf16_v21_streaming_p_plan(
            q_len, k_len, v_len, o_len, batch, num_heads, seq_q, seq_kv, scale,
        ) matches Plan::Fail(f) ==> f is InvalidArgument,
        streamed::flash_attn_bf16_v21_streaming_p_plan(
            q_len, k_len, v_len, o_len, batch, num_heads, seq_q, seq_kv, scale,
        ) is Launch <==> {
            &&& batch != 0
            &&& num_heads != 0
            &&& seq_q != 0
            &&& seq_kv != 0
            &&& batch * num_heads * seq_q * 128 <= u64::MAX
            &&& batch * num_heads * seq_kv * 128 <= u64::MAX
            &&& q_len >= batch * num_heads * seq_q * 128
            &&& k_len >= batch * num_heads * seq_kv * 128
            &&& v_len >= batch * num_heads * seq_kv * 128
            &&& o_len >= batch * num_heads * seq_q * 128
            &&& batch * num_heads <= u32::MAX
            &&& batch * num_heads * seq_q <= u32::MAX
            &&& batch * num_heads * seq_kv <= u32::MAX
        },
        streamed::flash_attn_bf16_v21_streaming_p_plan(
            q_len, k_len, v_len, o_len, batch, num_heads, seq_q, seq_kv, scale,
        ) matches Plan::Launch(l) ==> {
            &&& l.entry == "flash_attn_bf16_v21_streaming_p"@
            &&& l.kernel == "fa_bf16_v21_streaming_p"@
            &&& l.args =~= flash_attn_bf16_v21_streaming_p_takes().map_values(
                |r: Role|
                    match r {
                        Role::QueryTiles => Arg::Descriptor(0),
                        Role::KeyTiles => Arg::Descriptor(1),
                        Role::ValueTiles => Arg::Descriptor(2),
                        Role::Output => Arg::buffer(3),
                        Role::SeqQ => Arg::word(seq_q),
                        Role::SeqKv => Arg::word(seq_kv),
                        Role::NumHeads => Arg::word(num_heads),
                        Role::Scale => Arg::Scalar(scale),
                        _ => Arg::Word(0),
                    },
            )
            &&& meaning::covers(l.grid.0, 64, seq_q)
            &&& l.grid.1 == num_heads
            &&& l.grid.2 == batch
            &&& l.block == (160int, 1int, 1int)
            &&& l.shared_mem == 82032
            &&& l.opt_in is Some
            &&& l.failure is Some
            &&& l.tensor_maps.len() == 3
            &&& role::tiles(
                l.tensor_maps[0],
                0,
                MapElem::Bf16,
                batch * num_heads * seq_q,
                128,
                64,
                64,
                Swizzle::Bytes128,
            )
            &&& role::tiles(
                l.tensor_maps[1],
                1,
                MapElem::Bf16,
                batch * num_heads * seq_kv,
                128,
                64,
                64,
                Swizzle::Bytes128,
            )
            &&& role::tiles(
                l.tensor_maps[2],
                2,
                MapElem::Bf16,
                batch * num_heads * seq_kv,
                128,
                64,
                64,
                Swizzle::Bytes128,
            )
        },
{
    shape::lemma_ceil_div(seq_q, 64);
}

/// What the kernel `flash_attn_bf16_v21_causal` takes, in order.
pub open spec fn flash_attn_bf16_v21_causal_takes() -> Seq<Role> {
    seq![
        Role::QueryTiles, Role::KeyTiles, Role::ValueTiles, Role::Output, Role::SeqQ, Role::SeqKv,
        Role::NumHeads, Role::Scale,
    ]
}

/// `flash_attn_bf16_v21_causal` launches its kernel exactly where the sizes of the request are
/// right, with every argument what its role asks for, on blocks that cover the result.
pub proof fn flash_attn_bf16_v21_causal_launches(
    q_len: int, k_len: int, v_len: int, o_len: int, batch: int, num_heads: int, seq_q: int,
    seq_kv: int, scale: F32,
)
    requires
        seq_q >= 0,
    ensures
        streamed::flash_attn_bf16_v21_causal_plan(
            q_len, k_len, v_len, o_len, batch, num_heads, seq_q, seq_kv, scale,
        ) matches Plan::Fail(f) ==> f is InvalidArgument,
        streamed::flash_attn_bf16_v21_causal_plan(
            q_len, k_len, v_len, o_len, batch, num_heads, seq_q, seq_kv, scale,
        ) is Launch <==> {
            &&& batch != 0
            &&& num_heads != 0
            &&& seq_q != 0
            &&& seq_kv != 0
            &&& batch * num_heads * seq_q * 128 <= u64::MAX
            &&& batch * num_heads * seq_kv * 128 <= u64::MAX
            &&& q_len >= batch * num_heads * seq_q * 128
            &&& k_len >= batch * num_heads * seq_kv * 128
            &&& v_len >= batch * num_heads * seq_kv * 128
            &&& o_len >= batch * num_heads * seq_q * 128
            &&& batch * num_heads <= u32::MAX
            &&& batch * num_heads * seq_q <= u32::MAX
            &&& batch * num_heads * seq_kv <= u32::MAX
        },
        streamed::flash_attn_bf16_v21_causal_plan(
            q_len, k_len, v_len, o_len, batch, num_heads, seq_q, seq_kv, scale,
        ) matches Plan::Launch(l) ==> {
            &&& l.entry == "flash_attn_bf16_v21_causal"@
            &&& l.kernel == "fa_bf16_v21_causal"@
            &&& l.args =~= flash_attn_bf16_v21_causal_takes().map_values(
                |r: Role|
                    match r {
                        Role::QueryTiles => Arg::Descriptor(0),
                        Role::KeyTiles => Arg::Descriptor(1),
                        Role::ValueTiles => Arg::Descriptor(2),
                        Role::Output => Arg::buffer(3),
                        Role::SeqQ => Arg::word(seq_q),
                        Role::SeqKv => Arg::word(seq_kv),
                        Role::NumHeads => Arg::word(num_heads),
                        Role::Scale => Arg::Scalar(scale),
                        _ => Arg::Word(0),
                    },
            )
            &&& meaning::covers(l.grid.0, 64, seq_q)
            &&& l.grid.1 == num_heads
            &&& l.grid.2 == batch
            &&& l.block == (160int, 1int, 1int)
            &&& l.shared_mem == 82032
            &&& l.opt_in is Some
            &&& l.failure is Some
            &&& l.tensor_maps.len() == 3
            &&& role::tiles(
                l.tensor_maps[0],
                0,
                MapElem::Bf16,
                batch * num_heads * seq_q,
                128,
                64,
                64,
                Swizzle::Bytes128,
            )
            &&& role::tiles(
                l.tensor_maps[1],
                1,
                MapElem::Bf16,
                batch * num_heads * seq_kv,
                128,
                64,
                64,
                Swizzle::Bytes128,
            )
            &&& role::tiles(
                l.tensor_maps[2],
                2,
                MapElem::Bf16,
                batch * num_heads * seq_kv,
                128,
                64,
                64,
                Swizzle::Bytes128,
            )
        },
{
    shape::lemma_ceil_div(seq_q, 64);
}

/// What the kernel `flash_attn_bf16_v21_gqa` takes, in order.
pub open spec fn flash_attn_bf16_v21_gqa_takes() -> Seq<Role> {
    seq![
        Role::QueryTiles, Role::KeyTiles, Role::ValueTiles, Role::Output, Role::SeqQ, Role::SeqKv,
        Role::NumHeadsQ, Role::NumHeadsKv, Role::Scale,
    ]
}

/// `flash_attn_bf16_v21_gqa` launches its kernel exactly where the sizes of the request are
/// right, with every argument what its role asks for, on blocks that cover the result.
pub proof fn flash_attn_bf16_v21_gqa_launches(
    q_len: int, k_len: int, v_len: int, o_len: int, batch: int, num_heads_q: int,
    num_heads_kv: int, seq_q: int, seq_kv: int, scale: F32,
)
    requires
        seq_q >= 0,
    ensures
        streamed::flash_attn_bf16_v21_gqa_plan(
            q_len, k_len, v_len, o_len, batch, num_heads_q, num_heads_kv, seq_q, seq_kv, scale,
        ) matches Plan::Fail(f) ==> f is InvalidArgument,
        streamed::flash_attn_bf16_v21_gqa_plan(
            q_len, k_len, v_len, o_len, batch, num_heads_q, num_heads_kv, seq_q, seq_kv, scale,
        ) is Launch <==> {
            &&& batch != 0
            &&& num_heads_q != 0
            &&& num_heads_kv != 0
            &&& seq_q != 0
            &&& seq_kv != 0
            &&& num_heads_q % num_heads_kv == 0
            &&& batch * num_heads_q <= u32::MAX
            &&& batch * num_heads_q * seq_q <= u32::MAX
            &&& batch * num_heads_kv <= u32::MAX
            &&& batch * num_heads_kv * seq_kv <= u32::MAX
        },
        streamed::flash_attn_bf16_v21_gqa_plan(
            q_len, k_len, v_len, o_len, batch, num_heads_q, num_heads_kv, seq_q, seq_kv, scale,
        ) matches Plan::Launch(l) ==> {
            &&& l.entry == "flash_attn_bf16_v21_gqa"@
            &&& l.kernel == "fa_bf16_v21_gqa"@
            &&& l.args =~= flash_attn_bf16_v21_gqa_takes().map_values(
                |r: Role|
                    match r {
                        Role::QueryTiles => Arg::Descriptor(0),
                        Role::KeyTiles => Arg::Descriptor(1),
                        Role::ValueTiles => Arg::Descriptor(2),
                        Role::Output => Arg::buffer(3),
                        Role::SeqQ => Arg::word(seq_q),
                        Role::SeqKv => Arg::word(seq_kv),
                        Role::NumHeadsQ => Arg::word(num_heads_q),
                        Role::NumHeadsKv => Arg::word(num_heads_kv),
                        Role::Scale => Arg::Scalar(scale),
                        _ => Arg::Word(0),
                    },
            )
            &&& meaning::covers(l.grid.0, 64, seq_q)
            &&& l.grid.1 == num_heads_q
            &&& l.grid.2 == batch
            &&& l.block == (160int, 1int, 1int)
            &&& l.shared_mem == 82032
            &&& l.opt_in is Some
            &&& l.failure is Some
            &&& l.tensor_maps.len() == 3
            &&& role::tiles(
                l.tensor_maps[0],
                0,
                MapElem::Bf16,
                batch * num_heads_q * seq_q,
                128,
                64,
                64,
                Swizzle::Bytes128,
            )
            &&& role::tiles(
                l.tensor_maps[1],
                1,
                MapElem::Bf16,
                batch * num_heads_kv * seq_kv,
                128,
                64,
                64,
                Swizzle::Bytes128,
            )
            &&& role::tiles(
                l.tensor_maps[2],
                2,
                MapElem::Bf16,
                batch * num_heads_kv * seq_kv,
                128,
                64,
                64,
                Swizzle::Bytes128,
            )
        },
{
    shape::lemma_ceil_div(seq_q, 64);
}

/// What the kernel `flash_attn_bf16_v21_gqa_causal` takes, in order.
pub open spec fn flash_attn_bf16_v21_gqa_causal_takes() -> Seq<Role> {
    seq![
        Role::QueryTiles, Role::KeyTiles, Role::ValueTiles, Role::Output, Role::SeqQ, Role::SeqKv,
        Role::NumHeadsQ, Role::NumHeadsKv, Role::Scale,
    ]
}

/// `flash_attn_bf16_v21_gqa_causal` launches its kernel exactly where the sizes of the request
/// are right, with every argument what its role asks for, on blocks that cover the result.
pub proof fn flash_attn_bf16_v21_gqa_causal_launches(
    q_len: int, k_len: int, v_len: int, o_len: int, batch: int, num_heads_q: int,
    num_heads_kv: int, seq_q: int, seq_kv: int, scale: F32,
)
    requires
        seq_q >= 0,
    ensures
        streamed::flash_attn_bf16_v21_gqa_causal_plan(
            q_len, k_len, v_len, o_len, batch, num_heads_q, num_heads_kv, seq_q, seq_kv, scale,
        ) matches Plan::Fail(f) ==> f is InvalidArgument,
        streamed::flash_attn_bf16_v21_gqa_causal_plan(
            q_len, k_len, v_len, o_len, batch, num_heads_q, num_heads_kv, seq_q, seq_kv, scale,
        ) is Launch <==> {
            &&& batch != 0
            &&& num_heads_q != 0
            &&& num_heads_kv != 0
            &&& seq_q != 0
            &&& seq_kv != 0
            &&& num_heads_q % num_heads_kv == 0
            &&& batch * num_heads_q <= u32::MAX
            &&& batch * num_heads_q * seq_q <= u32::MAX
            &&& batch * num_heads_kv <= u32::MAX
            &&& batch * num_heads_kv * seq_kv <= u32::MAX
        },
        streamed::flash_attn_bf16_v21_gqa_causal_plan(
            q_len, k_len, v_len, o_len, batch, num_heads_q, num_heads_kv, seq_q, seq_kv, scale,
        ) matches Plan::Launch(l) ==> {
            &&& l.entry == "flash_attn_bf16_v21_gqa_causal"@
            &&& l.kernel == "fa_bf16_v21_gqa_causal"@
            &&& l.args =~= flash_attn_bf16_v21_gqa_causal_takes().map_values(
                |r: Role|
                    match r {
                        Role::QueryTiles => Arg::Descriptor(0),
                        Role::KeyTiles => Arg::Descriptor(1),
                        Role::ValueTiles => Arg::Descriptor(2),
                        Role::Output => Arg::buffer(3),
                        Role::SeqQ => Arg::word(seq_q),
                        Role::SeqKv => Arg::word(seq_kv),
                        Role::NumHeadsQ => Arg::word(num_heads_q),
                        Role::NumHeadsKv => Arg::word(num_heads_kv),
                        Role::Scale => Arg::Scalar(scale),
                        _ => Arg::Word(0),
                    },
            )
            &&& meaning::covers(l.grid.0, 64, seq_q)
            &&& l.grid.1 == num_heads_q
            &&& l.grid.2 == batch
            &&& l.block == (160int, 1int, 1int)
            &&& l.shared_mem == 82032
            &&& l.opt_in is Some
            &&& l.failure is Some
            &&& l.tensor_maps.len() == 3
            &&& role::tiles(
                l.tensor_maps[0],
                0,
                MapElem::Bf16,
                batch * num_heads_q * seq_q,
                128,
                64,
                64,
                Swizzle::Bytes128,
            )
            &&& role::tiles(
                l.tensor_maps[1],
                1,
                MapElem::Bf16,
                batch * num_heads_kv * seq_kv,
                128,
                64,
                64,
                Swizzle::Bytes128,
            )
            &&& role::tiles(
                l.tensor_maps[2],
                2,
                MapElem::Bf16,
                batch * num_heads_kv * seq_kv,
                128,
                64,
                64,
                Swizzle::Bytes128,
            )
        },
{
    shape::lemma_ceil_div(seq_q, 64);
}

} // verus!
