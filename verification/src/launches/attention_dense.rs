//! What the launches of `attention::dense` hand to their kernels.
use crate::attention::dense;
use crate::launches::role::Role;
use crate::meaning;
use crate::plan::{Arg, F32, Plan};
use crate::shape;
use vstd::prelude::*;

verus! {

/// What the kernel `flash_attn_bf16_d128` takes, in order.
pub open spec fn flash_attn_bf16_d128_takes() -> Seq<Role> {
    seq![
        Role::Query, Role::Key, Role::Value, Role::Output, Role::SeqQ, Role::SeqKv,
        Role::NumHeads, Role::Scale,
    ]
}

/// `flash_attn_bf16_d128` launches its kernel exactly where the sizes of the request are right,
/// with every argument what its role asks for, on blocks that cover the result.
pub proof fn flash_attn_bf16_d128_launches(
    q_len: int, k_len: int, v_len: int, o_len: int, batch: int, num_heads: int, seq_q: int,
    seq_kv: int, scale: F32,
)
    requires
        seq_q >= 0,
    ensures
        dense::flash_attn_bf16_d128_plan(
            q_len, k_len, v_len, o_len, batch, num_heads, seq_q, seq_kv, scale,
        ) matches Plan::Fail(f) ==> f is InvalidArgument,
        dense::flash_attn_bf16_d128_plan(
            q_len, k_len, v_len, o_len, batch, num_heads, seq_q, seq_kv, scale,
        ) is Launch <==> {
            &&& batch != 0
            &&& num_heads != 0
            &&& seq_q != 0
            &&& seq_kv != 0
            &&& batch * num_heads * seq_q * 128 <= u64::MAX
            &&& batch * num_heads * seq_kv * 128 <= u64::MAX
            &&& q_len >= batch * num_heads * seq_q * 128
            &&& k_len >= batch * num_heads * seq_kv * 128
            &&& v_len >= batch * num_heads * seq_kv * 128
            &&& o_len >= batch * num_heads * seq_q * 128
        },
        dense::flash_attn_bf16_d128_plan(
            q_len, k_len, v_len, o_len, batch, num_heads, seq_q, seq_kv, scale,
        ) matches Plan::Launch(l) ==> {
            &&& l.entry == "flash_attn_bf16_d128"@
            &&& l.kernel == "fa_bf16_d128"@
            &&& l.args =~= flash_attn_bf16_d128_takes().map_values(
                |r: Role|
                    match r {
                        Role::Query => Arg::buffer(0),
                        Role::Key => Arg::buffer(1),
                        Role::Value => Arg::buffer(2),
                        Role::Output => Arg::buffer(3),
                        Role::SeqQ => Arg::word(seq_q),
                        Role::SeqKv => Arg::word(seq_kv),
                        Role::NumHeads => Arg::word(num_heads),
                        Role::Scale => Arg::Scalar(scale),
                        _ => Arg::Word(0),
                    },
            )
            &&& meaning::covers(l.grid.0, 16, seq_q)
            &&& l.grid.1 == num_heads
            &&& l.grid.2 == batch
            &&& l.block == (32int, 1int, 1int)
            &&& l.shared_mem == 18432
            &&& l.opt_in is None
            &&& l.failure is None
            &&& l.tensor_maps.len() == 0
        },
{
    shape::lemma_ceil_div(seq_q, 16);
}

/// What the kernel `flash_attn_bf16_v3_d128` takes, in order.
pub open spec fn flash_attn_bf16_v3_d128_takes() -> Seq<Role> {
    seq![
        Role::Query, Role::Key, Role::Value, Role::Output, Role::SeqQ, Role::SeqKv,
        Role::NumHeads, Role::Scale,
    ]
}

/// `flash_attn_bf16_v3_d128` launches its kernel exactly where the sizes of the request are
/// right, with every argument what its role asks for, on blocks that cover the result.
pub proof fn flash_attn_bf16_v3_d128_launches(
    q_len: int, k_len: int, v_len: int, o_len: int, batch: int, num_heads: int, seq_q: int,
    seq_kv: int, scale: F32,
)
    requires
        seq_q >= 0,
    ensures
        dense::flash_attn_bf16_v3_d128_plan(
            q_len, k_len, v_len, o_len, batch, num_heads, seq_q, seq_kv, scale,
        ) matches Plan::Fail(f) ==> f is InvalidArgument,
        dense::flash_attn_bf16_v3_d128_plan(
            q_len, k_len, v_len, o_len, batch, num_heads, seq_q, seq_kv, scale,
        ) is Launch <==> {
            &&& batch != 0
            &&& num_heads != 0
            &&& seq_q != 0
            &&& seq_kv != 0
            &&& batch * num_heads * seq_q * 128 <= u64::MAX
            &&& batch * num_heads * seq_kv * 128 <= u64::MAX
            &&& q_len >= batch * num_heads * seq_q * 128
            &&& k_len >= batch * num_heads * seq_kv * 128
            &&& v_len >= batch * num_heads * seq_kv * 128
            &&& o_len >= batch * num_heads * seq_q * 128
        },
        dense::flash_attn_bf16_v3_d128_plan(
            q_len, k_len, v_len, o_len, batch, num_heads, seq_q, seq_kv, scale,
        ) matches Plan::Launch(l) ==> {
            &&& l.entry == "flash_attn_bf16_v3_d128"@
            &&& l.kernel == "fa_bf16_v3_d128"@
            &&& l.args =~= flash_attn_bf16_v3_d128_takes().map_values(
                |r: Role|
                    match r {
                        Role::Query => Arg::buffer(0),
                        Role::Key => Arg::buffer(1),
                        Role::Value => Arg::buffer(2),
                        Role::Output => Arg::buffer(3),
                        Role::SeqQ => Arg::word(seq_q),
                        Role::SeqKv => Arg::word(seq_kv),
                        Role::NumHeads => Arg::word(num_heads),
                        Role::Scale => Arg::Scalar(scale),
                        _ => Arg::Word(0),
                    },
            )
            &&& meaning::covers(l.grid.0, 128, seq_q)
            &&& l.grid.1 == num_heads
            &&& l.grid.2 == batch
            &&& l.block == (256int, 1int, 1int)
            &&& l.shared_mem == 0
            &&& l.opt_in is None
            &&& l.failure is None
            &&& l.tensor_maps.len() == 0
        },
{
    shape::lemma_ceil_div(seq_q, 128);
}

/// What the kernel `flash_attn_bf16_v22_db` takes, in order.
pub open spec fn flash_attn_bf16_v22_db_takes() -> Seq<Role> {
    seq![
        Role::Query, Role::Key, Role::Value, Role::Output, Role::SeqQ, Role::SeqKv,
        Role::NumHeads, Role::Scale,
    ]
}

/// `flash_attn_bf16_v22_db` launches its kernel exactly where the sizes of the request are right,
/// with every argument what its role asks for, on blocks that cover the result.
pub proof fn flash_attn_bf16_v22_db_launches(
    q_len: int, k_len: int, v_len: int, o_len: int, batch: int, num_heads: int, seq_q: int,
    seq_kv: int, scale: F32,
)
    requires
        seq_q >= 0,
    ensures
        dense::flash_attn_bf16_v22_db_plan(
            q_len, k_len, v_len, o_len, batch, num_heads, seq_q, seq_kv, scale,
        ) matches Plan::Fail(f) ==> f is InvalidArgument,
        dense::flash_attn_bf16_v22_db_plan(
            q_len, k_len, v_len, o_len, batch, num_heads, seq_q, seq_kv, scale,
        ) is Launch <==> {
            &&& batch != 0
            &&& num_heads != 0
            &&& seq_q != 0
            &&& seq_kv != 0
            &&& batch * num_heads * seq_q * 128 <= u64::MAX
            &&& batch * num_heads * seq_kv * 128 <= u64::MAX
            &&& q_len >= batch * num_heads * seq_q * 128
            &&& k_len >= batch * num_heads * seq_kv * 128
            &&& v_len >= batch * num_heads * seq_kv * 128
            &&& o_len >= batch * num_heads * seq_q * 128
        },
        dense::flash_attn_bf16_v22_db_plan(
            q_len, k_len, v_len, o_len, batch, num_heads, seq_q, seq_kv, scale,
        ) matches Plan::Launch(l) ==> {
            &&& l.entry == "flash_attn_bf16_v22_db"@
            &&& l.kernel == "fa_bf16_v22_db"@
            &&& l.args =~= flash_attn_bf16_v22_db_takes().map_values(
                |r: Role|
                    match r {
                        Role::Query => Arg::buffer(0),
                        Role::Key => Arg::buffer(1),
                        Role::Value => Arg::buffer(2),
                        Role::Output => Arg::buffer(3),
                        Role::SeqQ => Arg::word(seq_q),
                        Role::SeqKv => Arg::word(seq_kv),
                        Role::NumHeads => Arg::word(num_heads),
                        Role::Scale => Arg::Scalar(scale),
                        _ => Arg::Word(0),
                    },
            )
            &&& meaning::covers(l.grid.0, 128, seq_q)
            &&& l.grid.1 == num_heads
            &&& l.grid.2 == batch
            &&& l.block == (256int, 1int, 1int)
            &&& l.shared_mem == 81920
            &&& l.opt_in is Some
            &&& l.failure is Some
            &&& l.tensor_maps.len() == 0
        },
{
    shape::lemma_ceil_div(seq_q, 128);
}

/// What the kernel `flash_attn_bf16_v3_d256` takes, in order.
pub open spec fn flash_attn_bf16_v3_d256_takes() -> Seq<Role> {
    seq![
        Role::Query, Role::Key, Role::Value, Role::Output, Role::SeqQ, Role::SeqKv,
        Role::NumHeads, Role::Scale,
    ]
}

/// `flash_attn_bf16_v3_d256` launches its kernel exactly where the sizes of the request are
/// right, with every argument what its role asks for, on blocks that cover the result.
pub proof fn flash_attn_bf16_v3_d256_launches(
    q_len: int, k_len: int, v_len: int, o_len: int, batch: int, num_heads: int, seq_q: int,
    seq_kv: int, scale: F32,
)
    requires
        seq_q >= 0,
    ensures
        dense::flash_attn_bf16_v3_d256_plan(
            q_len, k_len, v_len, o_len, batch, num_heads, seq_q, seq_kv, scale,
        ) matches Plan::Fail(f) ==> f is InvalidArgument,
        dense::flash_attn_bf16_v3_d256_plan(
            q_len, k_len, v_len, o_len, batch, num_heads, seq_q, seq_kv, scale,
        ) is Launch <==> {
            &&& batch != 0
            &&& num_heads != 0
            &&& seq_q != 0
            &&& seq_kv != 0
            &&& batch * num_heads * seq_q * 256 <= u64::MAX
            &&& batch * num_heads * seq_kv * 256 <= u64::MAX
            &&& q_len >= batch * num_heads * seq_q * 256
            &&& k_len >= batch * num_heads * seq_kv * 256
            &&& v_len >= batch * num_heads * seq_kv * 256
            &&& o_len >= batch * num_heads * seq_q * 256
        },
        dense::flash_attn_bf16_v3_d256_plan(
            q_len, k_len, v_len, o_len, batch, num_heads, seq_q, seq_kv, scale,
        ) matches Plan::Launch(l) ==> {
            &&& l.entry == "flash_attn_bf16_v3_d256"@
            &&& l.kernel == "fa_bf16_v3_d256"@
            &&& l.args =~= flash_attn_bf16_v3_d256_takes().map_values(
                |r: Role|
                    match r {
                        Role::Query => Arg::buffer(0),
                        Role::Key => Arg::buffer(1),
                        Role::Value => Arg::buffer(2),
                        Role::Output => Arg::buffer(3),
                        Role::SeqQ => Arg::word(seq_q),
                        Role::SeqKv => Arg::word(seq_kv),
                        Role::NumHeads => Arg::word(num_heads),
                        Role::Scale => Arg::Scalar(scale),
                        _ => Arg::Word(0),
                    },
            )
            &&& meaning::covers(l.grid.0, 128, seq_q)
            &&& l.grid.1 == num_heads
            &&& l.grid.2 == batch
            &&& l.block == (256int, 1int, 1int)
            &&& l.shared_mem == 0
            &&& l.opt_in is None
            &&& l.failure is None
            &&& l.tensor_maps.len() == 0
        },
{
    shape::lemma_ceil_div(seq_q, 128);
}

/// What the kernel `flash_attn_bf16_v3_d256_gqa_causal_pos_dev` takes, in order.
pub open spec fn flash_attn_bf16_v3_d256_gqa_causal_pos_dev_takes() -> Seq<Role> {
    seq![
        Role::Query, Role::Key, Role::Value, Role::Output, Role::SeqQ, Role::SeqKv,
        Role::NumHeads, Role::NumHeadsKv, Role::PosPtr, Role::Scale,
    ]
}

/// `flash_attn_bf16_v3_d256_gqa_causal_pos_dev` launches its kernel exactly where the sizes of
/// the request are right, with every argument what its role asks for, on blocks that cover the
/// result.
pub proof fn flash_attn_bf16_v3_d256_gqa_causal_pos_dev_launches(
    q_len: int, k_len: int, v_len: int, o_len: int, pos_ptr_len: int, batch: int, num_heads: int,
    num_heads_kv: int, seq_q: int, seq_kv: int, scale: F32,
)
    requires
        seq_q >= 0,
    ensures
        dense::flash_attn_bf16_v3_d256_gqa_causal_pos_dev_plan(
            q_len, k_len, v_len, o_len, pos_ptr_len, batch, num_heads, num_heads_kv, seq_q,
            seq_kv, scale,
        ) matches Plan::Fail(f) ==> f is InvalidArgument,
        dense::flash_attn_bf16_v3_d256_gqa_causal_pos_dev_plan(
            q_len, k_len, v_len, o_len, pos_ptr_len, batch, num_heads, num_heads_kv, seq_q,
            seq_kv, scale,
        ) is Launch <==> {
            &&& batch != 0
            &&& num_heads != 0
            &&& seq_q != 0
            &&& seq_kv != 0
            &&& num_heads_kv != 0
            &&& num_heads_kv == 0 ==> num_heads == 0
            &&& num_heads_kv != 0 ==> num_heads % num_heads_kv == 0
            &&& batch * num_heads * seq_q * 256 <= u64::MAX
            &&& batch * num_heads_kv * seq_kv * 256 <= u64::MAX
            &&& q_len >= batch * num_heads * seq_q * 256
            &&& k_len >= batch * num_heads_kv * seq_kv * 256
            &&& v_len >= batch * num_heads_kv * seq_kv * 256
            &&& o_len >= batch * num_heads * seq_q * 256
            &&& shape::low_word(pos_ptr_len) >= batch
        },
        dense::flash_attn_bf16_v3_d256_gqa_causal_pos_dev_plan(
            q_len, k_len, v_len, o_len, pos_ptr_len, batch, num_heads, num_heads_kv, seq_q,
            seq_kv, scale,
        ) matches Plan::Launch(l) ==> {
            &&& l.entry == "flash_attn_bf16_v3_d256_gqa_causal_pos_dev"@
            &&& l.kernel == "fa_bf16_v3_d256_gqa_causal_pos_dev"@
            &&& l.args =~= flash_attn_bf16_v3_d256_gqa_causal_pos_dev_takes().map_values(
                |r: Role|
                    match r {
                        Role::Query => Arg::buffer(0),
                        Role::Key => Arg::buffer(1),
                        Role::Value => Arg::buffer(2),
                        Role::Output => Arg::buffer(3),
                        Role::SeqQ => Arg::word(seq_q),
                        Role::SeqKv => Arg::word(seq_kv),
                        Role::NumHeads => Arg::word(num_heads),
                        Role::NumHeadsKv => Arg::word(num_heads_kv),
                        Role::PosPtr => Arg::buffer(4),
                        Role::Scale => Arg::Scalar(scale),
                        _ => Arg::Word(0),
                    },
            )
            &&& meaning::covers(l.grid.0, 128, seq_q)
            &&& l.grid.1 == num_heads
            &&& l.grid.2 == batch
            &&& l.block == (256int, 1int, 1int)
            &&& l.shared_mem == 0
            &&& l.opt_in is None
            &&& l.failure is None
            &&& l.tensor_maps.len() == 0
        },
{
    shape::lemma_ceil_div(seq_q, 128);
}

/// What the kernel `flash_attn_bf16_fp8kv_v3_d256_gqa_causal_pos_dev` takes, in order.
pub open spec fn flash_attn_bf16_fp8kv_v3_d256_gqa_causal_pos_dev_takes() -> Seq<Role> {
    seq![
        Role::Query, Role::Key, Role::Value, Role::Output, Role::SeqQ, Role::SeqKv,
        Role::NumHeads, Role::NumHeadsKv, Role::PosPtr, Role::Scale, Role::KvScale,
    ]
}

/// `flash_attn_bf16_fp8kv_v3_d256_gqa_causal_pos_dev` launches its kernel exactly where the sizes
/// of the request are right, with every argument what its role asks for, on blocks that cover the
/// result.
pub proof fn flash_attn_bf16_fp8kv_v3_d256_gqa_causal_pos_dev_launches(
    q_len: int, k_len: int, v_len: int, o_len: int, pos_ptr_len: int, batch: int, num_heads: int,
    num_heads_kv: int, seq_q: int, seq_kv: int, scale: F32, kv_scale: F32,
)
    requires
        seq_q >= 0,
    ensures
        dense::flash_attn_bf16_fp8kv_v3_d256_gqa_causal_pos_dev_plan(
            q_len, k_len, v_len, o_len, pos_ptr_len, batch, num_heads, num_heads_kv, seq_q,
            seq_kv, scale, kv_scale,
        ) matches Plan::Fail(f) ==> f is InvalidArgument,
        dense::flash_attn_bf16_fp8kv_v3_d256_gqa_causal_pos_dev_plan(
            q_len, k_len, v_len, o_len, pos_ptr_len, batch, num_heads, num_heads_kv, seq_q,
            seq_kv, scale, kv_scale,
        ) is Launch <==> {
            &&& batch != 0
            &&& num_heads != 0
            &&& seq_q != 0
            &&& seq_kv != 0
            &&& num_heads_kv != 0
            &&& num_heads_kv == 0 ==> num_heads == 0
            &&& num_heads_kv != 0 ==> num_heads % num_heads_kv == 0
            &&& batch * num_heads * seq_q * 256 <= u64::MAX
            &&& batch * num_heads_kv * seq_kv * 256 <= u64::MAX
            &&& q_len >= batch * num_heads * seq_q * 256
            &&& k_len >= batch * num_heads_kv * seq_kv * 256
            &&& v_len >= batch * num_heads_kv * seq_kv * 256
            &&& o_len >= batch * num_heads * seq_q * 256
            &&& shape::low_word(pos_ptr_len) >= batch
        },
        dense::flash_attn_bf16_fp8kv_v3_d256_gqa_causal_pos_dev_plan(
            q_len, k_len, v_len, o_len, pos_ptr_len, batch, num_heads, num_heads_kv, seq_q,
            seq_kv, scale, kv_scale,
        ) matches Plan::Launch(l) ==> {
            &&& l.entry == "flash_attn_bf16_fp8kv_v3_d256_gqa_causal_pos_dev"@
            &&& l.kernel == "fa_bf16_fp8kv_v3_d256_gqa_causal_pos_dev"@
            &&& l.args =~= flash_attn_bf16_fp8kv_v3_d256_gqa_causal_pos_dev_takes().map_values(
                |r: Role|
                    match r {
                        Role::Query => Arg::buffer(0),
                        Role::Key => Arg::buffer(1),
                        Role::Value => Arg::buffer(2),
                        Role::Output => Arg::buffer(3),
                        Role::SeqQ => Arg::word(seq_q),
                        Role::SeqKv => Arg::word(seq_kv),
                        Role::NumHeads => Arg::word(num_heads),
                        Role::NumHeadsKv => Arg::word(num_heads_kv),
                        Role::PosPtr => Arg::buffer(4),
                        Role::Scale => Arg::Scalar(scale),
                        Role::KvScale => Arg::Scalar(kv_scale),
                        _ => Arg::Word(0),
                    },
            )
            &&& meaning::covers(l.grid.0, 128, seq_q)
            &&& l.grid.1 == num_heads
            &&& l.grid.2 == batch
            &&& l.block == (256int, 1int, 1int)
            &&& l.shared_mem == 0
            &&& l.opt_in is None
            &&& l.failure is None
            &&& l.tensor_maps.len() == 0
        },
{
    shape::lemma_ceil_div(seq_q, 128);
}

/// What the kernel `flash_attn_bf16_v3_d256_causal` takes, in order.
pub open spec fn flash_attn_bf16_v3_d256_causal_takes() -> Seq<Role> {
    seq![
        Role::Query, Role::Key, Role::Value, Role::Output, Role::SeqQ, Role::SeqKv,
        Role::NumHeads, Role::Zero, Role::Scale,
    ]
}

/// `flash_attn_bf16_v3_d256_causal` launches its kernel exactly where the sizes of the request
/// are right, with every argument what its role asks for, on blocks that cover the result.
pub proof fn flash_attn_bf16_v3_d256_causal_launches(
    q_len: int, k_len: int, v_len: int, o_len: int, batch: int, num_heads: int, seq_q: int,
    seq_kv: int, scale: F32,
)
    requires
        seq_q >= 0,
    ensures
        dense::flash_attn_bf16_v3_d256_causal_plan(
            q_len, k_len, v_len, o_len, batch, num_heads, seq_q, seq_kv, scale,
        ) matches Plan::Fail(f) ==> f is InvalidArgument,
        dense::flash_attn_bf16_v3_d256_causal_plan(
            q_len, k_len, v_len, o_len, batch, num_heads, seq_q, seq_kv, scale,
        ) is Launch <==> {
            &&& batch != 0
            &&& num_heads != 0
            &&& seq_q != 0
            &&& seq_kv != 0
            &&& batch * num_heads * seq_q * 256 <= u64::MAX
            &&& batch * num_heads * seq_kv * 256 <= u64::MAX
            &&& q_len >= batch * num_heads * seq_q * 256
            &&& k_len >= batch * num_heads * seq_kv * 256
            &&& v_len >= batch * num_heads * seq_kv * 256
            &&& o_len >= batch * num_heads * seq_q * 256
        },
        dense::flash_attn_bf16_v3_d256_causal_plan(
            q_len, k_len, v_len, o_len, batch, num_heads, seq_q, seq_kv, scale,
        ) matches Plan::Launch(l) ==> {
            &&& l.entry == "flash_attn_bf16_v3_d256_causal"@
            &&& l.kernel == "fa_bf16_v3_d256_causal"@
            &&& l.args =~= flash_attn_bf16_v3_d256_causal_takes().map_values(
                |r: Role|
                    match r {
                        Role::Query => Arg::buffer(0),
                        Role::Key => Arg::buffer(1),
                        Role::Value => Arg::buffer(2),
                        Role::Output => Arg::buffer(3),
                        Role::SeqQ => Arg::word(seq_q),
                        Role::SeqKv => Arg::word(seq_kv),
                        Role::NumHeads => Arg::word(num_heads),
                        Role::Zero => Arg::word(0),
                        Role::Scale => Arg::Scalar(scale),
                        _ => Arg::Word(0),
                    },
            )
            &&& meaning::covers(l.grid.0, 128, seq_q)
            &&& l.grid.1 == num_heads
            &&& l.grid.2 == batch
            &&& l.block == (256int, 1int, 1int)
            &&& l.shared_mem == 0
            &&& l.opt_in is None
            &&& l.failure is None
            &&& l.tensor_maps.len() == 0
        },
{
    shape::lemma_ceil_div(seq_q, 128);
}

/// What the kernel `flash_attn_bf16_v18_4warp` takes, in order.
pub open spec fn flash_attn_bf16_v18_4warp_takes() -> Seq<Role> {
    seq![
        Role::Query, Role::Key, Role::Value, Role::Output, Role::SeqQ, Role::SeqKv,
        Role::NumHeads, Role::Scale,
    ]
}

/// `flash_attn_bf16_v18_4warp` launches its kernel with every argument what its role asks for, on
/// blocks that cover the result.
pub proof fn flash_attn_bf16_v18_4warp_launches(
    q_len: int, k_len: int, v_len: int, o_len: int, batch: int, num_heads: int, seq_q: int,
    seq_kv: int, scale: F32,
)
    requires
        seq_q >= 0,
    ensures
        dense::flash_attn_bf16_v18_4warp_plan(
            q_len, k_len, v_len, o_len, batch, num_heads, seq_q, seq_kv, scale,
        ) is Launch,
        dense::flash_attn_bf16_v18_4warp_plan(
            q_len, k_len, v_len, o_len, batch, num_heads, seq_q, seq_kv, scale,
        ) matches Plan::Launch(l) ==> {
            &&& l.entry == "flash_attn_bf16_v18_4warp"@
            &&& l.kernel == "fa_bf16_v18_4warp"@
            &&& l.args =~= flash_attn_bf16_v18_4warp_takes().map_values(
                |r: Role|
                    match r {
                        Role::Query => Arg::buffer(0),
                        Role::Key => Arg::buffer(1),
                        Role::Value => Arg::buffer(2),
                        Role::Output => Arg::buffer(3),
                        Role::SeqQ => Arg::word(seq_q),
                        Role::SeqKv => Arg::word(seq_kv),
                        Role::NumHeads => Arg::word(num_heads),
                        Role::Scale => Arg::Scalar(scale),
                        _ => Arg::Word(0),
                    },
            )
            &&& meaning::covers(l.grid.0, 128, seq_q)
            &&& l.grid.1 == num_heads
            &&& l.grid.2 == batch
            &&& l.block == (128int, 1int, 1int)
            &&& l.shared_mem == 0
            &&& l.opt_in is None
            &&& l.failure is None
            &&& l.tensor_maps.len() == 0
        },
{
    shape::lemma_ceil_div(seq_q, 128);
}

/// What the kernel `flash_attn_bf16_v17_bc128` takes, in order.
pub open spec fn flash_attn_bf16_v17_bc128_takes() -> Seq<Role> {
    seq![
        Role::Query, Role::Key, Role::Value, Role::Output, Role::SeqQ, Role::SeqKv,
        Role::NumHeads, Role::Scale,
    ]
}

/// `flash_attn_bf16_v17_bc128` launches its kernel with every argument what its role asks for, on
/// blocks that cover the result.
pub proof fn flash_attn_bf16_v17_bc128_launches(
    q_len: int, k_len: int, v_len: int, o_len: int, batch: int, num_heads: int, seq_q: int,
    seq_kv: int, scale: F32,
)
    requires
        seq_q >= 0,
    ensures
        dense::flash_attn_bf16_v17_bc128_plan(
            q_len, k_len, v_len, o_len, batch, num_heads, seq_q, seq_kv, scale,
        ) is Launch,
        dense::flash_attn_bf16_v17_bc128_plan(
            q_len, k_len, v_len, o_len, batch, num_heads, seq_q, seq_kv, scale,
        ) matches Plan::Launch(l) ==> {
            &&& l.entry == "flash_attn_bf16_v17_bc128"@
            &&& l.kernel == "fa_bf16_v17_bc128"@
            &&& l.args =~= flash_attn_bf16_v17_bc128_takes().map_values(
                |r: Role|
                    match r {
                        Role::Query => Arg::buffer(0),
                        Role::Key => Arg::buffer(1),
                        Role::Value => Arg::buffer(2),
                        Role::Output => Arg::buffer(3),
                        Role::SeqQ => Arg::word(seq_q),
                        Role::SeqKv => Arg::word(seq_kv),
                        Role::NumHeads => Arg::word(num_heads),
                        Role::Scale => Arg::Scalar(scale),
                        _ => Arg::Word(0),
                    },
            )
            &&& meaning::covers(l.grid.0, 128, seq_q)
            &&& l.grid.1 == num_heads
            &&& l.grid.2 == batch
            &&& l.block == (256int, 1int, 1int)
            &&& l.shared_mem == 0
            &&& l.opt_in is None
            &&& l.failure is None
            &&& l.tensor_maps.len() == 0
        },
{
    shape::lemma_ceil_div(seq_q, 128);
}

/// What the kernel `flash_attn_bf16_v3_d128_causal` takes, in order.
pub open spec fn flash_attn_bf16_v3_d128_causal_takes() -> Seq<Role> {
    seq![
        Role::Query, Role::Key, Role::Value, Role::Output, Role::SeqQ, Role::SeqKv,
        Role::NumHeads, Role::Scale,
    ]
}

/// `flash_attn_bf16_v3_d128_causal` launches its kernel exactly where the sizes of the request
/// are right, with every argument what its role asks for, on blocks that cover the result.
pub proof fn flash_attn_bf16_v3_d128_causal_launches(
    q_len: int, k_len: int, v_len: int, o_len: int, batch: int, num_heads: int, seq_q: int,
    seq_kv: int, scale: F32,
)
    requires
        seq_q >= 0,
    ensures
        dense::flash_attn_bf16_v3_d128_causal_plan(
            q_len, k_len, v_len, o_len, batch, num_heads, seq_q, seq_kv, scale,
        ) matches Plan::Fail(f) ==> f is InvalidArgument,
        dense::flash_attn_bf16_v3_d128_causal_plan(
            q_len, k_len, v_len, o_len, batch, num_heads, seq_q, seq_kv, scale,
        ) is Launch <==> {
            &&& batch != 0
            &&& num_heads != 0
            &&& seq_q != 0
            &&& seq_kv != 0
            &&& batch * num_heads * seq_q * 128 <= u64::MAX
            &&& batch * num_heads * seq_kv * 128 <= u64::MAX
            &&& q_len >= batch * num_heads * seq_q * 128
            &&& k_len >= batch * num_heads * seq_kv * 128
            &&& v_len >= batch * num_heads * seq_kv * 128
            &&& o_len >= batch * num_heads * seq_q * 128
        },
        dense::flash_attn_bf16_v3_d128_causal_plan(
            q_len, k_len, v_len, o_len, batch, num_heads, seq_q, seq_kv, scale,
        ) matches Plan::Launch(l) ==> {
            &&& l.entry == "flash_attn_bf16_v3_d128_causal"@
            &&& l.kernel == "fa_bf16_v3_d128_causal"@
            &&& l.args =~= flash_attn_bf16_v3_d128_causal_takes().map_values(
                |r: Role|
                    match r {
                        Role::Query => Arg::buffer(0),
                        Role::Key => Arg::buffer(1),
                        Role::Value => Arg::buffer(2),
                        Role::Output => Arg::buffer(3),
                        Role::SeqQ => Arg::word(seq_q),
                        Role::SeqKv => Arg::word(seq_kv),
                        Role::NumHeads => Arg::word(num_heads),
                        Role::Scale => Arg::Scalar(scale),
                        _ => Arg::Word(0),
                    },
            )
            &&& meaning::covers(l.grid.0, 128, seq_q)
            &&& l.grid.1 == num_heads
            &&& l.grid.2 == batch
            &&& l.block == (256int, 1int, 1int)
            &&& l.shared_mem == 0
            &&& l.opt_in is None
            &&& l.failure is None
            &&& l.tensor_maps.len() == 0
        },
{
    shape::lemma_ceil_div(seq_q, 128);
}

/// What the kernel `flash_attn_fp8_d128` takes, in order.
pub open spec fn flash_attn_fp8_d128_takes() -> Seq<Role> {
    seq![
        Role::Query, Role::Key, Role::Value, Role::Output, Role::SeqQ, Role::SeqKv,
        Role::NumHeads, Role::Scale,
    ]
}

/// `flash_attn_fp8_d128` launches its kernel exactly where the sizes of the request are right,
/// with every argument what its role asks for, on blocks that cover the result.
pub proof fn flash_attn_fp8_d128_launches(
    q_len: int, k_len: int, v_len: int, o_len: int, batch: int, num_heads: int, seq_q: int,
    seq_kv: int, scale: F32,
)
    requires
        seq_q >= 0,
    ensures
        dense::flash_attn_fp8_d128_plan(
            q_len, k_len, v_len, o_len, batch, num_heads, seq_q, seq_kv, scale,
        ) matches Plan::Fail(f) ==> f is InvalidArgument,
        dense::flash_attn_fp8_d128_plan(
            q_len, k_len, v_len, o_len, batch, num_heads, seq_q, seq_kv, scale,
        ) is Launch <==> {
            &&& batch != 0
            &&& num_heads != 0
            &&& seq_q != 0
            &&& seq_kv != 0
            &&& batch * num_heads * seq_q * 128 <= u64::MAX
            &&& batch * num_heads * seq_kv * 128 <= u64::MAX
            &&& q_len >= batch * num_heads * seq_q * 128
            &&& k_len >= batch * num_heads * seq_kv * 128
            &&& v_len >= batch * num_heads * seq_kv * 128
            &&& o_len >= batch * num_heads * seq_q * 128
        },
        dense::flash_attn_fp8_d128_plan(
            q_len, k_len, v_len, o_len, batch, num_heads, seq_q, seq_kv, scale,
        ) matches Plan::Launch(l) ==> {
            &&& l.entry == "flash_attn_fp8_d128"@
            &&& l.kernel == "fa_fp8_d128"@
            &&& l.args =~= flash_attn_fp8_d128_takes().map_values(
                |r: Role|
                    match r {
                        Role::Query => Arg::buffer(0),
                        Role::Key => Arg::buffer(1),
                        Role::Value => Arg::buffer(2),
                        Role::Output => Arg::buffer(3),
                        Role::SeqQ => Arg::word(seq_q),
                        Role::SeqKv => Arg::word(seq_kv),
                        Role::NumHeads => Arg::word(num_heads),
                        Role::Scale => Arg::Scalar(scale),
                        _ => Arg::Word(0),
                    },
            )
            &&& meaning::covers(l.grid.0, 16, seq_q)
            &&& l.grid.1 == num_heads
            &&& l.grid.2 == batch
            &&& l.block == (32int, 1int, 1int)
            &&& l.shared_mem == 0
            &&& l.opt_in is None
            &&& l.failure is None
            &&& l.tensor_maps.len() == 0
        },
{
    shape::lemma_ceil_div(seq_q, 16);
}

/// What the kernel `flash_attn_fp8_d128_causal` takes, in order.
pub open spec fn flash_attn_fp8_d128_causal_takes() -> Seq<Role> {
    seq![
        Role::Query, Role::Key, Role::Value, Role::Output, Role::SeqQ, Role::SeqKv,
        Role::NumHeads, Role::Scale,
    ]
}

/// `flash_attn_fp8_d128_causal` launches its kernel exactly where the sizes of the request are
/// right, with every argument what its role asks for, on blocks that cover the result.
pub proof fn flash_attn_fp8_d128_causal_launches(
    q_len: int, k_len: int, v_len: int, o_len: int, batch: int, num_heads: int, seq_q: int,
    seq_kv: int, scale: F32,
)
    requires
        seq_q >= 0,
    ensures
        dense::flash_attn_fp8_d128_causal_plan(
            q_len, k_len, v_len, o_len, batch, num_heads, seq_q, seq_kv, scale,
        ) matches Plan::Fail(f) ==> f is InvalidArgument,
        dense::flash_attn_fp8_d128_causal_plan(
            q_len, k_len, v_len, o_len, batch, num_heads, seq_q, seq_kv, scale,
        ) is Launch <==> {
            &&& batch != 0
            &&& num_heads != 0
            &&& seq_q != 0
            &&& seq_kv != 0
            &&& batch * num_heads * seq_q * 128 <= u64::MAX
            &&& batch * num_heads * seq_kv * 128 <= u64::MAX
            &&& q_len >= batch * num_heads * seq_q * 128
            &&& k_len >= batch * num_heads * seq_kv * 128
            &&& v_len >= batch * num_heads * seq_kv * 128
            &&& o_len >= batch * num_heads * seq_q * 128
        },
        dense::flash_attn_fp8_d128_causal_plan(
            q_len, k_len, v_len, o_len, batch, num_heads, seq_q, seq_kv, scale,
        ) matches Plan::Launch(l) ==> {
            &&& l.entry == "flash_attn_fp8_d128_causal"@
            &&& l.kernel == "fa_fp8_d128_causal"@
            &&& l.args =~= flash_attn_fp8_d128_causal_takes().map_values(
                |r: Role|
                    match r {
                        Role::Query => Arg::buffer(0),
                        Role::Key => Arg::buffer(1),
                        Role::Value => Arg::buffer(2),
                        Role::Output => Arg::buffer(3),
                        Role::SeqQ => Arg::word(seq_q),
                        Role::SeqKv => Arg::word(seq_kv),
                        Role::NumHeads => Arg::word(num_heads),
                        Role::Scale => Arg::Scalar(scale),
                        _ => Arg::Word(0),
                    },
            )
            &&& meaning::covers(l.grid.0, 16, seq_q)
            &&& l.grid.1 == num_heads
            &&& l.grid.2 == batch
            &&& l.block == (32int, 1int, 1int)
            &&& l.shared_mem == 0
            &&& l.opt_in is None
            &&& l.failure is None
            &&& l.tensor_maps.len() == 0
        },
{
    shape::lemma_ceil_div(seq_q, 16);
}

/// What the kernel `flash_attn_bf16_varlen_d128` takes, in order.
pub open spec fn flash_attn_bf16_varlen_d128_takes() -> Seq<Role> {
    seq![
        Role::Query, Role::Key, Role::Value, Role::Output, Role::CuSeqlensQ, Role::CuSeqlensK,
        Role::NumHeads, Role::MaxSeqlenQ, Role::Scale,
    ]
}

/// `flash_attn_bf16_varlen_d128` launches its kernel exactly where the sizes of the request are
/// right, with every argument what its role asks for, on blocks that cover the result.
pub proof fn flash_attn_bf16_varlen_d128_launches(
    q_len: int, k_len: int, v_len: int, o_len: int, cu_seqlens_q_len: int, cu_seqlens_k_len: int,
    batch: int, num_heads: int, max_seqlen_q: int, scale: F32,
)
    requires
        max_seqlen_q >= 0,
    ensures
        dense::flash_attn_bf16_varlen_d128_plan(
            q_len, k_len, v_len, o_len, cu_seqlens_q_len, cu_seqlens_k_len, batch, num_heads,
            max_seqlen_q, scale,
        ) matches Plan::Fail(f) ==> f is InvalidArgument,
        dense::flash_attn_bf16_varlen_d128_plan(
            q_len, k_len, v_len, o_len, cu_seqlens_q_len, cu_seqlens_k_len, batch, num_heads,
            max_seqlen_q, scale,
        ) is Launch <==> {
            &&& batch != 0
            &&& num_heads != 0
            &&& max_seqlen_q != 0
            &&& batch + 1 <= u32::MAX
            &&& cu_seqlens_q_len >= batch + 1
            &&& cu_seqlens_k_len >= batch + 1
        },
        dense::flash_attn_bf16_varlen_d128_plan(
            q_len, k_len, v_len, o_len, cu_seqlens_q_len, cu_seqlens_k_len, batch, num_heads,
            max_seqlen_q, scale,
        ) matches Plan::Launch(l) ==> {
            &&& l.entry == "flash_attn_bf16_varlen_d128"@
            &&& l.kernel == "fa_bf16_varlen_d128"@
            &&& l.args =~= flash_attn_bf16_varlen_d128_takes().map_values(
                |r: Role|
                    match r {
                        Role::Query => Arg::buffer(0),
                        Role::Key => Arg::buffer(1),
                        Role::Value => Arg::buffer(2),
                        Role::Output => Arg::buffer(3),
                        Role::CuSeqlensQ => Arg::buffer(4),
                        Role::CuSeqlensK => Arg::buffer(5),
                        Role::NumHeads => Arg::word(num_heads),
                        Role::MaxSeqlenQ => Arg::word(max_seqlen_q),
                        Role::Scale => Arg::Scalar(scale),
                        _ => Arg::Word(0),
                    },
            )
            &&& meaning::covers(l.grid.0, 16, max_seqlen_q)
            &&& l.grid.1 == num_heads
            &&& l.grid.2 == batch
            &&& l.block == (32int, 1int, 1int)
            &&& l.shared_mem == 18432
            &&& l.opt_in is None
            &&& l.failure is None
            &&& l.tensor_maps.len() == 0
        },
{
    shape::lemma_ceil_div(max_seqlen_q, 16);
}

/// What the kernel `flash_attn_bf16_d128_causal` takes, in order.
pub open spec fn flash_attn_bf16_d128_causal_takes() -> Seq<Role> {
    seq![
        Role::Query, Role::Key, Role::Value, Role::Output, Role::SeqQ, Role::SeqKv,
        Role::NumHeads, Role::Scale,
    ]
}

/// `flash_attn_bf16_d128_causal` launches its kernel exactly where the sizes of the request are
/// right, with every argument what its role asks for, on blocks that cover the result.
pub proof fn flash_attn_bf16_d128_causal_launches(
    q_len: int, k_len: int, v_len: int, o_len: int, batch: int, num_heads: int, seq_q: int,
    seq_kv: int, scale: F32,
)
    requires
        seq_q >= 0,
    ensures
        dense::flash_attn_bf16_d128_causal_plan(
            q_len, k_len, v_len, o_len, batch, num_heads, seq_q, seq_kv, scale,
        ) matches Plan::Fail(f) ==> f is InvalidArgument,
        dense::flash_attn_bf16_d128_causal_plan(
            q_len, k_len, v_len, o_len, batch, num_heads, seq_q, seq_kv, scale,
        ) is Launch <==> {
            &&& batch != 0
            &&& num_heads != 0
            &&& seq_q != 0
            &&& seq_kv != 0
            &&& batch * num_heads * seq_q * 128 <= u64::MAX
            &&& batch * num_heads * seq_kv * 128 <= u64::MAX
            &&& q_len >= batch * num_heads * seq_q * 128
            &&& k_len >= batch * num_heads * seq_kv * 128
            &&& v_len >= batch * num_heads * seq_kv * 128
            &&& o_len >= batch * num_heads * seq_q * 128
        },
        dense::flash_attn_bf16_d128_causal_plan(
            q_len, k_len, v_len, o_len, batch, num_heads, seq_q, seq_kv, scale,
        ) matches Plan::Launch(l) ==> {
            &&& l.entry == "flash_attn_bf16_d128_causal"@
            &&& l.kernel == "fa_bf16_d128_causal"@
            &&& l.args =~= flash_attn_bf16_d128_causal_takes().map_values(
                |r: Role|
                    match r {
                        Role::Query => Arg::buffer(0),
                        Role::Key => Arg::buffer(1),
                        Role::Value => Arg::buffer(2),
                        Role::Output => Arg::buffer(3),
                        Role::SeqQ => Arg::word(seq_q),
                        Role::SeqKv => Arg::word(seq_kv),
                        Role::NumHeads => Arg::word(num_heads),
                        Role::Scale => Arg::Scalar(scale),
                        _ => Arg::Word(0),
                    },
            )
            &&& meaning::covers(l.grid.0, 16, seq_q)
            &&& l.grid.1 == num_heads
            &&& l.grid.2 == batch
            &&& l.block == (32int, 1int, 1int)
            &&& l.shared_mem == 18432
            &&& l.opt_in is None
            &&& l.failure is None
            &&& l.tensor_maps.len() == 0
        },
{
    shape::lemma_ceil_div(seq_q, 16);
}

} // verus!
