//! What the launches of `attention::gqa` hand to their kernels.
use crate::attention::gqa;
use crate::launches::role::Role;
use crate::meaning;
use crate::plan::{Arg, F32, Plan};
use crate::shape;
use vstd::prelude::*;

verus! {

/// What the kernel `flash_attn_bf16_v3_d256_gqa` takes, in order.
pub open spec fn flash_attn_bf16_v3_d256_gqa_takes() -> Seq<Role> {
    seq![
        Role::Query, Role::Key, Role::Value, Role::Output, Role::SeqQ, Role::SeqKv,
        Role::NumHeads, Role::NumHeadsKv, Role::Scale,
    ]
}

/// `flash_attn_bf16_v3_d256_gqa` launches its kernel exactly where the sizes of the request are
/// right, with every argument what its role asks for, on blocks that cover the result.
pub proof fn flash_attn_bf16_v3_d256_gqa_launches(
    q_len: int, k_len: int, v_len: int, o_len: int, batch: int, num_heads: int, num_heads_kv: int,
    seq_q: int, seq_kv: int, scale: F32,
)
    requires
        seq_q >= 0,
    ensures
        gqa::flash_attn_bf16_v3_d256_gqa_plan(
            q_len, k_len, v_len, o_len, batch, num_heads, num_heads_kv, seq_q, seq_kv, scale,
        ) matches Plan::Fail(f) ==> f is InvalidArgument,
        gqa::flash_attn_bf16_v3_d256_gqa_plan(
            q_len, k_len, v_len, o_len, batch, num_heads, num_heads_kv, seq_q, seq_kv, scale,
        ) is Launch <==> {
            &&& batch != 0
            &&& num_heads != 0
            &&& seq_q != 0
            &&& seq_kv != 0
            &&& num_heads_kv != 0
            &&& num_heads % num_heads_kv == 0
            &&& batch * num_heads * seq_q * 256 <= u64::MAX
            &&& batch * num_heads_kv * seq_kv * 256 <= u64::MAX
            &&& q_len >= batch * num_heads * seq_q * 256
            &&& k_len >= batch * num_heads_kv * seq_kv * 256
            &&& v_len >= batch * num_heads_kv * seq_kv * 256
            &&& o_len >= batch * num_heads * seq_q * 256
        },
        gqa::flash_attn_bf16_v3_d256_gqa_plan(
            q_len, k_len, v_len, o_len, batch, num_heads, num_heads_kv, seq_q, seq_kv, scale,
        ) matches Plan::Launch(l) ==> {
            &&& l.entry == "flash_attn_bf16_v3_d256_gqa"@
            &&& l.kernel == "fa_bf16_v3_d256_gqa"@
            &&& l.args =~= flash_attn_bf16_v3_d256_gqa_takes().map_values(
                |r: Role|
                    match r {
                        Role::Query => Arg::buffer(0),
                        Role::Key => Arg::buffer(1),
                        Role::Value => Arg::buffer(2),
                        Role::Output => Arg::buffer(3),
                        Role::SeqQ => Arg::word(seq_q),
                        Role::SeqKv => Arg::word(seq_kv),
                        Role::NumHeads => Arg::word(num_heads),
                        Role::NumHeadsKv => Arg::word(num_heads_kv),
                        Role::Scale => Arg::Scalar(scale),
                        _ => Arg::Word(0),
                    },
            )
            &&& meaning::covers(l.grid.0, 128, seq_q)
            &&& l.grid.1 == num_heads
            &&& l.grid.2 == batch
            &&& l.block == (256int, 1int, 1int)
            &&& l.shared_mem == 0
            &&& l.opt_in is None
            &&& l.failure is None
            &&& l.tensor_maps.len() == 0
        },
{
    shape::lemma_ceil_div(seq_q, 128);
}

/// What the kernel `flash_attn_bf16_v3_d256_gqa_causal` takes, in order.
pub open spec fn flash_attn_bf16_v3_d256_gqa_causal_takes() -> Seq<Role> {
    seq![
        Role::Query, Role::Key, Role::Value, Role::Output, Role::SeqQ, Role::SeqKv,
        Role::NumHeads, Role::NumHeadsKv, Role::QPosOffset, Role::Scale,
    ]
}

/// `flash_attn_bf16_v3_d256_gqa_causal_with_offset` launches its kernel exactly where the sizes
/// of the request are right, with every argument what its role asks for, on blocks that cover the
/// result.
pub proof fn flash_attn_bf16_v3_d256_gqa_causal_with_offset_launches(
    q_len: int, k_len: int, v_len: int, o_len: int, batch: int, num_heads: int, num_heads_kv: int,
    seq_q: int, seq_kv: int, scale: F32, q_pos_offset: int,
)
    requires
        seq_q >= 0,
    ensures
        gqa::flash_attn_bf16_v3_d256_gqa_causal_with_offset_plan(
            q_len, k_len, v_len, o_len, batch, num_heads, num_heads_kv, seq_q, seq_kv, scale,
            q_pos_offset,
        ) matches Plan::Fail(f) ==> f is InvalidArgument,
        gqa::flash_attn_bf16_v3_d256_gqa_causal_with_offset_plan(
            q_len, k_len, v_len, o_len, batch, num_heads, num_heads_kv, seq_q, seq_kv, scale,
            q_pos_offset,
        ) is Launch <==> {
            &&& batch != 0
            &&& num_heads != 0
            &&& seq_q != 0
            &&& seq_kv != 0
            &&& num_heads_kv != 0
            &&& num_heads % num_heads_kv == 0
            &&& batch * num_heads * seq_q * 256 <= u64::MAX
            &&& batch * num_heads_kv * seq_kv * 256 <= u64::MAX
            &&& q_len >= batch * num_heads * seq_q * 256
            &&& k_len >= batch * num_heads_kv * seq_kv * 256
            &&& v_len >= batch * num_heads_kv * seq_kv * 256
            &&& o_len >= batch * num_heads * seq_q * 256
        },
        gqa::flash_attn_bf16_v3_d256_gqa_causal_with_offset_plan(
            q_len, k_len, v_len, o_len, batch, num_heads, num_heads_kv, seq_q, seq_kv, scale,
            q_pos_offset,
        ) matches Plan::Launch(l) ==> {
            &&& l.entry == "flash_attn_bf16_v3_d256_gqa_causal"@
            &&& l.kernel == "fa_bf16_v3_d256_gqa_causal"@
            &&& l.args =~= flash_attn_bf16_v3_d256_gqa_causal_takes().map_values(
                |r: Role|
                    match r {
                        Role::Query => Arg::buffer(0),
                        Role::Key => Arg::buffer(1),
                        Role::Value => Arg::buffer(2),
                        Role::Output => Arg::buffer(3),
                        Role::SeqQ => Arg::word(seq_q),
                        Role::SeqKv => Arg::word(seq_kv),
                        Role::NumHeads => Arg::word(num_heads),
                        Role::NumHeadsKv => Arg::word(num_heads_kv),
                        Role::QPosOffset => Arg::word(q_pos_offset),
                        Role::Scale => Arg::Scalar(scale),
                        _ => Arg::Word(0),
                    },
            )
            &&& meaning::covers(l.grid.0, 128, seq_q)
            &&& l.grid.1 == num_heads
            &&& l.grid.2 == batch
            &&& l.block == (256int, 1int, 1int)
            &&& l.shared_mem == 0
            &&& l.opt_in is None
            &&& l.failure is None
            &&& l.tensor_maps.len() == 0
        },
{
    shape::lemma_ceil_div(seq_q, 128);
}

/// `flash_attn_bf16_v3_d256_gqa_causal` launches its kernel exactly where the sizes of the
/// request are right, with every argument what its role asks for, on blocks that cover the
/// result.
pub proof fn flash_attn_bf16_v3_d256_gqa_causal_launches(
    q_len: int, k_len: int, v_len: int, o_len: int, batch: int, num_heads: int, num_heads_kv: int,
    seq_q: int, seq_kv: int, scale: F32,
)
    requires
        seq_q >= 0,
    ensures
        gqa::flash_attn_bf16_v3_d256_gqa_causal_plan(
            q_len, k_len, v_len, o_len, batch, num_heads, num_heads_kv, seq_q, seq_kv, scale,
        ) matches Plan::Fail(f) ==> f is InvalidArgument,
        gqa::flash_attn_bf16_v3_d256_gqa_causal_plan(
            q_len, k_len, v_len, o_len, batch, num_heads, num_heads_kv, seq_q, seq_kv, scale,
        ) is Launch <==> {
            &&& batch != 0
            &&& num_heads != 0
            &&& seq_q != 0
            &&& seq_kv != 0
            &&& num_heads_kv != 0
            &&& num_heads % num_heads_kv == 0
            &&& batch * num_heads * seq_q * 256 <= u64::MAX
            &&& batch * num_heads_kv * seq_kv * 256 <= u64::MAX
            &&& q_len >= batch * num_heads * seq_q * 256
            &&& k_len >= batch * num_heads_kv * seq_kv * 256
            &&& v_len >= batch * num_heads_kv * seq_kv * 256
            &&& o_len >= batch * num_heads * seq_q * 256
        },
        gqa::flash_attn_bf16_v3_d256_gqa_causal_plan(
            q_len, k_len, v_len, o_len, batch, num_heads, num_heads_kv, seq_q, seq_kv, scale,
        ) matches Plan::Launch(l) ==> {
            &&& l.entry == "flash_attn_bf16_v3_d256_gqa_causal"@
            &&& l.kernel == "fa_bf16_v3_d256_gqa_causal"@
            &&& l.args =~= flash_attn_bf16_v3_d256_gqa_causal_takes().map_values(
                |r: Role|
                    match r {
                        Role::Query => Arg::buffer(0),
                        Role::Key => Arg::buffer(1),
                        Role::Value => Arg::buffer(2),
                        Role::Output => Arg::buffer(3),
                        Role::SeqQ => Arg::word(seq_q),
                        Role::SeqKv => Arg::word(seq_kv),
                        Role::NumHeads => Arg::word(num_heads),
                        Role::NumHeadsKv => Arg::word(num_heads_kv),
                        Role::QPosOffset => Arg::word(0),
                        Role::Scale => Arg::Scalar(scale),
                        _ => Arg::Word(0),
                    },
            )
            &&& meaning::covers(l.grid.0, 128, seq_q)
            &&& l.grid.1 == num_heads
            &&& l.grid.2 == batch
            &&& l.block == (256int, 1int, 1int)
            &&& l.shared_mem == 0
            &&& l.opt_in is None
            &&& l.failure is None
            &&& l.tensor_maps.len() == 0
        },
{
    shape::lemma_ceil_div(seq_q, 128);
}

} // verus!
