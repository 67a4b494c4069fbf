//! What the launches of `attention::dsa` hand to their kernels.
use crate::attention::dsa;
use crate::launches::role::Role;
use crate::meaning;
use crate::plan::{Arg, Plan};
use crate::shape;
use vstd::prelude::*;

verus! {

/// What the kernel `dsa_indexer_score_bf16` takes, in order.
pub open spec fn dsa_indexer_score_bf16_takes() -> Seq<Role> {
    seq![Role::Query, Role::Key, Role::Weights, Role::Out, Role::SeqQ, Role::SeqKv]
}

/// `dsa_indexer_score_bf16` launches its kernel exactly where the sizes of the request are right,
/// with every argument what its role asks for, on blocks that cover the result.
pub proof fn dsa_indexer_score_bf16_launches(
    q_len: int, k_len: int, weights_len: int, out_len: int, batch: int, seq_q: int, seq_kv: int,
)
    requires
        seq_kv >= 0,
    ensures
        dsa::dsa_indexer_score_bf16_plan(
            q_len, k_len, weights_len, out_len, batch, seq_q, seq_kv,
        ) matches Plan::Fail(f) ==> f is InvalidArgument,
        dsa::dsa_indexer_score_bf16_plan(
            q_len, k_len, weights_len, out_len, batch, seq_q, seq_kv,
        ) is Launch <==> {
            &&& batch != 0
            &&& seq_q != 0
            &&& seq_kv != 0
            &&& batch * seq_q * 32 * 128 <= u32::MAX
            &&& batch * seq_kv * 128 <= u32::MAX
            &&& batch * seq_q * 32 <= u32::MAX
            &&& batch * seq_q <= u32::MAX
            &&& batch * seq_q * seq_kv <= u32::MAX
            &&& q_len >= batch * seq_q * 32 * 128
            &&& k_len >= batch * seq_kv * 128
            &&& weights_len >= batch * seq_q * 32
            &&& out_len >= batch * seq_q * seq_kv
        },
        dsa::dsa_indexer_score_bf16_plan(
            q_len, k_len, weights_len, out_len, batch, seq_q, seq_kv,
        ) matches Plan::Launch(l) ==> {
            &&& l.entry == "dsa_indexer_score_bf16"@
            &&& l.kernel == "dsa_indexer_bf16"@
            &&& l.args =~= dsa_indexer_score_bf16_takes().map_values(
                |r: Role|
                    match r {
                        Role::Query => Arg::buffer(0),
                        Role::Key => Arg::buffer(1),
                        Role::Weights => Arg::buffer(2),
                        Role::Out => Arg::buffer(3),
                        Role::SeqQ => Arg::word(seq_q),
                        Role::SeqKv => Arg::word(seq_kv),
                        _ => Arg::Word(0),
                    },
            )
            &&& l.grid.0 == batch * seq_q
            &&& meaning::covers(l.grid.1, 128, seq_kv)
            &&& l.grid.2 == 1
            &&& l.block == (128int, 1int, 1int)
            &&& l.shared_mem == 8320
            &&& l.opt_in is None
            &&& l.failure is None
            &&& l.tensor_maps.len() == 0
        },
{
    shape::lemma_ceil_div(seq_kv, 128);
}

} // verus!
