//! What the launches of embeddings hand to their kernels.
use crate::embedding;
use crate::launches::role::Role;
use crate::plan::{Arg, Plan};
use vstd::prelude::*;

verus! {

/// What the kernel `embedding_lookup_bf16` takes, in order.
pub open spec fn embedding_lookup_bf16_takes() -> Seq<Role> {
    seq![Role::TokenIds, Role::EmbeddingTable, Role::Out, Role::HiddenDim, Role::VocabSize]
}

/// `embedding_lookup_bf16` launches its kernel exactly where the sizes of the request are right,
/// with every argument what its role asks for, on blocks that cover the result.
pub proof fn embedding_lookup_bf16_launches(
    token_ids_len: int, embedding_table_len: int, out_len: int, num_tokens: int, vocab_size: int,
    hidden_dim: int,
)
    ensures
        embedding::embedding_lookup_bf16_plan(
            token_ids_len, embedding_table_len, out_len, num_tokens, vocab_size, hidden_dim,
        ) matches Plan::Fail(f) ==> f is InvalidArgument,
        embedding::embedding_lookup_bf16_plan(
            token_ids_len, embedding_table_len, out_len, num_tokens, vocab_size, hidden_dim,
        ) !is Undefined,
        embedding::embedding_lookup_bf16_plan(
            token_ids_len, embedding_table_len, out_len, num_tokens, vocab_size, hidden_dim,
        ) is Launch <==> {
            &&& num_tokens != 0
            &&& vocab_size != 0
            &&& hidden_dim != 0
            &&& token_ids_len >= num_tokens
            &&& embedding_table_len >= vocab_size * hidden_dim
            &&& out_len >= num_tokens * hidden_dim
        },
        embedding::embedding_lookup_bf16_plan(
            token_ids_len, embedding_table_len, out_len, num_tokens, vocab_size, hidden_dim,
        ) matches Plan::Launch(l) ==> {
            &&& l.entry == "embedding_lookup_bf16"@
            &&& l.kernel == "embedding_lookup_bf16"@
            &&& l.args =~= embedding_lookup_bf16_takes().map_values(
                |r: Role|
                    match r {
                        Role::TokenIds => Arg::buffer(0),
                        Role::EmbeddingTable => Arg::buffer(1),
                        Role::Out => Arg::buffer(2),
                        Role::HiddenDim => Arg::word(hidden_dim),
                        Role::VocabSize => Arg::word(vocab_size),
                        _ => Arg::Word(0),
                    },
            )
            &&& l.grid.0 == num_tokens
            &&& l.grid.1 == 1
            &&& l.grid.2 == 1
            &&& l.block == (256int, 1int, 1int)
            &&& l.shared_mem == 0
            &&& l.opt_in is None
            &&& l.failure is None
            &&& l.tensor_maps.len() == 0
        },
{
}

} // verus!
