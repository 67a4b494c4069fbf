//! Token embedding lookup kernels.
use crate::error::Result;
use crate::plan::{Arg, Launch, Plan};
use crate::plan;
use crate::shape;
use crate::text::Text;
use crate::text;
use vstd::prelude::*;

verus! {

/// The answer of [`embedding_lookup_bf16`].
pub open spec fn embedding_lookup_bf16_plan(
    token_ids_len: int, embedding_table_len: int, out_len: int, num_tokens: int, vocab_size: int,
    hidden_dim: int,
) -> Plan {
    let need_table = vocab_size * hidden_dim;
    let need_out = num_tokens * hidden_dim;
    if num_tokens == 0 || vocab_size == 0 || hidden_dim == 0 {
        Plan::invalid("num_tokens, vocab_size, hidden_dim must be > 0"@)
    } else if token_ids_len < num_tokens {
        Plan::invalid("token_ids too small"@)
    } else if embedding_table_len < need_table {
        Plan::invalid(
            "embedding_table too small: "@ + text::decimal(embedding_table_len) + " < "@
                + text::decimal(need_table),
        )
    } else if out_len < need_out {
        Plan::invalid(
            "out too small: "@ + text::decimal(out_len) + " < "@ + text::decimal(need_out),
        )
    } else {
        Plan::launch(
            "embedding_lookup_bf16"@,
            "embedding_lookup_bf16"@,
            (num_tokens, 1, 1),
            (256, 1, 1),
            0,
            seq![
                Arg::buffer(0), Arg::buffer(1), Arg::buffer(2), Arg::word(hidden_dim),
                Arg::word(vocab_size),
            ],
        )
    }
}

/// Launch BF16 token embedding lookup kernel.
pub fn embedding_lookup_bf16(
    token_ids_len: usize,
    embedding_table_len: usize,
    out_len: usize,
    num_tokens: u32,
    vocab_size: u32,
    hidden_dim: u32,
) -> (r: Result<Launch>)
    ensures
        plan::outcome(r) == embedding_lookup_bf16_plan(
            token_ids_len as int, embedding_table_len as int, out_len as int, num_tokens as int,
            vocab_size as int, hidden_dim as int,
        ),
        plan::launchable(r, 3),
{
    if num_tokens == 0 || vocab_size == 0 || hidden_dim == 0 {
        return Text::new("num_tokens, vocab_size, hidden_dim must be > 0").refuse();
    }
    if (token_ids_len as u64) < (num_tokens as u64) {
        return Text::new("token_ids too small").refuse();
    }
    let need_table: u64 = shape::product(vocab_size, hidden_dim);
    if (embedding_table_len as u64) < need_table {
        return Text::new("embedding_table too small: ").n(embedding_table_len as u64).s(" < ")
            .n(need_table).refuse();
    }
    let need_out: u64 = shape::product(num_tokens, hidden_dim);
    if (out_len as u64) < need_out {
        return Text::new("out too small: ").n(out_len as u64).s(" < ").n(need_out).refuse();
    }
    Ok(
        Launch::new(
            "embedding_lookup_bf16",
            "embedding_lookup_bf16",
            (num_tokens, 1, 1),
            (256, 1, 1),
            0,
            vec![
                Arg::param(0), Arg::param(1), Arg::param(2), Arg::Word(hidden_dim),
                Arg::Word(vocab_size),
            ],
        ),
    )
}

} // verus!
