//! Checks shared by the attention kernels.
use crate::error::{Fault, Result};
use crate::plan;
use crate::shape;
use crate::text;
use crate::text::Text;
use vstd::prelude::*;

verus! {

/// Head dimension of the general attention kernels.
pub const HEAD_DIM: u32 = 128;

/// Why attention of these dimensions cannot be computed.
pub open spec fn attn_dims_fault(
    batch: int, num_heads: int, seq_q: int, seq_kv: int,
) -> Option<Fault> {
    if batch == 0 {
        Some(Fault::InvalidArgument("batch must be > 0"@))
    } else if num_heads == 0 {
        Some(Fault::InvalidArgument("num_heads must be > 0"@))
    } else if seq_q == 0 {
        Some(Fault::InvalidArgument("seq_q must be > 0"@))
    } else if seq_kv == 0 {
        Some(Fault::InvalidArgument("seq_kv must be > 0"@))
    } else {
        None
    }
}

/// Checks that no dimension of an attention call is zero.
pub fn validate_attn_dims(batch: u32, num_heads: u32, seq_q: u32, seq_kv: u32) -> (r: Result<()>)
    ensures
        plan::verdict(r) == attn_dims_fault(
            batch as int, num_heads as int, seq_q as int, seq_kv as int,
        ),
{
    if batch == 0 {
        return Text::new("batch must be > 0").refuse();
    }
    if num_heads == 0 {
        return Text::new("num_heads must be > 0").refuse();
    }
    if seq_q == 0 {
        return Text::new("seq_q must be > 0").refuse();
    }
    if seq_kv == 0 {
        return Text::new("seq_kv must be > 0").refuse();
    }
    Ok(())
}

/// Elements of a tensor with `seq` rows of [`HEAD_DIM`] per head.
pub open spec fn attn_need(batch: int, num_heads: int, seq: int) -> int {
    batch * num_heads * seq * HEAD_DIM
}

/// Whether the size of the queries or of the keys leaves 64 bits.
pub open spec fn attn_needs_overflow(
    batch: int, num_heads: int, seq_q: int, seq_kv: int,
) -> bool {
    attn_need(batch, num_heads, seq_q) > u64::MAX || attn_need(batch, num_heads, seq_kv) > u64::MAX
}

/// The complaint about a buffer of `len` elements where `need` are needed.
pub open spec fn buffer_fault(name: Seq<char>, len: int, need: int) -> Option<Fault> {
    if len < need {
        Some(
            Fault::InvalidArgument(
                name + " buffer too small: "@ + text::decimal(len) + " < "@ + text::decimal(need),
            ),
        )
    } else {
        None
    }
}

/// Checks the size of one buffer.
pub fn validate_buffer(name: &str, len: usize, need: u64) -> (r: Result<()>)
    ensures
        plan::verdict(r) == buffer_fault(name@, len as int, need as int),
{
    if (len as u64) < need {
        return Text::new(name).s(" buffer too small: ").n(len as u64).s(" < ").n(need).refuse();
    }
    Ok(())
}

/// Why the four tensors of an attention call are too small for its dimensions.
pub open spec fn attn_bf16_bufs_fault(
    q_len: int, k_len: int, v_len: int, o_len: int, batch: int, num_heads: int, seq_q: int,
    seq_kv: int,
) -> Option<Fault> {
    let q_need = attn_need(batch, num_heads, seq_q);
    let kv_need = attn_need(batch, num_heads, seq_kv);
    if q_len < q_need {
        buffer_fault("Q"@, q_len, q_need)
    } else if k_len < kv_need {
        buffer_fault("K"@, k_len, kv_need)
    } else if v_len < kv_need {
        buffer_fault("V"@, v_len, kv_need)
    } else {
        buffer_fault("O"@, o_len, q_need)
    }
}

/// Checks the sizes of the four tensors of an attention call.
pub fn validate_attn_bf16_bufs(
    q_len: usize,
    k_len: usize,
    v_len: usize,
    o_len: usize,
    batch: u32,
    num_heads: u32,
    seq_q: u32,
    seq_kv: u32,
) -> (r: Result<()>)
    requires
        !attn_needs_overflow(batch as int, num_heads as int, seq_q as int, seq_kv as int),
    ensures
        plan::verdict(r) == attn_bf16_bufs_fault(
            q_len as int, k_len as int, v_len as int, o_len as int, batch as int, num_heads as int,
            seq_q as int, seq_kv as int,
        ),
{
    let q_need: u64 = shape::product(batch, num_heads) * (seq_q as u64) * (HEAD_DIM as u64);
    let kv_need: u64 = shape::product(batch, num_heads) * (seq_kv as u64) * (HEAD_DIM as u64);
    if let Err(e) = validate_buffer("Q", q_len, q_need) {
        return Err(e);
    }
    if let Err(e) = validate_buffer("K", k_len, kv_need) {
        return Err(e);
    }
    if let Err(e) = validate_buffer("V", v_len, kv_need) {
        return Err(e);
    }
    validate_buffer("O", o_len, q_need)
}

} // verus!
