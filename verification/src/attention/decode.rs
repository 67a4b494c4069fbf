//! Single-token decoding attention.
use crate::error::Result;
use crate::plan::{Arg, F32, Launch, Plan};
use crate::plan;
use crate::shape;
use crate::text::Text;
use crate::text;
use vstd::prelude::*;

verus! {

/// The answer of [`flash_attn_bf16_decode_d128_gqa`].
pub open spec fn flash_attn_bf16_decode_d128_gqa_plan(
    q_len: int, k_len: int, v_len: int, o_len: int, batch: int, num_heads: int, num_kv_heads: int,
    seq_kv: int, kv_stride: int, scale: F32,
) -> Plan {
    let q_need = batch * num_heads * 128;
    let kv_need = batch * num_kv_heads * kv_stride * 128;
    if batch == 0 || num_heads == 0 || num_kv_heads == 0 || seq_kv == 0 || kv_stride == 0 {
        Plan::invalid("dims must be > 0"@)
    } else if num_heads % num_kv_heads != 0 {
        Plan::invalid(
            "num_kv_heads ("@ + text::decimal(num_kv_heads) + ") must divide num_heads ("@
                + text::decimal(num_heads) + ")"@,
        )
    } else if seq_kv > kv_stride {
        Plan::invalid(
            "seq_kv ("@ + text::decimal(seq_kv) + ") > kv_stride ("@ + text::decimal(kv_stride)
                + ")"@,
        )
    } else if q_need > u64::MAX || kv_need > u64::MAX {
        Plan::Undefined
    } else if q_len < q_need || k_len < kv_need || v_len < kv_need || o_len < q_need {
        Plan::invalid(
            "buffer sizes: q="@ + text::decimal(q_len) + " k="@ + text::decimal(k_len) + " v="@
                + text::decimal(v_len) + " o="@ + text::decimal(o_len) + ", need q/o="@
                + text::decimal(q_need) + " k/v="@ + text::decimal(kv_need),
        )
    } else {
        Plan::launch(
            "fa_bf16_decode_d128_gqa"@,
            "fa_bf16_decode_d128_gqa"@,
            (num_heads, batch, 1),
            (128, 1, 1),
            0,
            seq![
                Arg::buffer(0), Arg::buffer(1), Arg::buffer(2), Arg::buffer(3),
                Arg::word(num_heads), Arg::word(num_kv_heads), Arg::word(seq_kv),
                Arg::word(kv_stride), Arg::Scalar(scale),
            ],
        )
    }
}

/// BF16 GQA flash-attention DECODE kernel for d=128 (Sq=1). The KV cache has `kv_stride`
/// rows per head, of which the first `seq_kv` are read.
pub fn flash_attn_bf16_decode_d128_gqa(
    q_len: usize,
    k_len: usize,
    v_len: usize,
    o_len: usize,
    batch: u32,
    num_heads: u32,
    num_kv_heads: u32,
    seq_kv: u32,
    kv_stride: u32,
    scale: F32,
) -> (r: Result<Launch>)
    requires
        flash_attn_bf16_decode_d128_gqa_plan(
            q_len as int, k_len as int, v_len as int, o_len as int, batch as int, num_heads as int,
            num_kv_heads as int, seq_kv as int, kv_stride as int, scale,
        ) !is Undefined,
    ensures
        plan::outcome(r) == flash_attn_bf16_decode_d128_gqa_plan(
            q_len as int, k_len as int, v_len as int, o_len as int, batch as int, num_heads as int,
            num_kv_heads as int, seq_kv as int, kv_stride as int, scale,
        ),
        plan::launchable(r, 4),
{
    if batch == 0 || num_heads == 0 || num_kv_heads == 0 || seq_kv == 0 || kv_stride == 0 {
        return Text::new("dims must be > 0").refuse();
    }
    if num_heads % num_kv_heads != 0 {
        return Text::new("num_kv_heads (").n(num_kv_heads as u64).s(") must divide num_heads (")
            .n(num_heads as u64).s(")").refuse();
    }
    if seq_kv > kv_stride {
        return Text::new("seq_kv (").n(seq_kv as u64).s(") > kv_stride (").n(kv_stride as u64)
            .s(")").refuse();
    }
    let q_need: u64 = shape::product(batch, num_heads) * 128;
    let kv_need: u64 = shape::product(batch, num_kv_heads) * (kv_stride as u64) * 128;
    if (q_len as u64) < q_need
        || (k_len as u64) < kv_need
        || (v_len as u64) < kv_need
        || (o_len as u64) < q_need
    {
        return Text::new("buffer sizes: q=").n(q_len as u64).s(" k=").n(k_len as u64).s(" v=")
            .n(v_len as u64).s(" o=").n(o_len as u64).s(", need q/o=").n(q_need).s(" k/v=")
            .n(kv_need).refuse();
    }
    Ok(
        Launch::new(
            "fa_bf16_decode_d128_gqa",
            "fa_bf16_decode_d128_gqa",
            (num_heads, batch, 1),
            (128, 1, 1),
            0,
            vec![
                Arg::param(0), Arg::param(1), Arg::param(2), Arg::param(3), Arg::Word(num_heads),
                Arg::Word(num_kv_heads), Arg::Word(seq_kv), Arg::Word(kv_stride),
                Arg::Scalar(scale),
            ],
        ),
    )
}

/// The answer of [`flash_attn_bf16_decode_d192_dv128_gqa`].
pub open spec fn flash_attn_bf16_decode_d192_dv128_gqa_plan(
    q_len: int, k_len: int, v_len: int, o_len: int, batch: int, num_heads: int, num_kv_heads: int,
    seq_kv: int, kv_stride: int, scale: F32,
) -> Plan {
    let q_need = batch * num_heads * 192;
    let o_need = batch * num_heads * 128;
    let k_need = batch * num_kv_heads * kv_stride * 192;
    let v_need = batch * num_kv_heads * kv_stride * 128;
    if batch == 0 || num_heads == 0 || num_kv_heads == 0 || seq_kv == 0 || kv_stride == 0 {
        Plan::invalid("dims must be > 0"@)
    } else if num_heads % num_kv_heads != 0 {
        Plan::invalid(
            "num_kv_heads ("@ + text::decimal(num_kv_heads) + ") must divide num_heads ("@
                + text::decimal(num_heads) + ")"@,
        )
    } else if seq_kv > kv_stride {
        Plan::invalid(
            "seq_kv ("@ + text::decimal(seq_kv) + ") > kv_stride ("@ + text::decimal(kv_stride)
                + ")"@,
        )
    } else if q_need > u64::MAX || o_need > u64::MAX || k_need > u64::MAX || v_need > u64::MAX {
        Plan::Undefined
    } else if q_len < q_need || k_len < k_need || v_len < v_need || o_len < o_need {
        Plan::invalid(
            "buffer sizes: q="@ + text::decimal(q_len) + " k="@ + text::decimal(k_len) + " v="@
                + text::decimal(v_len) + " o="@ + text::decimal(o_len) + ", need q="@
                + text::decimal(q_need) + " k="@ + text::decimal(k_need) + " v="@
                + text::decimal(v_need) + " o="@ + text::decimal(o_need),
        )
    } else {
        Plan::launch(
            "fa_bf16_decode_d192_dv128_gqa"@,
            "fa_bf16_decode_d192_dv128_gqa"@,
            (num_heads, batch, 1),
            (192, 1, 1),
            0,
            seq![
                Arg::buffer(0), Arg::buffer(1), Arg::buffer(2), Arg::buffer(3),
                Arg::word(num_heads), Arg::word(num_kv_heads), Arg::word(seq_kv),
                Arg::word(kv_stride), Arg::Scalar(scale),
            ],
        )
    }
}

/// BF16 GQA flash-attention DECODE for asymmetric K/V dims: d_qk=192, d_v=128.
/// Used by DeepSeek V3-style attention where K is `concat(k_nope, k_rope)` (128+64=192)
/// and V keeps its own 128-dim head.
pub fn flash_attn_bf16_decode_d192_dv128_gqa(
    q_len: usize,
    k_len: usize,
    v_len: usize,
    o_len: usize,
    batch: u32,
    num_heads: u32,
    num_kv_heads: u32,
    seq_kv: u32,
    kv_stride: u32,
    scale: F32,
) -> (r: Result<Launch>)
    requires
        flash_attn_bf16_decode_d192_dv128_gqa_plan(
            q_len as int, k_len as int, v_len as int, o_len as int, batch as int, num_heads as int,
            num_kv_heads as int, seq_kv as int, kv_stride as int, scale,
        ) !is Undefined,
    ensures
        plan::outcome(r) == flash_attn_bf16_decode_d192_dv128_gqa_plan(
            q_len as int, k_len as int, v_len as int, o_len as int, batch as int, num_heads as int,
            num_kv_heads as int, seq_kv as int, kv_stride as int, scale,
        ),
        plan::launchable(r, 4),
{
    if batch == 0 || num_heads == 0 || num_kv_heads == 0 || seq_kv == 0 || kv_stride == 0 {
        return Text::new("dims must be > 0").refuse();
    }
    if num_heads % num_kv_heads != 0 {
        return Text::new("num_kv_heads (").n(num_kv_heads as u64).s(") must divide num_heads (")
            .n(num_heads as u64).s(")").refuse();
    }
    if seq_kv > kv_stride {
        return Text::new("seq_kv (").n(seq_kv as u64).s(") > kv_stride (").n(kv_stride as u64)
            .s(")").refuse();
    }
    let q_need: u64 = shape::product(batch, num_heads) * 192;
    let o_need: u64 = shape::product(batch, num_heads) * 128;
    let k_need: u64 = shape::product(batch, num_kv_heads) * (kv_stride as u64) * 192;
    let v_need: u64 = shape::product(batch, num_kv_heads) * (kv_stride as u64) * 128;
    if (q_len as u64) < q_need
        || (k_len as u64) < k_need
        || (v_len as u64) < v_need
        || (o_len as u64) < o_need
    {
        return Text::new("buffer sizes: q=").n(q_len as u64).s(" k=").n(k_len as u64).s(" v=")
            .n(v_len as u64).s(" o=").n(o_len as u64).s(", need q=").n(q_need).s(" k=").n(k_need)
            .s(" v=").n(v_need).s(" o=").n(o_need).refuse();
    }
    Ok(
        Launch::new(
            "fa_bf16_decode_d192_dv128_gqa",
            "fa_bf16_decode_d192_dv128_gqa",
            (num_heads, batch, 1),
            (192, 1, 1),
            0,
            vec![
                Arg::param(0), Arg::param(1), Arg::param(2), Arg::param(3), Arg::Word(num_heads),
                Arg::Word(num_kv_heads), Arg::Word(seq_kv), Arg::Word(kv_stride),
                Arg::Scalar(scale),
            ],
        ),
    )
}

/// The answer of [`fa_bf16_fp8kv_decode_d128_gqa`].
pub open spec fn fa_bf16_fp8kv_decode_d128_gqa_plan(
    q_len: int, k_len: int, v_len: int, o_len: int, batch: int, num_q_heads: int, num_kv_heads: int,
    seq_kv: int, kv_stride: int, scale: F32, kv_scale: F32,
) -> Plan {
    let need_qo = batch * num_q_heads * 128;
    let need_kv = batch * num_kv_heads * kv_stride * 128;
    if batch == 0 || num_q_heads == 0 || num_kv_heads == 0 || seq_kv == 0 || kv_stride == 0 {
        Plan::invalid("dims must be > 0"@)
    } else if num_q_heads % num_kv_heads != 0 {
        Plan::invalid(
            "num_q_heads ("@ + text::decimal(num_q_heads)
                + ") must be multiple of num_kv_heads ("@ + text::decimal(num_kv_heads) + ")"@,
        )
    } else if seq_kv > kv_stride {
        Plan::invalid(
            "seq_kv ("@ + text::decimal(seq_kv) + ") > kv_stride ("@ + text::decimal(kv_stride)
                + ")"@,
        )
    } else if need_qo > u32::MAX {
        Plan::Undefined
    } else if q_len < need_qo || o_len < need_qo {
        Plan::invalid("q/o buffer too small"@)
    } else if batch * num_kv_heads > u32::MAX || need_kv > u32::MAX {
        Plan::Undefined
    } else if k_len < need_kv || v_len < need_kv {
        Plan::invalid("k/v buffer too small"@)
    } else {
        Plan::launch(
            "fa_bf16_fp8kv_decode_d128_gqa"@,
            "fa_bf16_fp8kv_decode_d128_gqa"@,
            (num_q_heads, batch, 1),
            (128, 1, 1),
            0,
            seq![
                Arg::buffer(0), Arg::buffer(1), Arg::buffer(2), Arg::buffer(3),
                Arg::word(num_q_heads), Arg::word(num_kv_heads), Arg::word(seq_kv),
                Arg::word(kv_stride), Arg::Scalar(scale), Arg::Scalar(kv_scale),
            ],
        )
    }
}

/// GQA variant of `fa_bf16_fp8kv_decode_d128`. Multiple query heads share each
/// KV head (`num_q_heads % num_kv_heads == 0`). Maps:
/// `kv_head = q_head / (num_q_heads / num_kv_heads)`
pub fn fa_bf16_fp8kv_decode_d128_gqa(
    q_len: usize,
    k_len: usize,
    v_len: usize,
    o_len: usize,
    batch: u32,
    num_q_heads: u32,
    num_kv_heads: u32,
    seq_kv: u32,
    kv_stride: u32,
    scale: F32,
    kv_scale: F32,
) -> (r: Result<Launch>)
    requires
        fa_bf16_fp8kv_decode_d128_gqa_plan(
            q_len as int, k_len as int, v_len as int, o_len as int, batch as int,
            num_q_heads as int, num_kv_heads as int, seq_kv as int, kv_stride as int, scale,
            kv_scale,
        ) !is Undefined,
    ensures
        plan::outcome(r) == fa_bf16_fp8kv_decode_d128_gqa_plan(
            q_len as int, k_len as int, v_len as int, o_len as int, batch as int,
            num_q_heads as int, num_kv_heads as int, seq_kv as int, kv_stride as int, scale,
            kv_scale,
        ),
        plan::launchable(r, 4),
{
    if batch == 0 || num_q_heads == 0 || num_kv_heads == 0 || seq_kv == 0 || kv_stride == 0 {
        return Text::new("dims must be > 0").refuse();
    }
    if num_q_heads % num_kv_heads != 0 {
        return Text::new("num_q_heads (").n(num_q_heads as u64)
            .s(") must be multiple of num_kv_heads (").n(num_kv_heads as u64).s(")").refuse();
    }
    if seq_kv > kv_stride {
        return Text::new("seq_kv (").n(seq_kv as u64).s(") > kv_stride (").n(kv_stride as u64)
            .s(")").refuse();
    }
    let need_qo: u64 = (batch * num_q_heads * 128) as u64;
    if (q_len as u64) < need_qo || (o_len as u64) < need_qo {
        return Text::new("q/o buffer too small").refuse();
    }
    let need_kv: u64 = (batch * num_kv_heads * kv_stride * 128) as u64;
    if (k_len as u64) < need_kv || (v_len as u64) < need_kv {
        return Text::new("k/v buffer too small").refuse();
    }
    Ok(
        Launch::new(
            "fa_bf16_fp8kv_decode_d128_gqa",
            "fa_bf16_fp8kv_decode_d128_gqa",
            (num_q_heads, batch, 1),
            (128, 1, 1),
            0,
            vec![
                Arg::param(0), Arg::param(1), Arg::param(2), Arg::param(3), Arg::Word(num_q_heads),
                Arg::Word(num_kv_heads), Arg::Word(seq_kv), Arg::Word(kv_stride),
                Arg::Scalar(scale), Arg::Scalar(kv_scale),
            ],
        ),
    )
}

/// The answer of [`flash_attn_bf16_fp8kv_decode_d256_gqa_pos_dev`].
pub open spec fn flash_attn_bf16_fp8kv_decode_d256_gqa_pos_dev_plan(
    q_len: int, k_len: int, v_len: int, o_len: int, batch: int, num_q_heads: int, num_kv_heads: int,
    kv_stride: int, pos_ptr_len: int, sliding_window: int, scale: F32, kv_scale: F32,
) -> Plan {
    let q_need = batch * num_q_heads * 256;
    let kv_need = batch * num_kv_heads * kv_stride * 256;
    if batch == 0 || num_q_heads == 0 || num_kv_heads == 0 || kv_stride == 0 {
        Plan::invalid("dims must be > 0"@)
    } else if num_q_heads % num_kv_heads != 0 {
        Plan::invalid(
            "num_q_heads ("@ + text::decimal(num_q_heads)
                + ") must be multiple of num_kv_heads ("@ + text::decimal(num_kv_heads) + ")"@,
        )
    } else if shape::low_word(pos_ptr_len) < batch {
        Plan::invalid(
            "pos_ptr too small: "@ + text::decimal(pos_ptr_len) + " < batch "@
                + text::decimal(batch),
        )
    } else if q_need > u64::MAX || kv_need > u64::MAX {
        Plan::Undefined
    } else if q_len < q_need || o_len < q_need {
        Plan::invalid("q/o buffer too small"@)
    } else if k_len < kv_need || v_len < kv_need {
        Plan::invalid("k/v buffer too small"@)
    } else {
        Plan::launch(
            "fa_bf16_fp8kv_decode_d256_gqa_pos_dev"@,
            "fa_bf16_fp8kv_decode_d256_gqa_pos_dev"@,
            (num_q_heads, batch, 1),
            (256, 1, 1),
            0,
            seq![
                Arg::buffer(0), Arg::buffer(1), Arg::buffer(2), Arg::buffer(3),
                Arg::word(num_q_heads), Arg::word(num_kv_heads), Arg::word(kv_stride),
                Arg::buffer(4), Arg::word(sliding_window), Arg::Scalar(scale),
                Arg::Scalar(kv_scale),
            ],
        )
    }
}

/// d=256 GQA flash attention DECODE with FP8 e4m3 KV cache + per-tensor
/// `kv_scale` + sliding window + position from device pointer.
pub fn flash_attn_bf16_fp8kv_decode_d256_gqa_pos_dev(
    q_len: usize,
    k_len: usize,
    v_len: usize,
    o_len: usize,
    batch: u32,
    num_q_heads: u32,
    num_kv_heads: u32,
    kv_stride: u32,
    pos_ptr_len: usize,
    sliding_window: u32,
    scale: F32,
    kv_scale: F32,
) -> (r: Result<Launch>)
    requires
        flash_attn_bf16_fp8kv_decode_d256_gqa_pos_dev_plan(
            q_len as int, k_len as int, v_len as int, o_len as int, batch as int,
            num_q_heads as int, num_kv_heads as int, kv_stride as int, pos_ptr_len as int,
            sliding_window as int, scale, kv_scale,
        ) !is Undefined,
    ensures
        plan::outcome(r) == flash_attn_bf16_fp8kv_decode_d256_gqa_pos_dev_plan(
            q_len as int, k_len as int, v_len as int, o_len as int, batch as int,
            num_q_heads as int, num_kv_heads as int, kv_stride as int, pos_ptr_len as int,
            sliding_window as int, scale, kv_scale,
        ),
        plan::launchable(r, 5),
{
    if batch == 0 || num_q_heads == 0 || num_kv_heads == 0 || kv_stride == 0 {
        return Text::new("dims must be > 0").refuse();
    }
    if num_q_heads % num_kv_heads != 0 {
        return Text::new("num_q_heads (").n(num_q_heads as u64)
            .s(") must be multiple of num_kv_heads (").n(num_kv_heads as u64).s(")").refuse();
    }
    if shape::truncate(pos_ptr_len as u64) < batch {
        return Text::new("pos_ptr too small: ").n(pos_ptr_len as u64).s(" < batch ").n(batch as u64)
            .refuse();
    }
    let q_need: u64 = shape::product(batch, num_q_heads) * 256;
    let kv_need: u64 = shape::product(batch, num_kv_heads) * (kv_stride as u64) * 256;
    if (q_len as u64) < q_need || (o_len as u64) < q_need {
        return Text::new("q/o buffer too small").refuse();
    }
    if (k_len as u64) < kv_need || (v_len as u64) < kv_need {
        return Text::new("k/v buffer too small").refuse();
    }
    Ok(
        Launch::new(
            "fa_bf16_fp8kv_decode_d256_gqa_pos_dev",
            "fa_bf16_fp8kv_decode_d256_gqa_pos_dev",
            (num_q_heads, batch, 1),
            (256, 1, 1),
            0,
            vec![
                Arg::param(0), Arg::param(1), Arg::param(2), Arg::param(3), Arg::Word(num_q_heads),
                Arg::Word(num_kv_heads), Arg::Word(kv_stride), Arg::param(4),
                Arg::Word(sliding_window), Arg::Scalar(scale), Arg::Scalar(kv_scale),
            ],
        ),
    )
}

/// The answer of [`flash_attn_bf16_fp8kv_decode_d512_gqa_pos_dev`].
pub open spec fn flash_attn_bf16_fp8kv_decode_d512_gqa_pos_dev_plan(
    q_len: int, k_len: int, v_len: int, o_len: int, batch: int, num_q_heads: int, num_kv_heads: int,
    kv_stride: int, pos_ptr_len: int, scale: F32, kv_scale: F32,
) -> Plan {
    let q_need = batch * num_q_heads * 512;
    let kv_need = batch * num_kv_heads * kv_stride * 512;
    if batch == 0 || num_q_heads == 0 || num_kv_heads == 0 || kv_stride == 0 {
        Plan::invalid("dims must be > 0"@)
    } else if num_q_heads % num_kv_heads != 0 {
        Plan::invalid(
            "num_q_heads ("@ + text::decimal(num_q_heads)
                + ") must be multiple of num_kv_heads ("@ + text::decimal(num_kv_heads) + ")"@,
        )
    } else if shape::low_word(pos_ptr_len) < batch {
        Plan::invalid(
            "pos_ptr too small: "@ + text::decimal(pos_ptr_len) + " < batch "@
                + text::decimal(batch),
        )
    } else if q_need > u64::MAX || kv_need > u64::MAX {
        Plan::Undefined
    } else if q_len < q_need || o_len < q_need {
        Plan::invalid("q/o buffer too small"@)
    } else if k_len < kv_need || v_len < kv_need {
        Plan::invalid("k/v buffer too small"@)
    } else {
        Plan::launch(
            "fa_bf16_fp8kv_decode_d512_gqa_pos_dev"@,
            "fa_bf16_fp8kv_decode_d512_gqa_pos_dev"@,
            (num_q_heads, batch, 1),
            (512, 1, 1),
            0,
            seq![
                Arg::buffer(0), Arg::buffer(1), Arg::buffer(2), Arg::buffer(3),
                Arg::word(num_q_heads), Arg::word(num_kv_heads), Arg::word(kv_stride),
                Arg::buffer(4), Arg::Scalar(scale), Arg::Scalar(kv_scale),
            ],
        )
    }
}

/// d=512 GQA flash attention DECODE with FP8 e4m3 KV cache + per-tensor
/// `kv_scale` + position from device pointer. **Full attention** (no
/// sliding window) — designed for Gemma-4 full-attention layers.
pub fn flash_attn_bf16_fp8kv_decode_d512_gqa_pos_dev(
    q_len: usize,
    k_len: usize,
    v_len: usize,
    o_len: usize,
    batch: u32,
    num_q_heads: u32,
    num_kv_heads: u32,
    kv_stride: u32,
    pos_ptr_len: usize,
    scale: F32,
    kv_scale: F32,
) -> (r: Result<Launch>)
    requires
        flash_attn_bf16_fp8kv_decode_d512_gqa_pos_dev_plan(
            q_len as int, k_len as int, v_len as int, o_len as int, batch as int,
            num_q_heads as int, num_kv_heads as int, kv_stride as int, pos_ptr_len as int, scale,
            kv_scale,
        ) !is Undefined,
    ensures
        plan::outcome(r) == flash_attn_bf16_fp8kv_decode_d512_gqa_pos_dev_plan(
            q_len as int, k_len as int, v_len as int, o_len as int, batch as int,
            num_q_heads as int, num_kv_heads as int, kv_stride as int, pos_ptr_len as int, scale,
            kv_scale,
        ),
        plan::launchable(r, 5),
{
    if batch == 0 || num_q_heads == 0 || num_kv_heads == 0 || kv_stride == 0 {
        return Text::new("dims must be > 0").refuse();
    }
    if num_q_heads % num_kv_heads != 0 {
        return Text::new("num_q_heads (").n(num_q_heads as u64)
            .s(") must be multiple of num_kv_heads (").n(num_kv_heads as u64).s(")").refuse();
    }
    if shape::truncate(pos_ptr_len as u64) < batch {
        return Text::new("pos_ptr too small: ").n(pos_ptr_len as u64).s(" < batch ").n(batch as u64)
            .refuse();
    }
    let q_need: u64 = shape::product(batch, num_q_heads) * 512;
    let kv_need: u64 = shape::product(batch, num_kv_heads) * (kv_stride as u64) * 512;
    if (q_len as u64) < q_need || (o_len as u64) < q_need {
        return Text::new("q/o buffer too small").refuse();
    }
    if (k_len as u64) < kv_need || (v_len as u64) < kv_need {
        return Text::new("k/v buffer too small").refuse();
    }
    Ok(
        Launch::new(
            "fa_bf16_fp8kv_decode_d512_gqa_pos_dev",
            "fa_bf16_fp8kv_decode_d512_gqa_pos_dev",
            (num_q_heads, batch, 1),
            (512, 1, 1),
            0,
            vec![
                Arg::param(0), Arg::param(1), Arg::param(2), Arg::param(3), Arg::Word(num_q_heads),
                Arg::Word(num_kv_heads), Arg::Word(kv_stride), Arg::param(4), Arg::Scalar(scale),
                Arg::Scalar(kv_scale),
            ],
        ),
    )
}

/// The answer of [`fa_bf16_fp8kv_decode_d128_causal`].
pub open spec fn fa_bf16_fp8kv_decode_d128_causal_plan(
    q_len: int, k_len: int, v_len: int, o_len: int, q_pos_len: int, batch: int, num_heads: int,
    seq_kv: int, scale: F32, kv_scale: F32,
) -> Plan {
    let need_qo = batch * num_heads * 128;
    let need_kv = batch * num_heads * seq_kv * 128;
    if batch == 0 || num_heads == 0 || seq_kv == 0 {
        Plan::invalid("dims must be > 0"@)
    } else if q_pos_len < batch {
        Plan::invalid("q_pos too small"@)
    } else if need_qo > u32::MAX {
        Plan::Undefined
    } else if q_len < need_qo || o_len < need_qo {
        Plan::invalid("q/o buffer too small"@)
    } else if batch * num_heads > u32::MAX || need_kv > u32::MAX {
        Plan::Undefined
    } else if k_len < need_kv || v_len < need_kv {
        Plan::invalid("k/v buffer too small"@)
    } else {
        Plan::launch(
            "fa_bf16_fp8kv_decode_d128_causal"@,
            "fa_bf16_fp8kv_decode_d128_causal"@,
            (num_heads, batch, 1),
            (128, 1, 1),
            0,
            seq![
                Arg::buffer(0), Arg::buffer(1), Arg::buffer(2), Arg::buffer(3), Arg::buffer(4),
                Arg::word(num_heads), Arg::word(seq_kv), Arg::Scalar(scale), Arg::Scalar(kv_scale),
            ],
        )
    }
}

/// Causal variant of `fa_bf16_fp8kv_decode_d128`. Per-batch `q_pos` clamps the
/// KV loop bound so each batch position only attends to KV positions
/// `[0, q_pos[batch]]` inclusive. Same scalar compute pattern.
pub fn fa_bf16_fp8kv_decode_d128_causal(
    q_len: usize,
    k_len: usize,
    v_len: usize,
    o_len: usize,
    q_pos_len: usize,
    batch: u32,
    num_heads: u32,
    seq_kv: u32,
    scale: F32,
    kv_scale: F32,
) -> (r: Result<Launch>)
    requires
        fa_bf16_fp8kv_decode_d128_causal_plan(
            q_len as int, k_len as int, v_len as int, o_len as int, q_pos_len as int, batch as int,
            num_heads as int, seq_kv as int, scale, kv_scale,
        ) !is Undefined,
    ensures
        plan::outcome(r) == fa_bf16_fp8kv_decode_d128_causal_plan(
            q_len as int, k_len as int, v_len as int, o_len as int, q_pos_len as int, batch as int,
            num_heads as int, seq_kv as int, scale, kv_scale,
        ),
        plan::launchable(r, 5),
{
    if batch == 0 || num_heads == 0 || seq_kv == 0 {
        return Text::new("dims must be > 0").refuse();
    }
    if (q_pos_len as u64) < (batch as u64) {
        return Text::new("q_pos too small").refuse();
    }
    let need_qo: u64 = (batch * num_heads * 128) as u64;
    if (q_len as u64) < need_qo || (o_len as u64) < need_qo {
        return Text::new("q/o buffer too small").refuse();
    }
    let need_kv: u64 = (batch * num_heads * seq_kv * 128) as u64;
    if (k_len as u64) < need_kv || (v_len as u64) < need_kv {
        return Text::new("k/v buffer too small").refuse();
    }
    Ok(
        Launch::new(
            "fa_bf16_fp8kv_decode_d128_causal",
            "fa_bf16_fp8kv_decode_d128_causal",
            (num_heads, batch, 1),
            (128, 1, 1),
            0,
            vec![
                Arg::param(0), Arg::param(1), Arg::param(2), Arg::param(3), Arg::param(4),
                Arg::Word(num_heads), Arg::Word(seq_kv), Arg::Scalar(scale), Arg::Scalar(kv_scale),
            ],
        ),
    )
}

/// The answer of [`fp8_mma_qk_microkernel`].
pub open spec fn fp8_mma_qk_microkernel_plan(
    q_len: int, k_len: int, qk_out_len: int, scale: F32,
) -> Plan {
    if q_len < 16 * 512 || k_len < 8 * 512 || qk_out_len < 16 * 8 {
        Plan::invalid("buffer sizes wrong"@)
    } else {
        Plan::launch(
            "fp8_mma_qk_microkernel"@,
            "fp8_mma_qk_microkernel"@,
            (1, 1, 1),
            (32, 1, 1),
            0,
            seq![Arg::buffer(0), Arg::buffer(1), Arg::buffer(2), Arg::Scalar(scale)],
        )
    }
}

/// FP8 MMA m16n8k32 microkernel for attention QK validation.
/// Computes QK = scale * (Q @ K^T) where Q is [16, 512] FP8 and K is [8, 512] FP8.
/// Output [16, 8] FP32. Validates the FP8 MMA pattern in attention shape before
/// integrating into the full MLA decode kernel.
pub fn fp8_mma_qk_microkernel(
    q_len: usize,
    k_len: usize,
    qk_out_len: usize,
    scale: F32,
) -> (r: Result<Launch>)
    ensures
        plan::outcome(r) == fp8_mma_qk_microkernel_plan(
            q_len as int, k_len as int, qk_out_len as int, scale,
        ),
        plan::launchable(r, 3),
{
    if (q_len as u64) < 16 * 512 || (k_len as u64) < 8 * 512 || (qk_out_len as u64) < 16 * 8 {
        return Text::new("buffer sizes wrong").refuse();
    }
    Ok(
        Launch::new(
            "fp8_mma_qk_microkernel",
            "fp8_mma_qk_microkernel",
            (1, 1, 1),
            (32, 1, 1),
            0,
            vec![Arg::param(0), Arg::param(1), Arg::param(2), Arg::Scalar(scale)],
        ),
    )
}

/// The answer of [`fa_bf16_fp8kv_decode_d128`].
pub open spec fn fa_bf16_fp8kv_decode_d128_plan(
    q_len: int, k_len: int, v_len: int, o_len: int, batch: int, num_heads: int, seq_kv: int,
    scale: F32, kv_scale: F32,
) -> Plan {
    let need_qo = batch * num_heads * 128;
    let need_kv = batch * num_heads * seq_kv * 128;
    if batch == 0 || num_heads == 0 || seq_kv == 0 {
        Plan::invalid("dims must be > 0"@)
    } else if need_qo > u32::MAX {
        Plan::Undefined
    } else if q_len < need_qo || o_len < need_qo {
        Plan::invalid("q/o buffer too small"@)
    } else if batch * num_heads > u32::MAX || need_kv > u32::MAX {
        Plan::Undefined
    } else if k_len < need_kv || v_len < need_kv {
        Plan::invalid("k/v buffer too small"@)
    } else {
        Plan::launch(
            "fa_bf16_fp8kv_decode_d128"@,
            "fa_bf16_fp8kv_decode_d128"@,
            (num_heads, batch, 1),
            (128, 1, 1),
            0,
            seq![
                Arg::buffer(0), Arg::buffer(1), Arg::buffer(2), Arg::buffer(3),
                Arg::word(num_heads), Arg::word(seq_kv), Arg::Scalar(scale), Arg::Scalar(kv_scale),
            ],
        )
    }
}

/// Standard MHA decode (Sq=1) with BF16 Q/O and FP8 E4M3 KV cache.
/// Per-tensor `kv_scale` dequantizes K and V at SMEM staging. D fixed at 128.
pub fn fa_bf16_fp8kv_decode_d128(
    q_len: usize,
    k_len: usize,
    v_len: usize,
    o_len: usize,
    batch: u32,
    num_heads: u32,
    seq_kv: u32,
    scale: F32,
    kv_scale: F32,
) -> (r: Result<Launch>)
    requires
        fa_bf16_fp8kv_decode_d128_plan(
            q_len as int, k_len as int, v_len as int, o_len as int, batch as int, num_heads as int,
            seq_kv as int, scale, kv_scale,
        ) !is Undefined,
    ensures
        plan::outcome(r) == fa_bf16_fp8kv_decode_d128_plan(
            q_len as int, k_len as int, v_len as int, o_len as int, batch as int, num_heads as int,
            seq_kv as int, scale, kv_scale,
        ),
        plan::launchable(r, 4),
{
    if batch == 0 || num_heads == 0 || seq_kv == 0 {
        return Text::new("dims must be > 0").refuse();
    }
    let need_qo: u64 = (batch * num_heads * 128) as u64;
    if (q_len as u64) < need_qo || (o_len as u64) < need_qo {
        return Text::new("q/o buffer too small").refuse();
    }
    let need_kv: u64 = (batch * num_heads * seq_kv * 128) as u64;
    if (k_len as u64) < need_kv || (v_len as u64) < need_kv {
        return Text::new("k/v buffer too small").refuse();
    }
    Ok(
        Launch::new(
            "fa_bf16_fp8kv_decode_d128",
            "fa_bf16_fp8kv_decode_d128",
            (num_heads, batch, 1),
            (128, 1, 1),
            0,
            vec![
                Arg::param(0), Arg::param(1), Arg::param(2), Arg::param(3), Arg::Word(num_heads),
                Arg::Word(seq_kv), Arg::Scalar(scale), Arg::Scalar(kv_scale),
            ],
        ),
    )
}

/// The answer of [`flash_attn_bf16_decode_d256_gqa`].
pub open spec fn flash_attn_bf16_decode_d256_gqa_plan(
    q_len: int, k_len: int, v_len: int, o_len: int, batch: int, num_heads: int, num_kv_heads: int,
    seq_kv: int, kv_stride: int, q_pos: int, sliding_window: int, scale: F32,
) -> Plan {
    let q_need = batch * num_heads * 256;
    let kv_need = batch * num_kv_heads * kv_stride * 256;
    if batch == 0 || num_heads == 0 || num_kv_heads == 0 || seq_kv == 0 || kv_stride == 0 {
        Plan::invalid("dims must be > 0"@)
    } else if num_heads % num_kv_heads != 0 {
        Plan::invalid(
            "num_kv_heads ("@ + text::decimal(num_kv_heads) + ") must divide num_heads ("@
                + text::decimal(num_heads) + ")"@,
        )
    } else if seq_kv > kv_stride {
        Plan::invalid(
            "seq_kv ("@ + text::decimal(seq_kv) + ") > kv_stride ("@ + text::decimal(kv_stride)
                + ")"@,
        )
    } else if q_need > u64::MAX || kv_need > u64::MAX {
        Plan::Undefined
    } else if q_len < q_need || k_len < kv_need || v_len < kv_need || o_len < q_need {
        Plan::invalid(
            "buffer sizes: q="@ + text::decimal(q_len) + " k="@ + text::decimal(k_len) + " v="@
                + text::decimal(v_len) + " o="@ + text::decimal(o_len) + ", need q/o="@
                + text::decimal(q_need) + " k/v="@ + text::decimal(kv_need),
        )
    } else {
        Plan::launch(
            "fa_bf16_decode_d256_gqa"@,
            "fa_bf16_decode_d256_gqa"@,
            (num_heads, batch, 1),
            (256, 1, 1),
            0,
            seq![
                Arg::buffer(0), Arg::buffer(1), Arg::buffer(2), Arg::buffer(3),
                Arg::word(num_heads), Arg::word(num_kv_heads), Arg::word(seq_kv),
                Arg::word(kv_stride), Arg::word(q_pos), Arg::word(sliding_window),
                Arg::Scalar(scale),
            ],
        )
    }
}

/// BF16 GQA flash-attention DECODE for d=256 with optional sliding-window
/// attention. Used by Gemma-4 sliding attention layers (head_dim=256,
/// window=512). Set `sliding_window=0` for full attention (no window).
pub fn flash_attn_bf16_decode_d256_gqa(
    q_len: usize,
    k_len: usize,
    v_len: usize,
    o_len: usize,
    batch: u32,
    num_heads: u32,
    num_kv_heads: u32,
    seq_kv: u32,
    kv_stride: u32,
    q_pos: u32,
    sliding_window: u32,
    scale: F32,
) -> (r: Result<Launch>)
    requires
        flash_attn_bf16_decode_d256_gqa_plan(
            q_len as int, k_len as int, v_len as int, o_len as int, batch as int, num_heads as int,
            num_kv_heads as int, seq_kv as int, kv_stride as int, q_pos as int,
            sliding_window as int, scale,
        ) !is Undefined,
    ensures
        plan::outcome(r) == flash_attn_bf16_decode_d256_gqa_plan(
            q_len as int, k_len as int, v_len as int, o_len as int, batch as int, num_heads as int,
            num_kv_heads as int, seq_kv as int, kv_stride as int, q_pos as int,
            sliding_window as int, scale,
        ),
        plan::launchable(r, 4),
{
    if batch == 0 || num_heads == 0 || num_kv_heads == 0 || seq_kv == 0 || kv_stride == 0 {
        return Text::new("dims must be > 0").refuse();
    }
    if num_heads % num_kv_heads != 0 {
        return Text::new("num_kv_heads (").n(num_kv_heads as u64).s(") must divide num_heads (")
            .n(num_heads as u64).s(")").refuse();
    }
    if seq_kv > kv_stride {
        return Text::new("seq_kv (").n(seq_kv as u64).s(") > kv_stride (").n(kv_stride as u64)
            .s(")").refuse();
    }
    let q_need: u64 = shape::product(batch, num_heads) * 256;
    let kv_need: u64 = shape::product(batch, num_kv_heads) * (kv_stride as u64) * 256;
    if (q_len as u64) < q_need
        || (k_len as u64) < kv_need
        || (v_len as u64) < kv_need
        || (o_len as u64) < q_need
    {
        return Text::new("buffer sizes: q=").n(q_len as u64).s(" k=").n(k_len as u64).s(" v=")
            .n(v_len as u64).s(" o=").n(o_len as u64).s(", need q/o=").n(q_need).s(" k/v=")
            .n(kv_need).refuse();
    }
    Ok(
        Launch::new(
            "fa_bf16_decode_d256_gqa",
            "fa_bf16_decode_d256_gqa",
            (num_heads, batch, 1),
            (256, 1, 1),
            0,
            vec![
                Arg::param(0), Arg::param(1), Arg::param(2), Arg::param(3), Arg::Word(num_heads),
                Arg::Word(num_kv_heads), Arg::Word(seq_kv), Arg::Word(kv_stride), Arg::Word(q_pos),
                Arg::Word(sliding_window), Arg::Scalar(scale),
            ],
        ),
    )
}

/// The answer of [`flash_attn_bf16_decode_d512_gqa`].
pub open spec fn flash_attn_bf16_decode_d512_gqa_plan(
    q_len: int, k_len: int, v_len: int, o_len: int, batch: int, num_heads: int, num_kv_heads: int,
    seq_kv: int, kv_stride: int, scale: F32,
) -> Plan {
    let q_need = batch * num_heads * 512;
    let kv_need = batch * num_kv_heads * kv_stride * 512;
    if batch == 0 || num_heads == 0 || num_kv_heads == 0 || seq_kv == 0 || kv_stride == 0 {
        Plan::invalid("dims must be > 0"@)
    } else if num_heads % num_kv_heads != 0 {
        Plan::invalid(
            "num_kv_heads ("@ + text::decimal(num_kv_heads) + ") must divide num_heads ("@
                + text::decimal(num_heads) + ")"@,
        )
    } else if seq_kv > kv_stride {
        Plan::invalid(
            "seq_kv ("@ + text::decimal(seq_kv) + ") > kv_stride ("@ + text::decimal(kv_stride)
                + ")"@,
        )
    } else if q_need > u64::MAX || kv_need > u64::MAX {
        Plan::Undefined
    } else if q_len < q_need || k_len < kv_need || v_len < kv_need || o_len < q_need {
        Plan::invalid(
            "buffer sizes: q="@ + text::decimal(q_len) + " k="@ + text::decimal(k_len) + " v="@
                + text::decimal(v_len) + " o="@ + text::decimal(o_len) + ", need q/o="@
                + text::decimal(q_need) + " k/v="@ + text::decimal(kv_need),
        )
    } else {
        Plan::launch(
            "fa_bf16_decode_d512_gqa"@,
            "fa_bf16_decode_d512_gqa"@,
            (num_heads, batch, 1),
            (512, 1, 1),
            0,
            seq![
                Arg::buffer(0), Arg::buffer(1), Arg::buffer(2), Arg::buffer(3),
                Arg::word(num_heads), Arg::word(num_kv_heads), Arg::word(seq_kv),
                Arg::word(kv_stride), Arg::Scalar(scale),
            ],
        )
    }
}

/// BF16 GQA flash-attention DECODE for d=512. Used by Gemma-4 full-attention
/// layers. No sliding window — full attention.
pub fn flash_attn_bf16_decode_d512_gqa(
    q_len: usize,
    k_len: usize,
    v_len: usize,
    o_len: usize,
    batch: u32,
    num_heads: u32,
    num_kv_heads: u32,
    seq_kv: u32,
    kv_stride: u32,
    scale: F32,
) -> (r: Result<Launch>)
    requires
        flash_attn_bf16_decode_d512_gqa_plan(
            q_len as int, k_len as int, v_len as int, o_len as int, batch as int, num_heads as int,
            num_kv_heads as int, seq_kv as int, kv_stride as int, scale,
        ) !is Undefined,
    ensures
        plan::outcome(r) == flash_attn_bf16_decode_d512_gqa_plan(
            q_len as int, k_len as int, v_len as int, o_len as int, batch as int, num_heads as int,
            num_kv_heads as int, seq_kv as int, kv_stride as int, scale,
        ),
        plan::launchable(r, 4),
{
    if batch == 0 || num_heads == 0 || num_kv_heads == 0 || seq_kv == 0 || kv_stride == 0 {
        return Text::new("dims must be > 0").refuse();
    }
    if num_heads % num_kv_heads != 0 {
        return Text::new("num_kv_heads (").n(num_kv_heads as u64).s(") must divide num_heads (")
            .n(num_heads as u64).s(")").refuse();
    }
    if seq_kv > kv_stride {
        return Text::new("seq_kv (").n(seq_kv as u64).s(") > kv_stride (").n(kv_stride as u64)
            .s(")").refuse();
    }
    let q_need: u64 = shape::product(batch, num_heads) * 512;
    let kv_need: u64 = shape::product(batch, num_kv_heads) * (kv_stride as u64) * 512;
    if (q_len as u64) < q_need
        || (k_len as u64) < kv_need
        || (v_len as u64) < kv_need
        || (o_len as u64) < q_need
    {
        return Text::new("buffer sizes: q=").n(q_len as u64).s(" k=").n(k_len as u64).s(" v=")
            .n(v_len as u64).s(" o=").n(o_len as u64).s(", need q/o=").n(q_need).s(" k/v=")
            .n(kv_need).refuse();
    }
    Ok(
        Launch::new(
            "fa_bf16_decode_d512_gqa",
            "fa_bf16_decode_d512_gqa",
            (num_heads, batch, 1),
            (512, 1, 1),
            0,
            vec![
                Arg::param(0), Arg::param(1), Arg::param(2), Arg::param(3), Arg::Word(num_heads),
                Arg::Word(num_kv_heads), Arg::Word(seq_kv), Arg::Word(kv_stride),
                Arg::Scalar(scale),
            ],
        ),
    )
}

/// The answer of [`flash_attn_bf16_decode_d256_gqa_pos_dev_view`].
pub open spec fn flash_attn_bf16_decode_d256_gqa_pos_dev_view_plan(
    q_len: int, k_len: int, v_len: int, o_len: int, batch: int, num_heads: int, num_kv_heads: int,
    kv_stride: int, pos_ptr_len: int, sliding_window: int, scale: F32,
) -> Plan {
    if batch == 0 || num_heads == 0 || num_kv_heads == 0 || kv_stride == 0 {
        Plan::invalid("dims must be > 0"@)
    } else if num_heads % num_kv_heads != 0 {
        Plan::invalid(
            "num_kv_heads ("@ + text::decimal(num_kv_heads) + ") must divide num_heads ("@
                + text::decimal(num_heads) + ")"@,
        )
    } else {
        Plan::launch(
            "fa_bf16_decode_d256_gqa_pos_dev"@,
            "fa_bf16_decode_d256_gqa_pos_dev"@,
            (num_heads, batch, 1),
            (256, 1, 1),
            0,
            seq![
                Arg::buffer(0), Arg::buffer(1), Arg::buffer(2), Arg::buffer(3),
                Arg::word(num_heads), Arg::word(num_kv_heads), Arg::word(kv_stride), Arg::buffer(4),
                Arg::word(sliding_window), Arg::Scalar(scale),
            ],
        )
    }
}

/// View-accepting variant of `flash_attn_bf16_decode_d256_gqa_pos_dev`: q and o
/// can be views into batched buffers.
pub fn flash_attn_bf16_decode_d256_gqa_pos_dev_view(
    q_len: usize,
    k_len: usize,
    v_len: usize,
    o_len: usize,
    batch: u32,
    num_heads: u32,
    num_kv_heads: u32,
    kv_stride: u32,
    pos_ptr_len: usize,
    sliding_window: u32,
    scale: F32,
) -> (r: Result<Launch>)
    ensures
        plan::outcome(r) == flash_attn_bf16_decode_d256_gqa_pos_dev_view_plan(
            q_len as int, k_len as int, v_len as int, o_len as int, batch as int, num_heads as int,
            num_kv_heads as int, kv_stride as int, pos_ptr_len as int, sliding_window as int, scale,
        ),
        plan::launchable(r, 5),
{
    if batch == 0 || num_heads == 0 || num_kv_heads == 0 || kv_stride == 0 {
        return Text::new("dims must be > 0").refuse();
    }
    if num_heads % num_kv_heads != 0 {
        return Text::new("num_kv_heads (").n(num_kv_heads as u64).s(") must divide num_heads (")
            .n(num_heads as u64).s(")").refuse();
    }
    Ok(
        Launch::new(
            "fa_bf16_decode_d256_gqa_pos_dev",
            "fa_bf16_decode_d256_gqa_pos_dev",
            (num_heads, batch, 1),
            (256, 1, 1),
            0,
            vec![
                Arg::param(0), Arg::param(1), Arg::param(2), Arg::param(3), Arg::Word(num_heads),
                Arg::Word(num_kv_heads), Arg::Word(kv_stride), Arg::param(4),
                Arg::Word(sliding_window), Arg::Scalar(scale),
            ],
        ),
    )
}

/// The answer of [`flash_attn_bf16_decode_d512_gqa_pos_dev_view`].
pub open spec fn flash_attn_bf16_decode_d512_gqa_pos_dev_view_plan(
    q_len: int, k_len: int, v_len: int, o_len: int, batch: int, num_heads: int, num_kv_heads: int,
    kv_stride: int, pos_ptr_len: int, sliding_window: int, scale: F32,
) -> Plan {
    if batch == 0 || num_heads == 0 || num_kv_heads == 0 || kv_stride == 0 {
        Plan::invalid("dims must be > 0"@)
    } else if num_heads % num_kv_heads != 0 {
        Plan::invalid(
            "num_kv_heads ("@ + text::decimal(num_kv_heads) + ") must divide num_heads ("@
                + text::decimal(num_heads) + ")"@,
        )
    } else {
        Plan::launch(
            "fa_bf16_decode_d512_gqa_pos_dev"@,
            "fa_bf16_decode_d512_gqa_pos_dev"@,
            (num_heads, batch, 1),
            (512, 1, 1),
            0,
            if sliding_window == 0 {
                seq![
                    Arg::buffer(0), Arg::buffer(1), Arg::buffer(2), Arg::buffer(3),
                    Arg::word(num_heads), Arg::word(num_kv_heads), Arg::word(kv_stride),
                    Arg::buffer(4), Arg::Scalar(scale),
                ]
            } else {
                seq![
                    Arg::buffer(0), Arg::buffer(1), Arg::buffer(2), Arg::buffer(3),
                    Arg::word(num_heads), Arg::word(num_kv_heads), Arg::word(kv_stride),
                    Arg::buffer(4), Arg::word(sliding_window), Arg::Scalar(scale),
                ]
            },
        )
    }
}

/// View-accepting variant of `flash_attn_bf16_decode_d512_gqa_pos_dev`: q and o
/// can be views into batched buffers. Without a window (0) the launch is the same. A window is
/// handed to the kernel before the scale.
pub fn flash_attn_bf16_decode_d512_gqa_pos_dev_view(
    q_len: usize,
    k_len: usize,
    v_len: usize,
    o_len: usize,
    batch: u32,
    num_heads: u32,
    num_kv_heads: u32,
    kv_stride: u32,
    pos_ptr_len: usize,
    sliding_window: u32,
    scale: F32,
) -> (r: Result<Launch>)
    ensures
        plan::outcome(r) == flash_attn_bf16_decode_d512_gqa_pos_dev_view_plan(
            q_len as int, k_len as int, v_len as int, o_len as int, batch as int, num_heads as int,
            num_kv_heads as int, kv_stride as int, pos_ptr_len as int, sliding_window as int, scale,
        ),
        plan::launchable(r, 5),
{
    if batch == 0 || num_heads == 0 || num_kv_heads == 0 || kv_stride == 0 {
        return Text::new("dims must be > 0").refuse();
    }
    if num_heads % num_kv_heads != 0 {
        return Text::new("num_kv_heads (").n(num_kv_heads as u64).s(") must divide num_heads (")
            .n(num_heads as u64).s(")").refuse();
    }
    let args = if sliding_window == 0 {
        vec![
            Arg::param(0), Arg::param(1), Arg::param(2), Arg::param(3), Arg::Word(num_heads),
            Arg::Word(num_kv_heads), Arg::Word(kv_stride), Arg::param(4), Arg::Scalar(scale),
        ]
    } else {
        vec![
            Arg::param(0), Arg::param(1), Arg::param(2), Arg::param(3), Arg::Word(num_heads),
            Arg::Word(num_kv_heads), Arg::Word(kv_stride), Arg::param(4), Arg::Word(sliding_window),
            Arg::Scalar(scale),
        ]
    };
    Ok(
        Launch::new(
            "fa_bf16_decode_d512_gqa_pos_dev",
            "fa_bf16_decode_d512_gqa_pos_dev",
            (num_heads, batch, 1),
            (512, 1, 1),
            0,
            args,
        ),
    )
}

/// The answer of [`flash_attn_bf16_decode_d256_gqa_pos_dev`].
pub open spec fn flash_attn_bf16_decode_d256_gqa_pos_dev_plan(
    q_len: int, k_len: int, v_len: int, o_len: int, batch: int, num_heads: int, num_kv_heads: int,
    kv_stride: int, pos_ptr_len: int, sliding_window: int, scale: F32,
) -> Plan {
    let q_need = batch * num_heads * 256;
    let kv_need = batch * num_kv_heads * kv_stride * 256;
    if batch == 0 || num_heads == 0 || num_kv_heads == 0 || kv_stride == 0 {
        Plan::invalid("dims must be > 0"@)
    } else if num_heads % num_kv_heads != 0 {
        Plan::invalid(
            "num_kv_heads ("@ + text::decimal(num_kv_heads) + ") must divide num_heads ("@
                + text::decimal(num_heads) + ")"@,
        )
    } else if shape::low_word(pos_ptr_len) < batch {
        Plan::invalid(
            "pos_ptr too small: "@ + text::decimal(pos_ptr_len) + " < batch "@
                + text::decimal(batch),
        )
    } else if q_need > u64::MAX || kv_need > u64::MAX {
        Plan::Undefined
    } else if q_len < q_need || k_len < kv_need || v_len < kv_need || o_len < q_need {
        Plan::invalid(
            "buffer sizes: q="@ + text::decimal(q_len) + " k="@ + text::decimal(k_len) + " v="@
                + text::decimal(v_len) + " o="@ + text::decimal(o_len) + ", need q/o="@
                + text::decimal(q_need) + " k/v="@ + text::decimal(kv_need),
        )
    } else {
        Plan::launch(
            "fa_bf16_decode_d256_gqa_pos_dev"@,
            "fa_bf16_decode_d256_gqa_pos_dev"@,
            (num_heads, batch, 1),
            (256, 1, 1),
            0,
            seq![
                Arg::buffer(0), Arg::buffer(1), Arg::buffer(2), Arg::buffer(3),
                Arg::word(num_heads), Arg::word(num_kv_heads), Arg::word(kv_stride), Arg::buffer(4),
                Arg::word(sliding_window), Arg::Scalar(scale),
            ],
        )
    }
}

/// Single-token BF16 decode attention (head_dim=256, GQA) with the current
/// position read from `pos_ptr` (`seq_kv = *pos_ptr + 1`) and an optional
/// `sliding_window` cap on how far back KV is attended. Reads the full
/// `[.., kv_stride, ..]` KV cache in place.
pub fn flash_attn_bf16_decode_d256_gqa_pos_dev(
    q_len: usize,
    k_len: usize,
    v_len: usize,
    o_len: usize,
    batch: u32,
    num_heads: u32,
    num_kv_heads: u32,
    kv_stride: u32,
    pos_ptr_len: usize,
    sliding_window: u32,
    scale: F32,
) -> (r: Result<Launch>)
    requires
        flash_attn_bf16_decode_d256_gqa_pos_dev_plan(
            q_len as int, k_len as int, v_len as int, o_len as int, batch as int, num_heads as int,
            num_kv_heads as int, kv_stride as int, pos_ptr_len as int, sliding_window as int, scale,
        ) !is Undefined,
    ensures
        plan::outcome(r) == flash_attn_bf16_decode_d256_gqa_pos_dev_plan(
            q_len as int, k_len as int, v_len as int, o_len as int, batch as int, num_heads as int,
            num_kv_heads as int, kv_stride as int, pos_ptr_len as int, sliding_window as int, scale,
        ),
        plan::launchable(r, 5),
{
    if batch == 0 || num_heads == 0 || num_kv_heads == 0 || kv_stride == 0 {
        return Text::new("dims must be > 0").refuse();
    }
    if num_heads % num_kv_heads != 0 {
        return Text::new("num_kv_heads (").n(num_kv_heads as u64).s(") must divide num_heads (")
            .n(num_heads as u64).s(")").refuse();
    }
    if shape::truncate(pos_ptr_len as u64) < batch {
        return Text::new("pos_ptr too small: ").n(pos_ptr_len as u64).s(" < batch ").n(batch as u64)
            .refuse();
    }
    let q_need: u64 = shape::product(batch, num_heads) * 256;
    let kv_need: u64 = shape::product(batch, num_kv_heads) * (kv_stride as u64) * 256;
    if (q_len as u64) < q_need
        || (k_len as u64) < kv_need
        || (v_len as u64) < kv_need
        || (o_len as u64) < q_need
    {
        return Text::new("buffer sizes: q=").n(q_len as u64).s(" k=").n(k_len as u64).s(" v=")
            .n(v_len as u64).s(" o=").n(o_len as u64).s(", need q/o=").n(q_need).s(" k/v=")
            .n(kv_need).refuse();
    }
    Ok(
        Launch::new(
            "fa_bf16_decode_d256_gqa_pos_dev",
            "fa_bf16_decode_d256_gqa_pos_dev",
            (num_heads, batch, 1),
            (256, 1, 1),
            0,
            vec![
                Arg::param(0), Arg::param(1), Arg::param(2), Arg::param(3), Arg::Word(num_heads),
                Arg::Word(num_kv_heads), Arg::Word(kv_stride), Arg::param(4),
                Arg::Word(sliding_window), Arg::Scalar(scale),
            ],
        ),
    )
}

/// The answer of [`flash_attn_bf16_decode_d512_gqa_pos_dev`].
pub open spec fn flash_attn_bf16_decode_d512_gqa_pos_dev_plan(
    q_len: int, k_len: int, v_len: int, o_len: int, batch: int, num_heads: int, num_kv_heads: int,
    kv_stride: int, pos_ptr_len: int, scale: F32,
) -> Plan {
    let q_need = batch * num_heads * 512;
    let kv_need = batch * num_kv_heads * kv_stride * 512;
    if batch == 0 || num_heads == 0 || num_kv_heads == 0 || kv_stride == 0 {
        Plan::invalid("dims must be > 0"@)
    } else if num_heads % num_kv_heads != 0 {
        Plan::invalid(
            "num_kv_heads ("@ + text::decimal(num_kv_heads) + ") must divide num_heads ("@
                + text::decimal(num_heads) + ")"@,
        )
    } else if shape::low_word(pos_ptr_len) < batch {
        Plan::invalid(
            "pos_ptr too small: "@ + text::decimal(pos_ptr_len) + " < batch "@
                + text::decimal(batch),
        )
    } else if q_need > u64::MAX || kv_need > u64::MAX {
        Plan::Undefined
    } else if q_len < q_need || k_len < kv_need || v_len < kv_need || o_len < q_need {
        Plan::invalid(
            "buffer sizes: q="@ + text::decimal(q_len) + " k="@ + text::decimal(k_len) + " v="@
                + text::decimal(v_len) + " o="@ + text::decimal(o_len) + ", need q/o="@
                + text::decimal(q_need) + " k/v="@ + text::decimal(kv_need),
        )
    } else {
        Plan::launch(
            "fa_bf16_decode_d512_gqa_pos_dev"@,
            "fa_bf16_decode_d512_gqa_pos_dev"@,
            (num_heads, batch, 1),
            (512, 1, 1),
            0,
            seq![
                Arg::buffer(0), Arg::buffer(1), Arg::buffer(2), Arg::buffer(3),
                Arg::word(num_heads), Arg::word(num_kv_heads), Arg::word(kv_stride), Arg::buffer(4),
                Arg::Scalar(scale),
            ],
        )
    }
}

/// Position-from-device-pointer variant of `flash_attn_bf16_decode_d512_gqa`.
/// Reads `q_pos` from `pos_ptr` and computes `seq_kv = *pos_ptr + 1`
/// internally. Caller must ensure `(*pos_ptr) + 1 <= kv_stride`.
pub fn flash_attn_bf16_decode_d512_gqa_pos_dev(
    q_len: usize,
    k_len: usize,
    v_len: usize,
    o_len: usize,
    batch: u32,
    num_heads: u32,
    num_kv_heads: u32,
    kv_stride: u32,
    pos_ptr_len: usize,
    scale: F32,
) -> (r: Result<Launch>)
    requires
        flash_attn_bf16_decode_d512_gqa_pos_dev_plan(
            q_len as int, k_len as int, v_len as int, o_len as int, batch as int, num_heads as int,
            num_kv_heads as int, kv_stride as int, pos_ptr_len as int, scale,
        ) !is Undefined,
    ensures
        plan::outcome(r) == flash_attn_bf16_decode_d512_gqa_pos_dev_plan(
            q_len as int, k_len as int, v_len as int, o_len as int, batch as int, num_heads as int,
            num_kv_heads as int, kv_stride as int, pos_ptr_len as int, scale,
        ),
        plan::launchable(r, 5),
{
    if batch == 0 || num_heads == 0 || num_kv_heads == 0 || kv_stride == 0 {
        return Text::new("dims must be > 0").refuse();
    }
    if num_heads % num_kv_heads != 0 {
        return Text::new("num_kv_heads (").n(num_kv_heads as u64).s(") must divide num_heads (")
            .n(num_heads as u64).s(")").refuse();
    }
    if shape::truncate(pos_ptr_len as u64) < batch {
        return Text::new("pos_ptr too small: ").n(pos_ptr_len as u64).s(" < batch ").n(batch as u64)
            .refuse();
    }
    let q_need: u64 = shape::product(batch, num_heads) * 512;
    let kv_need: u64 = shape::product(batch, num_kv_heads) * (kv_stride as u64) * 512;
    if (q_len as u64) < q_need
        || (k_len as u64) < kv_need
        || (v_len as u64) < kv_need
        || (o_len as u64) < q_need
    {
        return Text::new("buffer sizes: q=").n(q_len as u64).s(" k=").n(k_len as u64).s(" v=")
            .n(v_len as u64).s(" o=").n(o_len as u64).s(", need q/o=").n(q_need).s(" k/v=")
            .n(kv_need).refuse();
    }
    Ok(
        Launch::new(
            "fa_bf16_decode_d512_gqa_pos_dev",
            "fa_bf16_decode_d512_gqa_pos_dev",
            (num_heads, batch, 1),
            (512, 1, 1),
            0,
            vec![
                Arg::param(0), Arg::param(1), Arg::param(2), Arg::param(3), Arg::Word(num_heads),
                Arg::Word(num_kv_heads), Arg::Word(kv_stride), Arg::param(4), Arg::Scalar(scale),
            ],
        ),
    )
}

/// Decoding on views launches what decoding on whole buffers launches, where there is no
/// window.
pub proof fn d512_views_decode_alike(
    q_len: int, k_len: int, v_len: int, o_len: int, batch: int, num_heads: int, num_kv_heads: int,
    kv_stride: int, pos_ptr_len: int, scale: F32,
)
    requires
        flash_attn_bf16_decode_d512_gqa_pos_dev_plan(
            q_len, k_len, v_len, o_len, batch, num_heads, num_kv_heads, kv_stride, pos_ptr_len,
            scale,
        ) is Launch,
    ensures
        flash_attn_bf16_decode_d512_gqa_pos_dev_view_plan(
            q_len, k_len, v_len, o_len, batch, num_heads, num_kv_heads, kv_stride, pos_ptr_len,
            0, scale,
        ) == flash_attn_bf16_decode_d512_gqa_pos_dev_plan(
            q_len, k_len, v_len, o_len, batch, num_heads, num_kv_heads, kv_stride, pos_ptr_len,
            scale,
        ),
{
}

/// Decoding on views launches what decoding on whole buffers launches, with the same window.
pub proof fn d256_views_decode_alike(
    q_len: int, k_len: int, v_len: int, o_len: int, batch: int, num_heads: int, num_kv_heads: int,
    kv_stride: int, pos_ptr_len: int, sliding_window: int, scale: F32,
)
    requires
        flash_attn_bf16_decode_d256_gqa_pos_dev_plan(
            q_len, k_len, v_len, o_len, batch, num_heads, num_kv_heads, kv_stride, pos_ptr_len,
            sliding_window, scale,
        ) is Launch,
    ensures
        flash_attn_bf16_decode_d256_gqa_pos_dev_view_plan(
            q_len, k_len, v_len, o_len, batch, num_heads, num_kv_heads, kv_stride, pos_ptr_len,
            sliding_window, scale,
        ) == flash_attn_bf16_decode_d256_gqa_pos_dev_plan(
            q_len, k_len, v_len, o_len, batch, num_heads, num_kv_heads, kv_stride, pos_ptr_len,
            sliding_window, scale,
        ),
{
}

} // verus!
