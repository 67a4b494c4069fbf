//! Flash-attention and decode-attention kernel dispatch.
pub mod backward;
pub mod backward_kernels;
pub mod backward_laws;
pub mod backward_meaning;
pub mod backward_memory;
pub mod backward_packed;
pub mod backward_paged;
pub mod backward_variants;
pub mod decode;
pub mod dense;
pub mod dims;
pub mod dsa;
pub mod dsa_laws;
pub mod gqa;
pub mod masked;
pub mod mla;
pub mod mla_auto;
pub mod mla_laws;
pub mod mla_memory;
pub mod paged;
pub mod ranking;
pub mod reorder;
pub mod sparse;
pub mod streamed;
pub mod streamed_fp8;
pub mod tiles;

pub use backward::{
    flash_attn_backward_bf16, flash_attn_backward_bf16_gqa, flash_attn_backward_bf16_paged,
    flash_attn_backward_bf16_varlen, flash_attn_backward_fp8kv_bf16,
};
pub use decode::{
    fa_bf16_fp8kv_decode_d128, fa_bf16_fp8kv_decode_d128_causal, fa_bf16_fp8kv_decode_d128_gqa,
    flash_attn_bf16_decode_d128_gqa, flash_attn_bf16_decode_d192_dv128_gqa,
    flash_attn_bf16_decode_d256_gqa, flash_attn_bf16_decode_d256_gqa_pos_dev,
    flash_attn_bf16_decode_d256_gqa_pos_dev_view, flash_attn_bf16_decode_d512_gqa,
    flash_attn_bf16_decode_d512_gqa_pos_dev, flash_attn_bf16_decode_d512_gqa_pos_dev_view,
    flash_attn_bf16_fp8kv_decode_d256_gqa_pos_dev, flash_attn_bf16_fp8kv_decode_d512_gqa_pos_dev,
    fp8_mma_qk_microkernel,
};
pub use dense::{
    flash_attn_bf16_d128, flash_attn_bf16_d128_causal,
    flash_attn_bf16_fp8kv_v3_d256_gqa_causal_pos_dev, flash_attn_bf16_v17_bc128,
    flash_attn_bf16_v18_4warp, flash_attn_bf16_v22_db, flash_attn_bf16_v3_d128,
    flash_attn_bf16_v3_d128_causal, flash_attn_bf16_v3_d256, flash_attn_bf16_v3_d256_causal,
    flash_attn_bf16_v3_d256_gqa_causal_pos_dev, flash_attn_bf16_varlen_d128, flash_attn_fp8_d128,
    flash_attn_fp8_d128_causal,
};
pub use dims::HEAD_DIM;
pub use gqa::{
    flash_attn_bf16_v3_d256_gqa, flash_attn_bf16_v3_d256_gqa_causal,
    flash_attn_bf16_v3_d256_gqa_causal_with_offset,
};
pub use masked::{
    flash_attn_bf16_v21_softcap_causal, flash_attn_bf16_v21_swa, flash_attn_bf16_v21_swa_softcap,
    flash_attn_bf16_v21_varlen, flash_attn_bf16_v21_varlen_causal, flash_attn_bf16_v21_varlen_gqa,
    flash_attn_bf16_v21_varlen_gqa_causal,
};
pub use mla::{
    MLA_D_C, MLA_D_R, fa_fp8_mla_decode_mma_v2, fa_fp8_mla_decode_mma_v3, mla_decode_bf16,
    mla_decode_bf16_mma, mla_decode_bf16_mma_qk, mla_decode_bf16_mma_tma,
    mla_decode_bf16_mma_tma_pq, mla_decode_bf16_paged, mla_decode_bf16_tma, mla_decode_fp8,
    mla_decode_fp8kv_mma, mla_prefill_bf16, mla_prefill_fp8, mla_split_kv_combine,
};
pub use mla_auto::{
    fa_fp8_mla_decode_auto, mla_decode_bf16_auto, mla_decode_bf16_auto_with_splits,
    mla_decode_bf16_mma_split, mla_decode_fp8_auto,
};
pub use paged::{
    flash_attn_bf16_v3_paged_kv, flash_attn_bf16_v3_paged_kv_causal, flash_attn_bf16_v3_split_kv,
    flash_attn_bf16_v3_split_kv_causal, flash_attn_bf16_v3_split_paged_kv,
    flash_attn_bf16_v3_split_paged_kv_causal, flash_attn_fp8_v3_paged_kv,
    flash_attn_fp8_v3_paged_kv_causal, flash_attn_fp8_v3_split_paged_kv,
    flash_attn_fp8_v3_split_paged_kv_causal, flash_decoding_combine,
};
pub use reorder::{permute_htd_to_thd_bf16_view, permute_thd_to_htd_bf16_view};
pub use sparse::{
    dsa_attention_bf16, k_block_mean, medusa_draft_heads, mtp_draft_heads, nsa_attention_bf16,
    topk_block_idx, tree_attention_bf16,
};
pub use streamed::{
    flash_attn_bf16_v11_causal, flash_attn_bf16_v11_fused_scale, flash_attn_bf16_v11_gqa,
    flash_attn_bf16_v11_gqa_causal, flash_attn_bf16_v11_varlen, flash_attn_bf16_v11_varlen_causal,
    flash_attn_bf16_v11_varlen_gqa, flash_attn_bf16_v11_varlen_gqa_causal,
    flash_attn_bf16_v12_persistent, flash_attn_bf16_v13_bc32_d128, flash_attn_bf16_v20_tma_bc128,
    flash_attn_bf16_v21_causal, flash_attn_bf16_v21_gqa, flash_attn_bf16_v21_gqa_causal,
    flash_attn_bf16_v21_streaming_p, flash_attn_bf16_v8_tma_db_d128,
};
pub use streamed_fp8::{
    flash_attn_fp8_v11_tma, flash_attn_fp8_v12a_transpose, flash_attn_fp8_v12c_vt,
    flash_attn_fp8_v12c_vt_causal, flash_attn_fp8_v12c_vt_gqa, flash_attn_fp8_v12c_vt_gqa_causal,
    flash_attn_fp8_v12c_vt_varlen, flash_attn_fp8_v12c_vt_varlen_causal,
    flash_attn_fp8_v12c_vt_varlen_gqa, flash_attn_fp8_v12c_vt_varlen_gqa_causal,
};
