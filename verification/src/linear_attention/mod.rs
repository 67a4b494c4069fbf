//! Linear-attention kernels (GatedDeltaNet, Mamba2 selective scan).
pub mod conv;
pub mod gdn;
pub mod recurrence;
pub mod scan;

pub use conv::{
    conv1d_backward_dw_bf16, conv1d_backward_dx_bf16, conv1d_silu_bf16, conv1d_silu_bf16_batched,
    conv1d_silu_bf16_row, conv1d_silu_chunk_bf16,
};
pub use gdn::{
    GDN_HEAD_DIM, gdn_alpha_beta_backward_bf16, gdn_alpha_beta_bf16, gdn_alpha_beta_bf16_batched,
    gdn_decode, gdn_decode_backward, gdn_decode_tma, gdn_prefill,
    l2norm_scale_replicate_backward_bf16, l2norm_scale_replicate_bf16,
};
pub use scan::{
    MAMBA2_D_STATE, linear_attn_chunk_prefill, linear_attn_state_update_mma,
    linear_attn_y_inter_mma, mamba2_selective_scan_decode, mamba2_selective_scan_prefill,
};
