use sm121_kernels::attention::{
    fa_fp8_mla_decode_auto, flash_attn_backward_bf16, flash_attn_backward_bf16_gqa,
    flash_attn_backward_bf16_paged, flash_attn_backward_bf16_varlen,
    flash_attn_backward_fp8kv_bf16, flash_attn_bf16_v3_d128, flash_attn_bf16_v3_d128_causal,
    mla_decode_bf16_auto_with_splits, mla_decode_bf16_mma_split,
};
use sm121_kernels::distributed::{
    ring_attention_bf16, ring_attention_bf16_distributed, LoopbackTransport, NcclTransport,
};
use sm121_kernels::ffi::launch::{launch_fa_bf16_v3, launch_fa_bf16_v3_causal};
use sm121_kernels::ffi::{
    launch_gemm_bf16_mma, launch_gemm_fp8_mma, SparkDtype, SparkFlashAttnParams, SparkGemmParams,
};
use sm121_kernels::gemm::{
    gemm_bf16_backward_dA_mma, gemm_bf16_backward_dB_mma, gemm_bf16_mma, gemm_bf16_mma_auto,
    gemm_bf16_split_k_det_managed, gemm_fp8_mma, gemm_fp8_mma_auto, gemm_fp8_w8a16_backward_dA,
    gemm_fp8_w8a16_backward_dB, gemv_bf16_split_k_managed,
    gemv_bf16_split_k_managed_view, gemv_bf16_split_k_v4_managed, gemv_bf16_split_k_w16_managed,
    gemv_w8a16_split_k_managed, gemv_w8a16_split_k_w16_managed,
};
use sm121_kernels::kv_cache::kv_append_strided_bf16;
use sm121_kernels::plan::{Arg, Launch, Slot, TensorMap, F32};
use sm121_kernels::program::{Program, Step};

fn scale() -> F32 {
    F32 { bits: 0.125f32.to_bits() }
}

fn big() -> usize {
    usize::MAX
}

fn check_slot(slot: Slot, buffers: u32, granted: &[u32]) {
    match slot {
        Slot::Param(i) => assert!(i < buffers, "no buffer {}", i),
        Slot::Scratch(i) => assert!(granted.contains(&i), "no scratch {}", i),
    }
}

fn check_maps(maps: &[TensorMap], buffers: u32, granted: &[u32]) {
    for m in maps {
        check_slot(m.base.slot, buffers, granted);
        assert!(!m.dims.is_empty() && m.dims.len() == m.tile.len());
        assert_eq!(m.strides.len() + 1, m.dims.len());
    }
}

fn check_launch(l: &Launch) {
    let (gx, gy, gz) = l.grid;
    let (bx, by, bz) = l.block;
    assert!(gx > 0 && gy > 0 && gz > 0);
    assert!(bx > 0 && by > 0 && bz > 0 && bx * by * bz <= 1024);
}

/// Runs through a program and checks that each step names memory that is there.
fn check_closed(p: &Program, buffers: u32) {
    assert!(p.end.is_ok(), "{:?}", p.end);
    assert!(!p.steps.is_empty());
    let mut granted: Vec<u32> = vec![];
    for s in &p.steps {
        match s {
            Step::Load { .. } => {}
            Step::Alloc { scratch, .. } => granted.push(*scratch),
            Step::Encode { scratch, maps } => {
                check_maps(maps, buffers, &granted);
                granted.extend(*scratch..*scratch + maps.len() as u32);
            }
            Step::Zero { slot } => check_slot(*slot, buffers, &granted),
            Step::Copy { from, to, .. }
            | Step::Exchange { from, to, .. }
            | Step::Dequant { from, to, .. } => {
                check_slot(from.slot, buffers, &granted);
                check_slot(to.slot, buffers, &granted);
            }
            Step::Launch(l) => {
                check_launch(l);
                check_maps(&l.tensor_maps, buffers, &granted);
                for a in &l.args {
                    match a {
                        Arg::Buffer(place) => check_slot(place.slot, buffers, &granted),
                        Arg::Descriptor(i) => assert!((*i as usize) < l.tensor_maps.len()),
                        _ => {}
                    }
                }
            }
        }
    }
}

#[test]
fn attention_gradients_use_known_memory() {
    let s = scale();
    let n = 2 * 3 * 8 * 16;
    check_closed(&flash_attn_backward_bf16(n, n, n, n, n, n, n, 2, 3, 8, 16, s, true), 7);
    let (q, kv) = (4 * 8 * 16, 2 * 8 * 16);
    let p = flash_attn_backward_bf16_gqa(q, kv, kv, q, q, kv, kv, 1, 4, 2, 8, 16, s, false);
    check_closed(&p, 7);
    let p = flash_attn_backward_fp8kv_bf16(n, n, n, n, n, n, n, 2, 3, 8, 16, s, s, true);
    check_closed(&p, 7);
    let b = big();
    for kv_heads in [1, 2, 4] {
        let p = flash_attn_backward_bf16_paged(
            b, b, b, b, b, b, b, b, 1, 4, kv_heads, 10, 10, 16, 4, 3, s, false,
        );
        check_closed(&p, 8);
        let p = flash_attn_backward_bf16_paged(
            b, b, b, b, b, b, b, b, 1, 4, kv_heads, 12, 12, 16, 4, 3, s, false,
        );
        check_closed(&p, 8);
    }
    let n = 12 * 2 * 16;
    let cu = [0, 4, 4, 12];
    let p = flash_attn_backward_bf16_varlen(n, n, n, n, n, n, n, &cu, 2, 16, s, true);
    check_closed(&p, 7);
}

#[test]
fn product_gradients_use_known_memory() {
    let b = big();
    check_closed(&gemm_bf16_backward_dA_mma(b, b, b, 128, 128, 128), 3);
    check_closed(&gemm_bf16_backward_dA_mma(b, b, b, 5, 6, 7), 3);
    check_closed(&gemm_bf16_backward_dB_mma(b, b, b, 128, 128, 128), 3);
    check_closed(&gemm_bf16_backward_dB_mma(b, b, b, 5, 6, 7), 3);
    check_closed(&gemm_fp8_w8a16_backward_dA(b, b, scale(), b, 128, 128, 128), 3);
}

#[test]
fn managed_products_use_known_memory() {
    let b = big();
    let s = scale();
    for det in [false, true] {
        check_closed(&gemv_w8a16_split_k_managed(b, b, s, b, b, 16, 64, 4, det), 4);
        check_closed(&gemv_w8a16_split_k_w16_managed(b, b, s, b, b, 16, 64, 4, det), 4);
        check_closed(&gemv_bf16_split_k_managed(b, b, b, b, 16, 64, 4, det), 4);
    }
    check_closed(&gemv_w8a16_split_k_managed(b, b, s, 40, b, 16, 64, 4, true), 4);
    check_closed(&gemv_w8a16_split_k_w16_managed(b, b, s, 40, b, 16, 64, 4, true), 4);
    check_closed(&gemv_bf16_split_k_w16_managed(b, b, b, b, 16, 64, 4), 4);
    check_closed(&gemv_bf16_split_k_managed_view(b, b, b, b, 16, 64, 4), 4);
    check_closed(&gemv_bf16_split_k_v4_managed(b, b, b, b, 16, 64, 4), 4);
    check_closed(&gemm_bf16_split_k_det_managed(b, b, b, b, 64, 128, 4, 2), 4);
}

#[test]
fn compressed_decoding_uses_known_memory() {
    let b = big();
    let s = scale();
    check_closed(&mla_decode_bf16_mma_split(b, b, b, b, b, 1, 16, 4096, 8, s), 5);
    for splits in [None, Some(1), Some(8)] {
        let p = mla_decode_bf16_auto_with_splits(b, b, b, b, b, 1, 16, 4096, s, splits);
        check_closed(&p, 5);
    }
    check_closed(&fa_fp8_mla_decode_auto(b, b, b, b, b, b, b, 1, 16, 4096, s, s, s), 7);
}

#[test]
fn rings_use_known_memory() {
    let n = 2 * 128 * 128;
    check_closed(&ring_attention_bf16(n, n, n, n, 1, 2, 128, 128, scale(), 4), 4);
    let n = 2 * 64 * 128;
    let t = NcclTransport { world_size: 5, rank: 3 };
    let p = ring_attention_bf16_distributed(&t, n, n, n, n, 1, 2, 64, 64, scale());
    check_closed(&p, 4);
    let t = LoopbackTransport { world_size: 5, rank: 3 };
    let p = ring_attention_bf16_distributed(&t, n, n, n, n, 1, 2, 64, 64, scale());
    check_closed(&p, 4);
}

#[test]
fn quantized_weight_gradient_is_the_plain_one() {
    for (m, n, k) in [(128, 128, 128), (5, 6, 7), (0, 1, 1)] {
        let b = big();
        assert_eq!(
            gemm_fp8_w8a16_backward_dB(b, b, b, m, n, k),
            gemm_bf16_backward_dB_mma(b, b, b, m, n, k)
        );
    }
}

#[test]
fn automatic_products_take_their_shapes() {
    let b = big();
    for (m, n, k) in [(1, 1, 1), (5, 6, 7), (128, 63, 8), (128, 64, 16), (2048, 2048, 2048)] {
        assert!(gemm_bf16_mma_auto(b, b, b, m, n, k).is_ok());
        let (a, w, c) = ((m * k) as usize, (k * n) as usize, (m * n) as usize);
        assert!(gemm_bf16_mma_auto(a, w, c, m, n, k).is_ok());
        assert!(gemm_bf16_mma_auto(a - 1, w, c, m, n, k).is_err());
        assert!(gemm_bf16_mma_auto(a, w - 1, c, m, n, k).is_err());
        assert!(gemm_bf16_mma_auto(a, w, c - 1, m, n, k).is_err());
    }
    assert!(gemm_bf16_mma_auto(b, b, b, 128, 64, 8).is_err());
    for (m, n, k) in [(32, 32, 32), (128, 128, 96), (2048, 2048, 2048)] {
        assert!(gemm_fp8_mma_auto(b, b, b, m, n, k).is_ok());
        assert!(gemm_fp8_mma_auto(b, b, b, m + 1, n, k).is_err());
        assert!(gemm_fp8_mma_auto(b, b, b, m, n + 16, k).is_err());
        assert!(gemm_fp8_mma_auto(b, b, b, m, n, k + 16).is_err());
    }
}

#[test]
fn launched_appends_write_inside_the_cache() {
    let (max_seq, heads, dim) = (10u32, 3u32, 8u32);
    let cache = (max_seq * heads * dim) as usize;
    let row = (heads * dim) as usize;
    let mut ends: Vec<u32> = vec![];
    for head in 0..heads {
        for position in 0..max_seq {
            let r = kv_append_strided_bf16(row, row, cache, cache, position, max_seq, heads, dim);
            assert!(r.is_ok());
            let start = (head * max_seq + position) * dim;
            assert!(ends.iter().all(|e| *e <= start));
            assert!((start + dim) as usize <= cache);
            ends.push(start + dim);
        }
    }
    assert!(kv_append_strided_bf16(row, row, cache, cache, 10, max_seq, heads, dim).is_err());
    assert!(kv_append_strided_bf16(row, row, cache - 1, cache, 9, max_seq, heads, dim).is_err());
    assert!(kv_append_strided_bf16(row, row, cache, cache - 1, 9, max_seq, heads, dim).is_err());
}

fn way(l: &Launch) -> (&str, &str, (u32, u32, u32), (u32, u32, u32), u32) {
    (l.kernel, l.entry, l.grid, l.block, l.shared_mem)
}

#[test]
fn c_launches_run_library_kernels() {
    let b = big();
    let p = SparkGemmParams { a: 1, b: 2, c: 3, m: 256, n: 128, k: 64, dtype: SparkDtype::BF16 };
    assert_eq!(
        way(&launch_gemm_bf16_mma(&p).unwrap()),
        way(&gemm_bf16_mma(b, b, b, 256, 128, 64).unwrap())
    );
    assert_eq!(
        way(&launch_gemm_fp8_mma(&p).unwrap()),
        way(&gemm_fp8_mma(b, b, b, 256, 128, 64).unwrap())
    );
    let p = SparkFlashAttnParams {
        q: 1,
        k: 2,
        v: 3,
        o: 4,
        batch: 2,
        num_heads: 3,
        seq_q: 130,
        seq_kv: 140,
        head_dim: 128,
        scale: scale(),
        dtype: SparkDtype::BF16,
        causal: 0,
    };
    assert_eq!(
        way(&launch_fa_bf16_v3(&p).unwrap()),
        way(&flash_attn_bf16_v3_d128(b, b, b, b, 2, 3, 130, 140, scale()).unwrap())
    );
    assert_eq!(
        way(&launch_fa_bf16_v3_causal(&p).unwrap()),
        way(&flash_attn_bf16_v3_d128_causal(b, b, b, b, 2, 3, 130, 140, scale()).unwrap())
    );
}
