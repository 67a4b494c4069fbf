use sm121_kernels::attention::{
    flash_attn_backward_bf16, flash_attn_backward_bf16_gqa, flash_attn_backward_bf16_paged,
    flash_attn_backward_bf16_varlen, flash_attn_bf16_d128, flash_attn_bf16_v11_fused_scale,
    flash_attn_bf16_v21_softcap_causal, flash_attn_bf16_v21_swa, flash_attn_bf16_v21_swa_softcap,
    flash_attn_bf16_v21_varlen, flash_attn_bf16_v21_varlen_gqa, flash_attn_bf16_v3_d128,
    flash_attn_bf16_v3_d256_gqa, flash_attn_bf16_v3_d256_gqa_causal,
    flash_attn_bf16_decode_d256_gqa_pos_dev, flash_attn_bf16_decode_d256_gqa_pos_dev_view,
    flash_attn_bf16_decode_d512_gqa_pos_dev, flash_attn_bf16_decode_d512_gqa_pos_dev_view,
    flash_attn_bf16_v3_d256_gqa_causal_with_offset, flash_attn_fp8_v12c_vt,
    flash_attn_fp8_v3_paged_kv, flash_attn_fp8_v3_paged_kv_causal, medusa_draft_heads,
    mla_decode_bf16_auto, mla_decode_bf16_auto_with_splits, mtp_draft_heads, nsa_attention_bf16,
};
use sm121_kernels::attention::sparse::dsa_attention_bf16;
use sm121_kernels::error::{DriverError, Result, SparkError};
use sm121_kernels::plan::{Arg, Launch, MapElem, Place, Slot, Swizzle, F32};
use sm121_kernels::program::{Program, Step};

fn refusal(r: Result<Launch>) -> String {
    match r {
        Err(SparkError::InvalidArgument(m)) => m,
        other => panic!("not a refusal: {:?}", other),
    }
}

fn program_refusal(p: &Program) -> String {
    match &p.end {
        Err(SparkError::InvalidArgument(m)) => m.clone(),
        other => panic!("not a refusal: {:?}", other),
    }
}

fn scale() -> F32 {
    F32 { bits: 0.125f32.to_bits() }
}

fn launches(p: &Program) -> Vec<&Launch> {
    p.steps
        .iter()
        .filter_map(|s| match s {
            Step::Launch(l) => Some(l),
            _ => None,
        })
        .collect()
}

fn at(slot: Slot, start: u64) -> Arg {
    Arg::Buffer(Place { slot, start })
}

#[test]
fn dense_attention_takes_one_block_per_row_tile_and_head() {
    let n = 2 * 4 * 200 * 128;
    let l = flash_attn_bf16_v3_d128(n, n, n, n, 2, 4, 200, 200, scale()).unwrap();
    assert_eq!(l.kernel, "fa_bf16_v3_d128");
    assert_eq!(l.entry, "flash_attn_bf16_v3_d128");
    assert_eq!(l.grid, (2, 4, 2));
    assert_eq!(l.block, (256, 1, 1));
    assert_eq!(
        l.args,
        vec![
            Arg::param(0),
            Arg::param(1),
            Arg::param(2),
            Arg::param(3),
            Arg::Word(200),
            Arg::Word(200),
            Arg::Word(4),
            Arg::Scalar(scale()),
        ]
    );
}

#[test]
fn attention_refuses_empty_dimensions_and_small_buffers() {
    let f = |b, h, sq, skv| refusal(flash_attn_bf16_d128(0, 0, 0, 0, b, h, sq, skv, scale()));
    assert_eq!(f(0, 1, 1, 1), "batch must be > 0");
    assert_eq!(f(1, 0, 1, 1), "num_heads must be > 0");
    assert_eq!(f(1, 1, 0, 1), "seq_q must be > 0");
    assert_eq!(f(1, 1, 1, 0), "seq_kv must be > 0");
    let g = |q, k, v, o| refusal(flash_attn_bf16_d128(q, k, v, o, 1, 2, 3, 5, scale()));
    assert_eq!(g(767, 1280, 1280, 768), "Q buffer too small: 767 < 768");
    assert_eq!(g(768, 1279, 1280, 768), "K buffer too small: 1279 < 1280");
    assert_eq!(g(768, 1280, 1279, 768), "V buffer too small: 1279 < 1280");
    assert_eq!(g(768, 1280, 1280, 767), "O buffer too small: 767 < 768");
}

#[test]
fn streamed_attention_describes_its_tensors() {
    let n = 2 * 64 * 128;
    let l = flash_attn_bf16_v11_fused_scale(n, n, n, n, 1, 2, 64, 64, scale()).unwrap();
    assert!(!l.tensor_maps.is_empty());
    for m in &l.tensor_maps {
        assert_eq!(m.elem, MapElem::Bf16);
        assert_eq!(m.dims[0], 128);
        assert_eq!(m.strides, vec![256]);
    }
    assert!(l.opt_in.is_some());
    let e = l.opt_in_error(DriverError { code: 1, text: "CUDA_ERROR_INVALID_VALUE".into() });
    assert!(matches!(e, SparkError::LaunchFailed(m) if m.ends_with("CUDA_ERROR_INVALID_VALUE")));
    let e = l.tensor_maps[0].encode_error("CUDA_ERROR_INVALID_VALUE");
    assert!(matches!(e, SparkError::LaunchFailed(m) if m.ends_with("CUDA_ERROR_INVALID_VALUE")));
}

#[test]
fn fp8_attention_describes_bytes() {
    let n = 64 * 128;
    let l = flash_attn_fp8_v12c_vt(n, n, n, n, 1, 1, 64, 64, scale()).unwrap();
    assert!(l.tensor_maps.iter().all(|m| m.elem == MapElem::Byte));
}

#[test]
fn packed_sequences_need_one_boundary_more_than_sequences() {
    let f = |cu| {
        flash_attn_bf16_v21_varlen(1, 1, 1, 1, cu, cu, 3, 2, 100, 250, 250, scale())
    };
    assert_eq!(refusal(f(3)), "cu_seqlens too small: need 4");
    let l = f(4).unwrap();
    assert_eq!(l.kernel, "fa_bf16_v21_varlen");
    assert_eq!(l.entry, "flash_attn_bf16_v21_varlen");
    assert_eq!(l.grid, (2, 2, 3));
    assert_eq!(l.block, (160, 1, 1));
    assert_eq!(l.shared_mem, 82032);
    assert_eq!(l.args.len(), 9);
    assert_eq!(l.tensor_maps[0].dims, vec![128, 500]);
    assert_eq!(l.tensor_maps[0].tile, vec![64, 64]);
    assert_eq!(l.tensor_maps[0].swizzle, Swizzle::Bytes128);
    assert_eq!(l.failure, Some("flash_attn_bf16_v21_varlen launch failed: ".into()));
    let g = flash_attn_bf16_v21_varlen_gqa(1, 1, 1, 1, 4, 4, 3, 4, 2, 100, 250, 250, scale());
    let g = g.unwrap();
    assert_eq!(g.args.len(), 11);
    assert_eq!(g.tensor_maps[1].dims, vec![128, 500]);
    assert_eq!(
        refusal(flash_attn_bf16_v21_varlen_gqa(
            1, 1, 1, 1, 4, 4, 3, 3, 2, 100, 250, 250, scale()
        )),
        "num_heads_q (3) must be divisible by num_heads_kv (2)"
    );
}

#[test]
fn masks_add_their_scalars_last() {
    let n = 64 * 128;
    let cap = F32 { bits: 30.0f32.to_bits() };
    let a = flash_attn_bf16_v21_softcap_causal(n, n, n, n, 1, 1, 64, 64, scale(), cap).unwrap();
    assert_eq!(a.args.last(), Some(&Arg::Scalar(cap)));
    let b = flash_attn_bf16_v21_swa(n, n, n, n, 1, 1, 64, 64, scale(), 16).unwrap();
    assert_eq!(b.args.last(), Some(&Arg::Word(16)));
    let c = flash_attn_bf16_v21_swa_softcap(n, n, n, n, 1, 1, 64, 64, scale(), 16, cap).unwrap();
    assert_eq!(c.args[8..], [Arg::Word(16), Arg::Scalar(cap)]);
}

#[test]
fn causal_attention_is_causal_attention_from_position_zero() {
    let (q, kv) = (8 * 32 * 256, 2 * 32 * 256);
    let a = flash_attn_bf16_v3_d256_gqa_causal(q, kv, kv, q, 1, 8, 2, 32, 32, scale());
    let b =
        flash_attn_bf16_v3_d256_gqa_causal_with_offset(q, kv, kv, q, 1, 8, 2, 32, 32, scale(), 0);
    assert_eq!(a, b);
    assert!(a.is_ok());
    assert_ne!(a, flash_attn_bf16_v3_d256_gqa(q, kv, kv, q, 1, 8, 2, 32, 32, scale()));
}

#[test]
fn position_sparse_attention_is_block_sparse_attention_with_blocks_of_one() {
    let n = 2 * 16 * 128;
    let a = dsa_attention_bf16(n, n, n, 2 * 16 * 4, n, 1, 2, 16, 16, 4, scale());
    let b = nsa_attention_bf16(n, n, n, 2 * 16 * 4, n, 1, 2, 16, 16, 4, 1, scale());
    assert_eq!(a, b);
    assert!(a.is_ok());
}

#[test]
fn medusa_heads_are_draft_heads() {
    let a = medusa_draft_heads(64, 3 * 10 * 32, 2 * 3 * 10, 2, 3, 10, 32);
    let b = mtp_draft_heads(64, 3 * 10 * 32, 2 * 3 * 10, 2, 3, 10, 32);
    assert_eq!(a, b);
    assert!(a.is_ok());
}

#[test]
fn compressed_decoding_picks_its_splits() {
    let (b, s) = (1u32, 4096u32);
    let big = usize::MAX;
    let one = mla_decode_bf16_auto(big, big, big, big, big, b, 16, 32, scale());
    assert_eq!(launches(&one).len(), 1);
    assert_eq!(launches(&one)[0].kernel, "fa_bf16_mla_decode_mma_tma");
    assert_eq!(launches(&one)[0].grid, (1, 1, 1));
    let open = mla_decode_bf16_auto_with_splits(big, big, big, big, big, b, 16, 63, scale(), None);
    assert_eq!(open, mla_decode_bf16_auto(big, big, big, big, big, b, 16, 63, scale()));
    let whole =
        mla_decode_bf16_auto_with_splits(big, big, big, big, big, b, 16, 63, scale(), Some(1));
    assert_eq!(launches(&whole)[0].kernel, "fa_bf16_mla_decode_mma_tma_pq");
    let odd = mla_decode_bf16_auto(big, big, big, big, big, b, 8, s, scale());
    assert_eq!(launches(&odd).len(), 1);
    assert_ne!(launches(&odd)[0].kernel, launches(&one)[0].kernel);
    let auto = mla_decode_bf16_auto(big, big, big, big, big, b, 16, s, scale());
    let given =
        mla_decode_bf16_auto_with_splits(big, big, big, big, big, b, 16, s, scale(), Some(16));
    assert_eq!(auto, given);
    let fewer =
        mla_decode_bf16_auto_with_splits(big, big, big, big, big, b, 16, s, scale(), Some(4));
    assert_ne!(auto, fewer);
}

#[test]
fn backward_works_head_by_head() {
    let (heads, seq, d) = (6u32, 8u32, 16u32);
    let n = (heads * seq * d) as usize;
    let p = flash_attn_backward_bf16(n, n, n, n, n, n, n, 2, 3, seq, d, scale(), true);
    assert!(p.end.is_ok());
    assert_eq!(p.steps.len(), 6 + 8 * 6);
    assert_eq!(
        p.steps[0],
        Step::Load {
            kernel: "fa_bw_recompute_p_causal_bf16",
            entry: "fa_bw_recompute_p_causal_bf16"
        }
    );
    let l = launches(&p);
    assert_eq!(l[0].args[0], at(Slot::Param(0), 0));
    assert_eq!(l[8].args[0], at(Slot::Param(0), 128));
    assert_eq!(l[40].args[1], at(Slot::Param(1), 640));
    assert_eq!(l[0].args[2], at(Slot::Scratch(0), 0));
    assert_eq!(l[0].grid, (8, 1, 1));
}

#[test]
fn backward_refuses_small_buffers() {
    let p = flash_attn_backward_bf16(767, 768, 768, 768, 768, 768, 768, 2, 3, 8, 16, scale(), true);
    assert_eq!(program_refusal(&p), "buffers too small: need 768 BF16 elements");
    assert!(p.steps.is_empty());
    let p = flash_attn_backward_bf16(0, 0, 0, 0, 0, 0, 0, 0, 3, 8, 16, scale(), true);
    assert_eq!(program_refusal(&p), "dims must be > 0");
}

#[test]
fn grouped_backward_expands_and_sums_the_key_heads() {
    let (q, kv) = (4 * 8 * 16, 2 * 8 * 16);
    let p = flash_attn_backward_bf16_gqa(
        q, kv, kv, q, q, kv, kv, 1, 4, 2, 8, 16, scale(), false,
    );
    assert!(p.end.is_ok());
    let l = launches(&p);
    assert_eq!(l[0].kernel, "repeat_kv_groups_bf16");
    assert_eq!(l[1].kernel, "repeat_kv_groups_bf16");
    assert_eq!(l[l.len() - 1].kernel, "sum_kv_groups_bf16");
    assert_eq!(l.len(), 4 + 8 * 4);
    let p = flash_attn_backward_bf16_gqa(q, kv, kv, q, q, kv, kv, 1, 4, 3, 8, 16, scale(), false);
    assert_eq!(program_refusal(&p), "num_heads_kv (3) must divide num_heads_q (4)");
}

#[test]
fn paged_backward_works_on_whole_pages() {
    let big = usize::MAX;
    let p = flash_attn_backward_bf16_paged(
        big, big, big, big, big, big, big, big, 1, 2, 2, 10, 10, 16, 4, 3, scale(), false,
    );
    assert!(p.end.is_ok());
    match &p.steps[0] {
        Step::Alloc { len, .. } => assert_eq!(*len, 2 * 12 * 16),
        other => panic!("not memory: {:?}", other),
    }
    let q = flash_attn_backward_bf16_paged(
        big, big, big, big, big, big, big, big, 1, 2, 2, 10, 11, 16, 4, 3, scale(), false,
    );
    assert_eq!(program_refusal(&q), "paged backward requires seq_q == seq_kv (training case)");
}

#[test]
fn paged_backward_fills_the_last_page_up() {
    let run = |q, d_out, dq| {
        flash_attn_backward_bf16_paged(
            q, 4, 4, d_out, dq, 4, 4, 2, 1, 1, 1, 3, 3, 1, 2, 2, scale(), true,
        )
    };
    let p = run(3, 3, 3);
    assert!(p.end.is_ok());
    let copies: Vec<(Place, Place, u64)> = p
        .steps
        .iter()
        .filter_map(|s| match s {
            Step::Copy { from, to, len } => Some((*from, *to, *len)),
            _ => None,
        })
        .collect();
    assert_eq!(
        copies,
        vec![
            (Place::param(0), Place::scratch(4), 3),
            (Place::param(3), Place::scratch(5), 3),
            (Place::scratch(6), Place::param(4), 3),
        ]
    );
    for p in [run(2, 3, 3), run(3, 2, 3), run(3, 3, 2)] {
        assert_eq!(program_refusal(&p), "buffers too small: need 3 BF16 elements");
    }
    // Two heads of three rows in pages of two.
    let p = flash_attn_backward_bf16_paged(
        30, 40, 40, 30, 30, 40, 40, 2, 1, 2, 2, 3, 3, 5, 2, 2, scale(), true,
    );
    assert!(p.end.is_ok());
    assert!(p.steps.contains(&Step::Copy {
        from: Place::within(0, 15),
        to: Place::within_scratch(4, 20),
        len: 15
    }));
    assert!(p.steps.contains(&Step::Copy {
        from: Place::within_scratch(6, 20),
        to: Place::within(4, 15),
        len: 15
    }));
    // Whole pages are worked on in place.
    let p = flash_attn_backward_bf16_paged(
        4, 4, 4, 4, 4, 4, 4, 2, 1, 1, 1, 4, 4, 1, 2, 2, scale(), true,
    );
    assert!(p.end.is_ok());
    assert!(!p.steps.iter().any(|s| matches!(s, Step::Copy { .. })));
}

#[test]
fn paged_fp8_attention_takes_tiles_of_64_rows() {
    let b = usize::MAX;
    let l = flash_attn_fp8_v3_paged_kv(b, b, b, b, b, 2, 4, 2, 130, 130, 16, 9, scale()).unwrap();
    assert_eq!((l.grid, l.block), ((3, 4, 2), (160, 1, 1)));
    let l = flash_attn_fp8_v3_paged_kv_causal(b, b, b, b, b, 2, 4, 2, 130, 130, 16, 9, scale())
        .unwrap();
    assert_eq!((l.grid, l.block), ((2, 4, 2), (256, 1, 1)));
}

#[test]
fn decoding_on_views_is_decoding() {
    let b = usize::MAX;
    let d512 = |window| {
        flash_attn_bf16_decode_d512_gqa_pos_dev_view(
            b, b, b, b, 2, 8, 4, 64, 2, window, scale(),
        )
    };
    let whole = flash_attn_bf16_decode_d512_gqa_pos_dev(b, b, b, b, 2, 8, 4, 64, 2, scale());
    assert_eq!(d512(0), whole);
    let mut args = whole.unwrap().args;
    args.insert(8, Arg::Word(128));
    assert_eq!(d512(128).unwrap().args, args);
    for window in [0, 128] {
        let view = flash_attn_bf16_decode_d256_gqa_pos_dev_view(
            b, b, b, b, 2, 8, 4, 64, 2, window, scale(),
        );
        assert_eq!(
            view,
            flash_attn_bf16_decode_d256_gqa_pos_dev(b, b, b, b, 2, 8, 4, 64, 2, window, scale())
        );
        assert!(view.is_ok());
    }
}

#[test]
fn packed_backward_keeps_sequences_apart() {
    let (h, d) = (2u32, 16u32);
    let cu = [0u32, 4, 4, 12];
    let n = (12 * h * d) as usize;
    let p = flash_attn_backward_bf16_varlen(n, n, n, n, n, n, n, &cu, h, d, scale(), true);
    let mut moved: Vec<(u32, u64, u32)> = vec![];
    for l in launches(&p) {
        let own: Vec<Place> = l
            .args
            .iter()
            .filter_map(|a| match a {
                Arg::Buffer(p) if matches!(p.slot, Slot::Param(_)) => Some(*p),
                _ => None,
            })
            .collect();
        if own.is_empty() {
            continue;
        }
        assert_eq!(own.len(), 1);
        match (own[0].slot, l.args[2]) {
            (Slot::Param(i), Arg::Word(tokens)) => moved.push((i, own[0].start, tokens)),
            other => panic!("not a move: {:?}", other),
        }
    }
    let of = |start: u64, tokens: u32| (0..7u32).map(move |i| (i, start, tokens));
    let want: Vec<(u32, u64, u32)> = of(0, 4).chain(of(4 * 32, 8)).collect();
    assert_eq!(moved, want);
}

#[test]
fn packed_backward_skips_empty_sequences() {
    let n = 12 * 2 * 16;
    let p = flash_attn_backward_bf16_varlen(
        n, n, n, n, n, n, n, &[0, 4, 4, 12], 2, 16, scale(), true,
    );
    assert!(p.end.is_ok());
    // Seven copies, then per sequence four gathers, the backward pass and three scatters.
    assert_eq!(p.steps.len(), 7 + 2 * (4 + 6 + 8 * 2 + 3));
    let l = launches(&p);
    assert_eq!(l[0].args[0], at(Slot::Param(0), 0));
    assert_eq!(l[23].args[0], at(Slot::Param(0), 4 * 32));
    let p = flash_attn_backward_bf16_varlen(n, n, n, n, n, n, n, &[0], 2, 16, scale(), true);
    assert_eq!(program_refusal(&p), "cu_seqlens must have at least 2 entries (batch >= 1)");
    let p = flash_attn_backward_bf16_varlen(n, n, n, n, n, n, n, &[1, 2], 2, 16, scale(), true);
    assert_eq!(program_refusal(&p), "cu_seqlens[0] must be 0");
    let p = flash_attn_backward_bf16_varlen(
        n, n - 1, n, n, n, n, n, &[0, 4, 4, 12], 2, 16, scale(), true,
    );
    assert_eq!(program_refusal(&p), "k too small: 383 < 384");
}
