use sm121_kernels::error::{Result, SparkError};
use sm121_kernels::gemm::{
    gemm_bf16, gemm_bf16_backward_dA_mma, gemm_bf16_backward_dB_mma, gemm_bf16_mma,
    gemm_bf16_mma_auto, gemm_bf16_mma_v4_k64, gemm_bf16_split_k_det_managed, gemm_fp8_mma_auto,
    gemm_fp8_mma_v3_5, gemm_fp8_w8a16_backward_dA, gemm_w8a16_mma_v3, gemv_w8a16_split_k,
    gemv_w8a16_split_k_managed, gemv_w8a16_split_k_w16_managed, is_deterministic, transpose_bf16,
};
use sm121_kernels::plan::{Arg, Launch, Place, Slot, F32};
use sm121_kernels::program::{Elem, Program, Step};

fn refusal(r: Result<Launch>) -> String {
    match r {
        Err(SparkError::InvalidArgument(m)) => m,
        other => panic!("not a refusal: {:?}", other),
    }
}

fn scale() -> F32 {
    F32 { bits: 0.5f32.to_bits() }
}

fn kernels(p: &Program) -> Vec<&'static str> {
    p.steps
        .iter()
        .filter_map(|s| match s {
            Step::Launch(l) => Some(l.kernel),
            _ => None,
        })
        .collect()
}

fn big() -> usize {
    usize::MAX
}

#[test]
fn tensor_core_product_takes_whole_tiles() {
    let l = gemm_bf16_mma(128 * 16, 16 * 64, 128 * 64, 128, 64, 16).unwrap();
    assert_eq!(l.kernel, "gemm_bf16_mma");
    assert_eq!(l.grid, (1, 1, 1));
    assert_eq!(l.block, (128, 1, 1));
    assert_eq!(l.shared_mem, 12288);
    assert_eq!(
        l.args,
        vec![
            Arg::param(0),
            Arg::param(1),
            Arg::param(2),
            Arg::Word(128),
            Arg::Word(64),
            Arg::Word(16),
        ]
    );
    let l = gemm_bf16_mma(big(), big(), big(), 384, 640, 32).unwrap();
    assert_eq!(l.grid, (10, 3, 1));
}

#[test]
fn tensor_core_product_refuses_partial_tiles() {
    assert_eq!(
        refusal(gemm_bf16_mma(big(), big(), big(), 64, 64, 16)),
        "BF16 MMA GEMM requires M divisible by 128 and N by 64: M=64, N=64"
    );
    assert_eq!(
        refusal(gemm_bf16_mma(big(), big(), big(), 128, 64, 8)),
        "BF16 MMA GEMM requires K divisible by 16: K=8"
    );
    assert_eq!(
        refusal(gemm_bf16_mma(2047, big(), big(), 128, 64, 16)),
        "A buffer too small: 2047 < 2048"
    );
    assert_eq!(
        refusal(gemm_bf16_mma(2048, 1023, big(), 128, 64, 16)),
        "B buffer too small: 1023 < 1024"
    );
    assert_eq!(
        refusal(gemm_bf16_mma(2048, 1024, 8191, 128, 64, 16)),
        "C buffer too small: 8191 < 8192"
    );
}

#[test]
fn plain_product_takes_any_shape() {
    let l = gemm_bf16(big(), big(), big(), 5, 7, 3).unwrap();
    assert!(l.grid.0 >= 1 && l.grid.1 >= 1);
    assert!(gemm_bf16(big(), big(), big(), 0, 7, 3).is_err());
    assert!(gemm_bf16(14, 21, 35, 5, 7, 3).is_err());
    assert!(gemm_bf16(15, 21, 35, 5, 7, 3).is_ok());
}

#[test]
fn automatic_choice_by_shape() {
    let pick = |m, n, k| gemm_bf16_mma_auto(big(), big(), big(), m, n, k).unwrap().kernel;
    assert_eq!(pick(4, 64, 16), gemm_bf16(big(), big(), big(), 4, 64, 16).unwrap().kernel);
    assert_eq!(pick(128, 64, 16), "gemm_bf16_mma");
    assert_eq!(pick(128, 4096, 1024), "gemm_bf16_mma");
    assert_eq!(pick(256, 4096, 1024), "gemm_bf16_mma_v3");
    assert_eq!(pick(1024, 1024, 1024), "gemm_bf16_mma_v3");
    assert_eq!(pick(4096, 4096, 4096), "gemm_bf16_mma_v3");
    assert_eq!(pick(1024, 4096, 4096), "gemm_bf16_mma_v3");
    assert_eq!(pick(128, 65536, 1024), "gemm_bf16_mma_v4");
    assert_eq!(pick(1920, 65536, 1024), "gemm_bf16_mma_v4");
    assert_eq!(pick(2048, 65536, 1024), "gemm_bf16_mma_v3");
    assert_eq!(pick(128, 65536, 992), "gemm_bf16_mma");
    let n = 2048 * 2048;
    let l = gemm_bf16_mma_auto(n, n, n, 2048, 2048, 2048).unwrap();
    assert_eq!((l.kernel, l.grid), ("gemm_bf16_mma_v3", (16, 16, 1)));
}

#[test]
fn automatic_fp8_choice_by_shape() {
    let pick = |m, n, k| {
        let l = gemm_fp8_mma_auto(big(), big(), big(), m, n, k).unwrap();
        (l.kernel, l.grid)
    };
    assert_eq!(pick(256, 4096, 32), ("gemm_fp8_mma", (128, 8, 1)));
    assert_eq!(pick(1024, 1024, 32), ("gemm_fp8_mma_v3", (8, 8, 1)));
    assert_eq!(pick(896, 1024, 32).0, "gemm_fp8_mma");
    assert_eq!(pick(1024, 896, 32).0, "gemm_fp8_mma");
    assert_eq!(pick(1056, 1024, 32).0, "gemm_fp8_mma");
}

#[test]
fn deep_pipeline_takes_two_stages() {
    let l = gemm_bf16_mma_v4_k64(big(), big(), big(), 256, 128, 64).unwrap();
    assert_eq!((l.grid, l.block, l.shared_mem), ((1, 2, 1), (288, 1, 1), 65584));
}

#[test]
fn automatic_choice_passes_the_refusal_of_its_kernel_on() {
    assert_eq!(
        gemm_bf16_mma_auto(1, 1, 1, 128, 64, 16),
        gemm_bf16_mma(1, 1, 1, 128, 64, 16)
    );
    assert!(gemm_fp8_mma_auto(1, 1, 1, 128, 128, 64).is_err());
}

#[test]
fn pipelined_fp8_product_takes_whole_pipeline_rounds() {
    assert!(gemm_fp8_mma_v3_5(big(), big(), big(), 128, 128, 96).is_ok());
    assert!(gemm_fp8_mma_v3_5(big(), big(), big(), 128, 128, 192).is_ok());
    assert!(gemm_fp8_mma_v3_5(big(), big(), big(), 128, 128, 32).is_err());
    assert!(gemm_fp8_mma_v3_5(big(), big(), big(), 128, 128, 64).is_err());
}

#[test]
fn scaled_product_needs_a_positive_scale() {
    let l = gemm_w8a16_mma_v3(big(), big(), big(), 128, 128, 64, scale(), "0.5");
    assert!(l.is_ok());
    let zero = F32 { bits: 0 };
    let nan = F32 { bits: f32::NAN.to_bits() };
    let inf = F32 { bits: f32::INFINITY.to_bits() };
    let minus = F32 { bits: (-1.0f32).to_bits() };
    for (bad, text) in [(zero, "0"), (nan, "NaN"), (inf, "inf"), (minus, "-1")] {
        let m = refusal(gemm_w8a16_mma_v3(big(), big(), big(), 128, 128, 64, bad, text));
        assert!(m.contains(text));
    }
}

#[test]
fn split_vector_product_shares_the_inner_dimension() {
    let l = gemv_w8a16_split_k(4096, 4096 * 2048, scale(), 2048, 2048, 4096, 8).unwrap();
    assert_eq!(l.grid, (2, 8, 1));
    assert_eq!(l.block, (128, 1, 1));
    assert_eq!(l.shared_mem, 1024);
    assert_eq!(
        l.args,
        vec![
            Arg::param(0),
            Arg::param(1),
            Arg::param(2),
            Arg::Scalar(scale()),
            Arg::Word(2048),
            Arg::Word(4096),
            Arg::Word(512),
        ]
    );
    assert_eq!(
        refusal(gemv_w8a16_split_k(big(), big(), scale(), big(), 12, 64, 1)),
        "gemv_w8a16_split_k requires N divisible by 8, got 12"
    );
    assert_eq!(
        refusal(gemv_w8a16_split_k(big(), big(), scale(), big(), 8, 49153, 1)),
        "gemv_w8a16_split_k: k_shard=49153 exceeds SMEM budget"
    );
    assert_eq!(refusal(gemv_w8a16_split_k(63, big(), scale(), big(), 8, 64, 1)), "buffer sizes");
    assert_eq!(refusal(gemv_w8a16_split_k(64, big(), scale(), 8, 8, 64, 0)), "dims must be > 0");
}

#[test]
fn managed_vector_product_is_deterministic_on_request() {
    let run = |scratch, deterministic| {
        gemv_w8a16_split_k_managed(big(), big(), scale(), scratch, big(), 16, 64, 4, deterministic)
    };
    let staged = run(64, true);
    assert_eq!(kernels(&staged), vec!["gemv_w8a16_split_k_det", "f32_shard_reduce_to_bf16"]);
    assert_eq!(staged.steps.len(), 2);
    // A scratch without the room is left alone, and all shards are staged elsewhere.
    for scratch in [63, 16] {
        let p = run(scratch, true);
        assert!(p.end.is_ok());
        assert_eq!(kernels(&p), kernels(&staged));
        assert_eq!(
            p.steps[0],
            Step::Alloc { scratch: 0, elem: Elem::F32, len: 64, failure: None }
        );
        match (&p.steps[1], &p.steps[2]) {
            (Step::Launch(product), Step::Launch(reduce)) => {
                assert_eq!(product.grid, (1, 4, 1));
                assert_eq!(product.args[2], Arg::Buffer(Place::scratch(0)));
                assert_eq!(reduce.args[0], Arg::Buffer(Place::scratch(0)));
                assert_eq!(reduce.args[1], Arg::Buffer(Place::param(3)));
                assert_eq!(reduce.args[3], Arg::Word(4));
            }
            other => panic!("not launches: {:?}", other),
        }
    }
    assert_eq!(run(15, true), run(15, false));
    assert!(run(15, true).end.is_err());
    let long = gemv_w8a16_split_k_managed(big(), big(), scale(), 8, big(), 8, 100000, 4, true);
    assert!(long.end.is_ok());
    assert_eq!(kernels(&long), kernels(&staged));
    let wide = gemv_w8a16_split_k_w16_managed(big(), big(), scale(), 40, big(), 16, 64, 4, true);
    assert!(wide.end.is_ok());
    assert_eq!(kernels(&wide), vec!["gemv_w8a16_split_k_w16_det", "f32_shard_reduce_to_bf16"]);
    let fast = run(64, false);
    assert_eq!(kernels(&fast), vec!["gemv_w8a16_split_k", "f32_to_bf16"]);
    assert_eq!(fast.steps[0], Step::Zero { slot: Slot::Param(2) });
    assert!(fast.end.is_ok());
}

#[test]
fn determinism_is_a_setting() {
    assert!(!is_deterministic(None));
    assert!(is_deterministic(Some("1")));
    assert!(!is_deterministic(Some("0")));
}

#[test]
fn staged_product_reduces_its_shards() {
    let p = gemm_bf16_split_k_det_managed(big(), big(), big(), big(), 64, 128, 4, 2);
    assert_eq!(kernels(&p).len(), 2);
    assert!(p.end.is_ok());
}

#[test]
fn transpose_takes_square_tiles() {
    let l = transpose_bf16(6, 6, 2, 3).unwrap();
    assert!(l.args.contains(&Arg::Word(2)) && l.args.contains(&Arg::Word(3)));
    assert!(transpose_bf16(5, 6, 2, 3).is_err());
    assert!(transpose_bf16(6, 5, 2, 3).is_err());
    assert!(transpose_bf16(6, 6, 0, 3).is_err());
}

#[test]
fn gradients_transpose_into_scratch_first() {
    let p = gemm_bf16_backward_dA_mma(big(), big(), big(), 128, 128, 128);
    assert!(p.end.is_ok());
    assert!(matches!(p.steps[0], Step::Alloc { .. }));
    let names = kernels(&p);
    assert_eq!(names[0], transpose_bf16(1, 1, 1, 1).unwrap().kernel);
    assert_eq!(names.len(), 2);
    let q = gemm_bf16_backward_dB_mma(big(), big(), big(), 128, 128, 128);
    assert_eq!(kernels(&q), names);
    match &p.steps[1] {
        Step::Launch(l) => {
            assert_eq!(l.args[1], Arg::Buffer(Place { slot: Slot::Scratch(0), start: 0 }))
        }
        other => panic!("not a launch: {:?}", other),
    }
}

#[test]
fn quantized_gradient_dequantizes_first() {
    let p = gemm_fp8_w8a16_backward_dA(big(), big(), scale(), big(), 128, 128, 128);
    assert!(p.steps.iter().any(|s| matches!(s, Step::Dequant { .. })));
    assert!(p.end.is_ok());
}
