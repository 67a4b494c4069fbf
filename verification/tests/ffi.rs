use sm121_kernels::device::Probe;
use sm121_kernels::error::{DriverError, SparkError};
use sm121_kernels::ffi::launch::rope_is_countable;
use sm121_kernels::ffi::{
    error_to_status, finish, launch_activation, launch_fa_fp8_causal, launch_gemm_bf16_mma,
    launch_moe, launch_rope, spark_activation, spark_destroy, spark_flash_attention,
    spark_flash_attention_varlen, spark_gemm, spark_gemm_nvfp4, spark_gemm_w4a16, spark_init,
    spark_moe_routing, spark_rmsnorm, spark_rope, spark_synchronize, spark_topk_sampling,
    validate_gemm_dims_ffi, validate_mma_alignment_ffi, SparkActivationParams,
    SparkActivationType, SparkDtype, SparkFlashAttnParams, SparkGemmParams, SparkMoeRoutingParams,
    SparkNvfp4GemmParams, SparkRmsNormParams, SparkRopeParams, SparkStatus, SparkTopkParams,
    SparkVarlenFlashAttnParams, SparkW4a16GemmParams,
};
use sm121_kernels::plan::{Arg, F32};

fn x() -> F32 {
    F32 { bits: 1.0f32.to_bits() }
}

fn attention(dtype: SparkDtype, causal: i32) -> SparkFlashAttnParams {
    SparkFlashAttnParams {
        q: 16,
        k: 32,
        v: 48,
        o: 64,
        batch: 2,
        num_heads: 3,
        seq_q: 130,
        seq_kv: 140,
        head_dim: 128,
        scale: x(),
        dtype,
        causal,
    }
}

fn gemm(m: u32, n: u32, k: u32, dtype: SparkDtype) -> SparkGemmParams {
    SparkGemmParams { a: 16, b: 32, c: 48, m, n, k, dtype }
}

fn rope(batch: u32, seq_len: u32, heads: u32, dim: u32) -> SparkRopeParams {
    SparkRopeParams { x: 16, cos_cache: 32, sin_cache: 48, batch, seq_len, heads, dim }
}

fn message(e: SparkError) -> String {
    match e {
        SparkError::InvalidArgument(m) => m,
        other => panic!("not a refusal: {:?}", other),
    }
}

#[test]
fn codes_are_those_of_the_c_header() {
    assert_eq!(SparkStatus::Success.code(), 0);
    assert_eq!(SparkStatus::ErrorInvalidArgument.code(), 1);
    assert_eq!(SparkStatus::ErrorCudaLaunch.code(), 2);
    assert_eq!(SparkStatus::ErrorKernelNotFound.code(), 3);
    assert_eq!(SparkStatus::ErrorInternal.code(), 4);
    assert_eq!(SparkDtype::BF16.code(), 0);
    assert_eq!(SparkDtype::FP8E4M3.code(), 1);
    assert_eq!(SparkDtype::FP32.code(), 2);
    assert_eq!(SparkDtype::U32.code(), 3);
    assert_eq!(SparkDtype::NVFP4.code(), 4);
    assert_eq!(SparkDtype::W4A16.code(), 5);
    assert_eq!(SparkActivationType::SiluMul.code(), 0);
    assert_eq!(SparkActivationType::GeluMul.code(), 1);
    assert_eq!(SparkActivationType::GeluTanhMul.code(), 2);
}

#[test]
fn every_error_has_a_status() {
    let d = DriverError { code: 1, text: "e".into() };
    assert_eq!(error_to_status(SparkError::Driver(d)), SparkStatus::ErrorCudaLaunch);
    let s = |e| error_to_status(e);
    assert_eq!(s(SparkError::InvalidArgument("".into())), SparkStatus::ErrorInvalidArgument);
    assert_eq!(s(SparkError::KernelNotFound("".into())), SparkStatus::ErrorKernelNotFound);
    assert_eq!(s(SparkError::LaunchFailed("".into())), SparkStatus::ErrorCudaLaunch);
    assert_eq!(
        s(SparkError::UnsupportedArch { major: 9, minor: 0 }),
        SparkStatus::ErrorInvalidArgument
    );
    assert_eq!(s(SparkError::Io("".into())), SparkStatus::ErrorInternal);
    assert_eq!(s(SparkError::Other("".into())), SparkStatus::ErrorInternal);
    assert_eq!(finish(Ok(())), SparkStatus::Success);
    assert_eq!(finish(Err(SparkError::Io("".into()))), SparkStatus::ErrorInternal);
}

#[test]
fn contexts() {
    assert_eq!(spark_init(false, None), SparkStatus::ErrorInvalidArgument);
    let good = Probe::Capability { major: 12, minor: 1 };
    assert_eq!(spark_init(true, Some(good)), SparkStatus::Success);
    let bad = Probe::Capability { major: 8, minor: 0 };
    assert_eq!(spark_init(true, Some(bad)), SparkStatus::ErrorInvalidArgument);
    let e = DriverError { code: 2, text: "OUT_OF_MEMORY".into() };
    let oom = Probe::NoContext { error: e, hint: None };
    assert_eq!(spark_init(true, Some(oom)), SparkStatus::ErrorInternal);
    assert_eq!(spark_destroy(true), SparkStatus::Success);
    assert_eq!(spark_destroy(false), SparkStatus::ErrorInvalidArgument);
    assert_eq!(spark_synchronize(true, None), SparkStatus::Success);
    assert_eq!(spark_synchronize(false, None), SparkStatus::ErrorInvalidArgument);
    let e = DriverError { code: 1, text: "e".into() };
    assert_eq!(spark_synchronize(true, Some(e)), SparkStatus::ErrorCudaLaunch);
}

#[test]
fn attention_by_type_and_causality() {
    let pick = |dtype, causal| {
        spark_flash_attention(true, Some(&attention(dtype, causal))).map(|l| (l.kernel, l.grid))
    };
    assert_eq!(pick(SparkDtype::BF16, 0), Ok(("fa_bf16_v3_d128", (2, 3, 2))));
    assert_eq!(pick(SparkDtype::BF16, 1), Ok(("fa_bf16_v3_d128_causal", (2, 3, 2))));
    assert_eq!(pick(SparkDtype::FP8E4M3, 0), Ok(("fa_fp8_d128", (9, 3, 2))));
    assert_eq!(pick(SparkDtype::FP8E4M3, -1), Ok(("fa_fp8_d128_causal", (9, 3, 2))));
    assert_eq!(pick(SparkDtype::FP32, 0), Err(SparkStatus::ErrorInvalidArgument));
    assert_eq!(pick(SparkDtype::W4A16, 1), Err(SparkStatus::ErrorInvalidArgument));
    let mut p = attention(SparkDtype::BF16, 0);
    p.head_dim = 64;
    assert_eq!(spark_flash_attention(true, Some(&p)), Err(SparkStatus::ErrorInvalidArgument));
    p.head_dim = 128;
    assert_eq!(spark_flash_attention(false, Some(&p)), Err(SparkStatus::ErrorInvalidArgument));
    assert_eq!(spark_flash_attention(true, None), Err(SparkStatus::ErrorInvalidArgument));
}

#[test]
fn attention_passes_addresses() {
    let l = launch_fa_fp8_causal(&attention(SparkDtype::FP8E4M3, 1)).unwrap();
    assert_eq!(l.block, (32, 1, 1));
    assert_eq!(
        l.args,
        vec![
            Arg::Address(16),
            Arg::Address(32),
            Arg::Address(48),
            Arg::Address(64),
            Arg::Word(130),
            Arg::Word(140),
            Arg::Word(3),
            Arg::Scalar(x()),
        ]
    );
    let mut p = attention(SparkDtype::FP8E4M3, 1);
    p.v = 0;
    assert_eq!(
        message(launch_fa_fp8_causal(&p).unwrap_err()),
        "FA buffer pointers must not be null"
    );
    p.seq_kv = 0;
    assert_eq!(
        message(launch_fa_fp8_causal(&p).unwrap_err()),
        "FA dims must be > 0: batch=2, heads=3, seq_q=130, seq_kv=0"
    );
}

#[test]
fn products_by_type() {
    let p = gemm(256, 128, 32, SparkDtype::BF16);
    let l = spark_gemm(true, Some(&p)).unwrap();
    assert_eq!((l.kernel, l.grid, l.shared_mem), ("gemm_bf16_mma", (2, 2, 1), 12288));
    let p = gemm(64, 96, 32, SparkDtype::FP8E4M3);
    let l = spark_gemm(true, Some(&p)).unwrap();
    assert_eq!((l.kernel, l.grid, l.shared_mem), ("gemm_fp8_mma", (3, 2, 1), 2048));
    let p = gemm(64, 96, 32, SparkDtype::NVFP4);
    assert_eq!(spark_gemm(true, Some(&p)), Err(SparkStatus::ErrorInvalidArgument));
    assert_eq!(
        message(launch_gemm_bf16_mma(&gemm(64, 64, 16, SparkDtype::BF16)).unwrap_err()),
        "spark_gemm BF16 requires M divisible by 128 and N by 64: M=64, N=64"
    );
    assert_eq!(
        message(launch_gemm_bf16_mma(&gemm(0, 64, 16, SparkDtype::BF16)).unwrap_err()),
        "GEMM dims must be > 0: M=0, N=64, K=16"
    );
    assert_eq!(
        message(launch_gemm_bf16_mma(&gemm(128, 64, 8, SparkDtype::BF16)).unwrap_err()),
        "MMA GEMM requires K divisible by 16: K=8"
    );
    let mut p = gemm(128, 64, 16, SparkDtype::BF16);
    p.c = 0;
    assert_eq!(
        message(launch_gemm_bf16_mma(&p).unwrap_err()),
        "GEMM buffer pointers must not be null"
    );
    assert!(validate_gemm_dims_ffi(1, 1, 1).is_ok());
    assert_eq!(
        message(validate_mma_alignment_ffi(32, 33, 16, 16).unwrap_err()),
        "MMA GEMM requires M, N divisible by 32: M=32, N=33"
    );
}

#[test]
fn other_launches() {
    let topk = SparkTopkParams {
        logits: 1,
        indices: 2,
        values: 3,
        batch_size: 5,
        vocab_size: 100,
        k: 10,
        temperature: x(),
    };
    let l = spark_topk_sampling(true, Some(&topk)).unwrap();
    assert_eq!((l.kernel, l.grid, l.block), ("topk_sampling", (5, 1, 1), (256, 1, 1)));
    let moe = SparkMoeRoutingParams {
        logits: 1,
        expert_ids: 2,
        weights: 3,
        num_tokens: 7,
        num_experts: 4,
        top_k: 5,
    };
    assert_eq!(message(launch_moe(&moe).unwrap_err()), "top_k (5) must be <= num_experts (4)");
    assert_eq!(spark_moe_routing(true, Some(&moe)), Err(SparkStatus::ErrorInvalidArgument));
    let norm =
        SparkRmsNormParams { x: 1, out: 2, weight: 3, hidden_dim: 64, eps: x(), num_rows: 9 };
    let l = spark_rmsnorm(true, Some(&norm)).unwrap();
    assert_eq!((l.kernel, l.grid), ("rmsnorm_bf16", (9, 1, 1)));
    let w4 = SparkW4a16GemmParams { a: 1, w: 2, c: 3, scales: 4, zeros: 5, m: 32, n: 64, k: 16 };
    let l = spark_gemm_w4a16(true, Some(&w4)).unwrap();
    assert_eq!((l.kernel, l.grid, l.shared_mem), ("gemm_w4a16_mma", (2, 1, 1), 2176));
    let nv =
        SparkNvfp4GemmParams { a: 1, b: 2, c: 3, scale_a: 4, scale_b: 0, m: 32, n: 64, k: 64 };
    assert_eq!(spark_gemm_nvfp4(true, Some(&nv)), Err(SparkStatus::ErrorInvalidArgument));
    let varlen = SparkVarlenFlashAttnParams {
        q: 1,
        k: 2,
        v: 3,
        o: 4,
        cu_seqlens_q: 5,
        cu_seqlens_k: 6,
        batch: 2,
        num_heads: 3,
        max_seqlen_q: 17,
        scale: x(),
    };
    let l = spark_flash_attention_varlen(true, Some(&varlen)).unwrap();
    assert_eq!((l.kernel, l.grid, l.shared_mem), ("fa_bf16_varlen_d128", (2, 3, 2), 18432));
    let act = SparkActivationParams {
        input: 1,
        out: 2,
        total_out_elems: 257,
        d: 1,
        activation: SparkActivationType::GeluTanhMul,
    };
    let l = spark_activation(true, Some(&act)).unwrap();
    assert_eq!((l.kernel, l.entry), ("gelu_tanh_mul_bf16", "gelu_tanh_mul_bf16"));
    assert_eq!(l.grid, (2, 1, 1));
    assert!(launch_activation(&act).is_ok());
}

#[test]
fn rotary_embedding_takes_one_thread_per_pair() {
    let l = launch_rope(&rope(2, 3, 4, 64)).unwrap();
    assert_eq!((l.grid, l.block), ((24, 1, 1), (32, 1, 1)));
    assert_eq!(l.args[3..], [Arg::Word(3), Arg::Word(4), Arg::Word(64), Arg::Word(32)]);
    assert_eq!(
        message(launch_rope(&rope(2, 3, 4, 63)).unwrap_err()),
        "RoPE dim must be even: dim=63"
    );
    assert_eq!(
        message(launch_rope(&rope(2, 3, 4, 2050)).unwrap_err()),
        "RoPE dim/2 (1025) exceeds max threads per block (1024)"
    );
    assert_eq!(
        message(launch_rope(&rope(2, 0, 4, 64)).unwrap_err()),
        "RoPE dims must be > 0: batch=2, seq_len=0, heads=4, dim=64"
    );
    assert_eq!(spark_rope(false, Some(&rope(1, 1, 1, 2))), Err(SparkStatus::ErrorInvalidArgument));
    assert!(rope_is_countable(&rope(65535, 65537, 1, 64)));
    assert!(!rope_is_countable(&rope(65536, 65536, 1, 64)));
    assert!(rope_is_countable(&rope(65536, 65536, 1, 63)));
}
