use sm121_kernels::activation::{
    add_bf16, broadcast_top_k_bf16, bf16_to_f32, f32_axpy, gelu_mul_bf16, gelu_tanh_mul_bf16,
    silu_mul_bf16, split_q_gate_bf16, validate_activation_args, vector2_grid,
};
use sm121_kernels::embedding::embedding_lookup_bf16;
use sm121_kernels::error::{DriverError, Result, SparkError};
use sm121_kernels::kv_cache::{
    kv_append_multihead_bf16_pos_dev, kv_append_strided_bf16, kv_append_strided_fp8,
    kv_cache_fp8_write,
};
use sm121_kernels::plan::{Arg, Launch, F32};

fn refusal(r: Result<Launch>) -> String {
    match r {
        Err(SparkError::InvalidArgument(m)) => m,
        other => panic!("not a refusal: {:?}", other),
    }
}

fn one() -> F32 {
    F32 { bits: 1.0f32.to_bits() }
}

#[test]
fn silu_mul_launches_two_elements_per_thread() {
    let l = silu_mul_bf16(4096, 2048, 2048, 64).unwrap();
    assert_eq!(l.kernel, "silu_mul_bf16");
    assert_eq!(l.entry, "silu_mul_bf16");
    assert_eq!(l.grid, (4, 1, 1));
    assert_eq!(l.block, (256, 1, 1));
    assert_eq!(l.shared_mem, 0);
    assert_eq!(l.args, vec![Arg::param(0), Arg::param(1), Arg::Word(2048), Arg::Word(64)]);
    assert!(l.tensor_maps.is_empty());
    assert_eq!(l.opt_in, None);
    assert_eq!(l.failure, None);
}

#[test]
fn grid_of_two_per_thread_rounds_up_and_is_never_empty() {
    assert_eq!(vector2_grid(0, 256), 1);
    assert_eq!(vector2_grid(1, 256), 1);
    assert_eq!(vector2_grid(512, 256), 1);
    assert_eq!(vector2_grid(513, 256), 2);
}

#[test]
fn activation_arguments_are_checked_in_order() {
    assert_eq!(refusal(silu_mul_bf16(0, 0, 0, 0)), "total_out_elems must be > 0");
    assert_eq!(refusal(silu_mul_bf16(0, 0, 4, 0)), "d must be > 0");
    assert_eq!(
        refusal(gelu_mul_bf16(0, 0, 4, 3)),
        "d must be even for vectorized activation kernels (got 3)"
    );
    for r in [silu_mul_bf16(6, 3, 3, 2), gelu_mul_bf16(6, 3, 3, 2), gelu_tanh_mul_bf16(6, 3, 3, 2)]
    {
        assert_eq!(
            refusal(r),
            "total_out_elems must be even for vectorized activation kernels (got 3)"
        );
    }
    assert_eq!(refusal(silu_mul_bf16(7, 4, 4, 2)), "input buffer too small: 7 < 8");
    assert_eq!(refusal(silu_mul_bf16(8, 3, 4, 2)), "out buffer too small: 3 < 4");
    assert!(validate_activation_args(8, 4, 4, 2).is_ok());
}

#[test]
fn largest_element_count_needs_twice_the_input() {
    let n = u32::MAX - 1;
    assert_eq!(
        refusal(silu_mul_bf16(8589934587, usize::MAX, n, 2)),
        "input buffer too small: 8589934587 < 8589934588"
    );
    assert!(silu_mul_bf16(8589934588, usize::MAX, n, 2).is_ok());
}

#[test]
fn elementwise_kernels_check_each_buffer() {
    assert!(add_bf16(10, 10, 10, 10).is_ok());
    assert!(add_bf16(9, 10, 10, 10).is_err());
    assert!(add_bf16(10, 9, 10, 10).is_err());
    assert!(add_bf16(10, 10, 9, 10).is_err());
    assert!(add_bf16(10, 10, 10, 0).is_err());
    assert!(bf16_to_f32(256, 256, 256).is_ok());
    let l = f32_axpy(1000, 1000, one(), 1000).unwrap();
    assert!(l.args.contains(&Arg::Scalar(one())));
    assert!(l.args.contains(&Arg::Word(1000)));
}

#[test]
fn rows_are_broadcast_once_per_expert() {
    let l = broadcast_top_k_bf16(64, 256, 2, 4, 32).unwrap();
    assert!(l.grid.0 * l.block.0 >= 1);
    assert!(broadcast_top_k_bf16(63, 256, 2, 4, 32).is_err());
    assert!(broadcast_top_k_bf16(64, 255, 2, 4, 32).is_err());
}

#[test]
fn gate_split_takes_one_thread_per_element_of_a_head() {
    let l = split_q_gate_bf16(1024, 512, 512, 4, 128).unwrap();
    assert_eq!(l.grid, (4, 1, 1));
    assert_eq!(l.block, (128, 1, 1));
    assert_eq!(refusal(split_q_gate_bf16(1023, 512, 512, 4, 128)), "split_q_gate buffer too small");
    assert_eq!(refusal(split_q_gate_bf16(1024, 512, 512, 0, 128)), "dims must be > 0");
}

#[test]
fn embedding_takes_one_block_per_token() {
    let l = embedding_lookup_bf16(3, 320, 96, 3, 10, 32).unwrap();
    assert_eq!(l.kernel, "embedding_lookup_bf16");
    assert_eq!(l.grid, (3, 1, 1));
    assert_eq!(l.block, (256, 1, 1));
    assert_eq!(l.args[..4], [Arg::param(0), Arg::param(1), Arg::param(2), Arg::Word(32)]);
    assert_eq!(
        refusal(embedding_lookup_bf16(3, 320, 96, 0, 10, 32)),
        "num_tokens, vocab_size, hidden_dim must be > 0"
    );
    assert_eq!(refusal(embedding_lookup_bf16(2, 320, 96, 3, 10, 32)), "token_ids too small");
    assert_eq!(
        refusal(embedding_lookup_bf16(3, 319, 96, 3, 10, 32)),
        "embedding_table too small: 319 < 320"
    );
    assert_eq!(refusal(embedding_lookup_bf16(3, 320, 95, 3, 10, 32)), "out too small: 95 < 96");
}

#[test]
fn paged_cache_write_tells_failures_in_its_own_words() {
    let l = kv_cache_fp8_write(1, 1, 1, 1, 1, 1, 2, 8, 16, one(), one()).unwrap();
    assert_eq!(l.grid, (8, 2, 1));
    assert_eq!(l.block, (32, 1, 1));
    assert_eq!(
        l.args,
        vec![
            Arg::param(0),
            Arg::param(1),
            Arg::param(2),
            Arg::param(3),
            Arg::param(4),
            Arg::param(5),
            Arg::Word(8),
            Arg::Word(16),
            Arg::Scalar(one()),
            Arg::Scalar(one()),
        ]
    );
    let e = l.launch_error(DriverError { code: 700, text: "CUDA_ERROR_ILLEGAL_ADDRESS".into() });
    assert_eq!(
        e,
        SparkError::LaunchFailed("KV FP8 write launch: CUDA_ERROR_ILLEGAL_ADDRESS".into())
    );
    assert_eq!(
        refusal(kv_cache_fp8_write(1, 1, 1, 1, 1, 1, 0, 8, 16, one(), one())),
        "batch, num_heads, page_size must be > 0"
    );
}

#[test]
fn launches_without_words_of_their_own_pass_the_driver_error_on() {
    let l = silu_mul_bf16(4096, 2048, 2048, 64).unwrap();
    let e = l.launch_error(DriverError { code: 2, text: "OUT_OF_MEMORY".into() });
    assert_eq!(e, SparkError::Driver(DriverError { code: 2, text: "OUT_OF_MEMORY".into() }));
    assert_eq!(e.message(), "CUDA driver error: OUT_OF_MEMORY");
}

#[test]
fn appends_stay_inside_the_cache() {
    let (heads, dim, max_seq) = (4u32, 64u32, 100u32);
    let src = (heads * dim) as usize;
    let dst = (heads * dim * max_seq) as usize;
    assert!(kv_append_strided_bf16(src, src, dst, dst, 99, max_seq, heads, dim).is_ok());
    assert!(kv_append_strided_bf16(src, src, dst, dst, 100, max_seq, heads, dim).is_err());
    assert!(kv_append_strided_bf16(src - 1, src, dst, dst, 0, max_seq, heads, dim).is_err());
    assert!(kv_append_strided_bf16(src, src, dst - 1, dst, 0, max_seq, heads, dim).is_err());
    assert!(
        kv_append_strided_fp8(src, src, dst, dst, 5, max_seq, heads, dim, one(), one()).is_ok()
    );
}

#[test]
fn append_at_a_device_position_takes_one_block_per_head() {
    let l = kv_append_multihead_bf16_pos_dev(512, 512 * 16, 1, 4, 16, 128).unwrap();
    assert_eq!(l.grid, (4, 1, 1));
    assert_eq!(l.block, (128, 1, 1));
    assert_eq!(refusal(kv_append_multihead_bf16_pos_dev(511, 8192, 1, 4, 16, 128)), "src too small");
    assert_eq!(refusal(kv_append_multihead_bf16_pos_dev(512, 8191, 1, 4, 16, 128)), "dst too small");
    assert_eq!(refusal(kv_append_multihead_bf16_pos_dev(512, 8192, 0, 4, 16, 128)), "pos_ptr empty");
}
