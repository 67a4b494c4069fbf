use sm121_kernels::error::{DriverError, Result, SparkError};
use sm121_kernels::linear_attention::{
    conv1d_silu_bf16_row, gdn_decode, gdn_prefill, mamba2_selective_scan_decode,
    mamba2_selective_scan_prefill,
};
use sm121_kernels::plan::{Arg, Launch, Place, Slot};

fn refusal(r: Result<Launch>) -> String {
    match r {
        Err(SparkError::InvalidArgument(m)) => m,
        other => panic!("not a refusal: {:?}", other),
    }
}

#[test]
fn prefill_runs_one_block_per_head_with_a_raised_limit() {
    let l = gdn_prefill(1, 1, 1, 1, 1, 1, 1, 2, 4, 10, false).unwrap();
    assert_eq!(l.kernel, "gdn_prefill");
    assert_eq!(l.grid, (4, 2, 1));
    assert_eq!(l.block, (128, 1, 1));
    assert_eq!(l.shared_mem, 67072);
    assert_eq!(l.args[7..], [Arg::Word(4), Arg::Word(10)]);
    let e = l.opt_in_error(DriverError { code: 1, text: "X".into() });
    assert_eq!(e, SparkError::LaunchFailed("cuFuncSetAttribute: X".into()));
    let d = gdn_prefill(1, 1, 1, 1, 1, 1, 1, 2, 4, 10, true).unwrap();
    assert_eq!((d.kernel, d.entry), ("gdn_prefill_hf", "gdn_prefill_hf"));
    assert_eq!(
        refusal(gdn_prefill(1, 1, 1, 1, 1, 1, 1, 2, 4, 0, true)),
        "batch, num_heads, seq_q must be > 0"
    );
}

#[test]
fn decode_refuses_empty_dimensions() {
    assert!(gdn_decode(1, 1, 1, 1, 1, 1, 1, 0, 4).is_err());
    assert!(gdn_decode(1, 1, 1, 1, 1, 1, 1, 1, 0).is_err());
    assert!(mamba2_selective_scan_decode(1, 1, 1, 1, 1, 1, 1, 0, 4).is_err());
    assert!(mamba2_selective_scan_prefill(1, 1, 1, 1, 1, 1, 1, 1, 4, 0).is_err());
}

#[test]
fn convolution_of_one_row_begins_at_the_row() {
    let r = conv1d_silu_bf16_row(1 << 20, 1 << 20, 1 << 20, 1 << 20, 256, 512).unwrap();
    assert!(r
        .args
        .iter()
        .any(|a| *a == Arg::Buffer(Place { slot: Slot::Param(1), start: 512 })));
}
