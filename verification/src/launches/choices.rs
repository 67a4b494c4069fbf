//! Which kernel a request comes to where there is a choice.
use crate::attention::mla_auto;
use crate::error::Fault;
use crate::ffi;
use crate::ffi::types::{SparkDtype, SparkFlashAttnParams, SparkGemmParams, SparkStatus};
use crate::ffi::Reply;
use crate::plan::{Arg, F32, Plan};
use vstd::prelude::*;

verus! {

/// The BF16 product goes to the scalar kernel where no tensor-core tile fits. Where 128x128 tiles
/// fit, outputs of 65536 columns or more go to v4 for 128 to 2047 rows, and other outputs with
/// enough tiles to v3. What is left goes to the plain tensor-core kernel.
pub proof fn gemm_bf16_mma_auto_chooses(a_len: int, b_len: int, c_len: int, m: int, n: int, k: int)
    ensures
        crate::gemm::auto::gemm_bf16_mma_auto_plan(a_len, b_len, c_len, m, n, k) matches Plan::Launch(l) ==> {
            let tiled = m % 128 == 0 && n % 128 == 0 && k % 32 == 0;
            let wide = 128 <= m < 2048 && n >= 65536 && k >= 1024;
            let large = (m >= 1024 && n >= 1024) || (m >= 256 && n >= 4096);
            &&& m % 128 != 0 || n % 64 != 0 ==> l.entry == "gemm_bf16"@
            &&& tiled && wide ==> l.entry == "gemm_bf16_mma_v4"@
            &&& tiled && large && !wide ==> l.entry == "gemm_bf16_mma_v3"@
            &&& m % 128 == 0 && n % 64 == 0 && !(tiled && (wide || large)) ==> l.entry
                == "gemm_bf16_mma"@
            &&& tiled && m >= 2048 && n >= 2048 ==> l.entry == "gemm_bf16_mma_v3"@
        },
        crate::gemm::auto::gemm_bf16_mma_auto_plan(a_len, b_len, c_len, m, n, k) is Launch ==> {
            &&& m != 0 && n != 0 && k != 0
            &&& a_len >= m * k && b_len >= k * n && c_len >= m * n
        },
{
}

/// The FP8 product goes to v3 exactly where its tiles fit and both dimensions of the output are
/// 1024 or more.
pub proof fn gemm_fp8_mma_auto_chooses(a_len: int, b_len: int, c_len: int, m: int, n: int, k: int)
    ensures
        crate::gemm::auto::gemm_fp8_mma_auto_plan(a_len, b_len, c_len, m, n, k) matches Plan::Launch(l) ==> {
            let tiled = m % 128 == 0 && n % 128 == 0 && k % 32 == 0;
            &&& tiled && m >= 1024 && n >= 1024 ==> l.entry == "gemm_fp8_mma_v3"@
            &&& !(tiled && m >= 1024 && n >= 1024) ==> l.entry == "gemm_fp8_mma"@
        },
{
}

/// FP8 decoding over a compressed cache goes to the tensor-core kernel exactly where groups of 16
/// heads are full and the cache has 32 positions or more, and either kernel is given the same
/// buffers and numbers.
pub proof fn mla_decode_fp8_auto_chooses(
    q_c_len: int, q_r_len: int, c_kv_len: int, k_rope_len: int, o_len: int, batch: int,
    num_heads: int, seq_kv: int, scale: F32, kv_scale: F32,
)
    requires
        num_heads >= 0,
    ensures
        mla_auto::mla_decode_fp8_auto_plan(
            q_c_len, q_r_len, c_kv_len, k_rope_len, o_len, batch, num_heads, seq_kv, scale,
            kv_scale,
        ) matches Plan::Launch(l) ==> {
            &&& num_heads % 16 == 0 && seq_kv >= 32 ==> l.entry == "fa_fp8kv_mla_decode_mma"@
            &&& num_heads % 16 != 0 || seq_kv < 32 ==> l.entry == "fa_fp8_mla_decode"@
            &&& l.args =~= seq![
                Arg::buffer(0),
                Arg::buffer(1),
                Arg::buffer(2),
                Arg::buffer(3),
                Arg::buffer(4),
                Arg::word(num_heads),
                Arg::word(seq_kv),
                Arg::Scalar(scale),
                Arg::Scalar(kv_scale),
            ]
        },
{
}

/// FP8 decoding takes the FP8 queries, never the BF16 ones that come before them.
pub proof fn fa_fp8_mla_decode_auto_takes_fp8_queries(
    q_c_fp8_len: int, q_r_fp8_len: int, c_kv_len: int, k_rope_len: int, o_len: int, batch: int,
    num_heads: int, seq_kv: int, scale: F32, q_scale: F32, kv_scale: F32,
)
    ensures
        ({
            let p = mla_auto::fa_fp8_mla_decode_auto_program(
                q_c_fp8_len, q_r_fp8_len, c_kv_len, k_rope_len, o_len, batch, num_heads, seq_kv,
                scale, q_scale, kv_scale,
            );
            &&& p.end is Done <==> batch != 0 && num_heads != 0 && seq_kv != 0 && num_heads % 16
                == 0
            &&& p.end is Done ==> p.steps.len() == 1
            &&& p.end is Done ==> p.steps[0] is Launch
            &&& p.end is Done ==> {
                let l = p.steps[0]->Launch_0;
                &&& l.entry == "fa_fp8_mla_decode_mma_v3"@
                &&& l.grid.0 * 16 == num_heads
                &&& l.grid.1 == batch
                &&& l.args =~= seq![
                    Arg::buffer(2),
                    Arg::buffer(3),
                    Arg::buffer(4),
                    Arg::buffer(5),
                    Arg::buffer(6),
                    Arg::word(num_heads),
                    Arg::word(seq_kv),
                    Arg::Scalar(scale),
                    Arg::Scalar(q_scale),
                    Arg::Scalar(kv_scale),
                ]
            }
        }),
{
}

/// Without splits, decoding over a compressed cache goes to the scalar kernel where groups of 16
/// heads are not full, to the tile-fetching kernel for caches of less than 64 positions, and to
/// the kernel with persistent queries where one split is asked for.
pub proof fn mla_decode_bf16_auto_with_splits_chooses(
    q_c_len: int, q_r_len: int, c_kv_len: int, k_rope_len: int, o_len: int, batch: int,
    num_heads: int, seq_kv: int, scale: F32, num_splits: Option<u32>,
)
    ensures
        ({
            let p = mla_auto::mla_decode_bf16_auto_with_splits_program(
                q_c_len, q_r_len, c_kv_len, k_rope_len, o_len, batch, num_heads, seq_kv, scale,
                num_splits,
            );
            p.end is Done && p.steps.len() == 1 ==> {
                let l = p.steps[0]->Launch_0;
                &&& p.steps[0] is Launch
                &&& num_heads % 16 != 0 ==> l.entry == "fa_bf16_mla_decode"@
                &&& num_heads % 16 == 0 && num_splits is None && seq_kv < 64 ==> l.entry
                    == "fa_bf16_mla_decode_mma_tma"@
                &&& num_heads % 16 == 0 && (num_splits matches Some(n) && n <= 1) ==> l.entry
                    == "fa_bf16_mla_decode_mma_tma_pq"@
            }
        }),
{
}

/// A C attention call comes to the kernel of its data type and mask, given the caller's queries,
/// keys, values and output in this order; all other calls are told that they are invalid.
pub proof fn flash_attention_calls_come_to_their_kernels(p: SparkFlashAttnParams)
    ensures
        ({
            let known = p.dtype is BF16 || p.dtype is FP8E4M3;
            let whole = p.batch != 0 && p.num_heads != 0 && p.seq_q != 0 && p.seq_kv != 0 && p.q
                != 0 && p.k != 0 && p.v != 0 && p.o != 0;
            &&& ffi::flash_attention_reply(p) is Launch <==> p.head_dim == 128 && known && whole
            &&& !(p.head_dim == 128 && known && whole) ==> ffi::flash_attention_reply(p)
                == Reply::Status(SparkStatus::ErrorInvalidArgument)
            &&& ffi::flash_attention_reply(p) matches Reply::Launch(l) ==> {
                &&& p.dtype is BF16 && p.causal == 0 ==> l.entry == "flash_attn_bf16_v3_d128"@
                &&& p.dtype is BF16 && p.causal != 0 ==> l.entry
                    == "flash_attn_bf16_v3_d128_causal"@
                &&& p.dtype is FP8E4M3 && p.causal == 0 ==> l.entry == "flash_attn_fp8_d128"@
                &&& p.dtype is FP8E4M3 && p.causal != 0 ==> l.entry == "flash_attn_fp8_d128_causal"@
                &&& l.args.len() >= 7
                &&& l.args[0] == Arg::Address(p.q)
                &&& l.args[1] == Arg::Address(p.k)
                &&& l.args[2] == Arg::Address(p.v)
                &&& l.args[3] == Arg::Address(p.o)
                &&& l.args[4] == Arg::Word(p.seq_q)
                &&& l.args[5] == Arg::Word(p.seq_kv)
                &&& l.args[6] == Arg::Word(p.num_heads)
            }
        }),
{
}

/// A C product call comes to the kernel of its data type, given the caller's factors and product
/// in this order; calls with other data types are told that they are invalid.
pub proof fn gemm_calls_come_to_their_kernels(p: SparkGemmParams)
    ensures
        !(p.dtype is BF16) && !(p.dtype is FP8E4M3) ==> ffi::gemm_reply(p) == Reply::Status(
            SparkStatus::ErrorInvalidArgument,
        ),
        ffi::gemm_reply(p) matches Reply::Launch(l) ==> {
            &&& p.dtype is BF16 ==> l.entry == "gemm_bf16_mma"@
            &&& p.dtype is FP8E4M3 ==> l.entry == "gemm_fp8_mma"@
            &&& l.args.len() == 6
            &&& l.args[0] == Arg::Address(p.a)
            &&& l.args[1] == Arg::Address(p.b)
            &&& l.args[2] == Arg::Address(p.c)
            &&& l.args[3] == Arg::Word(p.m)
            &&& l.args[4] == Arg::Word(p.n)
            &&& l.args[5] == Arg::Word(p.k)
        },
        ffi::gemm_reply(p) is Status ==> ffi::gemm_reply(p) == Reply::Status(
            SparkStatus::ErrorInvalidArgument,
        ),
{
}

/// No error is told as success. What is wrong with a call is told apart from what went wrong on
/// the device and from a kernel that is not there.
pub proof fn errors_are_told_apart(f: Fault)
    ensures
        ffi::fault_status(f) != SparkStatus::Success,
        ffi::fault_status(f) == SparkStatus::ErrorInvalidArgument <==> f is InvalidArgument
            || f is UnsupportedArch,
        ffi::fault_status(f) == SparkStatus::ErrorKernelNotFound <==> f is KernelNotFound,
        ffi::fault_status(f) == SparkStatus::ErrorCudaLaunch <==> f is Driver || f is LaunchFailed,
        ffi::fault_status(f) == SparkStatus::ErrorInternal <==> f is Io || f is Other,
{
}

} // verus!
