//! The decisions of the C API.
//!
//! A C function is handed a context handle and a pointer to its parameters. Each function here
//! is told whether the handle was given, takes the parameters if they were, and answers with
//! the launch to carry out or with the status to return at once. [`finish`] turns what came of
//! the launch into a status.
pub mod launch;
pub mod types;

pub use launch::{
    launch_activation, launch_fa_bf16_v3, launch_fa_bf16_v3_causal, launch_fa_bf16_varlen,
    launch_fa_fp8, launch_fa_fp8_causal, launch_gemm_bf16_mma, launch_gemm_fp8_mma,
    launch_gemm_nvfp4, launch_gemm_w4a16, launch_moe, launch_rmsnorm, launch_rope, launch_topk,
    validate_fa_dims, validate_gemm_dims_ffi, validate_mma_alignment_ffi,
};
pub use types::{
    SparkActivationParams, SparkActivationType, SparkDtype, SparkFlashAttnParams, SparkGemmParams,
    SparkMoeRoutingParams, SparkNvfp4GemmParams, SparkRmsNormParams, SparkRopeParams, SparkStatus,
    SparkTopkParams, SparkVarlenFlashAttnParams, SparkW4a16GemmParams,
};

use crate::device;
use crate::device::Probe;
use crate::error::{DriverError, Fault, Result, SparkError};
use crate::plan;
use crate::plan::{Launch, LaunchView, Plan};
use vstd::prelude::*;

verus! {

/// The launch to carry out, or the status to return at once.
pub type Answer = core::result::Result<Launch, SparkStatus>;

/// An [`Answer`] by its contents.
#[verifier::ext_equal]
pub enum Reply {
    Launch(LaunchView),
    Status(SparkStatus),
    /// Sizes of the request leave the machine integers that hold them. Requests of this kind
    /// are not to be made.
    Undefined,
}

/// How an answer reads.
pub open spec fn reply(r: Answer) -> Reply {
    match r {
        Ok(l) => Reply::Launch(l@),
        Err(s) => Reply::Status(s),
    }
}

/// The status for an error.
pub open spec fn fault_status(f: Fault) -> SparkStatus {
    match f {
        Fault::InvalidArgument(_) => SparkStatus::ErrorInvalidArgument,
        Fault::KernelNotFound(_) => SparkStatus::ErrorKernelNotFound,
        Fault::Driver { .. } => SparkStatus::ErrorCudaLaunch,
        Fault::LaunchFailed(_) => SparkStatus::ErrorCudaLaunch,
        Fault::UnsupportedArch { .. } => SparkStatus::ErrorInvalidArgument,
        Fault::Io(_) => SparkStatus::ErrorInternal,
        Fault::Other(_) => SparkStatus::ErrorInternal,
    }
}

/// The status for an error.
pub fn error_to_status(e: SparkError) -> (r: SparkStatus)
    ensures
        r == fault_status(e@),
{
    match e {
        SparkError::InvalidArgument(_) => SparkStatus::ErrorInvalidArgument,
        SparkError::KernelNotFound(_) => SparkStatus::ErrorKernelNotFound,
        SparkError::Driver(_) | SparkError::LaunchFailed(_) => SparkStatus::ErrorCudaLaunch,
        SparkError::UnsupportedArch { .. } => SparkStatus::ErrorInvalidArgument,
        SparkError::Io(_) | SparkError::Other(_) => SparkStatus::ErrorInternal,
    }
}

/// The status for what came of a request.
pub fn finish(outcome: Result<()>) -> (r: SparkStatus)
    ensures
        r == match outcome {
            Ok(_) => SparkStatus::Success,
            Err(e) => fault_status(e@),
        },
{
    match outcome {
        Ok(_) => SparkStatus::Success,
        Err(e) => error_to_status(e),
    }
}

/// What a plan means for a C function.
pub open spec fn reply_of(p: Plan) -> Reply {
    match p {
        Plan::Launch(l) => Reply::Launch(l),
        Plan::Fail(f) => Reply::Status(fault_status(f)),
        Plan::Undefined => Reply::Undefined,
    }
}

fn answer(l: Result<Launch>) -> (r: Answer)
    ensures
        reply(r) == reply_of(plan::outcome(l)),
{
    match l {
        Ok(l) => Ok(l),
        Err(e) => Err(error_to_status(e)),
    }
}

/// Initializes a context. A place for the handle must be given; `probe` is what the driver
/// answered then.
pub fn spark_init(out_given: bool, probe: Option<Probe>) -> (r: SparkStatus)
    requires
        out_given ==> probe is Some,
    ensures
        r == if !out_given {
            SparkStatus::ErrorInvalidArgument
        } else {
            match device::init_fault(probe->Some_0) {
                None => SparkStatus::Success,
                Some(f) => fault_status(f),
            }
        },
{
    match probe {
        Some(probe) if out_given => finish(device::init_device(probe)),
        _ => SparkStatus::ErrorInvalidArgument,
    }
}

/// Destroys a context.
pub fn spark_destroy(handle_given: bool) -> (r: SparkStatus)
    ensures
        r == if handle_given {
            SparkStatus::Success
        } else {
            SparkStatus::ErrorInvalidArgument
        },
{
    if handle_given {
        SparkStatus::Success
    } else {
        SparkStatus::ErrorInvalidArgument
    }
}

/// Waits for all pending operations. `failure` is what the driver answered if it failed.
pub fn spark_synchronize(handle_given: bool, failure: Option<DriverError>) -> (r: SparkStatus)
    ensures
        r == if !handle_given {
            SparkStatus::ErrorInvalidArgument
        } else if failure is Some {
            SparkStatus::ErrorCudaLaunch
        } else {
            SparkStatus::Success
        },
{
    if !handle_given {
        return SparkStatus::ErrorInvalidArgument;
    }
    match failure {
        Some(e) => error_to_status(SparkError::Driver(e)),
        None => SparkStatus::Success,
    }
}

/// The answer of [`spark_flash_attention`] to given parameters.
pub open spec fn flash_attention_reply(p: SparkFlashAttnParams) -> Reply {
    if p.head_dim != 128 {
        Reply::Status(SparkStatus::ErrorInvalidArgument)
    } else {
        match p.dtype {
            SparkDtype::BF16 => if p.causal == 0 {
                reply_of(launch::launch_fa_bf16_v3_plan(p))
            } else {
                reply_of(launch::launch_fa_bf16_v3_causal_plan(p))
            },
            SparkDtype::FP8E4M3 => if p.causal == 0 {
                reply_of(launch::launch_fa_fp8_plan(p))
            } else {
                reply_of(launch::launch_fa_fp8_causal_plan(p))
            },
            _ => Reply::Status(SparkStatus::ErrorInvalidArgument),
        }
    }
}

/// Flash attention, by data type and causality. Only a head dimension of 128 is supported.
pub fn spark_flash_attention(handle_given: bool, params: Option<&SparkFlashAttnParams>) -> (r:
    Answer)
    ensures
        reply(r) == if handle_given && params is Some {
            flash_attention_reply(*params->Some_0)
        } else {
            Reply::Status(SparkStatus::ErrorInvalidArgument)
        },
{
    match params {
        Some(p) if handle_given => {
            if p.head_dim != 128 {
                return Err(SparkStatus::ErrorInvalidArgument);
            }
            match (p.dtype, p.causal != 0) {
                (SparkDtype::BF16, false) => answer(launch_fa_bf16_v3(p)),
                (SparkDtype::BF16, true) => answer(launch_fa_bf16_v3_causal(p)),
                (SparkDtype::FP8E4M3, false) => answer(launch_fa_fp8(p)),
                (SparkDtype::FP8E4M3, true) => answer(launch_fa_fp8_causal(p)),
                _ => Err(SparkStatus::ErrorInvalidArgument),
            }
        },
        _ => Err(SparkStatus::ErrorInvalidArgument),
    }
}

/// The answer of [`spark_gemm`] to given parameters.
pub open spec fn gemm_reply(p: SparkGemmParams) -> Reply {
    match p.dtype {
        SparkDtype::BF16 => reply_of(launch::launch_gemm_bf16_mma_plan(p)),
        SparkDtype::FP8E4M3 => reply_of(launch::launch_gemm_fp8_mma_plan(p)),
        _ => Reply::Status(SparkStatus::ErrorInvalidArgument),
    }
}

/// Matrix product C = A x B, by data type.
pub fn spark_gemm(handle_given: bool, params: Option<&SparkGemmParams>) -> (r: Answer)
    ensures
        reply(r) == if handle_given && params is Some {
            gemm_reply(*params->Some_0)
        } else {
            Reply::Status(SparkStatus::ErrorInvalidArgument)
        },
{
    match params {
        Some(p) if handle_given => match p.dtype {
            SparkDtype::BF16 => answer(launch_gemm_bf16_mma(p)),
            SparkDtype::FP8E4M3 => answer(launch_gemm_fp8_mma(p)),
            _ => Err(SparkStatus::ErrorInvalidArgument),
        },
        _ => Err(SparkStatus::ErrorInvalidArgument),
    }
}

/// Top-k sampling.
pub fn spark_topk_sampling(handle_given: bool, params: Option<&SparkTopkParams>) -> (r: Answer)
    ensures
        reply(r) == if handle_given && params is Some {
            reply_of(launch::launch_topk_plan(*params->Some_0))
        } else {
            Reply::Status(SparkStatus::ErrorInvalidArgument)
        },
{
    match params {
        Some(p) if handle_given => answer(launch_topk(p)),
        _ => Err(SparkStatus::ErrorInvalidArgument),
    }
}

/// MoE expert routing.
pub fn spark_moe_routing(handle_given: bool, params: Option<&SparkMoeRoutingParams>) -> (r: Answer)
    ensures
        reply(r) == if handle_given && params is Some {
            reply_of(launch::launch_moe_plan(*params->Some_0))
        } else {
            Reply::Status(SparkStatus::ErrorInvalidArgument)
        },
{
    match params {
        Some(p) if handle_given => answer(launch_moe(p)),
        _ => Err(SparkStatus::ErrorInvalidArgument),
    }
}

/// RMSNorm.
pub fn spark_rmsnorm(handle_given: bool, params: Option<&SparkRmsNormParams>) -> (r: Answer)
    ensures
        reply(r) == if handle_given && params is Some {
            reply_of(launch::launch_rmsnorm_plan(*params->Some_0))
        } else {
            Reply::Status(SparkStatus::ErrorInvalidArgument)
        },
{
    match params {
        Some(p) if handle_given => answer(launch_rmsnorm(p)),
        _ => Err(SparkStatus::ErrorInvalidArgument),
    }
}

/// RoPE, in place.
pub fn spark_rope(handle_given: bool, params: Option<&SparkRopeParams>) -> (r: Answer)
    requires
        handle_given && params is Some ==> launch::launch_rope_plan(*params->Some_0) !is Undefined,
    ensures
        reply(r) == if handle_given && params is Some {
            reply_of(launch::launch_rope_plan(*params->Some_0))
        } else {
            Reply::Status(SparkStatus::ErrorInvalidArgument)
        },
{
    match params {
        Some(p) if handle_given => answer(launch_rope(p)),
        _ => Err(SparkStatus::ErrorInvalidArgument),
    }
}

/// Fused activation (SiLU*mul, GeLU*mul, or GeLU-tanh*mul).
pub fn spark_activation(handle_given: bool, params: Option<&SparkActivationParams>) -> (r: Answer)
    ensures
        reply(r) == if handle_given && params is Some {
            reply_of(launch::launch_activation_plan(*params->Some_0))
        } else {
            Reply::Status(SparkStatus::ErrorInvalidArgument)
        },
{
    match params {
        Some(p) if handle_given => answer(launch_activation(p)),
        _ => Err(SparkStatus::ErrorInvalidArgument),
    }
}

/// NVFP4 block-scaled GEMM.
pub fn spark_gemm_nvfp4(handle_given: bool, params: Option<&SparkNvfp4GemmParams>) -> (r: Answer)
    ensures
        reply(r) == if handle_given && params is Some {
            reply_of(launch::launch_gemm_nvfp4_plan(*params->Some_0))
        } else {
            Reply::Status(SparkStatus::ErrorInvalidArgument)
        },
{
    match params {
        Some(p) if handle_given => answer(launch_gemm_nvfp4(p)),
        _ => Err(SparkStatus::ErrorInvalidArgument),
    }
}

/// W4A16 dequant GEMM.
pub fn spark_gemm_w4a16(handle_given: bool, params: Option<&SparkW4a16GemmParams>) -> (r: Answer)
    ensures
        reply(r) == if handle_given && params is Some {
            reply_of(launch::launch_gemm_w4a16_plan(*params->Some_0))
        } else {
            Reply::Status(SparkStatus::ErrorInvalidArgument)
        },
{
    match params {
        Some(p) if handle_given => answer(launch_gemm_w4a16(p)),
        _ => Err(SparkStatus::ErrorInvalidArgument),
    }
}

/// Variable-length BF16 Flash Attention (non-causal).
pub fn spark_flash_attention_varlen(
    handle_given: bool,
    params: Option<&SparkVarlenFlashAttnParams>,
) -> (r: Answer)
    ensures
        reply(r) == if handle_given && params is Some {
            reply_of(launch::launch_fa_bf16_varlen_plan(*params->Some_0))
        } else {
            Reply::Status(SparkStatus::ErrorInvalidArgument)
        },
{
    match params {
        Some(p) if handle_given => answer(launch_fa_bf16_varlen(p)),
        _ => Err(SparkStatus::ErrorInvalidArgument),
    }
}

} // verus!
