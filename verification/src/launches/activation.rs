//! What the launches of activations hand to their kernels.
use crate::activation;
use crate::launches::role::Role;
use crate::meaning;
use crate::plan::{Arg, F32, Plan};
use crate::shape;
use vstd::prelude::*;

verus! {

/// What the kernel `silu_mul_bf16` takes, in order.
pub open spec fn silu_mul_bf16_takes() -> Seq<Role> {
    seq![Role::Input, Role::Out, Role::TotalOutElems, Role::Width]
}

/// `silu_mul_bf16` launches its kernel exactly where the sizes of the request are right, with
/// every argument what its role asks for, on blocks that cover the result.
pub proof fn silu_mul_bf16_launches(input_len: int, out_len: int, total_out_elems: int, d: int)
    requires
        total_out_elems >= 0,
    ensures
        activation::silu_mul_bf16_plan(
            input_len, out_len, total_out_elems, d,
        ) matches Plan::Fail(f) ==> f is InvalidArgument,
        activation::silu_mul_bf16_plan(
            input_len, out_len, total_out_elems, d,
        ) !is Undefined,
        activation::silu_mul_bf16_plan(
            input_len, out_len, total_out_elems, d,
        ) is Launch <==> {
            &&& total_out_elems != 0
            &&& d != 0
            &&& d % 2 == 0
            &&& total_out_elems % 2 == 0
            &&& input_len >= total_out_elems * 2
            &&& out_len >= total_out_elems
        },
        activation::silu_mul_bf16_plan(
            input_len, out_len, total_out_elems, d,
        ) matches Plan::Launch(l) ==> {
            &&& l.entry == "silu_mul_bf16"@
            &&& l.kernel == "silu_mul_bf16"@
            &&& l.args =~= silu_mul_bf16_takes().map_values(
                |r: Role|
                    match r {
                        Role::Input => Arg::buffer(0),
                        Role::Out => Arg::buffer(1),
                        Role::TotalOutElems => Arg::word(total_out_elems),
                        Role::Width => Arg::word(d),
                        _ => Arg::Word(0),
                    },
            )
            &&& meaning::covers(l.grid.0, 512, total_out_elems)
            &&& l.grid.1 == 1
            &&& l.grid.2 == 1
            &&& l.block == (256int, 1int, 1int)
            &&& l.shared_mem == 0
            &&& l.opt_in is None
            &&& l.failure is None
            &&& l.tensor_maps.len() == 0
        },
{
    shape::lemma_ceil_div(total_out_elems, 512);
}

/// What the kernel `silu_bf16` takes, in order.
pub open spec fn silu_bf16_takes() -> Seq<Role> {
    seq![Role::Input, Role::Result, Role::Columns]
}

/// `silu_bf16` launches its kernel exactly where the sizes of the request are right, with every
/// argument what its role asks for, on blocks that cover the result.
pub proof fn silu_bf16_launches(x_len: int, y_len: int, n: int)
    ensures
        activation::silu_bf16_plan(x_len, y_len, n) matches Plan::Fail(f) ==> f is InvalidArgument,
        activation::silu_bf16_plan(x_len, y_len, n) !is Undefined,
        activation::silu_bf16_plan(x_len, y_len, n) is Launch <==> {
            &&& n != 0
            &&& x_len >= n
            &&& y_len >= n
        },
        activation::silu_bf16_plan(x_len, y_len, n) matches Plan::Launch(l) ==> {
            &&& l.entry == "silu_bf16"@
            &&& l.kernel == "silu_bf16"@
            &&& l.args =~= silu_bf16_takes().map_values(
                |r: Role|
                    match r {
                        Role::Input => Arg::buffer(0),
                        Role::Result => Arg::buffer(1),
                        Role::Columns => Arg::word(n),
                        _ => Arg::Word(0),
                    },
            )
            &&& l.grid.0 == shape::greater(shape::lesser(shape::ceil_div(n, 256), 65535), 1)
            &&& l.grid.1 == 1
            &&& l.grid.2 == 1
            &&& l.block == (256int, 1int, 1int)
            &&& l.shared_mem == 0
            &&& l.opt_in is None
            &&& l.failure is None
            &&& l.tensor_maps.len() == 0
        },
{
}

/// What the kernel `silu_backward_bf16` takes, in order.
pub open spec fn silu_backward_bf16_takes() -> Seq<Role> {
    seq![Role::Input, Role::Dy, Role::Dx, Role::Columns]
}

/// `silu_backward_bf16` launches its kernel exactly where the sizes of the request are right,
/// with every argument what its role asks for, on blocks that cover the result.
pub proof fn silu_backward_bf16_launches(x_len: int, dy_len: int, dx_len: int, n: int)
    requires
        n >= 0,
    ensures
        activation::silu_backward_bf16_plan(x_len, dy_len, dx_len, n) matches Plan::Fail(
            f,
        ) ==> f is InvalidArgument,
        activation::silu_backward_bf16_plan(x_len, dy_len, dx_len, n) !is Undefined,
        activation::silu_backward_bf16_plan(x_len, dy_len, dx_len, n) is Launch <==> {
            &&& n != 0
            &&& x_len >= n
            &&& dy_len >= n
            &&& dx_len >= n
        },
        activation::silu_backward_bf16_plan(x_len, dy_len, dx_len, n) matches Plan::Launch(l) ==> {
            &&& l.entry == "silu_backward_bf16"@
            &&& l.kernel == "silu_backward_bf16"@
            &&& l.args =~= silu_backward_bf16_takes().map_values(
                |r: Role|
                    match r {
                        Role::Input => Arg::buffer(0),
                        Role::Dy => Arg::buffer(1),
                        Role::Dx => Arg::buffer(2),
                        Role::Columns => Arg::word(n),
                        _ => Arg::Word(0),
                    },
            )
            &&& meaning::covers(l.grid.0, 256, n)
            &&& l.grid.1 == 1
            &&& l.grid.2 == 1
            &&& l.block == (256int, 1int, 1int)
            &&& l.shared_mem == 0
            &&& l.opt_in is None
            &&& l.failure is None
            &&& l.tensor_maps.len() == 0
        },
{
    shape::lemma_ceil_div(n, 256);
}

/// What the kernel `gelu_tanh_backward_bf16` takes, in order.
pub open spec fn gelu_tanh_backward_bf16_takes() -> Seq<Role> {
    seq![Role::Input, Role::Dy, Role::Dx, Role::Columns]
}

/// `gelu_tanh_backward_bf16` launches its kernel exactly where the sizes of the request are
/// right, with every argument what its role asks for, on blocks that cover the result.
pub proof fn gelu_tanh_backward_bf16_launches(x_len: int, dy_len: int, dx_len: int, n: int)
    requires
        n >= 0,
    ensures
        activation::gelu_tanh_backward_bf16_plan(
            x_len, dy_len, dx_len, n,
        ) matches Plan::Fail(f) ==> f is InvalidArgument,
        activation::gelu_tanh_backward_bf16_plan(
            x_len, dy_len, dx_len, n,
        ) !is Undefined,
        activation::gelu_tanh_backward_bf16_plan(
            x_len, dy_len, dx_len, n,
        ) is Launch <==> {
            &&& n != 0
            &&& x_len >= n
            &&& dy_len >= n
            &&& dx_len >= n
        },
        activation::gelu_tanh_backward_bf16_plan(
            x_len, dy_len, dx_len, n,
        ) matches Plan::Launch(l) ==> {
            &&& l.entry == "gelu_tanh_backward_bf16"@
            &&& l.kernel == "gelu_tanh_backward_bf16"@
            &&& l.args =~= gelu_tanh_backward_bf16_takes().map_values(
                |r: Role|
                    match r {
                        Role::Input => Arg::buffer(0),
                        Role::Dy => Arg::buffer(1),
                        Role::Dx => Arg::buffer(2),
                        Role::Columns => Arg::word(n),
                        _ => Arg::Word(0),
                    },
            )
            &&& meaning::covers(l.grid.0, 256, n)
            &&& l.grid.1 == 1
            &&& l.grid.2 == 1
            &&& l.block == (256int, 1int, 1int)
            &&& l.shared_mem == 0
            &&& l.opt_in is None
            &&& l.failure is None
            &&& l.tensor_maps.len() == 0
        },
{
    shape::lemma_ceil_div(n, 256);
}

/// What the kernel `silu_mul_split_bf16` takes, in order.
pub open spec fn silu_mul_split_bf16_takes() -> Seq<Role> {
    seq![Role::Gate, Role::Up, Role::Out, Role::Columns]
}

/// `silu_mul_split_bf16` launches its kernel exactly where the sizes of the request are right,
/// with every argument what its role asks for, on blocks that cover the result.
pub proof fn silu_mul_split_bf16_launches(gate_len: int, up_len: int, out_len: int, n: int)
    ensures
        activation::silu_mul_split_bf16_plan(
            gate_len, up_len, out_len, n,
        ) matches Plan::Fail(f) ==> f is InvalidArgument,
        activation::silu_mul_split_bf16_plan(
            gate_len, up_len, out_len, n,
        ) !is Undefined,
        activation::silu_mul_split_bf16_plan(
            gate_len, up_len, out_len, n,
        ) is Launch <==> {
            &&& n != 0
            &&& n % 2 == 0
            &&& gate_len >= n
            &&& up_len >= n
            &&& out_len >= n
        },
        activation::silu_mul_split_bf16_plan(
            gate_len, up_len, out_len, n,
        ) matches Plan::Launch(l) ==> {
            &&& l.entry == "silu_mul_split_bf16"@
            &&& l.kernel == "silu_mul_split_bf16"@
            &&& l.args =~= silu_mul_split_bf16_takes().map_values(
                |r: Role|
                    match r {
                        Role::Gate => Arg::buffer(0),
                        Role::Up => Arg::buffer(1),
                        Role::Out => Arg::buffer(2),
                        Role::Columns => Arg::word(n),
                        _ => Arg::Word(0),
                    },
            )
            &&& l.grid.0 == shape::greater(shape::lesser(shape::ceil_div(n, 512), 2048), 1)
            &&& l.grid.1 == 1
            &&& l.grid.2 == 1
            &&& l.block == (256int, 1int, 1int)
            &&& l.shared_mem == 0
            &&& l.opt_in is None
            &&& l.failure is None
            &&& l.tensor_maps.len() == 0
        },
{
}

/// What the kernel `scale_bf16_inplace_dev` takes, in order.
pub open spec fn scale_bf16_inplace_dev_takes() -> Seq<Role> {
    seq![Role::Buf, Role::Scalar, Role::Columns]
}

/// `scale_bf16_inplace_dev` launches its kernel exactly where the sizes of the request are right,
/// with every argument what its role asks for, on blocks that cover the result.
pub proof fn scale_bf16_inplace_dev_launches(buf_len: int, scalar_len: int, n: int)
    ensures
        activation::scale_bf16_inplace_dev_plan(
            buf_len, scalar_len, n,
        ) matches Plan::Fail(f) ==> f is InvalidArgument,
        activation::scale_bf16_inplace_dev_plan(
            buf_len, scalar_len, n,
        ) !is Undefined,
        activation::scale_bf16_inplace_dev_plan(
            buf_len, scalar_len, n,
        ) is Launch <==> {
            &&& n != 0
            &&& n % 2 == 0
            &&& buf_len >= n
            &&& scalar_len != 0
        },
        activation::scale_bf16_inplace_dev_plan(
            buf_len, scalar_len, n,
        ) matches Plan::Launch(l) ==> {
            &&& l.entry == "scale_bf16_inplace_dev"@
            &&& l.kernel == "scale_bf16_inplace_dev"@
            &&& l.args =~= scale_bf16_inplace_dev_takes().map_values(
                |r: Role|
                    match r {
                        Role::Buf => Arg::buffer(0),
                        Role::Scalar => Arg::buffer(1),
                        Role::Columns => Arg::word(n),
                        _ => Arg::Word(0),
                    },
            )
            &&& l.grid.0 == shape::greater(shape::lesser(shape::ceil_div(n, 512), 2048), 1)
            &&& l.grid.1 == 1
            &&& l.grid.2 == 1
            &&& l.block == (256int, 1int, 1int)
            &&& l.shared_mem == 0
            &&& l.opt_in is None
            &&& l.failure is None
            &&& l.tensor_maps.len() == 0
        },
{
}

/// What the kernel `scale_bf16_rows_inplace` takes, in order.
pub open spec fn scale_bf16_rows_inplace_takes() -> Seq<Role> {
    seq![Role::Buf, Role::RowScales, Role::Rows, Role::Columns, Role::BScale]
}

/// `scale_bf16_rows_inplace` launches its kernel exactly where the sizes of the request are
/// right, with every argument what its role asks for, on blocks that cover the result.
pub proof fn scale_bf16_rows_inplace_launches(
    buf_len: int, row_scales_len: int, m: int, n: int, b_scale: F32,
)
    ensures
        activation::scale_bf16_rows_inplace_plan(
            buf_len, row_scales_len, m, n, b_scale,
        ) matches Plan::Fail(f) ==> f is InvalidArgument,
        activation::scale_bf16_rows_inplace_plan(
            buf_len, row_scales_len, m, n, b_scale,
        ) !is Undefined,
        activation::scale_bf16_rows_inplace_plan(
            buf_len, row_scales_len, m, n, b_scale,
        ) is Launch <==> {
            &&& m != 0
            &&& n != 0
            &&& n % 2 == 0
            &&& buf_len >= m * n
            &&& row_scales_len >= m
        },
        activation::scale_bf16_rows_inplace_plan(
            buf_len, row_scales_len, m, n, b_scale,
        ) matches Plan::Launch(l) ==> {
            &&& l.entry == "scale_bf16_rows_inplace"@
            &&& l.kernel == "scale_bf16_rows_inplace"@
            &&& l.args =~= scale_bf16_rows_inplace_takes().map_values(
                |r: Role|
                    match r {
                        Role::Buf => Arg::buffer(0),
                        Role::RowScales => Arg::buffer(1),
                        Role::Rows => Arg::word(m),
                        Role::Columns => Arg::word(n),
                        Role::BScale => Arg::Scalar(b_scale),
                        _ => Arg::Word(0),
                    },
            )
            &&& l.grid.0 == shape::greater(shape::ceil_div(n, 512), 1)
            &&& l.grid.1 == m
            &&& l.grid.2 == 1
            &&& l.block == (256int, 1int, 1int)
            &&& l.shared_mem == 0
            &&& l.opt_in is None
            &&& l.failure is None
            &&& l.tensor_maps.len() == 0
        },
{
}

/// What the kernel `gelu_tanh_mul_split_bf16` takes, in order.
pub open spec fn gelu_tanh_mul_split_bf16_takes() -> Seq<Role> {
    seq![Role::Gate, Role::Up, Role::Out, Role::Columns]
}

/// `gelu_tanh_mul_split_view_bf16` launches its kernel exactly where the sizes of the request are
/// right, with every argument what its role asks for, on blocks that cover the result.
pub proof fn gelu_tanh_mul_split_view_bf16_launches(
    gate_len: int, up_len: int, out_len: int, n: int,
)
    ensures
        activation::gelu_tanh_mul_split_view_bf16_plan(
            gate_len, up_len, out_len, n,
        ) matches Plan::Fail(f) ==> f is InvalidArgument,
        activation::gelu_tanh_mul_split_view_bf16_plan(
            gate_len, up_len, out_len, n,
        ) !is Undefined,
        activation::gelu_tanh_mul_split_view_bf16_plan(
            gate_len, up_len, out_len, n,
        ) is Launch <==> {
            &&& n != 0
            &&& n % 2 == 0
            &&& gate_len >= n
            &&& up_len >= n
            &&& out_len >= n
        },
        activation::gelu_tanh_mul_split_view_bf16_plan(
            gate_len, up_len, out_len, n,
        ) matches Plan::Launch(l) ==> {
            &&& l.entry == "gelu_tanh_mul_split_bf16"@
            &&& l.kernel == "gelu_tanh_mul_split_bf16"@
            &&& l.args =~= gelu_tanh_mul_split_bf16_takes().map_values(
                |r: Role|
                    match r {
                        Role::Gate => Arg::buffer(0),
                        Role::Up => Arg::buffer(1),
                        Role::Out => Arg::buffer(2),
                        Role::Columns => Arg::word(n),
                        _ => Arg::Word(0),
                    },
            )
            &&& l.grid.0 == shape::greater(shape::lesser(shape::ceil_div(n, 512), 2048), 1)
            &&& l.grid.1 == 1
            &&& l.grid.2 == 1
            &&& l.block == (256int, 1int, 1int)
            &&& l.shared_mem == 0
            &&& l.opt_in is None
            &&& l.failure is None
            &&& l.tensor_maps.len() == 0
        },
{
}

/// `gelu_tanh_mul_split_bf16` launches its kernel exactly where the sizes of the request are
/// right, with every argument what its role asks for, on blocks that cover the result.
pub proof fn gelu_tanh_mul_split_bf16_launches(gate_len: int, up_len: int, out_len: int, n: int)
    ensures
        activation::gelu_tanh_mul_split_bf16_plan(
            gate_len, up_len, out_len, n,
        ) matches Plan::Fail(f) ==> f is InvalidArgument,
        activation::gelu_tanh_mul_split_bf16_plan(
            gate_len, up_len, out_len, n,
        ) !is Undefined,
        activation::gelu_tanh_mul_split_bf16_plan(
            gate_len, up_len, out_len, n,
        ) is Launch <==> {
            &&& n != 0
            &&& n % 2 == 0
            &&& gate_len >= n
            &&& up_len >= n
            &&& out_len >= n
        },
        activation::gelu_tanh_mul_split_bf16_plan(
            gate_len, up_len, out_len, n,
        ) matches Plan::Launch(l) ==> {
            &&& l.entry == "gelu_tanh_mul_split_bf16"@
            &&& l.kernel == "gelu_tanh_mul_split_bf16"@
            &&& l.args =~= gelu_tanh_mul_split_bf16_takes().map_values(
                |r: Role|
                    match r {
                        Role::Gate => Arg::buffer(0),
                        Role::Up => Arg::buffer(1),
                        Role::Out => Arg::buffer(2),
                        Role::Columns => Arg::word(n),
                        _ => Arg::Word(0),
                    },
            )
            &&& l.grid.0 == shape::greater(shape::lesser(shape::ceil_div(n, 512), 2048), 1)
            &&& l.grid.1 == 1
            &&& l.grid.2 == 1
            &&& l.block == (256int, 1int, 1int)
            &&& l.shared_mem == 0
            &&& l.opt_in is None
            &&& l.failure is None
            &&& l.tensor_maps.len() == 0
        },
{
}

/// What the kernel `add_bf16` takes, in order.
pub open spec fn add_bf16_takes() -> Seq<Role> {
    seq![Role::Left, Role::Right, Role::Out, Role::Columns]
}

/// `add_bf16` launches its kernel exactly where the sizes of the request are right, with every
/// argument what its role asks for, on blocks that cover the result.
pub proof fn add_bf16_launches(a_len: int, b_len: int, out_len: int, n: int)
    ensures
        activation::add_bf16_plan(a_len, b_len, out_len, n) matches Plan::Fail(
            f,
        ) ==> f is InvalidArgument,
        activation::add_bf16_plan(a_len, b_len, out_len, n) !is Undefined,
        activation::add_bf16_plan(a_len, b_len, out_len, n) is Launch <==> {
            &&& n != 0
            &&& a_len >= n
            &&& b_len >= n
            &&& out_len >= n
        },
        activation::add_bf16_plan(a_len, b_len, out_len, n) matches Plan::Launch(l) ==> {
            &&& l.entry == "add_bf16"@
            &&& l.kernel == "add_bf16"@
            &&& l.args =~= add_bf16_takes().map_values(
                |r: Role|
                    match r {
                        Role::Left => Arg::buffer(0),
                        Role::Right => Arg::buffer(1),
                        Role::Out => Arg::buffer(2),
                        Role::Columns => Arg::word(n),
                        _ => Arg::Word(0),
                    },
            )
            &&& l.grid.0 == shape::greater(shape::lesser(shape::ceil_div(n, 256), 2048), 1)
            &&& l.grid.1 == 1
            &&& l.grid.2 == 1
            &&& l.block == (256int, 1int, 1int)
            &&& l.shared_mem == 0
            &&& l.opt_in is None
            &&& l.failure is None
            &&& l.tensor_maps.len() == 0
        },
{
}

/// What the kernel `f32_axpy` takes, in order.
pub open spec fn f32_axpy_takes() -> Seq<Role> {
    seq![Role::Out, Role::Source, Role::Alpha, Role::Columns]
}

/// `f32_axpy` launches its kernel exactly where the sizes of the request are right, with every
/// argument what its role asks for, on blocks that cover the result.
pub proof fn f32_axpy_launches(out_len: int, src_len: int, alpha: F32, n: int)
    ensures
        activation::f32_axpy_plan(out_len, src_len, alpha, n) matches Plan::Fail(
            f,
        ) ==> f is InvalidArgument,
        activation::f32_axpy_plan(out_len, src_len, alpha, n) !is Undefined,
        activation::f32_axpy_plan(out_len, src_len, alpha, n) is Launch <==> {
            &&& n != 0
            &&& out_len >= n
            &&& src_len >= n
        },
        activation::f32_axpy_plan(out_len, src_len, alpha, n) matches Plan::Launch(l) ==> {
            &&& l.entry == "f32_axpy"@
            &&& l.kernel == "f32_axpy"@
            &&& l.args =~= f32_axpy_takes().map_values(
                |r: Role|
                    match r {
                        Role::Out => Arg::buffer(0),
                        Role::Source => Arg::buffer(1),
                        Role::Alpha => Arg::Scalar(alpha),
                        Role::Columns => Arg::word(n),
                        _ => Arg::Word(0),
                    },
            )
            &&& l.grid.0 == shape::greater(shape::lesser(shape::ceil_div(n, 512), 2048), 1)
            &&& l.grid.1 == 1
            &&& l.grid.2 == 1
            &&& l.block == (256int, 1int, 1int)
            &&& l.shared_mem == 0
            &&& l.opt_in is None
            &&& l.failure is None
            &&& l.tensor_maps.len() == 0
        },
{
}

/// What the kernel `f32_weighted_sum_to_bf16` takes, in order.
pub open spec fn f32_weighted_sum_to_bf16_takes() -> Seq<Role> {
    seq![Role::InF32, Role::Weights, Role::OutBf16, Role::NumRows, Role::Columns]
}

/// `f32_weighted_sum_to_bf16` launches its kernel exactly where the sizes of the request are
/// right, with every argument what its role asks for, on blocks that cover the result.
pub proof fn f32_weighted_sum_to_bf16_launches(
    in_f32_len: int, weights_len: int, out_bf16_len: int, num_rows: int, n: int,
)
    ensures
        activation::f32_weighted_sum_to_bf16_plan(
            in_f32_len, weights_len, out_bf16_len, num_rows, n,
        ) matches Plan::Fail(f) ==> f is InvalidArgument,
        activation::f32_weighted_sum_to_bf16_plan(
            in_f32_len, weights_len, out_bf16_len, num_rows, n,
        ) !is Undefined,
        activation::f32_weighted_sum_to_bf16_plan(
            in_f32_len, weights_len, out_bf16_len, num_rows, n,
        ) is Launch <==> {
            &&& num_rows != 0
            &&& n != 0
            &&& in_f32_len >= num_rows * n
            &&& weights_len >= num_rows
            &&& out_bf16_len >= n
        },
        activation::f32_weighted_sum_to_bf16_plan(
            in_f32_len, weights_len, out_bf16_len, num_rows, n,
        ) matches Plan::Launch(l) ==> {
            &&& l.entry == "f32_weighted_sum_to_bf16"@
            &&& l.kernel == "f32_weighted_sum_to_bf16"@
            &&& l.args =~= f32_weighted_sum_to_bf16_takes().map_values(
                |r: Role|
                    match r {
                        Role::InF32 => Arg::buffer(0),
                        Role::Weights => Arg::buffer(1),
                        Role::OutBf16 => Arg::buffer(2),
                        Role::NumRows => Arg::word(num_rows),
                        Role::Columns => Arg::word(n),
                        _ => Arg::Word(0),
                    },
            )
            &&& l.grid.0 == shape::greater(shape::ceil_div(n, 256), 1)
            &&& l.grid.1 == 1
            &&& l.grid.2 == 1
            &&& l.block == (256int, 1int, 1int)
            &&& l.shared_mem == 0
            &&& l.opt_in is None
            &&& l.failure is None
            &&& l.tensor_maps.len() == 0
        },
{
}

/// What the kernel `f32_renormalize_topk` takes, in order.
pub open spec fn f32_renormalize_topk_takes() -> Seq<Role> {
    seq![Role::Weight, Role::Columns]
}

/// `f32_renormalize_topk` launches its kernel exactly where the sizes of the request are right,
/// with every argument what its role asks for, on blocks that cover the result.
pub proof fn f32_renormalize_topk_launches(w_len: int, n: int)
    ensures
        activation::f32_renormalize_topk_plan(w_len, n) matches Plan::Fail(
            f,
        ) ==> f is InvalidArgument,
        activation::f32_renormalize_topk_plan(w_len, n) !is Undefined,
        activation::f32_renormalize_topk_plan(w_len, n) is Launch <==> {
            &&& n != 0
            &&& n <= 16
            &&& w_len >= n
        },
        activation::f32_renormalize_topk_plan(w_len, n) matches Plan::Launch(l) ==> {
            &&& l.entry == "f32_renormalize_topk"@
            &&& l.kernel == "f32_renormalize_topk"@
            &&& l.args =~= f32_renormalize_topk_takes().map_values(
                |r: Role|
                    match r {
                        Role::Weight => Arg::buffer(0),
                        Role::Columns => Arg::word(n),
                        _ => Arg::Word(0),
                    },
            )
            &&& l.grid.0 == 1
            &&& l.grid.1 == 1
            &&& l.grid.2 == 1
            &&& l.block == (1int, 1int, 1int)
            &&& l.shared_mem == 0
            &&& l.opt_in is None
            &&& l.failure is None
            &&& l.tensor_maps.len() == 0
        },
{
}

/// What the kernel `sigmoid_scalar_axpy_bf16` takes, in order.
pub open spec fn sigmoid_scalar_axpy_bf16_takes() -> Seq<Role> {
    seq![Role::Out, Role::Source, Role::Scalar, Role::Columns]
}

/// `sigmoid_scalar_axpy_bf16` launches its kernel exactly where the sizes of the request are
/// right, with every argument what its role asks for, on blocks that cover the result.
pub proof fn sigmoid_scalar_axpy_bf16_launches(
    out_len: int, src_len: int, scalar_len: int, n: int,
)
    ensures
        activation::sigmoid_scalar_axpy_bf16_plan(
            out_len, src_len, scalar_len, n,
        ) matches Plan::Fail(f) ==> f is InvalidArgument,
        activation::sigmoid_scalar_axpy_bf16_plan(
            out_len, src_len, scalar_len, n,
        ) !is Undefined,
        activation::sigmoid_scalar_axpy_bf16_plan(
            out_len, src_len, scalar_len, n,
        ) is Launch <==> {
            &&& n != 0
            &&& out_len >= n
            &&& src_len >= n
            &&& scalar_len != 0
        },
        activation::sigmoid_scalar_axpy_bf16_plan(
            out_len, src_len, scalar_len, n,
        ) matches Plan::Launch(l) ==> {
            &&& l.entry == "sigmoid_scalar_axpy_bf16"@
            &&& l.kernel == "sigmoid_scalar_axpy_bf16"@
            &&& l.args =~= sigmoid_scalar_axpy_bf16_takes().map_values(
                |r: Role|
                    match r {
                        Role::Out => Arg::buffer(0),
                        Role::Source => Arg::buffer(1),
                        Role::Scalar => Arg::buffer(2),
                        Role::Columns => Arg::word(n),
                        _ => Arg::Word(0),
                    },
            )
            &&& l.grid.0 == shape::greater(shape::ceil_div(n, 256), 1)
            &&& l.grid.1 == 1
            &&& l.grid.2 == 1
            &&& l.block == (256int, 1int, 1int)
            &&& l.shared_mem == 0
            &&& l.opt_in is None
            &&& l.failure is None
            &&& l.tensor_maps.len() == 0
        },
{
}

/// `f32_axpy_view` launches its kernel exactly where the sizes of the request are right, with
/// every argument what its role asks for, on blocks that cover the result.
pub proof fn f32_axpy_view_launches(out_len: int, src_len: int, alpha: F32, n: int)
    ensures
        activation::f32_axpy_view_plan(out_len, src_len, alpha, n) matches Plan::Fail(
            f,
        ) ==> f is InvalidArgument,
        activation::f32_axpy_view_plan(out_len, src_len, alpha, n) !is Undefined,
        activation::f32_axpy_view_plan(out_len, src_len, alpha, n) is Launch <==> {
            &&& n != 0
            &&& out_len >= n
            &&& src_len >= n
        },
        activation::f32_axpy_view_plan(out_len, src_len, alpha, n) matches Plan::Launch(l) ==> {
            &&& l.entry == "f32_axpy"@
            &&& l.kernel == "f32_axpy"@
            &&& l.args =~= f32_axpy_takes().map_values(
                |r: Role|
                    match r {
                        Role::Out => Arg::buffer(0),
                        Role::Source => Arg::buffer(1),
                        Role::Alpha => Arg::Scalar(alpha),
                        Role::Columns => Arg::word(n),
                        _ => Arg::Word(0),
                    },
            )
            &&& l.grid.0 == shape::greater(shape::lesser(shape::ceil_div(n, 512), 2048), 1)
            &&& l.grid.1 == 1
            &&& l.grid.2 == 1
            &&& l.block == (256int, 1int, 1int)
            &&& l.shared_mem == 0
            &&& l.opt_in is None
            &&& l.failure is None
            &&& l.tensor_maps.len() == 0
        },
{
}

/// What the kernel `bf16_axpy_host` takes, in order.
pub open spec fn bf16_axpy_host_takes() -> Seq<Role> {
    seq![Role::OutInout, Role::Source, Role::Columns, Role::Alpha]
}

/// `bf16_axpy_host` launches its kernel exactly where the sizes of the request are right, with
/// every argument what its role asks for, on blocks that cover the result.
pub proof fn bf16_axpy_host_launches(out_inout_len: int, src_len: int, n: int, alpha: F32)
    ensures
        activation::bf16_axpy_host_plan(
            out_inout_len, src_len, n, alpha,
        ) matches Plan::Fail(f) ==> f is InvalidArgument,
        activation::bf16_axpy_host_plan(
            out_inout_len, src_len, n, alpha,
        ) !is Undefined,
        activation::bf16_axpy_host_plan(
            out_inout_len, src_len, n, alpha,
        ) is Launch <==> {
            &&& n != 0
            &&& out_inout_len >= n
            &&& src_len >= n
        },
        activation::bf16_axpy_host_plan(
            out_inout_len, src_len, n, alpha,
        ) matches Plan::Launch(l) ==> {
            &&& l.entry == "bf16_axpy_host"@
            &&& l.kernel == "bf16_axpy_host"@
            &&& l.args =~= bf16_axpy_host_takes().map_values(
                |r: Role|
                    match r {
                        Role::OutInout => Arg::buffer(0),
                        Role::Source => Arg::buffer(1),
                        Role::Columns => Arg::word(n),
                        Role::Alpha => Arg::Scalar(alpha),
                        _ => Arg::Word(0),
                    },
            )
            &&& l.grid.0 == shape::greater(shape::lesser(shape::ceil_div(n, 256), 65535), 1)
            &&& l.grid.1 == 1
            &&& l.grid.2 == 1
            &&& l.block == (256int, 1int, 1int)
            &&& l.shared_mem == 0
            &&& l.opt_in is None
            &&& l.failure is None
            &&& l.tensor_maps.len() == 0
        },
{
}

/// `add_bf16_inplace` launches its kernel exactly where the sizes of the request are right, with
/// every argument what its role asks for, on blocks that cover the result.
pub proof fn add_bf16_inplace_launches(out_inout_len: int, src_len: int, n: int)
    ensures
        activation::add_bf16_inplace_plan(out_inout_len, src_len, n) matches Plan::Fail(
            f,
        ) ==> f is InvalidArgument,
        activation::add_bf16_inplace_plan(out_inout_len, src_len, n) !is Undefined,
        activation::add_bf16_inplace_plan(out_inout_len, src_len, n) is Launch <==> {
            &&& n != 0
            &&& out_inout_len >= n
            &&& src_len >= n
        },
        activation::add_bf16_inplace_plan(out_inout_len, src_len, n) matches Plan::Launch(l) ==> {
            &&& l.entry == "add_bf16"@
            &&& l.kernel == "add_bf16"@
            &&& l.args =~= add_bf16_takes().map_values(
                |r: Role|
                    match r {
                        Role::Left => Arg::buffer(0),
                        Role::Right => Arg::buffer(1),
                        Role::Out => Arg::buffer(0),
                        Role::Columns => Arg::word(n),
                        _ => Arg::Word(0),
                    },
            )
            &&& l.grid.0 == shape::greater(shape::lesser(shape::ceil_div(n, 256), 2048), 1)
            &&& l.grid.1 == 1
            &&& l.grid.2 == 1
            &&& l.block == (256int, 1int, 1int)
            &&& l.shared_mem == 0
            &&& l.opt_in is None
            &&& l.failure is None
            &&& l.tensor_maps.len() == 0
        },
{
}

/// What the kernel `f32_to_bf16` takes, in order.
pub open spec fn f32_to_bf16_takes() -> Seq<Role> {
    seq![Role::Input, Role::Out, Role::Columns]
}

/// `f32_to_bf16` launches its kernel exactly where the sizes of the request are right, with every
/// argument what its role asks for, on blocks that cover the result.
pub proof fn f32_to_bf16_launches(input_len: int, out_len: int, n: int)
    ensures
        activation::f32_to_bf16_plan(input_len, out_len, n) matches Plan::Fail(
            f,
        ) ==> f is InvalidArgument,
        activation::f32_to_bf16_plan(input_len, out_len, n) !is Undefined,
        activation::f32_to_bf16_plan(input_len, out_len, n) is Launch <==> {
            &&& n != 0
            &&& input_len >= n
            &&& out_len >= n
        },
        activation::f32_to_bf16_plan(input_len, out_len, n) matches Plan::Launch(l) ==> {
            &&& l.entry == "f32_to_bf16"@
            &&& l.kernel == "f32_to_bf16"@
            &&& l.args =~= f32_to_bf16_takes().map_values(
                |r: Role|
                    match r {
                        Role::Input => Arg::buffer(0),
                        Role::Out => Arg::buffer(1),
                        Role::Columns => Arg::word(n),
                        _ => Arg::Word(0),
                    },
            )
            &&& l.grid.0 == shape::greater(shape::lesser(shape::ceil_div(n, 256), 2048), 1)
            &&& l.grid.1 == 1
            &&& l.grid.2 == 1
            &&& l.block == (256int, 1int, 1int)
            &&& l.shared_mem == 0
            &&& l.opt_in is None
            &&& l.failure is None
            &&& l.tensor_maps.len() == 0
        },
{
}

/// What the kernel `broadcast_top_k_bf16` takes, in order.
pub open spec fn broadcast_top_k_bf16_takes() -> Seq<Role> {
    seq![Role::Input, Role::Out, Role::Rows, Role::TopK, Role::Hidden]
}

/// `broadcast_top_k_bf16` launches its kernel exactly where the sizes of the request are right,
/// with every argument what its role asks for, on blocks that cover the result.
pub proof fn broadcast_top_k_bf16_launches(
    input_len: int, out_len: int, m: int, top_k: int, hidden: int,
)
    ensures
        activation::broadcast_top_k_bf16_plan(
            input_len, out_len, m, top_k, hidden,
        ) matches Plan::Fail(f) ==> f is InvalidArgument,
        activation::broadcast_top_k_bf16_plan(
            input_len, out_len, m, top_k, hidden,
        ) is Launch <==> {
            &&& m != 0
            &&& top_k != 0
            &&& hidden != 0
            &&& hidden % 2 == 0
            &&& m * top_k * hidden <= u64::MAX
            &&& input_len >= m * hidden
            &&& out_len >= m * top_k * hidden
        },
        activation::broadcast_top_k_bf16_plan(
            input_len, out_len, m, top_k, hidden,
        ) matches Plan::Launch(l) ==> {
            &&& l.entry == "broadcast_top_k_bf16"@
            &&& l.kernel == "broadcast_top_k_bf16"@
            &&& l.args =~= broadcast_top_k_bf16_takes().map_values(
                |r: Role|
                    match r {
                        Role::Input => Arg::buffer(0),
                        Role::Out => Arg::buffer(1),
                        Role::Rows => Arg::word(m),
                        Role::TopK => Arg::word(top_k),
                        Role::Hidden => Arg::word(hidden),
                        _ => Arg::Word(0),
                    },
            )
            &&& l.grid.0 == shape::greater(shape::lesser(shape::ceil_div(shape::low_word((m * top_k * hidden) / 2), 256), 2048), 1)
            &&& l.grid.1 == 1
            &&& l.grid.2 == 1
            &&& l.block == (256int, 1int, 1int)
            &&& l.shared_mem == 0
            &&& l.opt_in is None
            &&& l.failure is None
            &&& l.tensor_maps.len() == 0
        },
{
}

/// What the kernel `bf16_to_f32` takes, in order.
pub open spec fn bf16_to_f32_takes() -> Seq<Role> {
    seq![Role::Input, Role::Out, Role::Columns]
}

/// `bf16_to_f32` launches its kernel exactly where the sizes of the request are right, with every
/// argument what its role asks for, on blocks that cover the result.
pub proof fn bf16_to_f32_launches(input_len: int, out_len: int, n: int)
    ensures
        activation::bf16_to_f32_plan(input_len, out_len, n) matches Plan::Fail(
            f,
        ) ==> f is InvalidArgument,
        activation::bf16_to_f32_plan(input_len, out_len, n) !is Undefined,
        activation::bf16_to_f32_plan(input_len, out_len, n) is Launch <==> {
            &&& n != 0
            &&& input_len >= n
            &&& out_len >= n
        },
        activation::bf16_to_f32_plan(input_len, out_len, n) matches Plan::Launch(l) ==> {
            &&& l.entry == "bf16_to_f32"@
            &&& l.kernel == "bf16_to_f32"@
            &&& l.args =~= bf16_to_f32_takes().map_values(
                |r: Role|
                    match r {
                        Role::Input => Arg::buffer(0),
                        Role::Out => Arg::buffer(1),
                        Role::Columns => Arg::word(n),
                        _ => Arg::Word(0),
                    },
            )
            &&& l.grid.0 == shape::greater(shape::lesser(shape::ceil_div(n, 256), 2048), 1)
            &&& l.grid.1 == 1
            &&& l.grid.2 == 1
            &&& l.block == (256int, 1int, 1int)
            &&& l.shared_mem == 0
            &&& l.opt_in is None
            &&& l.failure is None
            &&& l.tensor_maps.len() == 0
        },
{
}

/// What the kernel `gelu_mul_bf16` takes, in order.
pub open spec fn gelu_mul_bf16_takes() -> Seq<Role> {
    seq![Role::Input, Role::Out, Role::TotalOutElems, Role::Width]
}

/// `gelu_mul_bf16` launches its kernel exactly where the sizes of the request are right, with
/// every argument what its role asks for, on blocks that cover the result.
pub proof fn gelu_mul_bf16_launches(input_len: int, out_len: int, total_out_elems: int, d: int)
    requires
        total_out_elems >= 0,
    ensures
        activation::gelu_mul_bf16_plan(
            input_len, out_len, total_out_elems, d,
        ) matches Plan::Fail(f) ==> f is InvalidArgument,
        activation::gelu_mul_bf16_plan(
            input_len, out_len, total_out_elems, d,
        ) !is Undefined,
        activation::gelu_mul_bf16_plan(
            input_len, out_len, total_out_elems, d,
        ) is Launch <==> {
            &&& total_out_elems != 0
            &&& d != 0
            &&& d % 2 == 0
            &&& total_out_elems % 2 == 0
            &&& input_len >= total_out_elems * 2
            &&& out_len >= total_out_elems
        },
        activation::gelu_mul_bf16_plan(
            input_len, out_len, total_out_elems, d,
        ) matches Plan::Launch(l) ==> {
            &&& l.entry == "gelu_mul_bf16"@
            &&& l.kernel == "gelu_mul_bf16"@
            &&& l.args =~= gelu_mul_bf16_takes().map_values(
                |r: Role|
                    match r {
                        Role::Input => Arg::buffer(0),
                        Role::Out => Arg::buffer(1),
                        Role::TotalOutElems => Arg::word(total_out_elems),
                        Role::Width => Arg::word(d),
                        _ => Arg::Word(0),
                    },
            )
            &&& meaning::covers(l.grid.0, 512, total_out_elems)
            &&& l.grid.1 == 1
            &&& l.grid.2 == 1
            &&& l.block == (256int, 1int, 1int)
            &&& l.shared_mem == 0
            &&& l.opt_in is None
            &&& l.failure is None
            &&& l.tensor_maps.len() == 0
        },
{
    shape::lemma_ceil_div(total_out_elems, 512);
}

/// What the kernel `gelu_tanh_mul_bf16` takes, in order.
pub open spec fn gelu_tanh_mul_bf16_takes() -> Seq<Role> {
    seq![Role::Input, Role::Out, Role::TotalOutElems, Role::Width]
}

/// `gelu_tanh_mul_bf16` launches its kernel exactly where the sizes of the request are right,
/// with every argument what its role asks for, on blocks that cover the result.
pub proof fn gelu_tanh_mul_bf16_launches(
    input_len: int, out_len: int, total_out_elems: int, d: int,
)
    requires
        total_out_elems >= 0,
    ensures
        activation::gelu_tanh_mul_bf16_plan(
            input_len, out_len, total_out_elems, d,
        ) matches Plan::Fail(f) ==> f is InvalidArgument,
        activation::gelu_tanh_mul_bf16_plan(
            input_len, out_len, total_out_elems, d,
        ) !is Undefined,
        activation::gelu_tanh_mul_bf16_plan(
            input_len, out_len, total_out_elems, d,
        ) is Launch <==> {
            &&& total_out_elems != 0
            &&& d != 0
            &&& d % 2 == 0
            &&& total_out_elems % 2 == 0
            &&& input_len >= total_out_elems * 2
            &&& out_len >= total_out_elems
        },
        activation::gelu_tanh_mul_bf16_plan(
            input_len, out_len, total_out_elems, d,
        ) matches Plan::Launch(l) ==> {
            &&& l.entry == "gelu_tanh_mul_bf16"@
            &&& l.kernel == "gelu_tanh_mul_bf16"@
            &&& l.args =~= gelu_tanh_mul_bf16_takes().map_values(
                |r: Role|
                    match r {
                        Role::Input => Arg::buffer(0),
                        Role::Out => Arg::buffer(1),
                        Role::TotalOutElems => Arg::word(total_out_elems),
                        Role::Width => Arg::word(d),
                        _ => Arg::Word(0),
                    },
            )
            &&& meaning::covers(l.grid.0, 512, total_out_elems)
            &&& l.grid.1 == 1
            &&& l.grid.2 == 1
            &&& l.block == (256int, 1int, 1int)
            &&& l.shared_mem == 0
            &&& l.opt_in is None
            &&& l.failure is None
            &&& l.tensor_maps.len() == 0
        },
{
    shape::lemma_ceil_div(total_out_elems, 512);
}

/// What the kernel `batched_split_3way_bf16` takes, in order.
pub open spec fn batched_split_3way_bf16_takes() -> Seq<Role> {
    seq![Role::Source, Role::Dst0, Role::Dst1, Role::Dst2, Role::N1, Role::N2, Role::N3]
}

/// `batched_split_3way_bf16` launches its kernel exactly where the sizes of the request are
/// right, with every argument what its role asks for, on blocks that cover the result.
pub proof fn batched_split_3way_bf16_launches(
    src_len: int, dst0_len: int, dst1_len: int, dst2_len: int, n1: int, n2: int, n3: int,
    batch_m: int,
)
    requires
        n1 >= 0,
        n2 >= 0,
        n3 >= 0,
    ensures
        activation::batched_split_3way_bf16_plan(
            src_len, dst0_len, dst1_len, dst2_len, n1, n2, n3, batch_m,
        ) matches Plan::Fail(f) ==> f is InvalidArgument,
        activation::batched_split_3way_bf16_plan(
            src_len, dst0_len, dst1_len, dst2_len, n1, n2, n3, batch_m,
        ) is Launch <==> {
            &&& n1 != 0
            &&& n2 != 0
            &&& n3 != 0
            &&& batch_m != 0
            &&& n1 + n2 <= u32::MAX
            &&& n1 + n2 + n3 <= u32::MAX
            &&& src_len >= batch_m * (n1 + n2 + n3)
            &&& dst0_len >= batch_m * n1
            &&& dst1_len >= batch_m * n2
            &&& dst2_len >= batch_m * n3
        },
        activation::batched_split_3way_bf16_plan(
            src_len, dst0_len, dst1_len, dst2_len, n1, n2, n3, batch_m,
        ) matches Plan::Launch(l) ==> {
            &&& l.entry == "batched_split_3way_bf16"@
            &&& l.kernel == "batched_split_3way_bf16"@
            &&& l.args =~= batched_split_3way_bf16_takes().map_values(
                |r: Role|
                    match r {
                        Role::Source => Arg::buffer(0),
                        Role::Dst0 => Arg::buffer(1),
                        Role::Dst1 => Arg::buffer(2),
                        Role::Dst2 => Arg::buffer(3),
                        Role::N1 => Arg::word(n1),
                        Role::N2 => Arg::word(n2),
                        Role::N3 => Arg::word(n3),
                        _ => Arg::Word(0),
                    },
            )
            &&& meaning::covers(l.grid.0, 128, n1 + n2 + n3)
            &&& l.grid.1 == batch_m
            &&& l.grid.2 == 1
            &&& l.block == (128int, 1int, 1int)
            &&& l.shared_mem == 0
            &&& l.opt_in is None
            &&& l.failure is None
            &&& l.tensor_maps.len() == 0
        },
{
    shape::lemma_ceil_div(n1 + n2 + n3, 128);
}

/// What the kernel `split_q_gate_bf16` takes, in order.
pub open spec fn split_q_gate_bf16_takes() -> Seq<Role> {
    seq![Role::QFull, Role::QOnly, Role::Gate, Role::HeadDim]
}

/// `split_q_gate_bf16` launches its kernel exactly where the sizes of the request are right, with
/// every argument what its role asks for, on blocks that cover the result.
pub proof fn split_q_gate_bf16_launches(
    q_full_len: int, q_only_len: int, gate_len: int, num_heads: int, head_dim: int,
)
    ensures
        activation::split_q_gate_bf16_plan(
            q_full_len, q_only_len, gate_len, num_heads, head_dim,
        ) matches Plan::Fail(f) ==> f is InvalidArgument,
        activation::split_q_gate_bf16_plan(
            q_full_len, q_only_len, gate_len, num_heads, head_dim,
        ) is Launch <==> {
            &&& num_heads != 0
            &&& head_dim != 0
            &&& num_heads * head_dim <= u32::MAX
            &&& q_full_len >= 2 * (num_heads * head_dim)
            &&& q_only_len >= num_heads * head_dim
            &&& gate_len >= num_heads * head_dim
        },
        activation::split_q_gate_bf16_plan(
            q_full_len, q_only_len, gate_len, num_heads, head_dim,
        ) matches Plan::Launch(l) ==> {
            &&& l.entry == "split_q_gate_bf16"@
            &&& l.kernel == "split_q_gate_bf16"@
            &&& l.args =~= split_q_gate_bf16_takes().map_values(
                |r: Role|
                    match r {
                        Role::QFull => Arg::buffer(0),
                        Role::QOnly => Arg::buffer(1),
                        Role::Gate => Arg::buffer(2),
                        Role::HeadDim => Arg::word(head_dim),
                        _ => Arg::Word(0),
                    },
            )
            &&& l.grid.0 == num_heads
            &&& l.grid.1 == 1
            &&& l.grid.2 == 1
            &&& l.block == (head_dim, 1int, 1int)
            &&& l.shared_mem == 0
            &&& l.opt_in is None
            &&& l.failure is None
            &&& l.tensor_maps.len() == 0
        },
{
}

/// What the kernel `attn_output_gate` takes, in order.
pub open spec fn attn_output_gate_takes() -> Seq<Role> {
    seq![Role::AttnOut, Role::GateLogits, Role::AttnOutToo, Role::HiddenDim]
}

/// `attn_output_gate_inplace` launches its kernel exactly where the sizes of the request are
/// right, with every argument what its role asks for, on blocks that cover the result.
pub proof fn attn_output_gate_inplace_launches(
    attn_out_len: int, gate_logits_len: int, num_tokens: int, hidden_dim: int,
)
    ensures
        activation::attn_output_gate_inplace_plan(
            attn_out_len, gate_logits_len, num_tokens, hidden_dim,
        ) matches Plan::Fail(f) ==> f is InvalidArgument,
        activation::attn_output_gate_inplace_plan(
            attn_out_len, gate_logits_len, num_tokens, hidden_dim,
        ) is Launch <==> {
            &&& num_tokens != 0
            &&& hidden_dim != 0
            &&& num_tokens * hidden_dim <= u32::MAX
            &&& attn_out_len >= num_tokens * hidden_dim
            &&& gate_logits_len >= num_tokens * hidden_dim
        },
        activation::attn_output_gate_inplace_plan(
            attn_out_len, gate_logits_len, num_tokens, hidden_dim,
        ) matches Plan::Launch(l) ==> {
            &&& l.entry == "attn_output_gate"@
            &&& l.kernel == "attn_output_gate"@
            &&& l.args =~= attn_output_gate_takes().map_values(
                |r: Role|
                    match r {
                        Role::AttnOut => Arg::buffer(0),
                        Role::GateLogits => Arg::buffer(1),
                        Role::AttnOutToo => Arg::buffer(0),
                        Role::HiddenDim => Arg::word(hidden_dim),
                        _ => Arg::Word(0),
                    },
            )
            &&& l.grid.0 == num_tokens
            &&& l.grid.1 == 1
            &&& l.grid.2 == 1
            &&& l.block == (128int, 1int, 1int)
            &&& l.shared_mem == 0
            &&& l.opt_in is None
            &&& l.failure is Some
            &&& l.tensor_maps.len() == 0
        },
{
}

/// `attn_output_gate` launches its kernel exactly where the sizes of the request are right, with
/// every argument what its role asks for, on blocks that cover the result.
pub proof fn attn_output_gate_launches(
    attn_out_len: int, gate_logits_len: int, out_len: int, num_tokens: int, hidden_dim: int,
)
    ensures
        activation::attn_output_gate_plan(
            attn_out_len, gate_logits_len, out_len, num_tokens, hidden_dim,
        ) matches Plan::Fail(f) ==> f is InvalidArgument,
        activation::attn_output_gate_plan(
            attn_out_len, gate_logits_len, out_len, num_tokens, hidden_dim,
        ) !is Undefined,
        activation::attn_output_gate_plan(
            attn_out_len, gate_logits_len, out_len, num_tokens, hidden_dim,
        ) is Launch <==> {
            &&& num_tokens != 0
            &&& hidden_dim != 0
        },
        activation::attn_output_gate_plan(
            attn_out_len, gate_logits_len, out_len, num_tokens, hidden_dim,
        ) matches Plan::Launch(l) ==> {
            &&& l.entry == "attn_output_gate"@
            &&& l.kernel == "attn_output_gate"@
            &&& l.args =~= attn_output_gate_takes().map_values(
                |r: Role|
                    match r {
                        Role::AttnOut => Arg::buffer(0),
                        Role::GateLogits => Arg::buffer(1),
                        Role::AttnOutToo => Arg::buffer(2),
                        Role::HiddenDim => Arg::word(hidden_dim),
                        _ => Arg::Word(0),
                    },
            )
            &&& l.grid.0 == num_tokens
            &&& l.grid.1 == 1
            &&& l.grid.2 == 1
            &&& l.block == (128int, 1int, 1int)
            &&& l.shared_mem == 0
            &&& l.opt_in is None
            &&& l.failure is None
            &&& l.tensor_maps.len() == 0
        },
{
}

/// What the kernel `attn_output_gate_backward_bf16` takes, in order.
pub open spec fn attn_output_gate_backward_bf16_takes() -> Seq<Role> {
    seq![Role::AttnOut, Role::GateLogits, Role::Dy, Role::Da, Role::Dg, Role::HiddenDim]
}

/// `attn_output_gate_backward_bf16` launches its kernel exactly where the sizes of the request
/// are right, with every argument what its role asks for, on blocks that cover the result.
pub proof fn attn_output_gate_backward_bf16_launches(
    attn_out_len: int, gate_logits_len: int, dy_len: int, da_len: int, dg_len: int,
    num_tokens: int, hidden_dim: int,
)
    ensures
        activation::attn_output_gate_backward_bf16_plan(
            attn_out_len, gate_logits_len, dy_len, da_len, dg_len, num_tokens, hidden_dim,
        ) matches Plan::Fail(f) ==> f is InvalidArgument,
        activation::attn_output_gate_backward_bf16_plan(
            attn_out_len, gate_logits_len, dy_len, da_len, dg_len, num_tokens, hidden_dim,
        ) is Launch <==> {
            &&& num_tokens != 0
            &&& hidden_dim != 0
            &&& num_tokens * hidden_dim <= u32::MAX
            &&& attn_out_len >= num_tokens * hidden_dim
            &&& gate_logits_len >= num_tokens * hidden_dim
            &&& dy_len >= num_tokens * hidden_dim
            &&& da_len >= num_tokens * hidden_dim
            &&& dg_len >= num_tokens * hidden_dim
        },
        activation::attn_output_gate_backward_bf16_plan(
            attn_out_len, gate_logits_len, dy_len, da_len, dg_len, num_tokens, hidden_dim,
        ) matches Plan::Launch(l) ==> {
            &&& l.entry == "attn_output_gate_backward_bf16"@
            &&& l.kernel == "attn_output_gate_backward_bf16"@
            &&& l.args =~= attn_output_gate_backward_bf16_takes().map_values(
                |r: Role|
                    match r {
                        Role::AttnOut => Arg::buffer(0),
                        Role::GateLogits => Arg::buffer(1),
                        Role::Dy => Arg::buffer(2),
                        Role::Da => Arg::buffer(3),
                        Role::Dg => Arg::buffer(4),
                        Role::HiddenDim => Arg::word(hidden_dim),
                        _ => Arg::Word(0),
                    },
            )
            &&& l.grid.0 == num_tokens
            &&& l.grid.1 == 1
            &&& l.grid.2 == 1
            &&& l.block == (128int, 1int, 1int)
            &&& l.shared_mem == 0
            &&& l.opt_in is None
            &&& l.failure is None
            &&& l.tensor_maps.len() == 0
        },
{
}

} // verus!
