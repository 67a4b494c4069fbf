//! Bulk-copy descriptors over the buffers of a request.
use crate::plan::{MapElem, Place, Slot, Swizzle, TensorMap, TensorMapView};
use vstd::prelude::*;

verus! {

/// A BF16 matrix of `seq_len` rows in buffer parameter `i`.
pub open spec fn desc(
    i: u32, seq_len: int, head_dim: int, tile_rows: int, tile_cols: int,
) -> TensorMapView {
    TensorMapView::matrix(
        i,
        MapElem::Bf16,
        seq_len,
        head_dim,
        head_dim * 2,
        tile_rows,
        tile_cols,
        Swizzle::Plain,
        "cuTensorMapEncodeTiled failed: "@,
    )
}

/// Descriptor of a BF16 matrix, its tiles laid out row by row.
pub fn create_tma_desc(
    i: u32,
    seq_len: u32,
    head_dim: u32,
    tile_rows: u32,
    tile_cols: u32,
) -> (r: TensorMap)
    ensures
        r@ == desc(i, seq_len as int, head_dim as int, tile_rows as int, tile_cols as int),
{
    TensorMap::matrix(
        i,
        MapElem::Bf16,
        seq_len,
        head_dim,
        head_dim as u64 * 2,
        tile_rows,
        tile_cols,
        Swizzle::Plain,
        "cuTensorMapEncodeTiled failed: ",
    )
}

/// A BF16 tensor of three dimensions in buffer parameter `i`.
pub open spec fn desc_3d_bf16(
    i: u32, inner_dim: int, middle_dim: int, outer_dim: int, tile_inner: int, tile_middle: int,
    tile_outer: int,
) -> TensorMapView {
    TensorMapView {
        base: Place { slot: Slot::Param(i), start: 0 },
        elem: MapElem::Bf16,
        dims: seq![inner_dim as u64, middle_dim as u64, outer_dim as u64],
        strides: seq![(inner_dim * 2) as u64, (middle_dim * inner_dim * 2) as u64],
        tile: seq![tile_inner as u32, tile_middle as u32, tile_outer as u32],
        swizzle: Swizzle::Plain,
        failure: "cuTensorMapEncodeTiled 3D: "@,
    }
}

/// Descriptor of a BF16 tensor of three dimensions, innermost first.
pub fn create_tma_desc_3d_bf16(
    i: u32,
    inner_dim: u32,
    middle_dim: u32,
    outer_dim: u32,
    tile_inner: u32,
    tile_middle: u32,
    tile_outer: u32,
) -> (r: TensorMap)
    requires
        middle_dim * inner_dim * 2 <= u64::MAX,
    ensures
        r@ == desc_3d_bf16(
            i, inner_dim as int, middle_dim as int, outer_dim as int, tile_inner as int,
            tile_middle as int, tile_outer as int,
        ),
{
    TensorMap {
        base: Place { slot: Slot::Param(i), start: 0 },
        elem: MapElem::Bf16,
        dims: vec![inner_dim as u64, middle_dim as u64, outer_dim as u64],
        strides: vec![inner_dim as u64 * 2, crate::shape::product(middle_dim, inner_dim) * 2],
        tile: vec![tile_inner, tile_middle, tile_outer],
        swizzle: Swizzle::Plain,
        failure: "cuTensorMapEncodeTiled 3D: ",
    }
}

/// A BF16 matrix in buffer parameter `i` whose tiles are swizzled.
pub open spec fn desc_swizzle(
    i: u32, seq_len: int, head_dim: int, tile_rows: int, tile_cols: int,
) -> TensorMapView {
    TensorMapView::matrix(
        i,
        MapElem::Bf16,
        seq_len,
        head_dim,
        head_dim * 2,
        tile_rows,
        tile_cols,
        Swizzle::Bytes128,
        "cuTensorMapEncodeTiled (swizzle) failed: "@,
    )
}

/// Descriptor of a BF16 matrix, its tiles in the 128-byte swizzled order.
pub fn create_tma_desc_swizzle(
    i: u32,
    seq_len: u32,
    head_dim: u32,
    tile_rows: u32,
    tile_cols: u32,
) -> (r: TensorMap)
    ensures
        r@ == desc_swizzle(i, seq_len as int, head_dim as int, tile_rows as int, tile_cols as int),
{
    TensorMap::matrix(
        i,
        MapElem::Bf16,
        seq_len,
        head_dim,
        head_dim as u64 * 2,
        tile_rows,
        tile_cols,
        Swizzle::Bytes128,
        "cuTensorMapEncodeTiled (swizzle) failed: ",
    )
}

/// A matrix of single bytes in buffer parameter `i` whose tiles are swizzled.
pub open spec fn desc_fp8_swizzle(
    i: u32, seq_len: int, head_dim: int, tile_rows: int, tile_cols: int,
) -> TensorMapView {
    TensorMapView::matrix(
        i,
        MapElem::Byte,
        seq_len,
        head_dim,
        head_dim,
        tile_rows,
        tile_cols,
        Swizzle::Bytes128,
        "cuTensorMapEncodeTiled (fp8 swizzle) failed: "@,
    )
}

/// Descriptor of an FP8 matrix, its tiles in the 128-byte swizzled order.
pub fn create_tma_desc_fp8_swizzle(
    i: u32,
    seq_len: u32,
    head_dim: u32,
    tile_rows: u32,
    tile_cols: u32,
) -> (r: TensorMap)
    ensures
        r@ == desc_fp8_swizzle(
            i, seq_len as int, head_dim as int, tile_rows as int, tile_cols as int,
        ),
{
    TensorMap::matrix(
        i,
        MapElem::Byte,
        seq_len,
        head_dim,
        head_dim as u64,
        tile_rows,
        tile_cols,
        Swizzle::Bytes128,
        "cuTensorMapEncodeTiled (fp8 swizzle) failed: ",
    )
}

/// A matrix of single bytes in buffer parameter `i`.
pub open spec fn desc_fp8(
    i: u32, seq_len: int, head_dim: int, tile_rows: int, tile_cols: int,
) -> TensorMapView {
    TensorMapView::matrix(
        i,
        MapElem::Byte,
        seq_len,
        head_dim,
        head_dim,
        tile_rows,
        tile_cols,
        Swizzle::Plain,
        "cuTensorMapEncodeTiled (fp8) failed: "@,
    )
}

/// Descriptor of an FP8 matrix, its tiles laid out row by row.
pub fn create_tma_desc_fp8(
    i: u32,
    seq_len: u32,
    head_dim: u32,
    tile_rows: u32,
    tile_cols: u32,
) -> (r: TensorMap)
    ensures
        r@ == desc_fp8(i, seq_len as int, head_dim as int, tile_rows as int, tile_cols as int),
{
    TensorMap::matrix(
        i,
        MapElem::Byte,
        seq_len,
        head_dim,
        head_dim as u64,
        tile_rows,
        tile_cols,
        Swizzle::Plain,
        "cuTensorMapEncodeTiled (fp8) failed: ",
    )
}

/// A transposed value matrix of single bytes in buffer parameter `i`: one row per head
/// dimension, one column per token.
pub open spec fn desc_fp8_vt(
    i: u32, total_kv_rows: int, head_dim: int, tile_tokens: int, tile_d: int,
) -> TensorMapView {
    TensorMapView::matrix(
        i,
        MapElem::Byte,
        head_dim,
        total_kv_rows,
        total_kv_rows,
        tile_d,
        tile_tokens,
        Swizzle::Plain,
        "cuTensorMapEncodeTiled (fp8 vt) failed: "@,
    )
}

/// Descriptor of a transposed FP8 value matrix.
pub fn create_tma_desc_fp8_vt(
    i: u32,
    total_kv_rows: u32,
    head_dim: u32,
    tile_tokens: u32,
    tile_d: u32,
) -> (r: TensorMap)
    ensures
        r@ == desc_fp8_vt(
            i, total_kv_rows as int, head_dim as int, tile_tokens as int, tile_d as int,
        ),
{
    TensorMap::matrix(
        i,
        MapElem::Byte,
        head_dim,
        total_kv_rows,
        total_kv_rows as u64,
        tile_d,
        tile_tokens,
        Swizzle::Plain,
        "cuTensorMapEncodeTiled (fp8 vt) failed: ",
    )
}

/// A BF16 matrix operand of a product, in buffer parameter `i`.
pub open spec fn desc_bf16_2d(
    i: u32, rows: int, cols: int, tile_rows: int, tile_cols: int,
) -> TensorMapView {
    desc(i, rows, cols, tile_rows, tile_cols)
}

/// Descriptor of a row-major BF16 operand of a matrix product.
pub fn create_tma_desc_bf16_2d(
    i: u32,
    rows: u32,
    cols: u32,
    tile_rows: u32,
    tile_cols: u32,
) -> (r: TensorMap)
    ensures
        r@ == desc_bf16_2d(i, rows as int, cols as int, tile_rows as int, tile_cols as int),
{
    create_tma_desc(i, rows, cols, tile_rows, tile_cols)
}

/// A single-precision matrix in buffer parameter `i`, cut into square tiles.
pub open spec fn desc_fp32(i: u32, total_rows: int, inner_cols: int) -> TensorMapView {
    TensorMapView::matrix(
        i,
        MapElem::F32,
        total_rows,
        inner_cols,
        inner_cols * 4,
        inner_cols,
        inner_cols,
        Swizzle::Plain,
        "TMA FP32 encode: "@,
    )
}

/// Descriptor of single-precision state matrices stacked on each other; one tile is one matrix.
pub fn create_tma_desc_fp32(i: u32, total_rows: u32, inner_cols: u32) -> (r: TensorMap)
    ensures
        r@ == desc_fp32(i, total_rows as int, inner_cols as int),
{
    TensorMap::matrix(
        i,
        MapElem::F32,
        total_rows,
        inner_cols,
        inner_cols as u64 * 4,
        inner_cols,
        inner_cols,
        Swizzle::Plain,
        "TMA FP32 encode: ",
    )
}

} // verus!
