//! The roles of kernel arguments.
use crate::plan::{MapElem, Place, Swizzle, TensorMapView};
use vstd::prelude::*;

verus! {

/// What an argument of a kernel is for. A role that ends in `Tiles` is that of a descriptor of the
/// buffer.
pub enum Role {
    ALog,
    ALogits,
    Alpha,
    AttnOut,
    AttnOutToo,
    BFp8,
    BLogits,
    BPacked,
    BScale,
    BScales,
    Batch,
    Beta,
    BlockIdx,
    BlockSize,
    Buf,
    Buffer0,
    Buffer1,
    Buffer2,
    CKv,
    CKvTiles,
    Channels,
    ChunkDepth,
    Columns,
    CosCache,
    CuSeqlensK,
    CuSeqlensQ,
    Current,
    DALog,
    DHidden,
    Da,
    DaLogits,
    Dalpha,
    Db,
    DbLogits,
    Dbeta,
    Dc,
    DdtBias,
    Delta,
    Depth,
    Dg,
    Dim,
    Dk,
    DkvIn,
    DkvPaged,
    Dq,
    Draft,
    DsTInout,
    Dst0,
    Dst1,
    Dst2,
    DstK,
    DstV,
    DtBias,
    Dv,
    Dw,
    Dx,
    Dy,
    EmbeddingTable,
    Eps,
    ExpertIds,
    Factor,
    Gate,
    GateLogits,
    HeadDim,
    Heads,
    Hidden,
    HiddenDim,
    InF32,
    Indices,
    Input,
    KCache,
    KRope,
    KRopeTiles,
    KScale,
    KScalesIn,
    KScalesOut,
    KTop,
    Key,
    KeyTiles,
    KvOut,
    KvPaged,
    KvScale,
    KvStride,
    Left,
    LeftTiles,
    Logits,
    Lse,
    LsePartial,
    Mask,
    MaxPages,
    MaxSeq,
    MaxSeqlenQ,
    N1,
    N2,
    N3,
    NewK,
    NewV,
    NumBlocks,
    NumExperts,
    NumHeads,
    NumHeadsKv,
    NumHeadsQ,
    NumKvHeads,
    NumQHeads,
    NumRows,
    NumShards,
    NumSplits,
    NumTokens,
    OFinal,
    OPartial,
    Out,
    OutBf16,
    OutF32,
    OutInout,
    Output,
    PageIndices,
    PageSize,
    PageTable,
    Pairs,
    PosPtr,
    Position,
    Product,
    QC,
    QFull,
    QOnly,
    QPos,
    QPosOffset,
    QR,
    QScale,
    QkOut,
    Query,
    QueryTiles,
    Result,
    Right,
    RightTiles,
    RowScales,
    Rows,
    SIn,
    SKv,
    SNew,
    SOld,
    SOut,
    Scalar,
    Scale,
    ScaleA,
    ScaleB,
    Scales,
    Scores,
    SeqArg,
    SeqKv,
    SeqLen,
    SeqLens,
    SeqQ,
    SinCache,
    SlidingWindow,
    SlotInPage,
    Softcap,
    Source,
    SplitIdx,
    SrcK,
    SrcV,
    StageF32,
    State,
    StateTiles,
    Target,
    Temperature,
    TokenIds,
    Tokens,
    TopK,
    TotalKv,
    TotalOutElems,
    TotalQ,
    TotalQkv,
    Up,
    VCache,
    VScale,
    VScalesIn,
    VScalesOut,
    VTTiles,
    Value,
    ValueTiles,
    Values,
    Vocab,
    VocabSize,
    Weight,
    Weights,
    Width,
    Window,
    Zero,
    Zeros,
}

/// Whether a descriptor is of a row-major matrix in one of the caller's buffers, in tiles.
pub open spec fn tiles(
    m: TensorMapView, buffer: u32, elem: MapElem, rows: int, columns: int, tile_rows: int,
    tile_columns: int, swizzle: Swizzle,
) -> bool {
    &&& m.base == Place::of_param(buffer)
    &&& m.elem == elem
    &&& m.dims =~= seq![columns as u64, rows as u64]
    &&& m.strides =~= seq![(columns * elem.bytes()) as u64]
    &&& m.tile =~= seq![tile_columns as u32, tile_rows as u32]
    &&& m.swizzle == swizzle
}

} // verus!
