//! Single kernel launches: what is to be launched, and how its failure is told.
use crate::error::{DriverError, Fault, Result, SparkError};
use crate::text::Text;
use vstd::prelude::*;

verus! {

/// A single-precision number by its bits. The planner hands such numbers on and never computes
/// with them.
#[derive(Debug, Clone, Copy, PartialEq, Eq, Structural)]
pub struct F32 {
    /// The IEEE 754 encoding.
    pub bits: u32,
}

impl F32 {
    /// Whether this is a number above zero: neither zero, nor infinite, nor no number at all.
    pub open spec fn is_positive_finite(self) -> bool {
        0 < self.bits < 0x7f80_0000
    }

    /// Whether this is a number above zero.
    pub fn positive_finite(&self) -> (r: bool)
        ensures
            r == self.is_positive_finite(),
    {
        0 < self.bits && self.bits < 0x7f80_0000
    }
}

/// Where device memory comes from.
#[derive(Debug, Clone, Copy, PartialEq, Eq, Structural)]
pub enum Slot {
    /// A buffer of the caller, by its place among the buffer parameters.
    Param(u32),
    /// A scratch buffer of the program that is being run, by its number.
    Scratch(u32),
}

/// A device address: a slot, and the number of elements to skip in it.
#[derive(Debug, Clone, Copy, PartialEq, Eq, Structural)]
pub struct Place {
    /// The memory that is addressed.
    pub slot: Slot,
    /// The elements before the address.
    pub start: u64,
}

/// One argument of a kernel.
#[derive(Debug, Clone, Copy, PartialEq, Eq, Structural)]
pub enum Arg {
    /// The address of device memory.
    Buffer(Place),
    /// The device copy of one of the launch's tensor maps, by its number.
    Descriptor(u32),
    /// A device address that the caller knows by its number.
    Address(u64),
    /// A 32-bit unsigned number.
    Word(u32),
    /// A single-precision number.
    Scalar(F32),
}

/// The element type of a tensor map.
#[derive(Debug, Clone, Copy, PartialEq, Eq, Structural)]
pub enum MapElem {
    /// Two-byte floating point.
    Bf16,
    /// Single bytes.
    Byte,
    /// Single precision.
    F32,
}

/// How a tile is laid out in shared memory.
#[derive(Debug, Clone, Copy, PartialEq, Eq, Structural)]
pub enum Swizzle {
    /// Row by row.
    Plain,
    /// In the 128-byte swizzled order.
    Bytes128,
}

/// A bulk-copy descriptor over a device tensor. Dimensions run from the innermost outwards,
/// `strides` holds the byte distance along each but the innermost one, and neighbouring elements
/// of a tile are neighbours in the tensor along every dimension.
#[derive(Debug, PartialEq, Eq)]
pub struct TensorMap {
    /// The first element of the tensor.
    pub base: Place,
    /// The element type.
    pub elem: MapElem,
    /// The extent of the tensor.
    pub dims: Vec<u64>,
    /// The byte strides of the outer dimensions.
    pub strides: Vec<u64>,
    /// The extent of one tile.
    pub tile: Vec<u32>,
    /// The tile's order in shared memory.
    pub swizzle: Swizzle,
    /// What precedes the driver's code when the descriptor cannot be encoded.
    pub failure: &'static str,
}

/// A [`TensorMap`] by its contents.
#[verifier::ext_equal]
pub struct TensorMapView {
    pub base: Place,
    pub elem: MapElem,
    pub dims: Seq<u64>,
    pub strides: Seq<u64>,
    pub tile: Seq<u32>,
    pub swizzle: Swizzle,
    pub failure: Seq<char>,
}

/// One kernel launch. The descriptors in `tensor_maps` are encoded and copied to the device
/// first. Then the kernel is looked up, its limit on dynamic shared memory is raised to
/// `shared_mem` where `opt_in` is given, and it is launched.
#[derive(Debug, PartialEq, Eq)]
pub struct Launch {
    /// The module that holds the kernel.
    pub kernel: &'static str,
    /// The kernel's entry point.
    pub entry: &'static str,
    /// Blocks along each axis.
    pub grid: (u32, u32, u32),
    /// Threads per block along each axis.
    pub block: (u32, u32, u32),
    /// Dynamic shared memory per block, in bytes.
    pub shared_mem: u32,
    /// The descriptors that the kernel needs.
    pub tensor_maps: Vec<TensorMap>,
    /// The kernel's arguments, in order.
    pub args: Vec<Arg>,
    /// What precedes the driver's code when the limit on shared memory cannot be raised.
    pub opt_in: Option<String>,
    /// What precedes the driver's code when the launch fails; without it the driver's own error
    /// is passed on.
    pub failure: Option<String>,
}

/// A [`Launch`] by its contents.
#[verifier::ext_equal]
pub struct LaunchView {
    pub kernel: Seq<char>,
    pub entry: Seq<char>,
    pub grid: (int, int, int),
    pub block: (int, int, int),
    pub shared_mem: int,
    pub tensor_maps: Seq<TensorMapView>,
    pub args: Seq<Arg>,
    pub opt_in: Option<Seq<char>>,
    pub failure: Option<Seq<char>>,
}

/// What a request for one launch amounts to.
#[verifier::ext_equal]
pub enum Plan {
    /// The launch that carries the request out.
    Launch(LaunchView),
    /// The error that refuses the request.
    Fail(Fault),
    /// Sizes of the request leave the machine integers that hold them. Requests of this kind
    /// are not to be made.
    Undefined,
}

/// The text in an optional string.
pub open spec fn optional(s: Option<String>) -> Option<Seq<char>> {
    match s {
        Some(t) => Some(t@),
        None => None,
    }
}

impl View for TensorMap {
    type V = TensorMapView;

    open spec fn view(&self) -> TensorMapView {
        TensorMapView {
            base: self.base,
            elem: self.elem,
            dims: self.dims@,
            strides: self.strides@,
            tile: self.tile@,
            swizzle: self.swizzle,
            failure: self.failure@,
        }
    }
}

/// The contents of a list of descriptors.
pub open spec fn maps(m: Seq<TensorMap>) -> Seq<TensorMapView> {
    m.map_values(|t: TensorMap| t@)
}

impl View for Launch {
    type V = LaunchView;

    open spec fn view(&self) -> LaunchView {
        LaunchView {
            kernel: self.kernel@,
            entry: self.entry@,
            grid: extent(self.grid),
            block: extent(self.block),
            shared_mem: self.shared_mem as int,
            tensor_maps: maps(self.tensor_maps@),
            args: self.args@,
            opt_in: optional(self.opt_in),
            failure: optional(self.failure),
        }
    }
}

impl Arg {
    /// Whether an argument means something in a launch with this many buffers and descriptors.
    pub open spec fn refers(self, buffers: int, descriptors: int) -> bool {
        match self {
            Arg::Buffer(p) => p.refers(buffers),
            Arg::Descriptor(i) => i < descriptors,
            _ => true,
        }
    }
}

impl Place {
    /// Whether this is a place in one of the first `buffers` buffer parameters.
    pub open spec fn refers(self, buffers: int) -> bool {
        self.slot matches Slot::Param(i) && i < buffers
    }
}

impl MapElem {
    /// The bytes of one element.
    pub open spec fn bytes(self) -> int {
        match self {
            MapElem::Bf16 => 2,
            MapElem::Byte => 1,
            MapElem::F32 => 4,
        }
    }
}

impl TensorMapView {
    /// Whether a descriptor is of a form that the driver knows: it has one to five dimensions, a
    /// stride for each but the innermost, a tile of at most 256 elements along each, and a
    /// swizzled tile is no wider than the 128 bytes that are swizzled.
    pub open spec fn well_formed(self) -> bool {
        &&& 1 <= self.dims.len() <= 5
        &&& self.tile.len() == self.dims.len()
        &&& self.strides.len() == self.dims.len() - 1
        &&& forall|i: int| 0 <= i < self.tile.len() ==> 0 < #[trigger] self.tile[i] <= 256
        &&& self.swizzle == Swizzle::Bytes128 ==> self.tile[0] * self.elem.bytes() <= 128
    }
}

impl LaunchView {
    /// Whether the launch is one that a device can carry out: there is at least one block, a
    /// block has at least one thread and at most 1024, the arguments and descriptors name only
    /// buffers and descriptors that are there, and the descriptors are well formed.
    pub open spec fn well_formed(self, buffers: int) -> bool {
        &&& self.grid.0 > 0 && self.grid.1 > 0 && self.grid.2 > 0
        &&& self.block.0 > 0 && self.block.1 > 0 && self.block.2 > 0
        &&& self.block.0 * self.block.1 * self.block.2 <= 1024
        &&& forall|i: int|
            0 <= i < self.args.len() ==> #[trigger] self.args[i].refers(
                buffers,
                self.tensor_maps.len() as int,
            )
        &&& forall|i: int|
            0 <= i < self.tensor_maps.len() ==> (#[trigger] self.tensor_maps[i]).base.refers(
                buffers,
            ) && self.tensor_maps[i].well_formed()
    }
}

/// Whether what is launched, if anything is, is well formed.
pub open spec fn launchable(r: Result<Launch>, buffers: int) -> bool {
    r matches Ok(l) ==> l@.well_formed(buffers)
}

/// Three machine integers as numbers.
pub open spec fn extent(e: (u32, u32, u32)) -> (int, int, int) {
    (e.0 as int, e.1 as int, e.2 as int)
}

/// What an answer amounts to.
pub open spec fn outcome(r: Result<Launch>) -> Plan {
    match r {
        Ok(l) => Plan::Launch(l@),
        Err(e) => Plan::Fail(e@),
    }
}

/// What a check found.
pub open spec fn verdict(r: Result<()>) -> Option<Fault> {
    match r {
        Ok(_) => None,
        Err(e) => Some(e@),
    }
}

impl Arg {
    /// The buffer parameter number `i`, from its first element.
    pub open spec fn buffer(i: u32) -> Arg {
        Arg::Buffer(Place { slot: Slot::Param(i), start: 0 })
    }

    /// A number as a kernel argument.
    pub open spec fn word(x: int) -> Arg {
        Arg::Word(x as u32)
    }

    /// The buffer parameter number `i`, from its first element.
    pub fn param(i: u32) -> (r: Arg)
        ensures
            r == Arg::buffer(i),
    {
        Arg::Buffer(Place { slot: Slot::Param(i), start: 0 })
    }
}

impl TensorMapView {
    /// A descriptor over the row-major matrix at the start of buffer parameter `i`.
    pub open spec fn matrix(
        i: u32,
        elem: MapElem,
        rows: int,
        cols: int,
        row_bytes: int,
        tile_rows: int,
        tile_cols: int,
        swizzle: Swizzle,
        failure: Seq<char>,
    ) -> TensorMapView {
        TensorMapView {
            base: Place { slot: Slot::Param(i), start: 0 },
            elem,
            dims: seq![cols as u64, rows as u64],
            strides: seq![row_bytes as u64],
            tile: seq![tile_cols as u32, tile_rows as u32],
            swizzle,
            failure,
        }
    }
}

impl TensorMap {
    /// A descriptor over the row-major matrix at the start of buffer parameter `i`.
    pub fn matrix(
        i: u32,
        elem: MapElem,
        rows: u32,
        cols: u32,
        row_bytes: u64,
        tile_rows: u32,
        tile_cols: u32,
        swizzle: Swizzle,
        failure: &'static str,
    ) -> (r: TensorMap)
        ensures
            r@ == TensorMapView::matrix(
                i,
                elem,
                rows as int,
                cols as int,
                row_bytes as int,
                tile_rows as int,
                tile_cols as int,
                swizzle,
                failure@,
            ),
    {
        TensorMap {
            base: Place { slot: Slot::Param(i), start: 0 },
            elem,
            dims: vec![cols as u64, rows as u64],
            strides: vec![row_bytes],
            tile: vec![tile_cols, tile_rows],
            swizzle,
            failure,
        }
    }

    /// The error for a descriptor that the driver did not encode.
    pub fn encode_error(&self, code: &str) -> (r: SparkError)
        ensures
            r@ == Fault::LaunchFailed(self@.failure + code@),
    {
        SparkError::LaunchFailed(Text::new(self.failure).s(code).done())
    }
}

impl Plan {
    /// A refusal for the reason `msg`.
    pub open spec fn invalid(msg: Seq<char>) -> Plan {
        Plan::Fail(Fault::InvalidArgument(msg))
    }

    /// A launch without descriptors whose failure is the driver's own error.
    pub open spec fn launch(
        kernel: Seq<char>,
        entry: Seq<char>,
        grid: (int, int, int),
        block: (int, int, int),
        shared_mem: int,
        args: Seq<Arg>,
    ) -> Plan {
        Plan::Launch(
            LaunchView {
                kernel,
                entry,
                grid,
                block,
                shared_mem,
                tensor_maps: Seq::empty(),
                args,
                opt_in: None,
                failure: None,
            },
        )
    }

    /// A launch whose failure is told as `failure` followed by the driver's code.
    pub open spec fn raw_launch(
        kernel: Seq<char>,
        entry: Seq<char>,
        grid: (int, int, int),
        block: (int, int, int),
        shared_mem: int,
        tensor_maps: Seq<TensorMapView>,
        args: Seq<Arg>,
        opt_in: Option<Seq<char>>,
        failure: Seq<char>,
    ) -> Plan {
        Plan::Launch(
            LaunchView {
                kernel,
                entry,
                grid,
                block,
                shared_mem,
                tensor_maps,
                args,
                opt_in,
                failure: Some(failure),
            },
        )
    }
}

impl Launch {
    /// A launch without descriptors whose failure is the driver's own error.
    pub fn new(
        kernel: &'static str,
        entry: &'static str,
        grid: (u32, u32, u32),
        block: (u32, u32, u32),
        shared_mem: u32,
        args: Vec<Arg>,
    ) -> (r: Launch)
        ensures
            Plan::Launch(r@) == Plan::launch(
                kernel@,
                entry@,
                extent(grid),
                extent(block),
                shared_mem as int,
                args@,
            ),
    {
        let r = Launch {
            kernel,
            entry,
            grid,
            block,
            shared_mem,
            tensor_maps: Vec::new(),
            args,
            opt_in: None,
            failure: None,
        };
        assert(maps(r.tensor_maps@) =~= Seq::empty());
        r
    }

    /// A launch whose failure is told as `failure` followed by the driver's code.
    pub fn raw(
        kernel: &'static str,
        entry: &'static str,
        grid: (u32, u32, u32),
        block: (u32, u32, u32),
        shared_mem: u32,
        tensor_maps: Vec<TensorMap>,
        args: Vec<Arg>,
        opt_in: Option<&'static str>,
        failure: Text,
    ) -> (r: Launch)
        ensures
            Plan::Launch(r@) == Plan::raw_launch(
                kernel@,
                entry@,
                extent(grid),
                extent(block),
                shared_mem as int,
                maps(tensor_maps@),
                args@,
                match opt_in {
                    Some(t) => Some(t@),
                    None => None,
                },
                failure@,
            ),
    {
        let opt_in = match opt_in {
            Some(t) => Some(t.to_owned()),
            None => None,
        };
        Launch {
            kernel,
            entry,
            grid,
            block,
            shared_mem,
            tensor_maps,
            args,
            opt_in,
            failure: Some(failure.done()),
        }
    }

    /// The error for a launch that the driver did not accept.
    pub fn launch_error(&self, driver: DriverError) -> (r: SparkError)
        ensures
            r@ == match self@.failure {
                Some(told) => Fault::LaunchFailed(told + driver.text@),
                None => Fault::Driver { code: driver.code as int, text: driver.text@ },
            },
    {
        match &self.failure {
            Some(told) => SparkError::LaunchFailed(
                Text::new(told.as_str()).s(driver.text.as_str()).done(),
            ),
            None => SparkError::Driver(driver),
        }
    }

    /// The error for a limit on shared memory that could not be raised.
    pub fn opt_in_error(&self, driver: DriverError) -> (r: SparkError)
        ensures
            r@ == match self@.opt_in {
                Some(told) => Fault::LaunchFailed(told + driver.text@),
                None => Fault::Driver { code: driver.code as int, text: driver.text@ },
            },
    {
        match &self.opt_in {
            Some(told) => SparkError::LaunchFailed(
                Text::new(told.as_str()).s(driver.text.as_str()).done(),
            ),
            None => SparkError::Driver(driver),
        }
    }
}

} // verus!
