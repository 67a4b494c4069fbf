//! Device initialization: what the driver's answers mean for a request to use a GPU.
use crate::error::{DriverError, Fault, Result, SparkError};
use crate::plan;
use crate::text::Text;
use vstd::prelude::*;
use vstd::string::*;

verus! {

/// Required compute capability: 12.1 (DGX Spark GB10).
pub const REQUIRED_MAJOR: u32 = 12;

/// See [`REQUIRED_MAJOR`].
pub const REQUIRED_MINOR: u32 = 1;

/// How far the initialization of a device came, and what the driver answered last.
pub enum Probe {
    /// No context could be created. Where the driver ran out of memory, `hint` may tell how the
    /// memory is used.
    NoContext { error: DriverError, hint: Option<String> },
    /// The major version of the compute capability could not be read.
    NoMajor(DriverError),
    /// The minor version of the compute capability could not be read.
    NoMinor(DriverError),
    /// The device has this compute capability.
    Capability { major: i32, minor: i32 },
}

/// Whether `needle` occurs in `hay`.
pub open spec fn occurs(hay: Seq<char>, needle: Seq<char>) -> bool {
    exists|i: int| occurs_at(hay, needle, i)
}

/// Whether `needle` occurs in `hay` at position `i`.
pub open spec fn occurs_at(hay: Seq<char>, needle: Seq<char>, i: int) -> bool {
    0 <= i && i + needle.len() <= hay.len() && hay.subrange(i, i + needle.len()) == needle
}

/// The characters of a text.
pub fn chars(s: &str) -> (r: Vec<char>)
    ensures
        r@ == s@,
{
    let n: usize = s.unicode_len();
    let mut out: Vec<char> = Vec::new();
    let mut i: usize = 0;
    while i < n
        invariant
            i <= n,
            n == s@.len(),
            out@ == s@.take(i as int),
        decreases n - i,
    {
        out.push(s.get_char(i));
        i = i + 1;
        assert(out@ =~= s@.take(i as int));
    }
    assert(s@.take(i as int) =~= s@);
    out
}

/// Whether `needle` occurs in `hay` at position `i`.
pub fn matches_at(hay: &Vec<char>, needle: &Vec<char>, i: usize) -> (r: bool)
    ensures
        r == occurs_at(hay@, needle@, i as int),
{
    let len: usize = hay.len();
    let n: usize = needle.len();
    if i > len || n > len - i {
        return false;
    }
    let mut j: usize = 0;
    while j < n
        invariant
            j <= n,
            n == needle@.len(),
            len == hay@.len(),
            i + n <= len,
            hay@.subrange(i as int, i + j) == needle@.take(j as int),
        decreases n - j,
    {
        if hay[i + j] != needle[j] {
            assert(hay@.subrange(i as int, i + n)[j as int] != needle@[j as int]);
            return false;
        }
        j = j + 1;
        assert(hay@.subrange(i as int, i + j) =~= needle@.take(j as int));
    }
    assert(needle@.take(j as int) =~= needle@);
    true
}

/// Whether `needle` occurs in `hay`.
pub fn contains(hay: &str, needle: &str) -> (r: bool)
    ensures
        r == occurs(hay@, needle@),
{
    let text = chars(hay);
    let part = chars(needle);
    let len: usize = text.len();
    let mut i: usize = 0;
    while i < len
        invariant
            i <= len,
            len == text@.len(),
            text@ == hay@,
            part@ == needle@,
            forall|j: int| 0 <= j < i ==> !occurs_at(hay@, needle@, j),
        decreases len - i,
    {
        if matches_at(&text, &part, i) {
            return true;
        }
        i = i + 1;
    }
    matches_at(&text, &part, i)
}

/// The message for a device that ran out of memory while its context was created.
pub open spec fn oom_message(raw: Seq<char>, hint: Option<Seq<char>>) -> Seq<char> {
    "CUDA out of memory initializing the GPU context."@ + match hint {
        Some(h) => h,
        None => ""@,
    }
        + " On the DGX Spark this is usually page-cache fragmentation of the shared LPDDR5x, not true exhaustion; free it with: sudo sh -c 'echo 3 > /proc/sys/vm/drop_caches'. (driver error: "@
        + raw + ")"@
}

/// Build an actionable message for a CUDA-OOM at context init: the GPU shares its memory with
/// the host, and the page cache may leave no contiguous pages.
pub fn diagnose_init_oom(raw: &str, hint: Option<&str>) -> (r: String)
    ensures
        r@ == oom_message(
            raw@,
            match hint {
                Some(h) => Some(h@),
                None => None,
            },
        ),
{
    let hint = match hint {
        Some(h) => h,
        None => "",
    };
    Text::new("CUDA out of memory initializing the GPU context.").s(hint).s(
        " On the DGX Spark this is usually page-cache fragmentation of the shared LPDDR5x, not true exhaustion; free it with: sudo sh -c 'echo 3 > /proc/sys/vm/drop_caches'. (driver error: ",
    ).s(raw).s(")").done()
}

/// What is left of a signed number when it is read as an unsigned one.
pub open spec fn unsigned(x: int) -> int {
    if x < 0 {
        x + 0x1_0000_0000
    } else {
        x
    }
}

fn as_unsigned(x: i32) -> (r: u32)
    ensures
        r == unsigned(x as int),
{
    if x < 0 {
        let y: i64 = x as i64 + 0x1_0000_0000;
        y as u32
    } else {
        x as u32
    }
}

/// Why a device cannot be used, if it cannot.
pub open spec fn init_fault(probe: Probe) -> Option<Fault> {
    match probe {
        Probe::NoContext { error, hint } => if occurs(error.text@, "OUT_OF_MEMORY"@) {
            Some(Fault::Other(oom_message(error.text@, plan::optional(hint))))
        } else {
            Some(Fault::Driver { code: error.code as int, text: error.text@ })
        },
        Probe::NoMajor(error) => Some(
            Fault::Driver { code: error.code as int, text: error.text@ },
        ),
        Probe::NoMinor(error) => Some(
            Fault::Driver { code: error.code as int, text: error.text@ },
        ),
        Probe::Capability { major, minor } => if major == REQUIRED_MAJOR && minor
            == REQUIRED_MINOR {
            None
        } else {
            Some(
                Fault::UnsupportedArch {
                    major: unsigned(major as int),
                    minor: unsigned(minor as int),
                },
            )
        },
    }
}

/// Decides whether a device can be used: it has a context and compute capability 12.1.
pub fn init_device(probe: Probe) -> (r: Result<()>)
    ensures
        plan::verdict(r) == init_fault(probe),
{
    match probe {
        Probe::NoContext { error, hint } => {
            if contains(error.text.as_str(), "OUT_OF_MEMORY") {
                let message = match &hint {
                    Some(h) => diagnose_init_oom(error.text.as_str(), Some(h.as_str())),
                    None => diagnose_init_oom(error.text.as_str(), None),
                };
                return Err(SparkError::Other(message));
            }
            Err(SparkError::Driver(error))
        },
        Probe::NoMajor(error) => Err(SparkError::Driver(error)),
        Probe::NoMinor(error) => Err(SparkError::Driver(error)),
        Probe::Capability { major, minor } => {
            let major: u32 = as_unsigned(major);
            let minor: u32 = as_unsigned(minor);
            if major != REQUIRED_MAJOR || minor != REQUIRED_MINOR {
                return Err(SparkError::UnsupportedArch { major, minor });
            }
            Ok(())
        },
    }
}

/// Check whether a device has compute capability 12.1.
pub fn is_sm121(probe: Probe) -> (r: bool)
    ensures
        r <==> (probe matches Probe::Capability { major, minor } && major == 12 && minor == 1),
{
    init_device(probe).is_ok()
}

} // verus!
