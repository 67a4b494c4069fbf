//! What the small parts amount to: numbers and their written form, the codes of the C interface,
//! scores and their order, reports and messages.
use crate::attention::dsa;
use crate::attention::mla_auto;
use crate::attention::ranking;
use crate::device;
use crate::device::Probe;
use crate::distributed::transport::{LoopbackTransport, NcclTransport, RingTransport};
use crate::error::Fault;
use crate::ffi::types::{SparkActivationType, SparkDtype, SparkStatus};
use crate::gemm::managed;
use crate::launches::role;
use crate::meminfo;
use crate::plan::{F32, MapElem, Place, Swizzle};
use crate::program::StepView;
use crate::shape;
use crate::tensor_map;
use crate::text;
use vstd::prelude::*;

verus! {

/// Of two numbers, one is the lesser and the other the greater.
pub proof fn one_is_the_lesser(a: int, b: int)
    ensures
        shape::lesser(a, b) <= a && shape::lesser(a, b) <= b,
        shape::greater(a, b) >= a && shape::greater(a, b) >= b,
        shape::lesser(a, b) + shape::greater(a, b) == a + b,
        shape::lesser(a, b) == a || shape::lesser(a, b) == b,
{
}

/// `q` times `b`.
pub open spec fn multiple(q: int, b: int) -> int {
    q * b
}

/// A number divides exactly its multiples.
pub proof fn multiples_are_divided(b: int, a: int)
    requires
        b >= 0,
    ensures
        shape::divides(b, a) <==> exists|q: int| #[trigger] multiple(q, b) == a,
{
    if shape::divides(b, a) {
        if b == 0 {
            assert(multiple(0, b) == a);
        } else {
            vstd::arithmetic::div_mod::lemma_fundamental_div_mod(a, b);
            let q = a / b;
            assert(q * b == b * q) by (nonlinear_arith);
            assert(multiple(q, b) == a);
        }
    } else if exists|q: int| #[trigger] multiple(q, b) == a {
        let q = choose|q: int| #[trigger] multiple(q, b) == a;
        if b != 0 {
            vstd::arithmetic::div_mod::lemma_mod_multiples_basic(q, b);
        }
    }
}

/// The low word of a number is its remainder by the number of words.
pub proof fn low_words_fit(x: int)
    ensures
        0 <= shape::low_word(x) <= u32::MAX,
        (x - shape::low_word(x)) % 0x1_0000_0000 == 0,
        0 <= x <= u32::MAX ==> shape::low_word(x) == x,
{
}

/// The number that a text of decimal digits stands for.
pub open spec fn number_in(s: Seq<char>) -> int
    decreases s.len(),
{
    if s.len() == 0 {
        0
    } else {
        number_in(s.drop_last()) * 10 + (s.last() as int - '0' as int)
    }
}

/// A number in base ten reads as itself, in digits, the first of them no zero but for zero.
pub proof fn decimals_read_back(n: int)
    requires
        n >= 0,
    ensures
        number_in(text::decimal(n)) == n,
        text::decimal(n).len() > 0,
        forall|i: int|
            0 <= i < text::decimal(n).len() ==> '0' <= #[trigger] text::decimal(n)[i] <= '9',
        n > 0 ==> text::decimal(n)[0] != '0',
    decreases n,
{
    let s = text::decimal(n);
    if n < 10 {
        assert(s.drop_last() =~= Seq::<char>::empty());
        assert(number_in(Seq::<char>::empty()) == 0);
        assert(s.last() == text::digit(n));
    } else {
        decimals_read_back(n / 10);
        assert(s.drop_last() =~= text::decimal(n / 10));
        assert forall|i: int| 0 <= i < s.len() implies '0' <= #[trigger] s[i] <= '9' by {
            if i < s.len() - 1 {
                assert(s[i] == text::decimal(n / 10)[i]);
            }
        }
        assert(s[0] == text::decimal(n / 10)[0]);
    }
}

/// The status codes of the C interface: success is zero, and no two statuses share a code.
pub proof fn status_codes(a: SparkStatus, b: SparkStatus)
    ensures
        a.number() == 0 <==> a is Success,
        a.number() == 1 <==> a is ErrorInvalidArgument,
        a.number() == 2 <==> a is ErrorCudaLaunch,
        a.number() == 3 <==> a is ErrorKernelNotFound,
        a.number() == 4 <==> a is ErrorInternal,
        a.number() == b.number() ==> a == b,
{
}

/// The data type codes of the C interface: no two types share a code.
pub proof fn dtype_codes(a: SparkDtype, b: SparkDtype)
    ensures
        a.number() == 0 <==> a is BF16,
        a.number() == 1 <==> a is FP8E4M3,
        a.number() == 2 <==> a is FP32,
        a.number() == 3 <==> a is U32,
        a.number() == 4 <==> a is NVFP4,
        a.number() == 5 <==> a is W4A16,
        a.number() == b.number() ==> a == b,
{
}

/// The activation codes of the C interface: no two activations share a code.
pub proof fn activation_codes(a: SparkActivationType, b: SparkActivationType)
    ensures
        a.number() == 0 <==> a is SiluMul,
        a.number() == 1 <==> a is GeluMul,
        a.number() == 2 <==> a is GeluTanhMul,
        a.number() == b.number() ==> a == b,
{
}

/// Scores are ordered as numbers: of two without a sign the one with more bits is greater, a sign
/// turns the order round, and both zeros are equal.
pub proof fn keys_order_as_numbers(a: F32, b: F32)
    ensures
        a.bits < 0x8000_0000 && b.bits < 0x8000_0000 ==> (ranking::key(a) < ranking::key(b)
            <==> a.bits < b.bits),
        a.bits >= 0x8000_0000 && b.bits >= 0x8000_0000 ==> (ranking::key(a) < ranking::key(b)
            <==> a.bits > b.bits),
        a.bits < 0x8000_0000 && b.bits == a.bits + 0x8000_0000 ==> ranking::key(a)
            == -ranking::key(b),
        a.bits < 0x8000_0000 ==> ranking::key(a) >= 0,
        a.bits == 0 && b.bits == 0x8000_0000 ==> ranking::key(a) == ranking::key(b),
{
}

/// On one GPU what is sent is what is received: all of it, whatever the ranks.
pub proof fn loopback_copies(
    t: LoopbackTransport, send: Place, send_len: int, recv: Place, recv_len: int, send_to: int,
    recv_from: int,
)
    ensures
        t.exchange(send, send_len, recv, recv_len, send_to, recv_from) matches Ok(
            StepView::Copy { from, to, len },
        ) && from == send && to == recv && len == send_len,
{
}

/// Between processes a block passes whole, from and to the ranks that were named; it does not
/// pass where the lengths differ.
pub proof fn nccl_passes_whole_blocks(
    t: NcclTransport, send: Place, send_len: int, recv: Place, recv_len: int, send_to: int,
    recv_from: int,
)
    ensures
        ({
            let r = t.exchange(send, send_len, recv, recv_len, send_to, recv_from);
            &&& r is Ok <==> send_len == recv_len
            &&& r matches Ok(s) ==> (s matches StepView::Exchange {
                from,
                to,
                len,
                send_to: next,
                recv_from: previous,
            } && from == send && to == recv && len == send_len && next == send_to && previous
                == recv_from)
            &&& r matches Err(f) ==> f is InvalidArgument
        }),
{
}

/// A device can be used exactly where it has a context and compute capability 12.1. A driver's
/// error is passed on as it came, unless the memory ran out; a device that does not fit is told
/// by its own capability.
pub proof fn only_capability_12_1_can_be_used(probe: Probe)
    ensures
        device::init_fault(probe) is None <==> (probe matches Probe::Capability { major, minor }
            && major == 12 && minor == 1),
        probe matches Probe::NoMajor(e) ==> device::init_fault(probe) == Some(
            Fault::Driver { code: e.code as int, text: e.text@ },
        ),
        probe matches Probe::NoMinor(e) ==> device::init_fault(probe) == Some(
            Fault::Driver { code: e.code as int, text: e.text@ },
        ),
        probe matches Probe::NoContext { error, hint } ==> (device::init_fault(probe)->Some_0
            is Other <==> device::occurs(error.text@, "OUT_OF_MEMORY"@)),
        probe matches Probe::NoContext { error, hint } ==> (device::init_fault(probe)->Some_0
            is Driver ==> device::init_fault(probe) == Some(
            Fault::Driver { code: error.code as int, text: error.text@ },
        )),
        probe matches Probe::Capability { major, minor } ==> (device::init_fault(probe) matches Some(
            f,
        ) ==> (f matches Fault::UnsupportedArch { major: x, minor: y } && (major >= 0 ==> x
            == major) && (minor >= 0 ==> y == minor) && (major < 0 ==> x == major + 0x1_0000_0000)
            && (minor < 0 ==> y == minor + 0x1_0000_0000))),
{
}

/// What an error carries is told to the reader, after words that say what kind of error it is.
pub proof fn messages_tell_their_cause(cause: Seq<char>, code: int)
    ensures
        Fault::KernelNotFound(cause).message() == "kernel not found: "@ + cause,
        Fault::InvalidArgument(cause).message() == "invalid argument: "@ + cause,
        Fault::LaunchFailed(cause).message() == "kernel launch failed: "@ + cause,
        Fault::Io(cause).message() == "I/O error: "@ + cause,
        Fault::Other(cause).message() == cause,
        (Fault::Driver { code, text: cause }).message() == "CUDA driver error: "@ + cause,
{
}

/// A descriptor of three dimensions strides over whole rows and whole matrices.
pub proof fn strides_follow_the_dimensions(
    i: u32, inner: int, middle: int, outer: int, tile_inner: int, tile_middle: int, tile_outer: int,
)
    ensures
        ({
            let m = tensor_map::desc_3d_bf16(
                i, inner, middle, outer, tile_inner, tile_middle, tile_outer,
            );
            &&& m.base == Place::of_param(i)
            &&& m.elem == MapElem::Bf16
            &&& m.swizzle == Swizzle::Plain
            &&& m.dims =~= seq![inner as u64, middle as u64, outer as u64]
            &&& m.strides =~= seq![(inner * 2) as u64, (middle * inner * 2) as u64]
            &&& m.tile =~= seq![tile_inner as u32, tile_middle as u32, tile_outer as u32]
        }),
{
}

/// Whether no character of a text is white space, or every one is.
pub open spec fn all_spaces(s: Seq<char>, spaces: bool) -> bool {
    forall|i: int| 0 <= i < s.len() ==> meminfo::is_space(#[trigger] s[i]) == spaces
}

/// A run ends where the first character of the other kind stands.
proof fn lemma_run_end(s: Seq<char>, i: int, end: int, spaces: bool)
    requires
        0 <= i <= end <= s.len(),
        forall|j: int| i <= j < end ==> meminfo::is_space(#[trigger] s[j]) == spaces,
        end < s.len() ==> meminfo::is_space(s[end]) != spaces,
    ensures
        meminfo::run_end(s, i, spaces) == end,
    decreases end - i,
{
    if i < end {
        lemma_run_end(s, i + 1, end, spaces);
    }
}

/// The second word of a line is what stands between the second gap and the next white space,
/// whatever comes before the first word and after the second.
pub proof fn second_words_are_found(
    before: Seq<char>, first: Seq<char>, gap: Seq<char>, second: Seq<char>, rest: Seq<char>,
)
    requires
        all_spaces(before, true),
        first.len() > 0,
        all_spaces(first, false),
        gap.len() > 0,
        all_spaces(gap, true),
        second.len() > 0,
        all_spaces(second, false),
        rest.len() > 0 ==> meminfo::is_space(rest[0]),
    ensures
        meminfo::second_word(before + first + gap + second + rest) == Some(second),
{
    let line = before + first + gap + second + rest;
    let a = before.len() as int;
    let b = a + first.len();
    let c = b + gap.len();
    let d = c + second.len();
    assert forall|j: int| 0 <= j < a implies meminfo::is_space(#[trigger] line[j]) == true by {
        assert(line[j] == before[j]);
    }
    assert forall|j: int| a <= j < b implies meminfo::is_space(#[trigger] line[j]) == false by {
        assert(line[j] == first[j - a]);
    }
    assert forall|j: int| b <= j < c implies meminfo::is_space(#[trigger] line[j]) == true by {
        assert(line[j] == gap[j - b]);
    }
    assert forall|j: int| c <= j < d implies meminfo::is_space(#[trigger] line[j]) == false by {
        assert(line[j] == second[j - c]);
    }
    if d < line.len() {
        assert(line[d] == rest[0]);
    }
    lemma_run_end(line, 0, a, true);
    lemma_run_end(line, a, b, false);
    lemma_run_end(line, b, c, true);
    lemma_run_end(line, c, d, false);
    assert(line.subrange(c, d) =~= second);
}

/// A line without a second word has none to give.
pub proof fn short_lines_have_no_second_word(before: Seq<char>, first: Seq<char>, after: Seq<char>)
    requires
        all_spaces(before, true),
        all_spaces(first, false),
        all_spaces(after, true),
        first.len() == 0 ==> after.len() == 0,
    ensures
        meminfo::second_word(before + first + after) is None,
{
    let line = before + first + after;
    let a = before.len() as int;
    let b = a + first.len();
    assert forall|j: int| 0 <= j < a implies meminfo::is_space(#[trigger] line[j]) == true by {
        assert(line[j] == before[j]);
    }
    assert forall|j: int| a <= j < b implies meminfo::is_space(#[trigger] line[j]) == false by {
        assert(line[j] == first[j - a]);
    }
    assert forall|j: int| b <= j < line.len() implies meminfo::is_space(
        #[trigger] line[j],
    ) == true by {
        assert(line[j] == after[j - b]);
    }
    lemma_run_end(line, 0, a, true);
    lemma_run_end(line, a, b, false);
    lemma_run_end(line, b, line.len() as int, true);
}

/// A line ends at the first line feed.
proof fn lemma_line_end_at(s: Seq<char>, i: int, end: int)
    requires
        0 <= i <= end < s.len(),
        forall|j: int| i <= j < end ==> #[trigger] s[j] != '\n',
        s[end] == '\n',
    ensures
        meminfo::line_end(s, i) == end,
    decreases end - i,
{
    if i < end {
        lemma_line_end_at(s, i + 1, end);
    }
}

/// A field is looked up in the first line that begins with its key: where the first line does, its
/// second word is the answer, and where it does not, the answer is that of the lines after it.
pub proof fn fields_are_looked_up_line_by_line(line: Seq<char>, rest: Seq<char>, key: Seq<char>)
    requires
        forall|j: int| 0 <= j < line.len() ==> #[trigger] line[j] != '\n' && line[j] != '\r',
    ensures
        key.is_prefix_of(line) ==> meminfo::field(line.push('\n') + rest, key)
            == meminfo::second_word(line),
        !key.is_prefix_of(line) ==> meminfo::field(line.push('\n') + rest, key) == meminfo::field(
            rest,
            key,
        ),
{
    let s = line.push('\n') + rest;
    let n = line.len() as int;
    assert forall|j: int| 0 <= j < n implies #[trigger] s[j] != '\n' by {
        assert(s[j] == line[j]);
    }
    assert(s[n] == '\n');
    lemma_line_end_at(s, 0, n);
    if n > 0 {
        assert(s[n - 1] == line[n - 1]);
    }
    assert(meminfo::line_at(s, 0) =~= line);
    if !key.is_prefix_of(line) {
        assert(rest =~= s.subrange(n + 1, s.len() as int));
        lemma_lines_after(s, rest, key, n + 1, 0);
    }
}

/// Lines are found alike in a text and in the part of it that holds them.
proof fn lemma_lines_after(s: Seq<char>, rest: Seq<char>, key: Seq<char>, from: int, i: int)
    requires
        0 <= from <= s.len(),
        rest == s.subrange(from, s.len() as int),
        0 <= i,
    ensures
        meminfo::line_of(s, key, from + i) == meminfo::line_of(rest, key, i),
    decreases rest.len() + 1 - i,
{
    if i < rest.len() {
        lemma_line_end_after(s, rest, from, i);
        meminfo::lemma_line_end(rest, i);
        let e = meminfo::line_end(rest, i);
        if e > i {
            assert(rest[e - 1] == s[from + e - 1]);
        }
        assert(meminfo::line_at(s, from + i) =~= meminfo::line_at(rest, i));
        if !key.is_prefix_of(meminfo::line_at(rest, i)) {
            lemma_lines_after(s, rest, key, from, e + 1);
        }
    }
}

proof fn lemma_line_end_after(s: Seq<char>, rest: Seq<char>, from: int, i: int)
    requires
        0 <= from <= s.len(),
        rest == s.subrange(from, s.len() as int),
        0 <= i <= rest.len(),
    ensures
        meminfo::line_end(s, from + i) == from + meminfo::line_end(rest, i),
    decreases rest.len() - i,
{
    if i < rest.len() && rest[i] != '\n' {
        lemma_line_end_after(s, rest, from, i + 1);
    }
}

/// A number above zero is one that ranks above zero and below infinity.
pub proof fn positive_numbers_rank_above_zero(x: F32)
    ensures
        x.is_positive_finite() <==> ranking::key(F32 { bits: 0 }) < ranking::key(x)
            < ranking::key(F32 { bits: 0x7f80_0000 }),
{
}

/// Numbers keep their bits when their sign is read otherwise: a position becomes a signed number that
/// differs from it by whole words, and reading that as unsigned gives the position back.
pub proof fn signs_are_read_back(x: u32)
    ensures
        (dsa::signed(x) - x) % 0x1_0000_0000 == 0,
        device::unsigned(dsa::signed(x) as int) == x,
{
}

/// Texts are the same in any case exactly where each character is the other, or the capital letter
/// or the small letter of it.
pub proof fn case_is_all_that_differs(a: Seq<char>, b: Seq<char>)
    ensures
        managed::same_ignoring_case(a, b) <==> a.len() == b.len() && forall|i: int|
            0 <= i < a.len() ==> {
                ||| #[trigger] a[i] == b[i]
                ||| 'A' <= a[i] <= 'Z' && b[i] as int - a[i] as int == 'a' as int - 'A' as int
                ||| 'A' <= b[i] <= 'Z' && a[i] as int - b[i] as int == 'a' as int - 'A' as int
            },
{
    if managed::same_ignoring_case(a, b) {
        assert forall|i: int| 0 <= i < a.len() implies {
            ||| #[trigger] a[i] == b[i]
            ||| 'A' <= a[i] <= 'Z' && b[i] as int - a[i] as int == 'a' as int - 'A' as int
            ||| 'A' <= b[i] <= 'Z' && a[i] as int - b[i] as int == 'a' as int - 'A' as int
        } by {
            assert(managed::lower_code(a[i]) == managed::lower_code(b[i]));
        }
    }
}

/// Caches of 64 or more positions are split as often as 48 blocks of 16 heads allow, but in two at
/// least, in 16 at most, and with 8 positions or more to every split but the last.
pub proof fn splits_fill_the_multiprocessors(batch: int, num_heads: int, seq_kv: int)
    requires
        batch > 0,
        num_heads > 0,
        num_heads % 16 == 0,
        seq_kv >= 64,
    ensures
        ({
            let s = mla_auto::default_splits(batch, num_heads, seq_kv);
            &&& 2 <= s <= 16
            &&& 8 * (s - 1) < seq_kv
            &&& s == 2 || s * (num_heads * batch) <= 48 * 16
            &&& s == 16 || 8 * s >= seq_kv || (s + 1) * (num_heads * batch) > 48 * 16
        }),
{
    let s = mla_auto::default_splits(batch, num_heads, seq_kv);
    let base = (num_heads / 16) * batch;
    let heads = num_heads / 16;
    shape::lemma_ceil_div(seq_kv, 8);
    assert(num_heads == 16 * heads && heads > 0);
    assert(base >= 1 && num_heads * batch == 16 * base) by (nonlinear_arith)
        requires
            num_heads == 16 * heads,
            heads > 0,
            batch > 0,
            base == heads * batch,
    ;
    assert(s * (num_heads * batch) == 16 * (s * base) && (s + 1) * (num_heads * batch) == 16 * ((s
        + 1) * base)) by (nonlinear_arith)
        requires
            num_heads * batch == 16 * base,
    ;
    if base >= 48 {
        assert(s == 2);
        assert((s + 1) * base > 48) by (nonlinear_arith)
            requires
                s == 2,
                base >= 48,
        ;
    } else {
        let t = 48int / base;
        assert(t * base <= 48 < (t + 1) * base) by (nonlinear_arith)
            requires
                t == 48int / base,
                base >= 1,
        ;
        if s > 2 {
            assert(s * base <= t * base) by (nonlinear_arith)
                requires
                    s <= t,
                    base >= 1,
            ;
        }
        if s < 16 && 8 * s < seq_kv {
            assert(s >= t);
            assert((s + 1) * base >= (t + 1) * base) by (nonlinear_arith)
                requires
                    s >= t,
                    base >= 1,
            ;
        }
    }
}

/// The message for a device without memory closes with the driver's own words, in brackets, and
/// differs from the one without a hint by nothing but the hint.
pub proof fn oom_messages_keep_their_parts(raw: Seq<char>, hint: Seq<char>)
    ensures
        ({
            let plain = device::oom_message(raw, None);
            let told = device::oom_message(raw, Some(hint));
            let opening = "CUDA out of memory initializing the GPU context."@;
            let n = plain.len() as int;
            &&& n > raw.len()
            &&& plain.subrange(n - 1 - raw.len(), n - 1) == raw
            &&& plain[n - 1] == ')'
            &&& n >= opening.len() && plain.take(opening.len() as int) == opening
            &&& told == opening + hint + plain.skip(opening.len() as int)
        }),
{
    reveal_strlit(")");
    reveal_strlit("");
    let plain = device::oom_message(raw, None);
    let told = device::oom_message(raw, Some(hint));
    let opening = "CUDA out of memory initializing the GPU context."@;
    let n = plain.len() as int;
    assert(plain.subrange(n - 1 - raw.len(), n - 1) =~= raw);
    assert(plain.take(opening.len() as int) =~= opening);
    assert(told =~= opening + hint + plain.skip(opening.len() as int));
}

/// The capability of a device that does not fit is told as its major number, a point and its minor
/// number.
pub proof fn capabilities_are_told_major_first(major: int, minor: int)
    ensures
        exists|head: Seq<char>, tail: Seq<char>|
            (Fault::UnsupportedArch { major, minor }).message() == #[trigger] (head + (
            text::decimal(major) + "."@ + text::decimal(minor)) + tail),
{
    let head = "unsupported GPU architecture: compute capability "@;
    let tail = ", expected 12.1 (SM121)"@;
    assert((Fault::UnsupportedArch { major, minor }).message() =~= head + (text::decimal(major)
        + "."@ + text::decimal(minor)) + tail);
}

/// A descriptor of two dimensions is of a row-major matrix, in tiles of so many rows and columns; that
/// of transposed values is of a matrix with a row for each of their columns, and that of states has
/// square tiles.
pub proof fn descriptors_are_of_row_major_matrices(
    i: u32, rows: int, columns: int, tile_rows: int, tile_columns: int,
)
    ensures
        role::tiles(
            tensor_map::desc(i, rows, columns, tile_rows, tile_columns), i, MapElem::Bf16, rows,
            columns, tile_rows, tile_columns, Swizzle::Plain,
        ),
        role::tiles(
            tensor_map::desc_bf16_2d(i, rows, columns, tile_rows, tile_columns), i, MapElem::Bf16,
            rows, columns, tile_rows, tile_columns, Swizzle::Plain,
        ),
        role::tiles(
            tensor_map::desc_swizzle(i, rows, columns, tile_rows, tile_columns), i, MapElem::Bf16,
            rows, columns, tile_rows, tile_columns, Swizzle::Bytes128,
        ),
        role::tiles(
            tensor_map::desc_fp8(i, rows, columns, tile_rows, tile_columns), i, MapElem::Byte,
            rows, columns, tile_rows, tile_columns, Swizzle::Plain,
        ),
        role::tiles(
            tensor_map::desc_fp8_swizzle(i, rows, columns, tile_rows, tile_columns), i,
            MapElem::Byte, rows, columns, tile_rows, tile_columns, Swizzle::Bytes128,
        ),
        role::tiles(
            tensor_map::desc_fp8_vt(i, rows, columns, tile_rows, tile_columns), i, MapElem::Byte,
            columns, rows, tile_columns, tile_rows, Swizzle::Plain,
        ),
        role::tiles(
            tensor_map::desc_fp32(i, rows, columns), i, MapElem::F32, rows, columns, columns,
            columns, Swizzle::Plain,
        ),
{
}

} // verus!
