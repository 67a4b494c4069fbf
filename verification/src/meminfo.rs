//! Fields of a memory report: lines of a key, a number and a unit.
use crate::device;
use crate::text::Text;
use vstd::prelude::*;
use vstd::string::*;

verus! {

/// Whether a character is white space.
pub open spec fn is_space(c: char) -> bool {
    let x = c as int;
    ||| 9 <= x <= 13
    ||| x == 32
    ||| x == 0x85
    ||| x == 0xa0
    ||| x == 0x1680
    ||| 0x2000 <= x <= 0x200a
    ||| x == 0x2028
    ||| x == 0x2029
    ||| x == 0x202f
    ||| x == 0x205f
    ||| x == 0x3000
}

fn space(c: char) -> (r: bool)
    ensures
        r == is_space(c),
{
    let x: u32 = c as u32;
    (9 <= x && x <= 13) || x == 32 || x == 0x85 || x == 0xa0 || x == 0x1680 || (0x2000 <= x && x
        <= 0x200a) || x == 0x2028 || x == 0x2029 || x == 0x202f || x == 0x205f || x == 0x3000
}

/// The first position from `i` on whose character is white space, or is not.
pub open spec fn run_end(s: Seq<char>, i: int, spaces: bool) -> int
    decreases s.len() - i,
{
    if i >= s.len() || is_space(s[i]) != spaces {
        i
    } else {
        run_end(s, i + 1, spaces)
    }
}

/// The second word of a line.
pub open spec fn second_word(line: Seq<char>) -> Option<Seq<char>> {
    let first = run_end(line, 0, true);
    let gap = run_end(line, first, false);
    let second = run_end(line, gap, true);
    let end = run_end(line, second, false);
    if second < line.len() {
        Some(line.subrange(second, end))
    } else {
        None
    }
}

/// The position of the first line feed from `i` on, or the end of the text.
pub open spec fn line_end(s: Seq<char>, i: int) -> int
    decreases s.len() - i,
{
    if i >= s.len() || s[i] == '\n' {
        i
    } else {
        line_end(s, i + 1)
    }
}

/// The line from position `i` on, without its line feed and without a carriage return before
/// one.
pub open spec fn line_at(s: Seq<char>, i: int) -> Seq<char> {
    let e = line_end(s, i);
    if e < s.len() && e > i && s[e - 1] == '\r' {
        s.subrange(i, e - 1)
    } else {
        s.subrange(i, e)
    }
}

/// A line ends where it begins or later, within the text.
pub proof fn lemma_line_end(s: Seq<char>, i: int)
    requires
        0 <= i <= s.len(),
    ensures
        i <= line_end(s, i) <= s.len(),
    decreases s.len() - i,
{
    if i < s.len() && s[i] != '\n' {
        lemma_line_end(s, i + 1);
    }
}

/// The first line from position `i` on that begins with `key`.
pub open spec fn line_of(s: Seq<char>, key: Seq<char>, i: int) -> Option<Seq<char>>
    decreases s.len() + 1 - i,
{
    if i < 0 || i >= s.len() {
        None
    } else if key.is_prefix_of(line_at(s, i)) {
        Some(line_at(s, i))
    } else {
        proof {
            lemma_line_end(s, i);
        }
        line_of(s, key, line_end(s, i) + 1)
    }
}

/// The number of a field: the second word of the first line that begins with `key`.
pub open spec fn field(s: Seq<char>, key: Seq<char>) -> Option<Seq<char>> {
    match line_of(s, key, 0) {
        Some(line) => second_word(line),
        None => None,
    }
}

fn end_of_run(s: &Vec<char>, from: usize, spaces: bool) -> (r: usize)
    requires
        from <= s@.len(),
    ensures
        r == run_end(s@, from as int, spaces),
        from <= r <= s@.len(),
{
    let mut i: usize = from;
    while i < s.len() && space(s[i]) == spaces
        invariant
            from <= i <= s@.len(),
            run_end(s@, i as int, spaces) == run_end(s@, from as int, spaces),
        decreases s@.len() - i,
    {
        i = i + 1;
    }
    i
}

fn end_of_line(s: &Vec<char>, from: usize) -> (r: usize)
    requires
        from <= s@.len(),
    ensures
        r == line_end(s@, from as int),
        from <= r <= s@.len(),
{
    let mut i: usize = from;
    while i < s.len() && s[i] != '\n'
        invariant
            from <= i <= s@.len(),
            line_end(s@, i as int) == line_end(s@, from as int),
        decreases s@.len() - i,
    {
        i = i + 1;
    }
    i
}

fn slice(s: &Vec<char>, from: usize, to: usize) -> (r: Vec<char>)
    requires
        from <= to <= s@.len(),
    ensures
        r@ == s@.subrange(from as int, to as int),
{
    let mut out: Vec<char> = Vec::new();
    let mut i: usize = from;
    while i < to
        invariant
            from <= i <= to <= s@.len(),
            out@ == s@.subrange(from as int, i as int),
        decreases to - i,
    {
        out.push(s[i]);
        i = i + 1;
        assert(out@ =~= s@.subrange(from as int, i as int));
    }
    out
}

fn second(line: &Vec<char>) -> (r: Option<(usize, usize)>)
    ensures
        match r {
            Some((from, to)) => from <= to <= line@.len() && second_word(line@) == Some(
                line@.subrange(from as int, to as int),
            ),
            None => second_word(line@) is None,
        },
{
    let first: usize = end_of_run(line, 0, true);
    let gap: usize = end_of_run(line, first, false);
    let word: usize = end_of_run(line, gap, true);
    let end: usize = end_of_run(line, word, false);
    if word < line.len() {
        Some((word, end))
    } else {
        None
    }
}

/// The number of a field of a memory report: the second word of the first line that begins with
/// `key`.
pub fn meminfo_field(text: &str, key: &str) -> (r: Option<String>)
    ensures
        match r {
            Some(w) => field(text@, key@) == Some(w@),
            None => field(text@, key@) is None,
        },
{
    let s = device::chars(text);
    let k = device::chars(key);
    let len: usize = s.len();
    let mut i: usize = 0;
    while i < len
        invariant
            i <= len + 1,
            len == s@.len(),
            s@ == text@,
            k@ == key@,
            line_of(text@, key@, i as int) == line_of(text@, key@, 0),
        decreases len + 1 - i,
    {
        let end: usize = end_of_line(&s, i);
        let stop: usize = if end < len && end > i && s[end - 1] == '\r' {
            end - 1
        } else {
            end
        };
        let line = slice(&s, i, stop);
        proof {
            let l = line_at(s@, i as int);
            assert(line@ == l);
            if k@.len() <= l.len() {
                assert(l.subrange(0, k@.len() as int) =~= l.take(k@.len() as int));
            }
            assert(device::occurs_at(line@, k@, 0) == k@.is_prefix_of(l));
        }
        if device::matches_at(&line, &k, 0) {
            return match second(&line) {
                Some((from, to)) => {
                    assert(line@.subrange(from as int, to as int) =~= text@.subrange(
                        i + from,
                        i + to,
                    ));
                    Some(text.substring_char(i + from, i + to).to_owned())
                },
                None => None,
            };
        }
        if end == len {
            assert(line_of(text@, key@, end + 1) is None);
            return None;
        }
        i = end + 1;
    }
    None
}

/// The part of a message that tells how the memory is used, from the three amounts as printed.
pub fn meminfo_hint(free: &str, buffers: &str, available: &str) -> (r: String)
    ensures
        r@ == " MemFree="@ + free@ + " GiB, Buffers="@ + buffers@ + " GiB, MemAvailable="@
            + available@ + " GiB."@,
{
    Text::new(" MemFree=").s(free).s(" GiB, Buffers=").s(buffers).s(" GiB, MemAvailable=").s(
        available,
    ).s(" GiB.").done()
}

} // verus!
