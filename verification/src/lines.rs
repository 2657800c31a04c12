//! Lines of a raw input stream, at the specification level, and the
//! transcript that the retry loop writes to its output sink.
//!
//! An input stream is modelled as the sequence of characters it has yet to
//! deliver.  A read takes the first raw line — everything up to and including
//! the first `'\n'`, or the whole rest when none remains — and the loop then
//! strips the line ending before handing the line to the pipeline.

use vstd::prelude::*;

verus! {

/// One space, as written after the prompt message.
pub open spec fn space() -> Seq<char> {
    seq![' ']
}

/// One newline, as written after an error message.
pub open spec fn newline() -> Seq<char> {
    seq!['\n']
}

/// The first raw line of `inp`: everything up to and including the first
/// `'\n'`, or all of `inp` when it holds none.  An exhausted stream yields
/// the empty line.
pub open spec fn raw_line(inp: Seq<char>) -> Seq<char>
    decreases inp.len(),
{
    if inp.len() == 0 {
        Seq::empty()
    } else if inp[0] == '\n' {
        seq!['\n']
    } else {
        seq![inp[0]] + raw_line(inp.skip(1))
    }
}

/// What remains of `inp` after its first raw line.
pub open spec fn after_line(inp: Seq<char>) -> Seq<char>
    decreases inp.len(),
{
    if inp.len() == 0 {
        Seq::empty()
    } else if inp[0] == '\n' {
        inp.skip(1)
    } else {
        after_line(inp.skip(1))
    }
}

/// A trailing `'\n'` is stripped and, if one then remains, a trailing `'\r'`;
/// a line read at end of stream without a newline stays as it was read.
pub open spec fn strip_newline(raw: Seq<char>) -> Seq<char> {
    if raw.len() > 0 && raw.last() == '\n' {
        let t = raw.drop_last();
        if t.len() > 0 && t.last() == '\r' {
            t.drop_last()
        } else {
            t
        }
    } else {
        raw
    }
}

/// The stripped line that the read number `i` (counting from zero) delivers.
pub open spec fn line_at(inp: Seq<char>, i: nat) -> Seq<char>
    decreases i,
{
    if i == 0 {
        strip_newline(raw_line(inp))
    } else {
        line_at(after_line(inp), (i - 1) as nat)
    }
}

/// What remains of `inp` after `i` reads.
pub open spec fn input_after(inp: Seq<char>, i: nat) -> Seq<char>
    decreases i,
{
    if i == 0 {
        inp
    } else {
        input_after(after_line(inp), (i - 1) as nat)
    }
}

/// The text one failed round writes: the prompt, a space, the error message,
/// and a newline.
pub open spec fn round(prompt: Seq<char>, error: Seq<char>) -> Seq<char> {
    prompt + space() + error + newline()
}

/// The text `k` failed rounds write.
pub open spec fn rounds(prompt: Seq<char>, error: Seq<char>, k: nat) -> Seq<char>
    decreases k,
{
    if k == 0 {
        Seq::empty()
    } else {
        rounds(prompt, error, (k - 1) as nat) + round(prompt, error)
    }
}

/// The whole transcript of a run that fails `k` times and then succeeds:
/// `k` failed rounds followed by the final prompt and space.
pub open spec fn transcript(prompt: Seq<char>, error: Seq<char>, k: nat) -> Seq<char> {
    rounds(prompt, error, k) + prompt + space()
}

/// Reading one line and then `i` more is the same as reading `i` lines from
/// the stream's tail; the line read at `i` is the first line of what remains
/// after `i` reads.
pub proof fn lemma_line_at_unfold(inp: Seq<char>, i: nat)
    ensures
        line_at(inp, i) == strip_newline(raw_line(input_after(inp, i))),
        input_after(inp, (i + 1) as nat) == after_line(input_after(inp, i)),
    decreases i,
{
    if i > 0 {
        lemma_line_at_unfold(after_line(inp), (i - 1) as nat);
        assert(input_after(inp, (i + 1) as nat) == input_after(after_line(inp), i));
    } else {
        assert(input_after(inp, 1) == input_after(after_line(inp), 0));
    }
}

/// Since every failed round writes the same text, one more round at the end
/// is also one more round at the front.
pub proof fn lemma_rounds_prepend(prompt: Seq<char>, error: Seq<char>, k: nat)
    ensures
        rounds(prompt, error, (k + 1) as nat) == round(prompt, error) + rounds(prompt, error, k),
    decreases k,
{
    if k == 0 {
        assert(rounds(prompt, error, 1) =~= round(prompt, error) + rounds(prompt, error, 0));
    } else {
        lemma_rounds_prepend(prompt, error, (k - 1) as nat);
        assert((round(prompt, error) + rounds(prompt, error, (k - 1) as nat)) + round(
            prompt,
            error,
        ) =~= round(prompt, error) + (rounds(prompt, error, (k - 1) as nat) + round(
            prompt,
            error,
        )));
    }
}

/// Where the first `'\n'` of `inp` sits (at index `d`, or absent when `d` is
/// the length), the first raw line and the rest are the matching subranges.
pub proof fn lemma_line_split(inp: Seq<char>, d: int)
    requires
        0 <= d <= inp.len(),
        forall|m: int| 0 <= m < d ==> inp[m] != '\n',
        d < inp.len() ==> inp[d] == '\n',
    ensures
        d < inp.len() ==> raw_line(inp) == inp.subrange(0, d + 1) && after_line(inp)
            == inp.subrange(d + 1, inp.len() as int),
        d == inp.len() ==> raw_line(inp) == inp && after_line(inp) == Seq::<char>::empty(),
    decreases inp.len(),
{
    if inp.len() == 0 {
        assert(raw_line(inp) =~= inp);
    } else if inp[0] == '\n' {
        assert(raw_line(inp) =~= inp.subrange(0, 1));
        assert(inp.skip(1) =~= inp.subrange(1, inp.len() as int));
    } else {
        let tail = inp.skip(1);
        assert(forall|m: int| 0 <= m < d - 1 ==> tail[m] != '\n');
        lemma_line_split(tail, d - 1);
        if d < inp.len() {
            assert(seq![inp[0]] + tail.subrange(0, d) =~= inp.subrange(0, d + 1));
            assert(tail.subrange(d, tail.len() as int) =~= inp.subrange(d + 1, inp.len() as int));
        } else {
            assert(seq![inp[0]] + tail =~= inp);
        }
    }
}

/// Compares two string slices character by character.
pub fn str_eq(a: &str, b: &str) -> (r: bool)
    ensures
        r == (a@ == b@),
{
    let na = a.unicode_len();
    let nb = b.unicode_len();
    if na != nb {
        return false;
    }
    let mut i: usize = 0;
    while i < na
        invariant
            na == a@.len(),
            na == b@.len(),
            0 <= i <= na,
            forall|m: int| 0 <= m < i ==> a@[m] == b@[m],
        decreases na - i,
    {
        if a.get_char(i) != b.get_char(i) {
            return false;
        }
        i += 1;
    }
    proof {
        assert(a@ =~= b@);
    }
    true
}

/// Strips the line ending from one raw line, as the specification
/// `strip_newline` describes.
pub fn strip_line(raw: &str) -> (r: String)
    ensures
        r@ == strip_newline(raw@),
{
    let n = raw.unicode_len();
    let end: usize = if n > 0 && raw.get_char(n - 1) == '\n' {
        if n > 1 && raw.get_char(n - 2) == '\r' {
            n - 2
        } else {
            n - 1
        }
    } else {
        n
    };
    let s = raw.substring_char(0, end);
    proof {
        if raw@.len() > 0 && raw@.last() == '\n' {
            assert(raw@.drop_last() =~= raw@.subrange(0, raw@.len() - 1));
            let t = raw@.drop_last();
            if t.len() > 0 && t.last() == '\r' {
                assert(t.drop_last() =~= raw@.subrange(0, raw@.len() - 2));
            }
        }
    }
    String::from_str(s)
}

} // verus!
