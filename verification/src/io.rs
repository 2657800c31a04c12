//! Line-oriented input sources and output sinks.
//!
//! A source is modelled by the characters it has yet to deliver, a sink by
//! the characters written to it so far.  In-memory implementations are
//! verified against those models and serve tests and embedding programs; the
//! console implementations bind to the process's standard streams through
//! trusted calls into the standard library.

use vstd::prelude::*;

use crate::lines::{after_line, lemma_line_split, raw_line};

verus! {

/// A blocking, line-oriented input source.
pub trait Input {
    /// The characters the source has yet to deliver.
    spec fn remaining(&self) -> Seq<char>;

    /// Reads one raw line: everything up to and including the next newline,
    /// or the whole rest at end of stream — in particular, the empty string
    /// once the stream is exhausted.
    fn read_line(&mut self) -> (line: String)
        ensures
            line@ == raw_line(old(self).remaining()),
            final(self).remaining() == after_line(old(self).remaining()),
    ;
}

/// A flushable output sink.
pub trait Output {
    /// The characters written to the sink so far.
    spec fn written(&self) -> Seq<char>;

    fn write_str(&mut self, s: &str)
        ensures
            final(self).written() == old(self).written() + s@,
    ;

    fn flush(&mut self)
        ensures
            final(self).written() == old(self).written(),
    ;
}

/// An in-memory input source over a fixed text.
pub struct MemoryInput {
    text: String,
}

impl MemoryInput {
    /// A source that will deliver exactly `text`.
    pub fn new(text: &str) -> (r: MemoryInput)
        ensures
            r.remaining() == text@,
    {
        MemoryInput { text: String::from_str(text) }
    }
}

impl Input for MemoryInput {
    closed spec fn remaining(&self) -> Seq<char> {
        self.text@
    }

    fn read_line(&mut self) -> (line: String) {
        let n = self.text.as_str().unicode_len();
        let mut d: usize = 0;
        while d < n && self.text.as_str().get_char(d) != '\n'
            invariant
                self.text@ == old(self).text@,
                n == self.text@.len(),
                0 <= d <= n,
                forall|m: int| 0 <= m < d ==> self.text@[m] != '\n',
            decreases n - d,
        {
            d += 1;
        }
        let end = if d < n {
            d + 1
        } else {
            n
        };
        let line = String::from_str(self.text.as_str().substring_char(0, end));
        let rest = String::from_str(self.text.as_str().substring_char(end, n));
        proof {
            lemma_line_split(self.text@, d as int);
            if d == n {
                assert(self.text@.subrange(0, end as int) =~= self.text@);
                assert(self.text@.subrange(end as int, n as int) =~= Seq::<char>::empty());
            }
        }
        self.text = rest;
        line
    }
}

/// An in-memory output sink.
pub struct MemoryOutput {
    text: String,
}

impl MemoryOutput {
    /// An empty sink.
    pub fn new() -> (r: MemoryOutput)
        ensures
            r.written() == Seq::<char>::empty(),
    {
        MemoryOutput { text: String::new() }
    }

    /// The text written so far.
    pub fn as_string(&self) -> (r: String)
        ensures
            r@ == self.written(),
    {
        self.text.clone()
    }
}

impl Output for MemoryOutput {
    closed spec fn written(&self) -> Seq<char> {
        self.text@
    }

    fn write_str(&mut self, s: &str) {
        self.text.append(s);
    }

    fn flush(&mut self) {
    }
}

/// The process's standard input as a line source.
///
/// What the process will be fed cannot be known in advance; the ghost field
/// stands for it, fixed but arbitrary, and the trusted reader below promises
/// only that reads deliver that text line by line.
pub struct ConsoleInput {
    script: Ghost<Seq<char>>,
}

impl ConsoleInput {
    /// Binds to the process's standard input.
    pub fn new() -> (r: ConsoleInput) {
        ConsoleInput { script: Ghost(arbitrary()) }
    }

    /// Relies on std::io::Stdin::read_line: appends one line to the buffer,
    /// its newline included when the stream holds one, and nothing at end of
    /// stream; a read failure aborts the process.
    #[verifier::external_body]
    fn read_console_line(&mut self) -> (line: String)
        ensures
            line@ == raw_line(old(self).remaining()),
            final(self).remaining() == after_line(old(self).remaining()),
    {
        let mut buffer = String::new();
        std::io::stdin().read_line(&mut buffer).unwrap();
        buffer
    }
}

impl Input for ConsoleInput {
    closed spec fn remaining(&self) -> Seq<char> {
        self.script@
    }

    fn read_line(&mut self) -> (line: String) {
        self.read_console_line()
    }
}

/// The process's standard output as a sink.
///
/// The ghost field logs what has been written through it.
pub struct ConsoleOutput {
    log: Ghost<Seq<char>>,
}

impl ConsoleOutput {
    /// Binds to the process's standard output.
    pub fn new() -> (r: ConsoleOutput)
        ensures
            r.written() == Seq::<char>::empty(),
    {
        ConsoleOutput { log: Ghost(Seq::empty()) }
    }

    /// Relies on std::io::Stdout::write_all: writes the whole string; a
    /// write failure aborts the process.
    #[verifier::external_body]
    fn write_console(&mut self, s: &str)
        ensures
            final(self).written() == old(self).written() + s@,
    {
        std::io::Write::write_all(&mut std::io::stdout(), s.as_bytes()).unwrap();
    }

    /// Relies on std::io::Stdout::flush; a failure aborts the process.
    #[verifier::external_body]
    fn flush_console(&mut self)
        ensures
            final(self).written() == old(self).written(),
    {
        std::io::Write::flush(&mut std::io::stdout()).unwrap();
    }
}

impl Output for ConsoleOutput {
    closed spec fn written(&self) -> Seq<char> {
        self.log@
    }

    fn write_str(&mut self, s: &str) {
        self.write_console(s);
    }

    fn flush(&mut self) {
        self.flush_console();
    }
}

} // verus!
