//! An interactive-prompt construction library.
//!
//! A prompt is built by chaining stages — parse, transform, validate, and
//! sentinel checks — onto a raw input line, and then run against a
//! line-oriented input source and output sink.  The run loop writes the
//! prompt message, reads one line, feeds it through the composed pipeline,
//! and either returns the accepted value or writes an error message and asks
//! again, without bound.

use vstd::prelude::*;

pub mod convert;
pub mod default;
pub mod io;
pub mod laws;
pub mod lines;
pub mod number;
pub mod result;

use crate::convert::{Convert, DefaultOnStage, DefaultValue, ExitOnStage, ParseFn, ParseStage,
    TransformFn, TransformStage, ValidateFn, ValidateStage};
use crate::default::DefaultPromptBuilder;
use crate::io::{ConsoleInput, ConsoleOutput, Input, Output};
use crate::lines::{input_after, lemma_line_at_unfold, line_at, newline, rounds, space,
    strip_line, transcript};
use crate::result::PromptResult;

verus! {

/// Begins a prompt for the given message.
pub fn ask(prompt: &str) -> (r: DefaultPromptBuilder<'_>)
    ensures
        r.prompt@ == prompt@,
{
    DefaultPromptBuilder::new(prompt)
}

/// A prompt message together with a composed pipeline from one raw input
/// line to a typed outcome.
pub struct PromptBuilder<'a, C> {
    pub prompt: &'a str,
    pub convert: C,
}

/// Everything one run of the retry loop establishes: the pipeline rejected
/// the first `k` lines with the retryable failure, accepted line number `k`
/// with the returned value, the sink grew by exactly the transcript of `k`
/// failed rounds and one final prompt, and `k + 1` lines were consumed.
pub open spec fn run_outcome<C: Convert>(
    convert: &C,
    prompt: Seq<char>,
    error: Seq<char>,
    inp: Seq<char>,
    out: Seq<char>,
    k: nat,
    value: <C::Target as DeepView>::V,
    out_after: Seq<char>,
    inp_after: Seq<char>,
) -> bool {
    &&& forall|j: nat| j < k ==> (#[trigger] convert.spec_convert(line_at(inp, j))) is Error
    &&& convert.spec_convert(line_at(inp, k)) == PromptResult::Answer(value)
    &&& out_after == out + transcript(prompt, error, k)
    &&& inp_after == input_after(inp, (k + 1) as nat)
}

/// Whether the pipeline accepts some line of every stream, so that even a
/// run on a stream about which nothing is known in advance — the process's
/// standard input — can be promised to return.
pub open spec fn answers_every_stream<C: Convert>(convert: &C) -> bool {
    forall|inp: Seq<char>| #[trigger] eventually_answers(convert, inp)
}

/// Whether the pipeline, fed the stream's lines in reading order, rejects
/// some first `k` of them with the retryable failure and then accepts line
/// number `k`.  This is exactly what lets the retry loop return: a rejected
/// line only makes it ask again, on a stream whose every line is rejected it
/// would ask for ever, and an exit outcome would leave it no value of the
/// pipeline's type to return.
pub open spec fn eventually_answers<C: Convert>(convert: &C, inp: Seq<char>) -> bool {
    exists|k: nat|
        #![trigger line_at(inp, k)]
        (forall|j: nat| j < k ==> (#[trigger] convert.spec_convert(line_at(inp, j))) is Error)
            && convert.spec_convert(line_at(inp, k)) is Answer
}

impl<'a, C: Convert> PromptBuilder<'a, C> {
    /// Runs the prompt against the given source and sink: writes the prompt
    /// and a space, reads one line, strips its ending, and feeds it to the
    /// pipeline; an accepted value is returned, a rejected line is answered
    /// with the error message and a newline before the loop asks again.
    /// Repeated rejection never stops the loop, so a run is only entered on
    /// a stream some line of which the pipeline accepts.
    pub fn error_prompt_to<I: Input, O: Output>(
        self,
        error: &str,
        input: &mut I,
        output: &mut O,
    ) -> (r: C::Target)
        requires
            eventually_answers(&self.convert, old(input).remaining()),
        ensures
            exists|k: nat|
                run_outcome(
                    &self.convert,
                    self.prompt@,
                    error@,
                    old(input).remaining(),
                    old(output).written(),
                    k,
                    r.deep_view(),
                    final(output).written(),
                    final(input).remaining(),
                ),
    {
        let ghost inp0 = input.remaining();
        let ghost out0 = output.written();
        let ghost k0: nat = choose|k: nat|
            #![trigger line_at(inp0, k)]
            (forall|j: nat|
                j < k ==> (#[trigger] self.convert.spec_convert(line_at(inp0, j))) is Error)
                && self.convert.spec_convert(line_at(inp0, k)) is Answer;
        let ghost mut g: nat = 0;
        loop
            invariant
                inp0 == old(input).remaining(),
                out0 == old(output).written(),
                g <= k0,
                forall|j: nat|
                    j < k0 ==> (#[trigger] self.convert.spec_convert(line_at(inp0, j))) is Error,
                self.convert.spec_convert(line_at(inp0, k0)) is Answer,
                input.remaining() == input_after(inp0, g),
                output.written() == out0 + rounds(self.prompt@, error@, g),
            decreases k0 - g,
        {
            output.write_str(self.prompt);
            output.write_str(" ");
            output.flush();
            let raw = input.read_line();
            let line = strip_line(raw.as_str());
            proof {
                reveal_strlit(" ");
                assert(" "@ =~= space());
                lemma_line_at_unfold(inp0, g);
                assert(line@ == line_at(inp0, g));
            }
            match self.convert.convert(line) {
                PromptResult::Answer(v) => {
                    proof {
                        assert(output.written() =~= out0 + transcript(self.prompt@, error@, g));
                        assert(run_outcome(
                            &self.convert,
                            self.prompt@,
                            error@,
                            old(input).remaining(),
                            old(output).written(),
                            g,
                            v.deep_view(),
                            output.written(),
                            input.remaining(),
                        ));
                    }
                    return v;
                },
                PromptResult::Error => {
                    output.write_str(error);
                    output.write_str("\n");
                    output.flush();
                    proof {
                        reveal_strlit("\n");
                        assert("\n"@ =~= newline());
                        assert(output.written() =~= out0 + rounds(
                            self.prompt@,
                            error@,
                            (g + 1) as nat,
                        ));
                        assert(self.convert.spec_convert(line_at(inp0, g)) is Error);
                        assert(g < k0);
                        g = g + 1;
                    }
                },
                PromptResult::Exit => {
                    proof {
                        assert(self.convert.spec_convert(line_at(inp0, g)) is Exit);
                        if g < k0 {
                            assert(self.convert.spec_convert(line_at(inp0, g)) is Error);
                        }
                        assert(false);
                    }
                    vstd::pervasive::unreached()
                },
            }
        }
    }

    /// Runs the prompt against the process's standard input and output.
    /// What the process will be fed is unknown in advance, so the run is
    /// entered only with a pipeline that accepts some line of every stream,
    /// and all that can be promised of the value returned is that the
    /// pipeline accepts it for some input line.
    pub fn error_prompt(self, error: &str) -> (r: C::Target)
        requires
            answers_every_stream(&self.convert),
        ensures
            exists|line: Seq<char>|
                (#[trigger] self.convert.spec_convert(line)) == PromptResult::Answer(r.deep_view()),
    {
        let mut input = ConsoleInput::new();
        let mut output = ConsoleOutput::new();
        let ghost inp0 = input.remaining();
        let ghost out0 = output.written();
        proof {
            assert(eventually_answers(&self.convert, inp0));
        }
        let v = self.error_prompt_to(error, &mut input, &mut output);
        proof {
            let k = choose|k: nat|
                run_outcome(
                    &self.convert,
                    self.prompt@,
                    error@,
                    inp0,
                    out0,
                    k,
                    v.deep_view(),
                    output.written(),
                    input.remaining(),
                );
            assert(self.convert.spec_convert(line_at(inp0, k)) == PromptResult::Answer(
                v.deep_view(),
            ));
        }
        v
    }

    /// Extends the pipeline with a parse step applied to an accepted value.
    pub fn parse<F: ParseFn<C::Target>>(self, parse_value: F) -> (r: PromptBuilder<
        'a,
        ParseStage<C, F>,
    >)
        ensures
            r.prompt@ == self.prompt@,
            r.convert == (ParseStage { inner: self.convert, f: parse_value }),
    {
        PromptBuilder {
            prompt: self.prompt,
            convert: ParseStage { inner: self.convert, f: parse_value },
        }
    }

    /// Extends the pipeline with a transform step applied to an accepted
    /// value.
    pub fn transform<F: TransformFn<C::Target>>(self, transform_value: F) -> (r: PromptBuilder<
        'a,
        TransformStage<C, F>,
    >)
        ensures
            r.prompt@ == self.prompt@,
            r.convert == (TransformStage { inner: self.convert, f: transform_value }),
    {
        PromptBuilder {
            prompt: self.prompt,
            convert: TransformStage { inner: self.convert, f: transform_value },
        }
    }

    /// Extends the pipeline with a validation of an accepted value.
    pub fn validate<F: ValidateFn<C::Target>>(self, validate_value: F) -> (r: PromptBuilder<
        'a,
        ValidateStage<C, F>,
    >)
        ensures
            r.prompt@ == self.prompt@,
            r.convert == (ValidateStage { inner: self.convert, f: validate_value }),
    {
        PromptBuilder {
            prompt: self.prompt,
            convert: ValidateStage { inner: self.convert, f: validate_value },
        }
    }

    /// Wraps the pipeline's value in `Option` and adds an exit sentinel: a
    /// raw line equal to `value` is accepted as the absent answer, whatever
    /// the rest of the pipeline would have made of it, and any other
    /// accepted value arrives wrapped in `Some`.
    pub fn exit_on(self, value: &'a str) -> (r: PromptBuilder<'a, ExitOnStage<'a, C>>)
        ensures
            r.prompt@ == self.prompt@,
            r.convert == (ExitOnStage { inner: self.convert, sentinel: value }),
    {
        PromptBuilder {
            prompt: self.prompt,
            convert: ExitOnStage { inner: self.convert, sentinel: value },
        }
    }
}

impl<'a, C: Convert> PromptBuilder<'a, C> where C::Target: DefaultValue {
    /// Adds a default sentinel: a raw line equal to `value` yields the
    /// type's fallback value without running any later stage.
    pub fn default_on(self, value: &'a str) -> (r: PromptBuilder<'a, DefaultOnStage<'a, C>>)
        ensures
            r.prompt@ == self.prompt@,
            r.convert == (DefaultOnStage { inner: self.convert, sentinel: value }),
    {
        PromptBuilder {
            prompt: self.prompt,
            convert: DefaultOnStage { inner: self.convert, sentinel: value },
        }
    }

    /// Adds another sentinel: a raw line equal to `value` also yields the
    /// fallback.  Chained after `exit_on` this gives a second escape string,
    /// since the fallback of an `Option` value is the absent answer.
    pub fn and_on(self, value: &'a str) -> (r: PromptBuilder<'a, DefaultOnStage<'a, C>>)
        ensures
            r.prompt@ == self.prompt@,
            r.convert == (DefaultOnStage { inner: self.convert, sentinel: value }),
    {
        self.default_on(value)
    }
}

} // verus!
