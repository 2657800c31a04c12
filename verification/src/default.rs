//! Prompts whose parser comes from the value type itself, with a canned
//! error message per type.

use vstd::prelude::*;

use core::marker::PhantomData;

use crate::convert::{Convert, ParseFn, RawLine, TransformFn, ValidateFn, ParseStage,
    TransformStage, ValidateStage};
use crate::number::{is_u64_literal, parse_u64, u64_literal_value};
use crate::io::{Input, Output};
use crate::result::PromptResult;
use crate::{answers_every_stream, eventually_answers, run_outcome, PromptBuilder};

verus! {

/// A type that can be asked for without writing a parser: it parses a
/// stripped input line itself and carries a default error message.
pub trait DefaultPrompt: Sized + DeepView {
    /// What parsing one stripped line yields, over the deep view.
    spec fn spec_parse(line: Seq<char>) -> Option<Self::V>;

    /// The default error message.
    spec fn spec_error_prompt() -> Seq<char>;

    fn parse(line: String) -> (r: Option<Self>)
        ensures
            r.deep_view() == Self::spec_parse(line@),
    ;

    fn error_prompt() -> (r: &'static str)
        ensures
            r@ == Self::spec_error_prompt(),
    ;
}

/// Free-form text: any non-empty line is accepted as it stands.
impl DefaultPrompt for String {
    open spec fn spec_parse(line: Seq<char>) -> Option<Seq<char>> {
        if line.len() == 0 {
            None
        } else {
            Some(line)
        }
    }

    open spec fn spec_error_prompt() -> Seq<char> {
        "Please enter a value."@
    }

    fn parse(line: String) -> (r: Option<String>) {
        if line.as_str().unicode_len() == 0 {
            None
        } else {
            Some(line)
        }
    }

    fn error_prompt() -> (r: &'static str) {
        "Please enter a value."
    }
}

/// Optional text: every line is accepted, the empty one included, as a
/// present value.
impl DefaultPrompt for Option<String> {
    open spec fn spec_parse(line: Seq<char>) -> Option<Option<Seq<char>>> {
        Some(Some(line))
    }

    open spec fn spec_error_prompt() -> Seq<char> {
        "<Can't Fail>"@
    }

    fn parse(line: String) -> (r: Option<Option<String>>) {
        Some(Some(line))
    }

    fn error_prompt() -> (r: &'static str) {
        "<Can't Fail>"
    }
}

/// An unsigned number: only a base-ten literal within the 64-bit range is
/// accepted.
impl DefaultPrompt for u64 {
    open spec fn spec_parse(line: Seq<char>) -> Option<u64> {
        if is_u64_literal(line) {
            Some(u64_literal_value(line) as u64)
        } else {
            None
        }
    }

    open spec fn spec_error_prompt() -> Seq<char> {
        "Please enter a non-negative number."@
    }

    fn parse(line: String) -> (r: Option<u64>) {
        parse_u64(line.as_str())
    }

    fn error_prompt() -> (r: &'static str) {
        "Please enter a non-negative number."
    }
}

/// The pipeline a default parser yields: the raw line goes to the type's own
/// parser, and a failed parse is the retryable failure outcome.
pub struct DefaultConvert<T> {
    pub marker: PhantomData<T>,
}

impl<T: DefaultPrompt> Convert for DefaultConvert<T> {
    type Target = T;

    open spec fn spec_convert(&self, line: Seq<char>) -> PromptResult<T::V> {
        match T::spec_parse(line) {
            Some(v) => PromptResult::Answer(v),
            None => PromptResult::Error,
        }
    }

    fn convert(&self, line: String) -> (r: PromptResult<T>) {
        match T::parse(line) {
            Some(v) => PromptResult::Answer(v),
            None => PromptResult::Error,
        }
    }
}

/// Builds a prompt before the shape of its pipeline is fixed: the first
/// chained operation decides whether the line is parsed by the value type
/// itself or handed to a supplied stage.
pub struct DefaultPromptBuilder<'a> {
    pub prompt: &'a str,
}

impl<'a> DefaultPromptBuilder<'a> {
    /// A builder for the given prompt message.
    pub fn new(prompt: &'a str) -> (r: DefaultPromptBuilder<'a>)
        ensures
            r.prompt@ == prompt@,
    {
        DefaultPromptBuilder { prompt }
    }

    /// Runs a prompt for `T` with the given error message against the given
    /// source and sink: the pipeline is the type's own parser, and the run
    /// is the retry loop of `PromptBuilder::error_prompt_to`.
    pub fn error_prompt_to<T: DefaultPrompt, I: Input, O: Output>(
        self,
        error: &str,
        input: &mut I,
        output: &mut O,
    ) -> (r: T)
        requires
            eventually_answers(
                &(DefaultConvert::<T> { marker: PhantomData }),
                old(input).remaining(),
            ),
        ensures
            exists|k: nat|
                run_outcome(
                    &(DefaultConvert::<T> { marker: PhantomData }),
                    self.prompt@,
                    error@,
                    old(input).remaining(),
                    old(output).written(),
                    k,
                    r.deep_view(),
                    final(output).written(),
                    final(input).remaining(),
                ),
    {
        self.parse_as::<T>().error_prompt_to(error, input, output)
    }

    /// Runs a prompt for `T` with the type's default error message.
    pub fn prompt_to<T: DefaultPrompt, I: Input, O: Output>(
        self,
        input: &mut I,
        output: &mut O,
    ) -> (r: T)
        requires
            eventually_answers(
                &(DefaultConvert::<T> { marker: PhantomData }),
                old(input).remaining(),
            ),
        ensures
            exists|k: nat|
                run_outcome(
                    &(DefaultConvert::<T> { marker: PhantomData }),
                    self.prompt@,
                    T::spec_error_prompt(),
                    old(input).remaining(),
                    old(output).written(),
                    k,
                    r.deep_view(),
                    final(output).written(),
                    final(input).remaining(),
                ),
    {
        let error = T::error_prompt();
        self.parse_as::<T>().error_prompt_to(error, input, output)
    }

    /// Runs a prompt for `T` with the given error message against the
    /// process's standard input and output.  What the process will be fed is
    /// unknown in advance, so the run is entered only for a type that
    /// accepts some line of every stream, and all that can be promised of
    /// the returned value is that some line parses to it.
    pub fn error_prompt<T: DefaultPrompt>(self, error: &str) -> (r: T)
        requires
            answers_every_stream(&(DefaultConvert::<T> { marker: PhantomData })),
        ensures
            exists|line: Seq<char>| #[trigger] T::spec_parse(line) == Some(r.deep_view()),
    {
        let v: T = self.parse_as::<T>().error_prompt(error);
        proof {
            let convert = DefaultConvert::<T> { marker: PhantomData };
            let line = choose|line: Seq<char>|
                (#[trigger] convert.spec_convert(line)) == PromptResult::Answer(v.deep_view());
            assert(T::spec_parse(line) == Some(v.deep_view()));
        }
        v
    }

    /// Runs a prompt for `T` with the type's default error message against
    /// the process's standard input and output.
    pub fn prompt<T: DefaultPrompt>(self) -> (r: T)
        requires
            answers_every_stream(&(DefaultConvert::<T> { marker: PhantomData })),
        ensures
            exists|line: Seq<char>| #[trigger] T::spec_parse(line) == Some(r.deep_view()),
    {
        let error = T::error_prompt();
        self.error_prompt::<T>(error)
    }

    /// Fixes the pipeline to the value type's own parser.
    pub fn parse_as<T: DefaultPrompt>(self) -> (r: PromptBuilder<'a, DefaultConvert<T>>)
        ensures
            r.prompt@ == self.prompt@,
            r.convert == (DefaultConvert::<T> { marker: PhantomData }),
    {
        PromptBuilder { prompt: self.prompt, convert: DefaultConvert { marker: PhantomData } }
    }

    /// Starts the pipeline with a parse step applied to the raw line.
    pub fn parse<F: ParseFn<String>>(self, parse_value: F) -> (r: PromptBuilder<
        'a,
        ParseStage<RawLine, F>,
    >)
        ensures
            r.prompt@ == self.prompt@,
            r.convert == (ParseStage { inner: RawLine, f: parse_value }),
    {
        PromptBuilder { prompt: self.prompt, convert: ParseStage { inner: RawLine, f: parse_value } }
    }

    /// Starts the pipeline with a transform step applied to the raw line.
    pub fn transform<F: TransformFn<String>>(self, transform_value: F) -> (r: PromptBuilder<
        'a,
        TransformStage<RawLine, F>,
    >)
        ensures
            r.prompt@ == self.prompt@,
            r.convert == (TransformStage { inner: RawLine, f: transform_value }),
    {
        PromptBuilder {
            prompt: self.prompt,
            convert: TransformStage { inner: RawLine, f: transform_value },
        }
    }

    /// Starts the pipeline with a validation of the raw line.
    pub fn validate<F: ValidateFn<String>>(self, validate_value: F) -> (r: PromptBuilder<
        'a,
        ValidateStage<RawLine, F>,
    >)
        ensures
            r.prompt@ == self.prompt@,
            r.convert == (ValidateStage { inner: RawLine, f: validate_value }),
    {
        PromptBuilder {
            prompt: self.prompt,
            convert: ValidateStage { inner: RawLine, f: validate_value },
        }
    }
}

} // verus!
