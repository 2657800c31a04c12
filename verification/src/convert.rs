//! The pipeline's composed conversion from one raw input line to a typed
//! outcome, and the stages that build it up.
//!
//! A pipeline is a value implementing [`Convert`]: a mathematical account of
//! the conversion (`spec_convert`, over the line's characters and the deep
//! views of values) paired with executable code (`convert`) that must return
//! exactly what the account says.  Chaining wraps one such value in another,
//! keeping evaluation order: sentinel checks see the raw line first, and each
//! later stage runs only on an accepted value.

use vstd::prelude::*;

use crate::result::PromptResult;

verus! {

/// A composed conversion from one raw input line to a typed outcome.
pub trait Convert: Sized {
    /// The type of value the pipeline produces.
    type Target: DeepView;

    /// What converting a line yields, seen through the value's deep view.
    spec fn spec_convert(&self, line: Seq<char>) -> PromptResult<<Self::Target as DeepView>::V>;

    fn convert(&self, line: String) -> (r: PromptResult<Self::Target>)
        ensures
            r.deep_view() == self.spec_convert(line@),
    ;
}

/// A parse step from `T` to [`ParseFn::Out`], failing with [`ParseFn::Err`].
/// In the pipeline any error collapses to the retryable failure outcome, so
/// the account keeps only whether parsing succeeded.
pub trait ParseFn<T: DeepView>: Sized {
    type Out: DeepView;

    type Err;

    /// What parsing yields on success, over deep views.
    spec fn spec_parse(&self, t: T::V) -> Option<<Self::Out as DeepView>::V>;

    fn do_parse(&self, t: T) -> (r: Result<Self::Out, Self::Err>)
        ensures
            (match r {
                Ok(u) => Some(u.deep_view()),
                Err(_) => None,
            }) == self.spec_parse(t.deep_view()),
    ;
}

/// A transform step from `T` to [`TransformFn::Out`]; `None` means the value
/// is rejected.
pub trait TransformFn<T: DeepView>: Sized {
    type Out: DeepView;

    /// What transforming yields, over deep views.
    spec fn spec_transform(&self, t: T::V) -> Option<<Self::Out as DeepView>::V>;

    fn do_transform(&self, t: T) -> (r: Option<Self::Out>)
        ensures
            r.deep_view() == self.spec_transform(t.deep_view()),
    ;
}

/// A predicate over the pipeline's current value; a value that fails it is
/// rejected.
pub trait ValidateFn<T: DeepView>: Sized {
    /// What the predicate holds of, over deep views.
    spec fn spec_validate(&self, t: T::V) -> bool;

    fn do_validate(&self, t: &T) -> (r: bool)
        ensures
            r == self.spec_validate(t.deep_view()),
    ;
}

/// A type with a known fallback value, produced when a default sentinel is
/// entered.
pub trait DefaultValue: Sized + DeepView {
    /// The fallback value, seen through the deep view.
    spec fn spec_default() -> Self::V;

    fn default_value() -> (r: Self)
        ensures
            r.deep_view() == Self::spec_default(),
    ;
}

impl DefaultValue for String {
    open spec fn spec_default() -> Seq<char> {
        Seq::empty()
    }

    fn default_value() -> (r: String) {
        String::new()
    }
}

impl DefaultValue for u64 {
    open spec fn spec_default() -> u64 {
        0
    }

    fn default_value() -> (r: u64) {
        0
    }
}

impl<T: DeepView> DefaultValue for Option<T> {
    open spec fn spec_default() -> Option<T::V> {
        None
    }

    fn default_value() -> (r: Option<T>) {
        None
    }
}

/// The bare pipeline: the raw line itself is the answer.
pub struct RawLine;

impl Convert for RawLine {
    type Target = String;

    open spec fn spec_convert(&self, line: Seq<char>) -> PromptResult<Seq<char>> {
        PromptResult::Answer(line)
    }

    fn convert(&self, line: String) -> (r: PromptResult<String>) {
        PromptResult::Answer(line)
    }
}

/// A pipeline extended with a parse step; a parse error becomes the
/// retryable failure outcome.
pub struct ParseStage<C, F> {
    pub inner: C,
    pub f: F,
}

impl<C: Convert, F: ParseFn<C::Target>> Convert for ParseStage<C, F> {
    type Target = F::Out;

    open spec fn spec_convert(&self, line: Seq<char>) -> PromptResult<<F::Out as DeepView>::V> {
        match self.inner.spec_convert(line) {
            PromptResult::Answer(v) => match self.f.spec_parse(v) {
                Some(u) => PromptResult::Answer(u),
                None => PromptResult::Error,
            },
            PromptResult::Error => PromptResult::Error,
            PromptResult::Exit => PromptResult::Exit,
        }
    }

    fn convert(&self, line: String) -> (r: PromptResult<F::Out>) {
        match self.inner.convert(line) {
            PromptResult::Answer(t) => match self.f.do_parse(t) {
                Ok(u) => PromptResult::Answer(u),
                Err(_) => PromptResult::Error,
            },
            PromptResult::Error => PromptResult::Error,
            PromptResult::Exit => PromptResult::Exit,
        }
    }
}

/// A pipeline extended with a transform step; a rejected value becomes the
/// retryable failure outcome.
pub struct TransformStage<C, F> {
    pub inner: C,
    pub f: F,
}

impl<C: Convert, F: TransformFn<C::Target>> Convert for TransformStage<C, F> {
    type Target = F::Out;

    open spec fn spec_convert(&self, line: Seq<char>) -> PromptResult<<F::Out as DeepView>::V> {
        match self.inner.spec_convert(line) {
            PromptResult::Answer(v) => match self.f.spec_transform(v) {
                Some(u) => PromptResult::Answer(u),
                None => PromptResult::Error,
            },
            PromptResult::Error => PromptResult::Error,
            PromptResult::Exit => PromptResult::Exit,
        }
    }

    fn convert(&self, line: String) -> (r: PromptResult<F::Out>) {
        match self.inner.convert(line) {
            PromptResult::Answer(t) => match self.f.do_transform(t) {
                Some(u) => PromptResult::Answer(u),
                None => PromptResult::Error,
            },
            PromptResult::Error => PromptResult::Error,
            PromptResult::Exit => PromptResult::Exit,
        }
    }
}

/// A pipeline extended with a validation step: the value passes through
/// unchanged when the predicate holds, and is rejected otherwise.
pub struct ValidateStage<C, F> {
    pub inner: C,
    pub f: F,
}

impl<C: Convert, F: ValidateFn<C::Target>> Convert for ValidateStage<C, F> {
    type Target = C::Target;

    open spec fn spec_convert(&self, line: Seq<char>) -> PromptResult<
        <C::Target as DeepView>::V,
    > {
        match self.inner.spec_convert(line) {
            PromptResult::Answer(v) => if self.f.spec_validate(v) {
                PromptResult::Answer(v)
            } else {
                PromptResult::Error
            },
            PromptResult::Error => PromptResult::Error,
            PromptResult::Exit => PromptResult::Exit,
        }
    }

    fn convert(&self, line: String) -> (r: PromptResult<C::Target>) {
        match self.inner.convert(line) {
            PromptResult::Answer(t) => if self.f.do_validate(&t) {
                PromptResult::Answer(t)
            } else {
                PromptResult::Error
            },
            PromptResult::Error => PromptResult::Error,
            PromptResult::Exit => PromptResult::Exit,
        }
    }
}

/// A pipeline extended with a default sentinel: a raw line equal to the
/// sentinel yields the fallback value at once, and no later stage sees it.
pub struct DefaultOnStage<'a, C> {
    pub inner: C,
    pub sentinel: &'a str,
}

impl<'a, C: Convert> Convert for DefaultOnStage<'a, C> where C::Target: DefaultValue {
    type Target = C::Target;

    open spec fn spec_convert(&self, line: Seq<char>) -> PromptResult<
        <C::Target as DeepView>::V,
    > {
        if line == self.sentinel@ {
            PromptResult::Answer(<C::Target as DefaultValue>::spec_default())
        } else {
            self.inner.spec_convert(line)
        }
    }

    fn convert(&self, line: String) -> (r: PromptResult<C::Target>) {
        if crate::lines::str_eq(line.as_str(), self.sentinel) {
            PromptResult::Answer(<C::Target as DefaultValue>::default_value())
        } else {
            self.inner.convert(line)
        }
    }
}

/// A pipeline whose value is wrapped in `Option`, with an exit sentinel: a
/// raw line equal to the sentinel is a recognized answer carrying no value —
/// not an error — and no later stage sees it; any other line's value is
/// wrapped in `Some`.
pub struct ExitOnStage<'a, C> {
    pub inner: C,
    pub sentinel: &'a str,
}

impl<'a, C: Convert> Convert for ExitOnStage<'a, C> {
    type Target = Option<C::Target>;

    open spec fn spec_convert(&self, line: Seq<char>) -> PromptResult<
        Option<<C::Target as DeepView>::V>,
    > {
        if line == self.sentinel@ {
            PromptResult::Answer(None)
        } else {
            match self.inner.spec_convert(line) {
                PromptResult::Answer(v) => PromptResult::Answer(Some(v)),
                PromptResult::Error => PromptResult::Error,
                PromptResult::Exit => PromptResult::Exit,
            }
        }
    }

    fn convert(&self, line: String) -> (r: PromptResult<Option<C::Target>>) {
        if crate::lines::str_eq(line.as_str(), self.sentinel) {
            PromptResult::Answer(None)
        } else {
            match self.inner.convert(line) {
                PromptResult::Answer(v) => PromptResult::Answer(Some(v)),
                PromptResult::Error => PromptResult::Error,
                PromptResult::Exit => PromptResult::Exit,
            }
        }
    }
}

/// A stock validator: accepts a text of at most the given number of
/// characters.
pub struct LenAtMost(pub usize);

impl ValidateFn<String> for LenAtMost {
    open spec fn spec_validate(&self, t: Seq<char>) -> bool {
        t.len() <= self.0
    }

    fn do_validate(&self, t: &String) -> (r: bool) {
        t.as_str().unicode_len() <= self.0
    }
}

/// The transform that hands every value through unchanged.
pub struct IdentityTransform;

impl<T: DeepView> TransformFn<T> for IdentityTransform {
    type Out = T;

    open spec fn spec_transform(&self, t: T::V) -> Option<T::V> {
        Some(t)
    }

    fn do_transform(&self, t: T) -> (r: Option<T>) {
        Some(t)
    }
}

} // verus!
