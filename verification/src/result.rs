//! The three-way outcome of feeding one input line through a pipeline.

use vstd::prelude::*;

verus! {

/// Outcome of converting one input line: an accepted value, a recoverable
/// failure that makes the retry loop ask again, or a request to stop
/// prompting altogether.
pub enum PromptResult<T> {
    Answer(T),
    Error,
    Exit,
}

impl<T: DeepView> DeepView for PromptResult<T> {
    type V = PromptResult<T::V>;

    open spec fn deep_view(&self) -> PromptResult<T::V> {
        match self {
            PromptResult::Answer(v) => PromptResult::Answer(v.deep_view()),
            PromptResult::Error => PromptResult::Error,
            PromptResult::Exit => PromptResult::Exit,
        }
    }
}

impl<T> PromptResult<T> {
    /// Applies `f` to a carried answer; `Error` and `Exit` pass through, so no
    /// stage runs after a failed or exited one.
    pub fn and_then<U, F: FnOnce(T) -> PromptResult<U>>(self, f: F) -> (r: PromptResult<U>)
        requires
            self matches PromptResult::Answer(a) ==> call_requires(f, (a,)),
        ensures
            (match self {
                PromptResult::Answer(a) => call_ensures(f, (a,), r),
                PromptResult::Error => r is Error,
                PromptResult::Exit => r is Exit,
            }),
    {
        match self {
            PromptResult::Answer(a) => f(a),
            PromptResult::Error => PromptResult::Error,
            PromptResult::Exit => PromptResult::Exit,
        }
    }
}

impl<T, E> From<Result<T, E>> for PromptResult<T> {
    /// A successful parse is an answer; any parse error collapses to the
    /// single retryable failure outcome.
    fn from(result: Result<T, E>) -> (r: Self) {
        match result {
            Ok(v) => PromptResult::Answer(v),
            Err(_) => PromptResult::Error,
        }
    }
}

impl<T, E> vstd::std_specs::convert::FromSpecImpl<Result<T, E>> for PromptResult<T> {
    open spec fn obeys_from_spec() -> bool {
        true
    }

    open spec fn from_spec(result: Result<T, E>) -> Self {
        match result {
            Ok(v) => PromptResult::Answer(v),
            Err(_) => PromptResult::Error,
        }
    }
}

impl<T> From<Option<T>> for PromptResult<T> {
    /// A present value is an answer; absence collapses to the retryable
    /// failure outcome.
    fn from(option: Option<T>) -> (r: Self) {
        match option {
            Some(v) => PromptResult::Answer(v),
            None => PromptResult::Error,
        }
    }
}

impl<T> vstd::std_specs::convert::FromSpecImpl<Option<T>> for PromptResult<T> {
    open spec fn obeys_from_spec() -> bool {
        true
    }

    open spec fn from_spec(option: Option<T>) -> Self {
        match option {
            Some(v) => PromptResult::Answer(v),
            None => PromptResult::Error,
        }
    }
}

} // verus!
