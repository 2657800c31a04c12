//! The library's laws: what holds of whole runs and of chained pipelines,
//! proved once and for all from the contracts of the run loop and the
//! stages.

use vstd::prelude::*;

use crate::convert::{Convert, ExitOnStage, IdentityTransform, TransformStage};
use crate::default::DefaultConvert;
use crate::lines::{lemma_rounds_prepend, line_at, round, rounds, space, transcript};
use crate::result::PromptResult;
use crate::run_outcome;

verus! {

/// Every transcript begins with the prompt and one space.
pub proof fn lemma_transcript_head(prompt: Seq<char>, error: Seq<char>, k: nat)
    ensures
        transcript(prompt, error, k).len() >= prompt.len() + 1,
        transcript(prompt, error, k).subrange(0, (prompt.len() + 1) as int) =~= prompt + space(),
{
    if k == 0 {
        assert(transcript(prompt, error, 0) =~= prompt + space());
    } else {
        lemma_rounds_prepend(prompt, error, (k - 1) as nat);
        assert(rounds(prompt, error, k) == round(prompt, error) + rounds(
            prompt,
            error,
            (k - 1) as nat,
        ));
    }
}

/// A run's outcome is determined: any two accounts of the same run — same
/// pipeline, messages and streams — agree on the failure count, the value,
/// the output written and the input consumed.  The run loop's contract names
/// its account existentially; this law says that account is unique.
pub proof fn lemma_run_outcome_unique<C: Convert>(
    convert: &C,
    prompt: Seq<char>,
    error: Seq<char>,
    inp: Seq<char>,
    out: Seq<char>,
    k1: nat,
    value1: <C::Target as DeepView>::V,
    out1: Seq<char>,
    inp1: Seq<char>,
    k2: nat,
    value2: <C::Target as DeepView>::V,
    out2: Seq<char>,
    inp2: Seq<char>,
)
    requires
        run_outcome(convert, prompt, error, inp, out, k1, value1, out1, inp1),
        run_outcome(convert, prompt, error, inp, out, k2, value2, out2, inp2),
    ensures
        k1 == k2,
        value1 == value2,
        out1 == out2,
        inp1 == inp2,
{
    if k1 < k2 {
        assert(convert.spec_convert(line_at(inp, k1)) is Error);
    }
    if k2 < k1 {
        assert(convert.spec_convert(line_at(inp, k2)) is Error);
    }
}

/// For the bare text prompt — no parse, transform or validate stage — a run
/// on a stream whose first line is non-empty succeeds at once: it returns
/// that line verbatim, and the output grew by exactly the prompt and one
/// space, with no error message.
pub proof fn lemma_prompt_returns_first_line(
    convert: &DefaultConvert<String>,
    prompt: Seq<char>,
    error: Seq<char>,
    inp: Seq<char>,
    out: Seq<char>,
    k: nat,
    value: Seq<char>,
    out_after: Seq<char>,
    inp_after: Seq<char>,
)
    requires
        line_at(inp, 0).len() > 0,
        run_outcome(convert, prompt, error, inp, out, k, value, out_after, inp_after),
    ensures
        k == 0,
        value == line_at(inp, 0),
        out_after == out + prompt + space(),
{
    assert(convert.spec_convert(line_at(inp, 0)) is Answer);
    if k > 0 {
        assert(convert.spec_convert(line_at(inp, 0)) is Error);
    }
    assert(out_after =~= out + prompt + space());
}

/// For the bare text prompt, a run on a stream whose first line is empty
/// writes the prompt, a space, the error message and a newline, and then
/// prompts again: at least one failed round stands at the head of what the
/// output grew by.
pub proof fn lemma_empty_line_reprompts(
    convert: &DefaultConvert<String>,
    prompt: Seq<char>,
    error: Seq<char>,
    inp: Seq<char>,
    out: Seq<char>,
    k: nat,
    value: Seq<char>,
    out_after: Seq<char>,
    inp_after: Seq<char>,
)
    requires
        line_at(inp, 0).len() == 0,
        run_outcome(convert, prompt, error, inp, out, k, value, out_after, inp_after),
    ensures
        k >= 1,
        out_after == out + round(prompt, error) + transcript(prompt, error, (k - 1) as nat),
        (out + round(prompt, error) + prompt + space()).is_prefix_of(out_after),
{
    assert(convert.spec_convert(line_at(inp, 0)) is Error);
    if k == 0 {
        assert(convert.spec_convert(line_at(inp, 0)) is Answer);
    }
    lemma_rounds_prepend(prompt, error, (k - 1) as nat);
    assert(out_after =~= out + round(prompt, error) + transcript(prompt, error, (k - 1) as nat));
    lemma_transcript_head(prompt, error, (k - 1) as nat);
    let head = out + round(prompt, error) + prompt + space();
    assert(head =~= (out + round(prompt, error)) + (prompt + space()));
    assert(out_after.subrange(0, head.len() as int) =~= head);
}

/// Chaining the identity transform changes nothing: the extended pipeline
/// converts every line exactly as the one it wraps.
pub proof fn lemma_transform_identity_unchanged<C: Convert>(convert: C, line: Seq<char>)
    ensures
        (TransformStage { inner: convert, f: IdentityTransform }).spec_convert(line)
            == convert.spec_convert(line),
{
}

/// A raw line equal to an exit sentinel yields the exit answer — the absent
/// value — whatever the wrapped pipeline would have made of the line, even
/// one it would have failed to parse.
pub proof fn lemma_exit_sentinel_precedes<'a, C: Convert>(
    stage: &ExitOnStage<'a, C>,
    line: Seq<char>,
)
    requires
        line == stage.sentinel@,
    ensures
        stage.spec_convert(line) == PromptResult::<Option<<C::Target as DeepView>::V>>::Answer(
            None,
        ),
{
}

} // verus!
