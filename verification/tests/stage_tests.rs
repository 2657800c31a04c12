use prompt::ask;
use prompt::convert::{IdentityTransform, LenAtMost};
use prompt::io::{MemoryInput, MemoryOutput};
use prompt::number::U64Parser;
use prompt::result::PromptResult;

#[test]
fn transform_identity_changes_nothing() {
    let mut plain_input = MemoryInput::new("\nMy Value\n");
    let mut plain_output = MemoryOutput::new();
    let plain: String = ask("Value?").prompt_to(&mut plain_input, &mut plain_output);

    let mut chained_input = MemoryInput::new("\nMy Value\n");
    let mut chained_output = MemoryOutput::new();
    let chained: String = ask("Value?")
        .parse_as::<String>()
        .transform(IdentityTransform)
        .error_prompt_to("Please enter a value.", &mut chained_input, &mut chained_output);

    assert_eq!(plain, chained);
    assert_eq!(plain_output.as_string(), chained_output.as_string());
}

#[test]
fn parse_stage_maps_errors_to_retry() {
    let mut input = MemoryInput::new("abc\n42\n");
    let mut output = MemoryOutput::new();

    let value: u64 =
        ask("Number?").parse(U64Parser).error_prompt_to("Bad number", &mut input, &mut output);

    assert_eq!(output.as_string(), "Number? Bad number\nNumber? ");
    assert_eq!(value, 42);
}

#[test]
fn validate_stage_rejects_failing_values() {
    // four characters exceed the bound, exactly three meet it
    let mut input = MemoryInput::new("abcd\nabc\n");
    let mut output = MemoryOutput::new();

    let value: String = ask("Word?").validate(LenAtMost(3)).error_prompt_to(
        "Three letters at most",
        &mut input,
        &mut output,
    );

    assert_eq!(output.as_string(), "Word? Three letters at most\nWord? ");
    assert_eq!(value, "abc");
}

#[test]
fn default_on_yields_fallback_value() {
    let mut input = MemoryInput::new("d\n");
    let mut output = MemoryOutput::new();

    let value: u64 = ask("Number?").parse_as::<u64>().default_on("d").error_prompt_to(
        "Bad number",
        &mut input,
        &mut output,
    );

    assert_eq!(value, 0);
    assert_eq!(output.as_string(), "Number? ");
}

#[test]
fn default_on_passes_other_lines_through() {
    let mut input = MemoryInput::new("9\n");
    let mut output = MemoryOutput::new();

    let value: u64 = ask("Number?").parse_as::<u64>().default_on("d").error_prompt_to(
        "Bad number",
        &mut input,
        &mut output,
    );

    assert_eq!(value, 9);
}

#[test]
fn string_default_on_yields_empty_text() {
    let mut input = MemoryInput::new("none\n");
    let mut output = MemoryOutput::new();

    let value: String = ask("Name?").parse_as::<String>().default_on("none").error_prompt_to(
        "Please enter a value.",
        &mut input,
        &mut output,
    );

    assert_eq!(value, "");
}

#[test]
fn and_on_adds_second_sentinel() {
    let mut input = MemoryInput::new("q\n");
    let mut output = MemoryOutput::new();

    let value: Option<u64> = ask("Number?").parse_as::<u64>().exit_on("n").and_on("q")
        .error_prompt_to("Bad number", &mut input, &mut output);

    assert_eq!(output.as_string(), "Number? ");
    assert_eq!(value, None);
}

#[test]
fn and_on_keeps_first_sentinel() {
    let mut input = MemoryInput::new("n\n");
    let mut output = MemoryOutput::new();

    let value: Option<u64> = ask("Number?").parse_as::<u64>().exit_on("n").and_on("q")
        .error_prompt_to("Bad number", &mut input, &mut output);

    assert_eq!(value, None);
}

#[test]
fn and_then_applies_to_answer() {
    let r: PromptResult<u64> = PromptResult::Answer(2);
    let s = r.and_then(|v: u64| PromptResult::Answer(v + 1));
    assert!(matches!(s, PromptResult::Answer(3)));
}

#[test]
fn and_then_passes_error_through() {
    let r: PromptResult<u64> = PromptResult::Error;
    let s = r.and_then(|v: u64| PromptResult::Answer(v + 1));
    assert!(matches!(s, PromptResult::Error));
}

#[test]
fn and_then_passes_exit_through() {
    let r: PromptResult<u64> = PromptResult::Exit;
    let s = r.and_then(|v: u64| PromptResult::Answer(v + 1));
    assert!(matches!(s, PromptResult::Exit));
}

#[test]
fn result_conversion_collapses_errors() {
    let ok: PromptResult<u64> = PromptResult::from(Ok::<u64, ()>(7));
    assert!(matches!(ok, PromptResult::Answer(7)));
    let err: PromptResult<u64> = PromptResult::from(Err::<u64, ()>(()));
    assert!(matches!(err, PromptResult::Error));
}

#[test]
fn option_conversion_collapses_absence() {
    let some: PromptResult<u64> = PromptResult::from(Some(7));
    assert!(matches!(some, PromptResult::Answer(7)));
    let none: PromptResult<u64> = PromptResult::from(None::<u64>);
    assert!(matches!(none, PromptResult::Error));
}
