use prompt::ask;
use prompt::io::{MemoryInput, MemoryOutput};

#[test]
fn ask_for_string() {
    let mut input = MemoryInput::new("My Value\n");
    let mut output = MemoryOutput::new();

    let value: String = ask("Value?").prompt_to(&mut input, &mut output);

    assert_eq!(output.as_string(), "Value? ");
    assert_eq!(value, "My Value");
}

#[test]
fn ask_for_string_with_error_prompt_does_not_accept_empty() {
    let mut input = MemoryInput::new("\nMy Value\n");
    let mut output = MemoryOutput::new();

    let value: String =
        ask("Value?").error_prompt_to("Please enter a value.", &mut input, &mut output);

    assert_eq!(value, "My Value");
    assert_eq!(output.as_string(), "Value? Please enter a value.\nValue? ");
}

#[test]
fn ask_repeats_error_prompt() {
    let mut input = MemoryInput::new("\n\nMy Value\n");
    let mut output = MemoryOutput::new();

    let value: String = ask("Value?").prompt_to(&mut input, &mut output);

    assert_eq!(
        output.as_string(),
        "Value? Please enter a value.\nValue? Please enter a value.\nValue? "
    );
    assert_eq!(value, "My Value");
}

#[test]
fn exit_on_exits() {
    let mut input = MemoryInput::new("n\n");
    let mut output = MemoryOutput::new();

    let value: Option<u64> = ask("Number, n to exit?")
        .parse_as::<u64>()
        .exit_on("n")
        .error_prompt_to("Please enter a number", &mut input, &mut output);

    assert_eq!(output.as_string(), "Number, n to exit? ");
    assert_eq!(value, None);
}

#[test]
fn exit_sentinel_beats_failed_parse() {
    // "n" is no number, yet the exit sentinel accepts it without an error round
    let mut input = MemoryInput::new("x\nn\n");
    let mut output = MemoryOutput::new();

    let value: Option<u64> = ask("Number?")
        .parse_as::<u64>()
        .exit_on("n")
        .error_prompt_to("Please enter a number", &mut input, &mut output);

    assert_eq!(output.as_string(), "Number? Please enter a number\nNumber? ");
    assert_eq!(value, None);
}

#[test]
fn exit_wrapped_value_arrives_in_some() {
    let mut input = MemoryInput::new("5\n");
    let mut output = MemoryOutput::new();

    let value: Option<u64> = ask("Number?")
        .parse_as::<u64>()
        .exit_on("n")
        .error_prompt_to("Please enter a number", &mut input, &mut output);

    assert_eq!(value, Some(5));
}

#[test]
fn prompt_for_number_uses_default_error() {
    let mut input = MemoryInput::new("abc\n17\n");
    let mut output = MemoryOutput::new();

    let value: u64 = ask("Number?").prompt_to(&mut input, &mut output);

    assert_eq!(
        output.as_string(),
        "Number? Please enter a non-negative number.\nNumber? "
    );
    assert_eq!(value, 17);
}

#[test]
fn number_with_plus_sign_is_accepted() {
    let mut input = MemoryInput::new("+42\n");
    let mut output = MemoryOutput::new();

    let value: u64 = ask("Number?").prompt_to(&mut input, &mut output);

    assert_eq!(value, 42);
}

#[test]
fn number_too_large_for_u64_is_rejected() {
    let mut input = MemoryInput::new("99999999999999999999\n18446744073709551615\n");
    let mut output = MemoryOutput::new();

    let value: u64 = ask("Number?").prompt_to(&mut input, &mut output);

    assert_eq!(
        output.as_string(),
        "Number? Please enter a non-negative number.\nNumber? "
    );
    assert_eq!(value, 18446744073709551615);
}

#[test]
fn optional_text_accepts_empty_line() {
    let mut input = MemoryInput::new("\n");
    let mut output = MemoryOutput::new();

    let value: Option<String> = ask("Anything?").prompt_to(&mut input, &mut output);

    assert_eq!(output.as_string(), "Anything? ");
    assert_eq!(value, Some(String::new()));
}

#[test]
fn optional_text_accepts_exhausted_stream() {
    // end of stream reads as an empty line, which optional text accepts
    let mut input = MemoryInput::new("");
    let mut output = MemoryOutput::new();

    let value: Option<String> = ask("Anything?").prompt_to(&mut input, &mut output);

    assert_eq!(output.as_string(), "Anything? ");
    assert_eq!(value, Some(String::new()));
}

#[test]
fn carriage_return_is_stripped_before_newline() {
    let mut input = MemoryInput::new("hi\r\n");
    let mut output = MemoryOutput::new();

    let value: String = ask("Word?").prompt_to(&mut input, &mut output);

    assert_eq!(value, "hi");
}

#[test]
fn last_line_without_newline_is_delivered_whole() {
    let mut input = MemoryInput::new("My Value");
    let mut output = MemoryOutput::new();

    let value: String = ask("Value?").prompt_to(&mut input, &mut output);

    assert_eq!(value, "My Value");
    assert_eq!(output.as_string(), "Value? ");
}
