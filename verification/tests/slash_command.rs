use zed_jake::slash_command::{JakeExtension, SlashCommand};

fn command(name: &str) -> SlashCommand {
    SlashCommand { name: name.to_string() }
}

fn args(values: &[&str]) -> Vec<String> {
    values.iter().map(|v| v.to_string()).collect()
}

#[test]
fn run_with_recipe() {
    let handler = JakeExtension::new();
    let out = handler.run_slash_command(command("jake"), args(&["build"])).unwrap();
    assert_eq!(out.text, "jake build");
    assert_eq!(out.sections.len(), 1);
    assert_eq!(out.sections[0].range_start, 0);
    assert_eq!(out.sections[0].range_end, 10);
    assert_eq!(out.sections[0].label, "Run: jake build");
}

#[test]
fn run_without_recipe() {
    let handler = JakeExtension::new();
    let err = handler.run_slash_command(command("jake"), args(&[])).unwrap_err();
    assert!(err.contains("Please specify a recipe name"));
    assert_eq!(err, "Please specify a recipe name");
}

#[test]
fn run_unknown_command() {
    let handler = JakeExtension::new();
    let err = handler.run_slash_command(command("other"), args(&["x"])).unwrap_err();
    assert!(err.contains("other"));
    assert_eq!(err, "Unknown command: other");
}

#[test]
fn run_unknown_command_without_arguments() {
    let handler = JakeExtension::new();
    let err = handler.run_slash_command(command("make"), args(&[])).unwrap_err();
    assert_eq!(err, "Unknown command: make");
}

#[test]
fn run_ignores_extra_arguments() {
    let handler = JakeExtension::new();
    let out = handler
        .run_slash_command(command("jake"), args(&["deploy", "extra", "args"]))
        .unwrap();
    assert_eq!(out.text, "jake deploy");
    assert_eq!(out.sections.len(), 1);
    assert_eq!(out.sections[0].range_start, 0);
    assert_eq!(out.sections[0].range_end, out.text.len());
    assert_eq!(out.sections[0].label, "Run: jake deploy");
}

#[test]
fn run_section_spans_bytes_of_non_ascii_recipe() {
    let handler = JakeExtension::new();
    let out = handler.run_slash_command(command("jake"), args(&["caf\u{e9}"])).unwrap();
    assert_eq!(out.text, "jake caf\u{e9}");
    // "café" holds four characters but five bytes.
    assert_eq!(out.text.len(), 10);
    assert_eq!(out.sections.len(), 1);
    assert_eq!(out.sections[0].range_start, 0);
    assert_eq!(out.sections[0].range_end, 10);
    assert_eq!(out.sections[0].label, "Run: jake caf\u{e9}");
}

#[test]
fn run_twice_yields_identical_output() {
    let handler = JakeExtension::new();
    let first = handler.run_slash_command(command("jake"), args(&["test"])).unwrap();
    let second = handler.run_slash_command(command("jake"), args(&["test"])).unwrap();
    assert_eq!(first.text, second.text);
    assert_eq!(first.sections.len(), second.sections.len());
    assert_eq!(first.sections[0].range_start, second.sections[0].range_start);
    assert_eq!(first.sections[0].range_end, second.sections[0].range_end);
    assert_eq!(first.sections[0].label, second.sections[0].label);
}

#[test]
fn complete_returns_no_suggestions() {
    let handler = JakeExtension::new();
    let completions = handler
        .complete_slash_command_argument(command("jake"), args(&[]))
        .unwrap();
    assert!(completions.is_empty());
}

#[test]
fn complete_returns_no_suggestions_for_any_command() {
    let handler = JakeExtension::new();
    let completions = handler
        .complete_slash_command_argument(command("other"), args(&["partial"]))
        .unwrap();
    assert!(completions.is_empty());
}
