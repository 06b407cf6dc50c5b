use saladict::cli::{cli_window, parse_from, CliAction};
use saladict::window::WindowCommand;

fn args(list: &[&str]) -> Vec<String> {
    list.iter().map(|s| s.to_string()).collect()
}

#[test]
fn long_flags_select_their_action() {
    assert_eq!(parse_from(&args(&["saladict", "--selection-translate"])), CliAction::SelectionTranslate);
    assert_eq!(parse_from(&args(&["saladict", "--input-translate"])), CliAction::InputTranslate);
    assert_eq!(parse_from(&args(&["saladict", "--ocr-recognize"])), CliAction::OcrRecognize);
    assert_eq!(parse_from(&args(&["saladict", "--ocr-translate"])), CliAction::OcrTranslate);
    assert_eq!(parse_from(&args(&["saladict", "--config"])), CliAction::Config);
}

#[test]
fn short_flags_select_their_action() {
    assert_eq!(parse_from(&args(&["saladict", "-s"])), CliAction::SelectionTranslate);
    assert_eq!(parse_from(&args(&["saladict", "-i"])), CliAction::InputTranslate);
    assert_eq!(parse_from(&args(&["saladict", "-r"])), CliAction::OcrRecognize);
    assert_eq!(parse_from(&args(&["saladict", "-t"])), CliAction::OcrTranslate);
    assert_eq!(parse_from(&args(&["saladict", "-c"])), CliAction::Config);
}

#[test]
fn no_flag_opens_input_translate() {
    assert_eq!(parse_from(&args(&[])), CliAction::InputTranslate);
    assert_eq!(parse_from(&args(&["saladict"])), CliAction::InputTranslate);
    assert_eq!(parse_from(&args(&["saladict", "--help", "-x", "selection-translate"])), CliAction::InputTranslate);
    assert_eq!(cli_window(parse_from(&args(&["saladict"]))), Some(WindowCommand::InputTranslate));
}

#[test]
fn flags_must_match_exactly() {
    assert_eq!(parse_from(&args(&["saladict", "--selection-translate=1"])), CliAction::InputTranslate);
    assert_eq!(parse_from(&args(&["saladict", "-S"])), CliAction::InputTranslate);
    assert_eq!(parse_from(&args(&["saladict", " -s"])), CliAction::InputTranslate);
}

#[test]
fn earlier_flag_in_priority_wins() {
    assert_eq!(parse_from(&args(&["saladict", "-c", "-t", "-s"])), CliAction::SelectionTranslate);
    assert_eq!(parse_from(&args(&["saladict", "--config", "--ocr-recognize"])), CliAction::OcrRecognize);
    assert_eq!(parse_from(&args(&["saladict", "-t", "-i"])), CliAction::InputTranslate);
}

#[test]
fn argument_order_does_not_matter() {
    let a = parse_from(&args(&["saladict", "-c", "-r", "x"]));
    let b = parse_from(&args(&["x", "-r", "saladict", "-c", "-r"]));
    assert_eq!(a, b);
    assert_eq!(a, CliAction::OcrRecognize);
}

#[test]
fn extra_arguments_never_lower_priority() {
    let before = parse_from(&args(&["saladict", "-t"]));
    let after = parse_from(&args(&["saladict", "-t", "--input-translate"]));
    assert_eq!(before, CliAction::OcrTranslate);
    assert_eq!(after, CliAction::InputTranslate);
    let same = parse_from(&args(&["saladict", "-t", "--config"]));
    assert_eq!(same, CliAction::OcrTranslate);
}

#[test]
fn each_action_opens_its_window() {
    assert_eq!(cli_window(CliAction::SelectionTranslate), Some(WindowCommand::SelectionTranslate));
    assert_eq!(cli_window(CliAction::InputTranslate), Some(WindowCommand::InputTranslate));
    assert_eq!(cli_window(CliAction::OcrRecognize), Some(WindowCommand::OcrRecognize));
    assert_eq!(cli_window(CliAction::OcrTranslate), Some(WindowCommand::OcrTranslate));
    assert_eq!(cli_window(CliAction::Config), Some(WindowCommand::Config));
    assert_eq!(cli_window(CliAction::NoAction), None);
}
