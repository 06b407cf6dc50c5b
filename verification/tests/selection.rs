use saladict::selection::{
    get_selected_text, is_wayland_session, selection_text, wayland_paste_command, wayland_selection_text,
    SelectionSource, SelectionStep,
};

fn read_of(step: SelectionStep) -> Option<SelectionSource> {
    match step {
        SelectionStep::Read(s) => Some(s),
        SelectionStep::Done(_) => None,
    }
}

#[test]
fn wayland_only_on_linux_with_display() {
    assert!(is_wayland_session(true, true));
    assert!(!is_wayland_session(true, false));
    assert!(!is_wayland_session(false, true));
    assert!(!is_wayland_session(false, false));
}

#[test]
fn x11_selection_outside_wayland() {
    assert_eq!(read_of(get_selected_text(false, None)), Some(SelectionSource::X11));
    assert_eq!(read_of(get_selected_text(false, Some("text".to_string()))), Some(SelectionSource::X11));
}

#[test]
fn wayland_reads_primary_first() {
    assert_eq!(read_of(get_selected_text(true, None)), Some(SelectionSource::WaylandPrimary));
}

#[test]
fn wayland_keeps_non_blank_primary_as_is() {
    match get_selected_text(true, Some("  hello ".to_string())) {
        SelectionStep::Done(t) => assert_eq!(t, "  hello "),
        SelectionStep::Read(_) => panic!("expected the primary selection"),
    }
}

#[test]
fn wayland_blank_primary_falls_back_to_clipboard() {
    assert_eq!(read_of(get_selected_text(true, Some(String::new()))), Some(SelectionSource::WaylandClipboard));
    assert_eq!(
        read_of(get_selected_text(true, Some(" \t\n\u{3000}\u{a0}".to_string()))),
        Some(SelectionSource::WaylandClipboard)
    );
}

#[test]
fn paste_command_for_primary_and_clipboard() {
    assert_eq!(wayland_paste_command(false), vec!["timeout", "-k", "1", "3", "wl-paste", "--no-newline"]);
    assert_eq!(
        wayland_paste_command(true),
        vec!["timeout", "-k", "1", "3", "wl-paste", "--no-newline", "--primary"]
    );
}

#[test]
fn selection_output_is_trimmed() {
    assert_eq!(wayland_selection_text(Some(b"  some text \n")), "some text");
    assert_eq!(wayland_selection_text(Some("\u{3000}你好\n".as_bytes())), "你好");
    assert_eq!(wayland_selection_text(Some(b"")), "");
}

#[test]
fn selection_output_invalid_utf8_is_replaced() {
    assert_eq!(wayland_selection_text(Some(&[b'a', 0xff, b'b'])), "a\u{fffd}b");
}

#[test]
fn selection_output_missing_is_empty() {
    assert_eq!(wayland_selection_text(None), "");
}

#[test]
fn decoded_selection_is_trimmed() {
    assert_eq!(selection_text(" \t text with  inner  spaces \r\n"), "text with  inner  spaces");
    assert_eq!(selection_text("\u{2003}\u{a0}"), "");
    assert_eq!(selection_text("x"), "x");
}

#[test]
fn trimming_twice_is_trimming_once() {
    let once = selection_text("  \u{3000}text\n ");
    assert_eq!(once, "text");
    assert_eq!(selection_text(&once), once);
}
