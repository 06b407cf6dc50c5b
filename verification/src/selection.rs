use vstd::prelude::*;

use vstd::utf8::{decode_utf8, valid_utf8};

use crate::text::{is_blank, lemma_trimmed_empty_iff_blank, lemma_trimmed_idempotent, trim, trimmed};

verus! {

/// Whether the session is a Wayland session: only on Linux, and there when
/// the `WAYLAND_DISPLAY` variable is set (to anything, the empty text too).
pub fn is_wayland_session(on_linux: bool, wayland_display_set: bool) -> (r: bool)
    ensures
        r == (on_linux && wayland_display_set),
{
    on_linux && wayland_display_set
}

/// Where the selected text can be read from.
#[derive(Debug, Clone, Copy, PartialEq, Eq, Structural)]
pub enum SelectionSource {
    /// The X11 selection, through the `selection` crate.
    X11,
    /// The Wayland PRIMARY selection (the text a mouse drag selected).
    WaylandPrimary,
    /// The Wayland clipboard (text copied with Ctrl+C).
    WaylandClipboard,
}

/// The next step in reading the selected text.
#[derive(Debug)]
pub enum SelectionStep {
    /// Read this source. A read of the X11 selection or of the Wayland
    /// clipboard is the answer as it comes back; the PRIMARY selection is
    /// handed back to `get_selected_text`.
    Read(SelectionSource),
    /// The selected text.
    Done(String),
}

/// The PRIMARY selection's text, where it is known.
pub open spec fn primary_view(primary: Option<String>) -> Option<Seq<char>> {
    match primary {
        Some(p) => Some(p@),
        None => None,
    }
}

/// The step that `get_selected_text` takes, over the PRIMARY selection's
/// text once it is known.
pub open spec fn selection_step_of(wayland: bool, primary: Option<Seq<char>>) -> SelectionStepView {
    if !wayland {
        SelectionStepView::Read(SelectionSource::X11)
    } else {
        match primary {
            None => SelectionStepView::Read(SelectionSource::WaylandPrimary),
            Some(p) => if is_blank(p) {
                SelectionStepView::Read(SelectionSource::WaylandClipboard)
            } else {
                SelectionStepView::Done(p)
            },
        }
    }
}

/// A `SelectionStep` with its text as a sequence of characters.
pub enum SelectionStepView {
    Read(SelectionSource),
    Done(Seq<char>),
}

impl View for SelectionStep {
    type V = SelectionStepView;

    open spec fn view(&self) -> SelectionStepView {
        match self {
            SelectionStep::Read(s) => SelectionStepView::Read(*s),
            SelectionStep::Done(t) => SelectionStepView::Done(t@),
        }
    }
}

/// The text currently selected by the mouse (or copied to the clipboard).
///
/// Outside Wayland the X11 selection is read. On Wayland the X11 based
/// reader cannot see the selection of native Wayland apps, so the PRIMARY
/// selection is read first (`primary` is `None` until it has been), and
/// when it holds only whitespace the clipboard is read instead.
pub fn get_selected_text(wayland: bool, primary: Option<String>) -> (r: SelectionStep)
    ensures
        r@ == selection_step_of(wayland, primary_view(primary)),
{
    if !wayland {
        return SelectionStep::Read(SelectionSource::X11);
    }
    match primary {
        None => SelectionStep::Read(SelectionSource::WaylandPrimary),
        Some(p) => {
            let t = trim(p.as_str());
            proof {
                lemma_trimmed_empty_iff_blank(p@);
            }
            if t.is_empty() {
                SelectionStep::Read(SelectionSource::WaylandClipboard)
            } else {
                SelectionStep::Done(p)
            }
        },
    }
}

/// The program and arguments that read a Wayland selection: `wl-paste`
/// without a trailing newline, from PRIMARY when `primary` is set, run under
/// `timeout -k 1 3`, because `wl-paste` grabs the keyboard focus with an
/// invisible surface and can hang (for example while an always-on-top window
/// is open).
pub open spec fn wayland_paste_command_of(primary: bool) -> Seq<Seq<char>> {
    let base = seq!["timeout"@, "-k"@, "1"@, "3"@, "wl-paste"@, "--no-newline"@];
    if primary {
        base.push("--primary"@)
    } else {
        base
    }
}

/// The command line (program first) that reads a Wayland selection.
pub fn wayland_paste_command(primary: bool) -> (r: Vec<&'static str>)
    ensures
        r@.map_values(|a: &'static str| a@) == wayland_paste_command_of(primary),
{
    let mut command = vec!["timeout", "-k", "1", "3", "wl-paste", "--no-newline"];
    if primary {
        command.push("--primary");
    }
    assert(command@.map_values(|a: &'static str| a@) =~= wayland_paste_command_of(primary));
    command
}

/// What `String::from_utf8_lossy` makes of `bytes`.
pub uninterp spec fn utf8_lossy(bytes: Seq<u8>) -> Seq<char>;

/// Calls `String::from_utf8_lossy` and takes the owned result. Its
/// documentation says that valid UTF-8 is decoded as it is and that invalid
/// sequences become U+FFFD; the contract states the first part and names
/// the result, leaving the replacement of invalid sequences unsaid.
#[verifier::external_body]
fn from_utf8_lossy(bytes: &[u8]) -> (r: String)
    ensures
        r@ == utf8_lossy(bytes@),
        valid_utf8(bytes@) ==> r@ == decode_utf8(bytes@),
{
    String::from_utf8_lossy(bytes).into_owned()
}

/// The selection text in the decoded output of `wl-paste`: the output
/// without leading and trailing whitespace.
pub fn selection_text(decoded: &str) -> (r: String)
    ensures
        r@ == trimmed(decoded@),
        trimmed(r@) == r@,
{
    proof {
        lemma_trimmed_idempotent(decoded@);
    }
    trim(decoded).to_owned()
}

/// The text of a Wayland selection, from what `wl-paste` wrote to standard
/// output (`None` when it could not be run): decoded leniently and trimmed;
/// the empty text when the program could not be run.
pub fn wayland_selection_text(stdout: Option<&[u8]>) -> (r: String)
    ensures
        r@ == match stdout {
            Some(bytes) => trimmed(utf8_lossy(bytes@)),
            None => Seq::<char>::empty(),
        },
        match stdout {
            Some(bytes) => valid_utf8(bytes@) ==> r@ == trimmed(decode_utf8(bytes@)),
            None => true,
        },
{
    match stdout {
        Some(bytes) => {
            let decoded = from_utf8_lossy(bytes);
            selection_text(decoded.as_str())
        },
        None => String::new(),
    }
}

/// Reading the selection on Wayland never ends with a blank text taken from
/// the PRIMARY selection: a PRIMARY text is kept exactly when it has a
/// character that is not whitespace, and then as it is.
pub proof fn law_primary_kept_iff_not_blank(p: Seq<char>)
    ensures
        (selection_step_of(true, Some(p)) == SelectionStepView::Done(p)) == !is_blank(p),
        selection_step_of(true, Some(p)) is Done || selection_step_of(true, Some(p))
            == SelectionStepView::Read(SelectionSource::WaylandClipboard),
{
}

/// Outside Wayland only the X11 selection is read, whatever was read before.
pub proof fn law_x11_outside_wayland(primary: Option<Seq<char>>)
    ensures
        selection_step_of(false, primary) == SelectionStepView::Read(SelectionSource::X11),
{
}

/// Reading PRIMARY runs the same command as reading the clipboard, with
/// `--primary` added at the end; both run `wl-paste --no-newline` under
/// `timeout -k 1 3`.
pub proof fn law_paste_commands(primary: bool)
    ensures
        wayland_paste_command_of(true) == wayland_paste_command_of(false).push("--primary"@),
        wayland_paste_command_of(primary).subrange(0, 4) == seq!["timeout"@, "-k"@, "1"@, "3"@],
        wayland_paste_command_of(primary)[4] == "wl-paste"@,
        wayland_paste_command_of(primary)[5] == "--no-newline"@,
        wayland_paste_command_of(primary).len() == if primary { 7int } else { 6int },
{
    assert(wayland_paste_command_of(primary).subrange(0, 4) =~= seq!["timeout"@, "-k"@, "1"@, "3"@]);
}

} // verus!
