use vstd::prelude::*;

verus! {

/// A window (or window action) of the application that some user action opens.
#[derive(Debug, Clone, Copy, PartialEq, Eq, Structural)]
pub enum WindowCommand {
    /// Translate the text currently selected on screen.
    SelectionTranslate,
    /// Open the input translation window.
    InputTranslate,
    /// Take a screenshot and recognise its text.
    OcrRecognize,
    /// Take a screenshot and translate its text.
    OcrTranslate,
    /// Open the preferences window.
    Config,
    /// Open the updater window.
    Updater,
}

} // verus!
