//! The font window: a label that shows a font description, and the two
//! handlers that let a dialog replace it.

use vstd::prelude::*;

verus! {

/// The two handlers that open a font dialog. They differ in how they wait
/// and in what they report, never in what the label shows.
#[derive(Clone, Copy, Debug, PartialEq, Eq, Structural)]
pub enum Handler {
    /// The handler hands the dialog a callback and returns.
    Callback,
    /// The handler starts a task that awaits the dialog.
    Future,
}

/// How a font dialog ended.
#[derive(Clone, Debug)]
pub enum DialogResult {
    /// The user confirmed a font; the field is its description in canonical
    /// string form.
    Chosen(String),
    /// The user closed the dialog without choosing.
    Cancelled,
    /// The dialog failed; the field is the toolkit's message.
    Failed(String),
}

/// What a font dialog is opened with.
#[derive(Clone, Debug)]
pub struct DialogRequest {
    /// The font description that the dialog starts from.
    pub seed: String,
    /// The handler that asked.
    pub handler: Handler,
}

/// The label's text once a dialog has ended with `result`, if it was `text`
/// before.
pub open spec fn shown_after(text: Seq<char>, result: DialogResult) -> Seq<char> {
    match result {
        DialogResult::Chosen(description) => description@,
        DialogResult::Cancelled => text,
        DialogResult::Failed(_) => text,
    }
}

/// The message to print once a dialog has ended with `result`: only a
/// failure is reported, and only by the handler that awaits.
pub open spec fn reported(handler: Handler, result: DialogResult) -> Option<Seq<char>> {
    match result {
        DialogResult::Failed(message) if handler == Handler::Future => Some(message@),
        _ => None,
    }
}

/// A dialog that the user cancels, and one that fails, leave the label as it
/// was, whichever handler opened it; a cancelled one prints nothing.
pub proof fn lemma_unconfirmed_keeps_font(text: Seq<char>, handler: Handler, message: String)
    ensures
        shown_after(text, DialogResult::Cancelled) == text,
        shown_after(text, DialogResult::Failed(message)) == text,
        reported(handler, DialogResult::Cancelled) is None,
{
}

/// A confirmed font is what the label shows next, whatever it showed before;
/// the handler that opened the dialog has no part in it and prints nothing.
pub proof fn lemma_confirmed_font_is_shown(text: Seq<char>, handler: Handler, description: String)
    ensures
        shown_after(text, DialogResult::Chosen(description)) == description@,
        reported(handler, DialogResult::Chosen(description)) is None,
{
}

/// The state of the font window: the text of its label.
pub struct FontWindow {
    label_font: String,
}

impl FontWindow {
    /// The text of the label.
    pub closed spec fn text(&self) -> Seq<char> {
        self.label_font@
    }

    /// A window whose label shows the font that the toolkit starts with.
    /// Without such a font there is no window.
    pub fn new(current_font: Option<String>) -> (window: Option<Self>)
        ensures
            current_font is None <==> window is None,
            current_font matches Some(font) ==> window.unwrap().text() == font@,
    {
        match current_font {
            Some(font) => Some(FontWindow { label_font: font }),
            None => None,
        }
    }

    /// The text that the label shows.
    pub fn label_font(&self) -> (text: &str)
        ensures
            text@ == self.text(),
    {
        self.label_font.as_str()
    }

    /// A click on one of the two buttons: the dialog to open starts from the
    /// font that the label shows.
    pub fn on_select_font(&self, handler: Handler) -> (request: DialogRequest)
        ensures
            request.seed@ == self.text(),
            request.handler == handler,
    {
        DialogRequest { seed: self.label_font.clone(), handler }
    }

    /// The end of a dialog: a confirmed font replaces the label's text, and
    /// anything else leaves it alone. Returns the message to print, if any.
    pub fn on_dialog_result(&mut self, handler: Handler, result: DialogResult) -> (report: Option<String>)
        ensures
            final(self).text() == shown_after(old(self).text(), result),
            report is Some <==> reported(handler, result) is Some,
            report matches Some(message) ==> reported(handler, result) == Some(message@),
    {
        match result {
            DialogResult::Chosen(description) => {
                self.label_font = description;
                None
            },
            DialogResult::Cancelled => None,
            DialogResult::Failed(message) => match handler {
                Handler::Future => Some(message),
                Handler::Callback => None,
            },
        }
    }
}

} // verus!
