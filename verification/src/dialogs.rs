//! The options that the dialogs of the widget library are opened with, as
//! plain data: a list of named values, in the order in which they are set.

use vstd::prelude::*;

verus! {

/// The value of one option.
#[derive(Debug, Clone, PartialEq)]
pub enum OptionValue {
    Text(String),
    Number(u32),
}

/// The mathematical content of an [`OptionValue`].
pub enum OptionValueView {
    Text(Seq<char>),
    Number(u32),
}

impl View for OptionValue {
    type V = OptionValueView;

    open spec fn view(&self) -> OptionValueView {
        match self {
            OptionValue::Text(text) => OptionValueView::Text(text@),
            OptionValue::Number(number) => OptionValueView::Number(*number),
        }
    }
}

/// One option: its name and its value.
#[derive(Debug, Clone, PartialEq)]
pub struct DialogOption {
    pub name: String,
    pub value: OptionValue,
}

impl View for DialogOption {
    type V = (Seq<char>, OptionValueView);

    open spec fn view(&self) -> (Seq<char>, OptionValueView) {
        (self.name@, self.value@)
    }
}

/// The content of each option of a list.
pub open spec fn option_views(options: Seq<DialogOption>) -> Seq<(Seq<char>, OptionValueView)> {
    options.map_values(|o: DialogOption| o@)
}

/// An option with a text for its value.
pub open spec fn text_option(name: Seq<char>, text: Seq<char>) -> (Seq<char>, OptionValueView) {
    (name, OptionValueView::Text(text))
}

/// The option `name` where a text is given for it, nothing where none is.
pub open spec fn optional_text(name: Seq<char>, text: Option<Seq<char>>) -> Seq<
    (Seq<char>, OptionValueView),
> {
    match text {
        Some(t) => seq![text_option(name, t)],
        None => seq![],
    }
}

/// The option `name` where a number is given for it, nothing where none is.
pub open spec fn optional_number(name: Seq<char>, number: Option<u32>) -> Seq<
    (Seq<char>, OptionValueView),
> {
    match number {
        Some(n) => seq![(name, OptionValueView::Number(n))],
        None => seq![],
    }
}

/// The characters of an optional string slice.
pub open spec fn slice_text(text: Option<&str>) -> Option<Seq<char>> {
    match text {
        Some(t) => Some(t@),
        None => None,
    }
}

/// The options of an alert: its headline and its description.
pub open spec fn alert_options(headline: Seq<char>, description: Seq<char>) -> Seq<
    (Seq<char>, OptionValueView),
> {
    seq![text_option("headline"@, headline), text_option("description"@, description)]
}

/// The options of a confirmation: its headline and its description, then
/// the texts of the confirm button and of the cancel button, each only
/// where it is given.
pub open spec fn confirm_options(
    headline: Seq<char>,
    description: Seq<char>,
    confirm_text: Option<Seq<char>>,
    cancel_text: Option<Seq<char>>,
) -> Seq<(Seq<char>, OptionValueView)> {
    alert_options(headline, description) + optional_text("confirmText"@, confirm_text)
        + optional_text("cancelText"@, cancel_text)
}

/// The options of a snackbar: its message, then its action and its timeout
/// in milliseconds, each only where it is given.
pub open spec fn snackbar_options(
    message: Seq<char>,
    action: Option<Seq<char>>,
    timeout: Option<u32>,
) -> Seq<(Seq<char>, OptionValueView)> {
    seq![text_option("message"@, message)] + optional_text("action"@, action) + optional_number(
        "timeout"@,
        timeout,
    )
}

fn text_entry(name: &str, value: &str) -> (r: DialogOption)
    ensures
        r@ == text_option(name@, value@),
{
    DialogOption { name: String::from_str(name), value: OptionValue::Text(String::from_str(value)) }
}

/// Makes the options of an alert.
pub fn create_alert_options(headline: &str, description: &str) -> (r: Vec<DialogOption>)
    ensures
        option_views(r@) == alert_options(headline@, description@),
{
    let mut options: Vec<DialogOption> = Vec::new();
    options.push(text_entry("headline", headline));
    options.push(text_entry("description", description));
    assert(option_views(options@) =~= alert_options(headline@, description@));
    options
}

/// Makes the options of a confirmation. A button keeps the text that the
/// widget library gives it where none is given here.
pub fn create_confirm_options(
    headline: &str,
    description: &str,
    confirm_text: Option<&str>,
    cancel_text: Option<&str>,
) -> (r: Vec<DialogOption>)
    ensures
        option_views(r@) == confirm_options(
            headline@,
            description@,
            slice_text(confirm_text),
            slice_text(cancel_text),
        ),
{
    let mut options: Vec<DialogOption> = Vec::new();
    options.push(text_entry("headline", headline));
    options.push(text_entry("description", description));

    if let Some(confirm) = confirm_text {
        options.push(text_entry("confirmText", confirm));
    }

    if let Some(cancel) = cancel_text {
        options.push(text_entry("cancelText", cancel));
    }

    assert(option_views(options@) =~= confirm_options(
        headline@,
        description@,
        slice_text(confirm_text),
        slice_text(cancel_text),
    ));
    options
}

/// Makes the options of a snackbar. Without an action the snackbar has no
/// button, and without a timeout it stays as long as the widget library
/// lets it.
pub fn create_snackbar_options(message: &str, action: Option<&str>, timeout: Option<u32>) -> (r:
    Vec<DialogOption>)
    ensures
        option_views(r@) == snackbar_options(message@, slice_text(action), timeout),
{
    let mut options: Vec<DialogOption> = Vec::new();
    options.push(text_entry("message", message));

    if let Some(action_text) = action {
        options.push(text_entry("action", action_text));
    }

    if let Some(timeout_ms) = timeout {
        options.push(
            DialogOption { name: String::from_str("timeout"), value: OptionValue::Number(timeout_ms) },
        );
    }

    assert(option_views(options@) =~= snackbar_options(message@, slice_text(action), timeout));
    options
}

} // verus!
