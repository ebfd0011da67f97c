//! The two kinds of failure that a caller of the registry can meet.
use crate::token::{parse_error_message, ParseError, ParseErrorView};
use vstd::prelude::*;
use vstd::string::StringExecFns;

verus! {

/// The platform's registration facility refused the new hotkey, for example
/// because another process holds it. The view is the facility's reason.
#[derive(Debug, PartialEq, Eq)]
pub struct RegistrationError {
    reason: String,
}

impl View for RegistrationError {
    type V = Seq<char>;

    closed spec fn view(&self) -> Seq<char> {
        self.reason@
    }
}

/// The message of a registration error: a fixed lead, then the reason.
pub open spec fn registration_error_message(reason: Seq<char>) -> Seq<char> {
    "快捷键格式无效或已被占用: "@ + reason
}

impl RegistrationError {
    /// A registration error with the facility's reason.
    pub fn new(reason: String) -> (error: RegistrationError)
        ensures
            error@ == reason@,
    {
        RegistrationError { reason }
    }

    /// The facility's reason.
    pub fn reason(&self) -> (text: &str)
        ensures
            text@ == self@,
    {
        self.reason.as_str()
    }

    /// The error as one descriptive message.
    pub fn message(&self) -> (text: String)
        ensures
            text@ == registration_error_message(self@),
    {
        let mut text = String::from_str("快捷键格式无效或已被占用: ");
        text.append(self.reason.as_str());
        text
    }
}

/// Why a request for a new shortcut failed.
#[derive(Debug, PartialEq, Eq)]
pub enum ShortcutError {
    /// The accelerator names no hotkey.
    Parse(ParseError),
    /// The facility refused to register the hotkey.
    Registration(RegistrationError),
}

/// A `ShortcutError` as plain characters.
pub enum ShortcutErrorView {
    Parse(ParseErrorView),
    Registration(Seq<char>),
}

impl View for ShortcutError {
    type V = ShortcutErrorView;

    open spec fn view(&self) -> ShortcutErrorView {
        match self {
            ShortcutError::Parse(error) => ShortcutErrorView::Parse(error@),
            ShortcutError::Registration(error) => ShortcutErrorView::Registration(error@),
        }
    }
}

/// The message of either kind of error.
pub open spec fn shortcut_error_message(error: ShortcutErrorView) -> Seq<char> {
    match error {
        ShortcutErrorView::Parse(error) => parse_error_message(error),
        ShortcutErrorView::Registration(reason) => registration_error_message(reason),
    }
}

impl ShortcutError {
    /// The error as the one descriptive message that a caller is shown.
    pub fn message(&self) -> (text: String)
        ensures
            text@ == shortcut_error_message(self@),
    {
        match self {
            ShortcutError::Parse(error) => error.message(),
            ShortcutError::Registration(error) => error.message(),
        }
    }
}

} // verus!
