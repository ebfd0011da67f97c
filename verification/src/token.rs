//! From an accelerator string to a platform hotkey token.
//!
//! The canonical text is this library's own work (see `accelerator`). Whether
//! that text names a hotkey is for the platform's constructor to say. A token
//! is a canonical text that the constructor has accepted; the registration
//! facility takes the text and makes the same hotkey of it.
use crate::accelerator::{canonical_form, canonicalize};
use global_hotkey::hotkey::HotKey;
use vstd::prelude::*;
use vstd::string::StringExecFns;

verus! {

/// What the platform's constructor holds against a canonical text: `None`
/// where it makes a hotkey of it, and where it refuses, the reason in its own
/// words.
pub uninterp spec fn platform_rejection(canonical: Seq<char>) -> Option<Seq<char>>;

/// Hands `canonical` to the platform's constructor, `HotKey::try_from`, which
/// splits it at `+`, reads modifiers and one key, and gives a `HotKey` or a
/// `HotKeyParseError`. The contract claims that the constructor accepts and
/// refuses by the text alone, and that the error returned here is the
/// constructor's error in its `Display` form. The hotkey itself is let go.
#[verifier::external_body]
fn platform_verdict(canonical: &str) -> (verdict: Result<(), String>)
    ensures
        platform_rejection(canonical@) == match verdict {
            Ok(_) => None::<Seq<char>>,
            Err(reason) => Some(reason@),
        },
{
    match HotKey::try_from(canonical) {
        Ok(_) => Ok(()),
        Err(error) => Err(error.to_string()),
    }
}

/// A platform hotkey token: a canonical text that the platform's constructor
/// accepts. The view is that text.
#[derive(Debug, PartialEq, Eq)]
pub struct ShortcutToken {
    canonical: String,
}

impl View for ShortcutToken {
    type V = Seq<char>;

    closed spec fn view(&self) -> Seq<char> {
        self.canonical@
    }
}

impl ShortcutToken {
    /// The canonical text of the token, to hand to the platform's
    /// registration facility.
    pub fn canonical(&self) -> (text: &str)
        ensures
            text@ == self@,
    {
        self.canonical.as_str()
    }
}

/// Why an accelerator names no hotkey: the canonical text that was tried,
/// and the reason that the platform gave.
#[derive(Debug, PartialEq, Eq)]
pub struct ParseError {
    canonical: String,
    reason: String,
}

/// A `ParseError` as plain characters.
pub struct ParseErrorView {
    pub canonical: Seq<char>,
    pub reason: Seq<char>,
}

impl View for ParseError {
    type V = ParseErrorView;

    closed spec fn view(&self) -> ParseErrorView {
        ParseErrorView { canonical: self.canonical@, reason: self.reason@ }
    }
}

/// The message of a parse error: the canonical text in quotes, then the
/// platform's reason.
pub open spec fn parse_error_message(error: ParseErrorView) -> Seq<char> {
    "无效的快捷键 '"@ + error.canonical + "': "@ + error.reason
}

impl ParseError {
    /// The canonical text that the platform refused.
    pub fn canonical(&self) -> (text: &str)
        ensures
            text@ == self@.canonical,
    {
        self.canonical.as_str()
    }

    /// The platform's reason for refusing it.
    pub fn reason(&self) -> (text: &str)
        ensures
            text@ == self@.reason,
    {
        self.reason.as_str()
    }

    /// The error as one descriptive message.
    pub fn message(&self) -> (text: String)
        ensures
            text@ == parse_error_message(self@),
    {
        let mut text = String::from_str("无效的快捷键 '");
        text.append(self.canonical.as_str());
        text.append("': ");
        text.append(self.reason.as_str());
        text
    }
}

/// What parsing `raw` gives, over characters: the canonical text where the
/// platform accepts it, else the canonical text with the platform's reason.
pub open spec fn parse_model(raw: Seq<char>) -> Result<Seq<char>, ParseErrorView> {
    let canonical = canonical_form(raw);
    match platform_rejection(canonical) {
        None => Ok(canonical),
        Some(reason) => Err(ParseErrorView { canonical, reason }),
    }
}

/// The outcome of a parse as plain characters.
pub open spec fn parsed_view(parsed: Result<ShortcutToken, ParseError>) -> Result<
    Seq<char>,
    ParseErrorView,
> {
    match parsed {
        Ok(token) => Ok(token@),
        Err(error) => Err(error@),
    }
}

/// Makes the result of a parse from the canonical text and the platform's
/// verdict on it: the token of that text, or the error that holds the text
/// and the platform's reason.
pub fn token_from_verdict(canonical: String, verdict: Result<(), String>) -> (parsed: Result<
    ShortcutToken,
    ParseError,
>)
    ensures
        match verdict {
            Ok(_) => parsed matches Ok(token) && token@ == canonical@,
            Err(reason) => parsed matches Err(error) && error@ == (ParseErrorView {
                canonical: canonical@,
                reason: reason@,
            }),
        },
{
    match verdict {
        Ok(_) => Ok(ShortcutToken { canonical }),
        Err(reason) => Err(ParseError { canonical, reason }),
    }
}

/// Parses an accelerator: brings it into canonical form and has the platform
/// make a hotkey of that. The result is `Ok` exactly where the platform
/// accepts the canonical text.
pub fn parse(raw: &str) -> (parsed: Result<ShortcutToken, ParseError>)
    ensures
        parsed_view(parsed) == parse_model(raw@),
{
    let canonical = canonicalize(raw);
    let verdict = platform_verdict(canonical.as_str());
    token_from_verdict(canonical, verdict)
}

} // verus!
