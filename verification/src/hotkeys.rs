//! The global recording hotkey: checking a shortcut before it is saved and
//! the message shown when it cannot be registered.  Shortcuts are parsed by
//! the `global-hotkey` crate; registering one with the operating system
//! happens in the app.
use vstd::prelude::*;

use global_hotkey::hotkey::HotKey;

use crate::errors::prefixed;
use crate::models::{HotkeyActivityEvent, HotkeyActivityState, HotkeyMode};
use crate::text::str_eq;
use crate::text::{trim, trim_spec};

verus! {

/// What `validate_shortcut` answers, given the parser's verdict on the
/// trimmed shortcut (`Ok(has modifiers)` or the parse error).
pub open spec fn shortcut_check(shortcut: Seq<char>, parsed: Result<bool, Seq<char>>) -> Result<
    Seq<char>,
    Seq<char>,
> {
    if trim_spec(shortcut).len() == 0 {
        Err("Enter a hotkey before saving the recording shortcut."@)
    } else {
        match parsed {
            Err(e) => Err("Enter a valid hotkey like CmdOrCtrl+Shift+T. "@ + e),
            Ok(has_modifiers) => if !has_modifiers {
                Err(
                    "Choose a hotkey with at least one modifier key so it does not trigger accidentally."@,
                )
            } else {
                Ok(trim_spec(shortcut))
            },
        }
    }
}

/// View of a parser verdict.
pub open spec fn parsed_view(p: Result<bool, String>) -> Result<bool, Seq<char>> {
    match p {
        Ok(b) => Ok(b),
        Err(e) => Err(e@),
    }
}

/// View of a checked shortcut or its error.
pub open spec fn checked_view(r: Result<String, String>) -> Result<Seq<char>, Seq<char>> {
    match r {
        Ok(s) => Ok(s@),
        Err(e) => Err(e@),
    }
}

/// Name for what `global_hotkey`'s `HotKey::from_str` makes of `text`:
/// whether the parsed hotkey has any modifier, or the parse error's message.
/// (Which modifier bit `CmdOrCtrl` sets depends on the platform; that one is
/// set, and the errors, do not.)
pub uninterp spec fn hotkey_verdict(text: Seq<char>) -> Result<bool, Seq<char>>;

/// Parses `text` with `global_hotkey`'s `HotKey::from_str` (the parser behind
/// the global-shortcut plugin's `Shortcut`) and gives the bits of the parsed
/// modifiers, or the parse error's message.  Stated: the bits are non-zero
/// exactly when [`hotkey_verdict`] says a modifier is set, and a text
/// without `+` is a single key, whose modifiers are empty (`parse_hotkey`
/// only collects modifiers when the text splits into several tokens).
#[verifier::external_body]
fn parse_hotkey_modifiers(text: &str) -> (r: Result<u32, String>)
    ensures
        match r {
            Ok(bits) => hotkey_verdict(text@) == Ok::<bool, Seq<char>>(bits != 0),
            Err(e) => hotkey_verdict(text@) == Err::<bool, Seq<char>>(e@),
        },
        !text@.contains('+') ==> (r matches Ok(bits) ==> bits == 0),
{
    match text.parse::<HotKey>() {
        Ok(hotkey) => Ok(hotkey.mods.bits()),
        Err(error) => Err(error.to_string()),
    }
}

/// The shortcut parser's verdict on `text`: whether it has a modifier key,
/// or the parse error.  A single key (no `+`) never has one.
pub fn shortcut_verdict(text: &str) -> (r: Result<bool, String>)
    ensures
        parsed_view(r) == hotkey_verdict(text@),
        !text@.contains('+') ==> (r matches Ok(has_modifiers) ==> !has_modifiers),
{
    match parse_hotkey_modifiers(text) {
        Ok(bits) => Ok(bits != 0),
        Err(e) => Err(e),
    }
}

/// The shortcut to store: trimmed, non-blank, accepted by the shortcut
/// parser and with a modifier key.  What comes back is what
/// [`check_shortcut`] answers for the parser's verdict on the trimmed text;
/// a blank shortcut and a single key are always refused.
pub fn validate_shortcut(shortcut: &str) -> (r: Result<String, String>)
    ensures
        checked_view(r) == shortcut_check(shortcut@, hotkey_verdict(trim_spec(shortcut@))),
        trim_spec(shortcut@).len() == 0 ==> checked_view(r) == Err::<Seq<char>, Seq<char>>(
            "Enter a hotkey before saving the recording shortcut."@,
        ),
        !trim_spec(shortcut@).contains('+') ==> r is Err,
{
    let normalized = trim(shortcut);
    if normalized.as_str().unicode_len() == 0 {
        let r = check_shortcut(shortcut, Ok(false));
        proof {
            assert(shortcut_check(shortcut@, parsed_view(Ok(false))) == checked_view(r));
        }
        return r;
    }
    let verdict = shortcut_verdict(normalized.as_str());
    let r = check_shortcut(shortcut, verdict);
    proof {
        assert(shortcut_check(shortcut@, parsed_view(verdict)) == checked_view(r));
    }
    r
}

/// The shortcut to store: trimmed, non-blank, parsed by the shortcut parser
/// (whose verdict on the trimmed text is `parsed`) and with a modifier key.
pub fn check_shortcut(shortcut: &str, parsed: Result<bool, String>) -> (r: Result<String, String>)
    ensures
        r matches Ok(s) ==> shortcut_check(shortcut@, parsed_view(parsed)) == Ok::<
            Seq<char>,
            Seq<char>,
        >(s@),
        r matches Err(e) ==> shortcut_check(shortcut@, parsed_view(parsed)) == Err::<
            Seq<char>,
            Seq<char>,
        >(e@),
{
    let normalized = trim(shortcut);
    if normalized.as_str().unicode_len() == 0 {
        return Err("Enter a hotkey before saving the recording shortcut.".to_owned());
    }
    match parsed {
        Err(e) => Err(prefixed("Enter a valid hotkey like CmdOrCtrl+Shift+T. ", e.as_str())),
        Ok(has_modifiers) => {
            if !has_modifiers {
                Err(
                    "Choose a hotkey with at least one modifier key so it does not trigger accidentally.".to_owned(),
                )
            } else {
                Ok(normalized)
            }
        },
    }
}

/// The message shown when the operating system refuses a hotkey.
pub fn format_registration_error(shortcut: &str, error: String) -> (r: String)
    ensures
        r@ == "The hotkey \""@ + shortcut@
            + "\" could not be registered globally. Another app may already be using it. Choose a different shortcut and save again. "@
            + error@,
{
    let mut r = prefixed("The hotkey \"", shortcut);
    r.append(
        "\" could not be registered globally. Another app may already be using it. Choose a different shortcut and save again. ",
    );
    r.append(error.as_str());
    r
}

/// The message shown when a new hotkey cannot replace the old one.
pub fn format_replace_error(shortcut: &str, error: &str) -> (r: String)
    ensures
        r@ == "Transcribe Kit could not replace the existing hotkey with \""@ + shortcut@ + "\": "@
            + error@,
{
    let mut r = prefixed("Transcribe Kit could not replace the existing hotkey with \"", shortcut);
    r.append("\": ");
    r.append(error);
    r
}

/// The message for an error from a registration attempt.
pub open spec fn registration_error_message(shortcut: Seq<char>, error: Seq<char>) -> Seq<char> {
    "The hotkey \""@ + shortcut
        + "\" could not be registered globally. Another app may already be using it. Choose a different shortcut and save again. "@
        + error
}

/// The message for a failed replacement of the previous hotkey.
pub open spec fn replace_error_message(shortcut: Seq<char>, error: Seq<char>) -> Seq<char> {
    "Transcribe Kit could not replace the existing hotkey with \""@ + shortcut + "\": "@ + error
}

/// The message when the saved hotkey settings cannot be read.
pub open spec fn load_error_message(error: Seq<char>) -> Seq<char> {
    "Transcribe Kit could not load the saved hotkey settings: "@ + error
}

/// The registered hotkey, its mode, and the last registration problem.
#[derive(Debug, Clone)]
pub struct HotkeyManagerState {
    pub shortcut: Option<String>,
    pub mode: HotkeyMode,
    pub last_error: Option<String>,
}

/// What applying a hotkey needs next.
#[derive(Debug, Clone, PartialEq, Eq)]
pub enum HotkeyApplyStep {
    /// The shortcut is already registered; only the mode changed.
    Unchanged(String),
    /// Register `shortcut` with the system, then drop `previous` (if any).
    Register { shortcut: String, previous: Option<String> },
}

/// Whether a window request for attention goes with a hotkey event.
#[derive(Debug, Clone, Copy, PartialEq, Eq, Structural)]
pub enum AttentionRequest {
    /// Leave the window alone.
    Nothing,
    /// Clear any pending request (the window is focused).
    Clear,
    /// Ask for attention with the informational level.
    Informational,
}

impl HotkeyManagerState {
    /// No hotkey registered yet, push-to-talk mode, no error.
    pub fn new() -> (r: Self)
        ensures
            r.shortcut is None,
            r.mode == HotkeyMode::PushToTalk,
            r.last_error is None,
    {
        HotkeyManagerState { shortcut: None, mode: HotkeyMode::PushToTalk, last_error: None }
    }

    /// The last registration problem.
    pub fn registration_error(&self) -> (r: Option<String>)
        ensures
            r == self.last_error,
    {
        match &self.last_error {
            Some(e) => Some(e.clone()),
            None => None,
        }
    }

    /// Starts applying a hotkey: checks it (with the parser's verdict
    /// `parsed` on the trimmed text); the same shortcut as registered only
    /// takes the new mode and clears the error; another one must be
    /// registered.
    pub fn begin_apply(&mut self, shortcut: &str, mode: HotkeyMode, parsed: Result<bool, String>) -> (r:
        Result<HotkeyApplyStep, String>)
        ensures
            shortcut_check(shortcut@, parsed_view(parsed)) matches Err(e) ==> (r matches Err(m)
                && m@ == e && *final(self) == *old(self)),
            shortcut_check(shortcut@, parsed_view(parsed)) matches Ok(n) ==> (old(
                self,
            ).shortcut matches Some(p) && p@ == n ==> (r matches Ok(HotkeyApplyStep::Unchanged(u))
                && u@ == n && final(self).shortcut == old(self).shortcut && final(self).mode == mode
                && final(self).last_error is None)),
            shortcut_check(shortcut@, parsed_view(parsed)) matches Ok(n) ==> (!(old(
                self,
            ).shortcut matches Some(p) && p@ == n) ==> (r matches Ok(
                HotkeyApplyStep::Register { shortcut: s, previous },
            ) && s@ == n && previous == old(self).shortcut && *final(self) == *old(self))),
    {
        let normalized = match check_shortcut(shortcut, parsed) {
            Ok(n) => n,
            Err(e) => {
                return Err(e);
            },
        };
        let same = match &self.shortcut {
            Some(p) => str_eq(p.as_str(), normalized.as_str()),
            None => false,
        };
        if same {
            self.mode = mode;
            self.last_error = None;
            Ok(HotkeyApplyStep::Unchanged(normalized))
        } else {
            let previous = match &self.shortcut {
                Some(p) => Some(p.clone()),
                None => None,
            };
            Ok(HotkeyApplyStep::Register { shortcut: normalized, previous })
        }
    }

    /// The system refused the new shortcut: the error is kept and returned.
    pub fn registration_failed(&mut self, shortcut: &str, error: String) -> (r: String)
        ensures
            r@ == registration_error_message(shortcut@, error@),
            final(self).last_error == Some(r),
            final(self).shortcut == old(self).shortcut,
            final(self).mode == old(self).mode,
    {
        let message = format_registration_error(shortcut, error);
        self.last_error = Some(message.clone());
        message
    }

    /// The previous shortcut could not be released (the new one was
    /// released again): the error is kept and returned.
    pub fn replace_failed(&mut self, shortcut: &str, error: &str) -> (r: String)
        ensures
            r@ == replace_error_message(shortcut@, error@),
            final(self).last_error == Some(r),
            final(self).shortcut == old(self).shortcut,
            final(self).mode == old(self).mode,
    {
        let message = format_replace_error(shortcut, error);
        self.last_error = Some(message.clone());
        message
    }

    /// The new shortcut is registered and the previous one released.
    pub fn registered(&mut self, shortcut: String, mode: HotkeyMode)
        ensures
            final(self).shortcut == Some(shortcut),
            final(self).mode == mode,
            final(self).last_error is None,
    {
        self.shortcut = Some(shortcut);
        self.mode = mode;
        self.last_error = None;
    }

    /// The saved settings could not be read at start-up.
    pub fn settings_load_failed(&mut self, error: &str)
        ensures
            final(self).last_error matches Some(m) && m@ == load_error_message(error@),
            final(self).shortcut == old(self).shortcut,
            final(self).mode == old(self).mode,
    {
        self.last_error = Some(prefixed("Transcribe Kit could not load the saved hotkey settings: ", error));
    }

    /// The event sent to the UI for a hotkey press or release, given whether
    /// the main window is focused (`None` when that is unknown or there is
    /// no window), and the attention request that goes with it.
    pub fn hotkey_event(&self, shortcut: String, state: HotkeyActivityState, focused: Option<bool>) -> (r:
        (HotkeyActivityEvent, AttentionRequest))
        ensures
            r.0.shortcut == shortcut,
            r.0.mode == self.mode,
            r.0.state == state,
            r.0.triggered_while_background == (focused == Some(false)),
            r.1 == (match focused {
                Some(true) => AttentionRequest::Clear,
                Some(false) => if state == HotkeyActivityState::Pressed {
                    AttentionRequest::Informational
                } else {
                    AttentionRequest::Nothing
                },
                None => AttentionRequest::Nothing,
            }),
    {
        let (background, attention) = match focused {
            Some(true) => (false, AttentionRequest::Clear),
            Some(false) => (
                true,
                match state {
                    HotkeyActivityState::Pressed => AttentionRequest::Informational,
                    HotkeyActivityState::Released => AttentionRequest::Nothing,
                },
            ),
            None => (false, AttentionRequest::Nothing),
        };
        (
            HotkeyActivityEvent {
                shortcut,
                mode: self.mode,
                state,
                triggered_while_background: background,
            },
            attention,
        )
    }
}

} // verus!
