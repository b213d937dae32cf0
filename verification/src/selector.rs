//! Choosing the method by which to authenticate.

use crate::model::AuthMethod;
use crate::text::{same_text, trim, trimmed};
use vstd::prelude::*;

verus! {

/// What the options say about the method.
#[derive(Clone, Copy, Debug, PartialEq, Eq, Structural)]
pub enum Selection {
    /// They settle it.
    Use(AuthMethod),
    /// They leave it open, and the user is asked.
    Ask,
}

/// The method that the options select. An explicit method wins; then the
/// wish to get or to check a device code, which only the device-code flow
/// serves; then a user name or a password. With a server URL and nothing
/// else the user is asked, and with nothing at all it is the device-code
/// flow.
pub open spec fn selected(
    explicit_method: Option<AuthMethod>,
    has_device_code_intent: bool,
    has_password_signals: bool,
    has_server_url: bool,
) -> Selection {
    match explicit_method {
        Some(method) => Selection::Use(method),
        None => if has_device_code_intent {
            Selection::Use(AuthMethod::Github)
        } else if has_password_signals {
            Selection::Use(AuthMethod::UsernameAndPassword)
        } else if has_server_url {
            Selection::Ask
        } else {
            Selection::Use(AuthMethod::Github)
        },
    }
}

/// Selects the method from what the options give.
pub fn select(
    explicit_method: Option<AuthMethod>,
    has_device_code_intent: bool,
    has_password_signals: bool,
    has_server_url: bool,
) -> (selection: Selection)
    ensures
        selection == selected(
            explicit_method,
            has_device_code_intent,
            has_password_signals,
            has_server_url,
        ),
{
    match explicit_method {
        Some(method) => Selection::Use(method),
        None => if has_device_code_intent {
            Selection::Use(AuthMethod::Github)
        } else if has_password_signals {
            Selection::Use(AuthMethod::UsernameAndPassword)
        } else if has_server_url {
            Selection::Ask
        } else {
            Selection::Use(AuthMethod::Github)
        },
    }
}

/// An explicit method is selected whatever else the options hold.
pub proof fn lemma_explicit_method_wins(
    method: AuthMethod,
    has_device_code_intent: bool,
    has_password_signals: bool,
    has_server_url: bool,
)
    ensures
        selected(Some(method), has_device_code_intent, has_password_signals, has_server_url)
            == Selection::Use(method),
{
}

/// The method that a choice names: `1` is the device-code flow, `2` the
/// user name and password, anything else no choice.
pub open spec fn choice_of(choice: Seq<char>) -> Option<AuthMethod> {
    if choice == "1"@ {
        Some(AuthMethod::Github)
    } else if choice == "2"@ {
        Some(AuthMethod::UsernameAndPassword)
    } else {
        None
    }
}

/// The method that `choice` names, if it names one.
pub fn auth_method_from_choice(choice: &str) -> (method: Option<AuthMethod>)
    ensures
        method == choice_of(choice@),
{
    if same_text(choice, "1") {
        Some(AuthMethod::Github)
    } else if same_text(choice, "2") {
        Some(AuthMethod::UsernameAndPassword)
    } else {
        None
    }
}

/// The method that the user's answer names once the white space around it
/// is taken off; `None` asks for the question to be put again.
pub fn auth_method_from_answer(answer: &str) -> (method: Option<AuthMethod>)
    ensures
        method == choice_of(trimmed(answer@)),
{
    auth_method_from_choice(trim(answer))
}

} // verus!
