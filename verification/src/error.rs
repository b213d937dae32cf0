//! The ways in which a login fails.

use vstd::prelude::*;
use vstd::string::*;

verus! {

/// Why a login ended without a stored credential.
#[derive(Clone, Debug, PartialEq, Eq)]
pub enum LoginError {
    /// More than one of the status, get-device-code and check-device-code
    /// options was given.
    InvalidArgumentCombination,
    /// The configuration directory cannot be found or created, or is no
    /// directory. Holds the message.
    Configuration(String),
    /// The request for a device code failed. Holds what the client said.
    Boundary(String),
    /// The device code was not authorized in time.
    Timeout,
    /// The identity service refused the user name and password. Holds the
    /// message for the user.
    IdentityService(String),
    /// The credential file cannot be read or written. Holds the message.
    Io(String),
}

pub enum LoginErrorView {
    InvalidArgumentCombination,
    Configuration(Seq<char>),
    Boundary(Seq<char>),
    Timeout,
    IdentityService(Seq<char>),
    Io(Seq<char>),
}

impl View for LoginError {
    type V = LoginErrorView;

    open spec fn view(&self) -> LoginErrorView {
        match self {
            LoginError::InvalidArgumentCombination => LoginErrorView::InvalidArgumentCombination,
            LoginError::Configuration(text) => LoginErrorView::Configuration(text@),
            LoginError::Boundary(text) => LoginErrorView::Boundary(text@),
            LoginError::Timeout => LoginErrorView::Timeout,
            LoginError::IdentityService(text) => LoginErrorView::IdentityService(text@),
            LoginError::Io(text) => LoginErrorView::Io(text@),
        }
    }
}

impl LoginErrorView {
    /// What the user is told.
    pub open spec fn message(self) -> Seq<char> {
        match self {
            LoginErrorView::InvalidArgumentCombination => "Invalid combination of options"@,
            LoginErrorView::Configuration(text) => text,
            LoginErrorView::Boundary(text) => text,
            LoginErrorView::Timeout =>
                "Timed out waiting to authorize the device. Please execute `spin login` again and authorize the device with GitHub."@,
            LoginErrorView::IdentityService(text) => text,
            LoginErrorView::Io(text) => text,
        }
    }
}

impl LoginError {
    /// What the user is told.
    pub fn message(&self) -> (text: String)
        ensures
            text@ == self@.message(),
    {
        match self {
            LoginError::InvalidArgumentCombination => String::from_str(
                "Invalid combination of options",
            ),
            LoginError::Configuration(text) => text.clone(),
            LoginError::Boundary(text) => text.clone(),
            LoginError::Timeout => String::from_str(
                "Timed out waiting to authorize the device. Please execute `spin login` again and authorize the device with GitHub.",
            ),
            LoginError::IdentityService(text) => text.clone(),
            LoginError::Io(text) => text.clone(),
        }
    }

    /// A copy of the error.
    pub fn duplicate(&self) -> (copy: LoginError)
        ensures
            copy@ == self@,
    {
        match self {
            LoginError::InvalidArgumentCombination => LoginError::InvalidArgumentCombination,
            LoginError::Configuration(text) => LoginError::Configuration(text.clone()),
            LoginError::Boundary(text) => LoginError::Boundary(text.clone()),
            LoginError::Timeout => LoginError::Timeout,
            LoginError::IdentityService(text) => LoginError::IdentityService(text.clone()),
            LoginError::Io(text) => LoginError::Io(text.clone()),
        }
    }
}

} // verus!
