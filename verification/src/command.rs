//! The options of the login command and what they ask for.

use crate::error::{LoginError, LoginErrorView};
use crate::model::{
    copy_optional, AuthMethod, LoginConnection, LoginConnectionView, TokenInfo, TokenInfoView,
};
use crate::selector::{select, selected, Selection};
use vstd::prelude::*;

verus! {

/// The server that is signed in to where the options name none.
pub const DEFAULT_CLOUD_URL: &'static str = "http://localhost:5309";

/// Log into the server.
#[derive(Clone, Debug, PartialEq, Eq)]
pub struct LoginCommand {
    /// URL of the bindle server.
    pub bindle_server_url: Option<String>,
    /// Basic http auth username for the bindle server.
    pub bindle_username: Option<String>,
    /// Basic http auth password for the bindle server.
    pub bindle_password: Option<String>,
    /// Ignore server certificate errors.
    pub insecure: bool,
    /// URL of the server to sign in to.
    pub hippo_server_url: Option<String>,
    /// User name for the identity service.
    pub hippo_username: Option<String>,
    /// Password for the identity service.
    pub hippo_password: Option<String>,
    /// Display login status.
    pub status: bool,
    /// Fetch a device code.
    pub get_device_code: bool,
    /// Check a device code.
    pub check_device_code: Option<String>,
    /// Authentication method used for logging in.
    pub method: Option<AuthMethod>,
}

pub struct LoginCommandView {
    pub bindle_server_url: Option<Seq<char>>,
    pub bindle_username: Option<Seq<char>>,
    pub bindle_password: Option<Seq<char>>,
    pub insecure: bool,
    pub hippo_server_url: Option<Seq<char>>,
    pub hippo_username: Option<Seq<char>>,
    pub hippo_password: Option<Seq<char>>,
    pub status: bool,
    pub get_device_code: bool,
    pub check_device_code: Option<Seq<char>>,
    pub method: Option<AuthMethod>,
}

impl View for LoginCommand {
    type V = LoginCommandView;

    open spec fn view(&self) -> LoginCommandView {
        LoginCommandView {
            bindle_server_url: self.bindle_server_url.deep_view(),
            bindle_username: self.bindle_username.deep_view(),
            bindle_password: self.bindle_password.deep_view(),
            insecure: self.insecure,
            hippo_server_url: self.hippo_server_url.deep_view(),
            hippo_username: self.hippo_username.deep_view(),
            hippo_password: self.hippo_password.deep_view(),
            status: self.status,
            get_device_code: self.get_device_code,
            check_device_code: self.check_device_code.deep_view(),
            method: self.method,
        }
    }
}

/// What a run of the command is to do.
#[derive(Clone, Debug, PartialEq, Eq)]
pub enum Intent {
    /// Show the stored credential.
    Status,
    /// Fetch a device code and show it.
    GetDeviceCode,
    /// Check this device code once, and store the credential if it is ready.
    CheckDeviceCode(String),
    /// Sign in, asking the user where needed, and store the credential.
    Login,
}

pub enum IntentView {
    Status,
    GetDeviceCode,
    CheckDeviceCode(Seq<char>),
    Login,
}

impl View for Intent {
    type V = IntentView;

    open spec fn view(&self) -> IntentView {
        match self {
            Intent::Status => IntentView::Status,
            Intent::GetDeviceCode => IntentView::GetDeviceCode,
            Intent::CheckDeviceCode(code) => IntentView::CheckDeviceCode(code@),
            Intent::Login => IntentView::Login,
        }
    }
}

/// How a client reaches the server before it has signed in.
#[derive(Clone, Debug, PartialEq, Eq)]
pub struct ConnectionConfig {
    pub url: String,
    pub insecure: bool,
    pub token: String,
}

impl LoginCommandView {
    /// The server to sign in to.
    pub open spec fn url(self) -> Seq<char> {
        match self.hippo_server_url {
            Some(url) => url,
            None => DEFAULT_CLOUD_URL@,
        }
    }

    /// How many of the status, get-device-code and check-device-code options
    /// are given.
    pub open spec fn intents_given(self) -> nat {
        let status: nat = if self.status { 1 } else { 0 };
        let get: nat = if self.get_device_code { 1 } else { 0 };
        let check: nat = if self.check_device_code is Some { 1 } else { 0 };
        status + get + check
    }

    /// What the options ask for. More than one of the three options is an
    /// error; none of them asks for a login.
    pub open spec fn intent(self) -> Result<IntentView, LoginErrorView> {
        if self.intents_given() >= 2 {
            Err(LoginErrorView::InvalidArgumentCombination)
        } else if self.status {
            Ok(IntentView::Status)
        } else if self.get_device_code {
            Ok(IntentView::GetDeviceCode)
        } else {
            match self.check_device_code {
                Some(code) => Ok(IntentView::CheckDeviceCode(code)),
                None => Ok(IntentView::Login),
            }
        }
    }

    /// What the options say about the method of authentication.
    pub open spec fn auth_method(self) -> Selection {
        selected(
            self.method,
            self.get_device_code || self.check_device_code is Some,
            self.hippo_username is Some || self.hippo_password is Some,
            self.hippo_server_url is Some,
        )
    }

    /// The credential that a token of the authorization server makes: it
    /// holds nothing about the registry, and an empty string where the
    /// answer lacks a field.
    pub open spec fn connection_for_token(self, info: TokenInfoView) -> LoginConnectionView {
        LoginConnectionView {
            url: self.url(),
            bindle_url: None,
            bindle_username: None,
            bindle_password: None,
            danger_accept_invalid_certs: self.insecure,
            token: info.token_or_empty(),
            expiration: info.expiration_or_empty(),
        }
    }

    /// The credential that a token of the identity service makes: it holds
    /// what the options say about the registry.
    pub open spec fn connection_with_registry(self, info: TokenInfoView) -> LoginConnectionView {
        LoginConnectionView {
            url: self.url(),
            bindle_url: self.bindle_server_url,
            bindle_username: self.bindle_username,
            bindle_password: self.bindle_password,
            danger_accept_invalid_certs: self.insecure,
            token: info.token_or_empty(),
            expiration: info.expiration_or_empty(),
        }
    }
}

/// The string that `value` holds, or the empty string.
pub fn text_or_empty(value: Option<String>) -> (text: String)
    ensures
        text@ == match value {
            Some(held) => held@,
            None => Seq::<char>::empty(),
        },
{
    match value {
        Some(held) => held,
        None => String::new(),
    }
}

impl LoginCommand {
    /// The server to sign in to: the one that the options name, or the
    /// default.
    pub fn url(&self) -> (url: &str)
        ensures
            url@ == self@.url(),
    {
        match &self.hippo_server_url {
            Some(url) => url.as_str(),
            None => DEFAULT_CLOUD_URL,
        }
    }

    /// What the options ask for.
    pub fn intent(&self) -> (intent: Result<Intent, LoginError>)
        ensures
            match intent {
                Ok(intent) => self@.intent() == Ok::<IntentView, LoginErrorView>(intent@),
                Err(error) => self@.intent() == Err::<IntentView, LoginErrorView>(error@),
            },
    {
        match (self.status, self.get_device_code, &self.check_device_code) {
            (true, false, None) => Ok(Intent::Status),
            (false, true, None) => Ok(Intent::GetDeviceCode),
            (false, false, Some(code)) => Ok(Intent::CheckDeviceCode(code.clone())),
            (false, false, None) => Ok(Intent::Login),
            _ => Err(LoginError::InvalidArgumentCombination),
        }
    }

    /// What the options say about the method of authentication.
    pub fn auth_method(&self) -> (selection: Selection)
        ensures
            selection == self@.auth_method(),
    {
        select(
            self.method,
            self.get_device_code || self.check_device_code.is_some(),
            self.hippo_username.is_some() || self.hippo_password.is_some(),
            self.hippo_server_url.is_some(),
        )
    }

    /// How a client that has not signed in reaches the server.
    pub fn anon_connection_config(&self) -> (config: ConnectionConfig)
        ensures
            config.url@ == self@.url(),
            config.insecure == self.insecure,
            config.token@ == Seq::<char>::empty(),
    {
        ConnectionConfig { url: self.url().to_owned(), insecure: self.insecure, token: String::new() }
    }

    /// The credential that a token of the authorization server makes.
    pub fn login_connection_for_token(&self, token_info: TokenInfo) -> (connection: LoginConnection)
        ensures
            connection@ == self@.connection_for_token(token_info@),
    {
        LoginConnection {
            url: self.url().to_owned(),
            danger_accept_invalid_certs: self.insecure,
            token: text_or_empty(token_info.token),
            expiration: text_or_empty(token_info.expiration),
            bindle_url: None,
            bindle_username: None,
            bindle_password: None,
        }
    }

    /// The credential that a token of the identity service makes.
    pub fn login_connection_with_registry(&self, token_info: TokenInfo) -> (connection:
        LoginConnection)
        ensures
            connection@ == self@.connection_with_registry(token_info@),
    {
        LoginConnection {
            url: self.url().to_owned(),
            danger_accept_invalid_certs: self.insecure,
            token: text_or_empty(token_info.token),
            expiration: text_or_empty(token_info.expiration),
            bindle_url: copy_optional(&self.bindle_server_url),
            bindle_username: copy_optional(&self.bindle_username),
            bindle_password: copy_optional(&self.bindle_password),
        }
    }
}

} // verus!
