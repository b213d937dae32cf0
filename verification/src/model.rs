//! The values that pass between the login command, the authorization server
//! and the credential file.

use crate::json::{
    members_of, new_object, optional_member, pretty_text, put_flag, put_optional_text, put_text,
    render_pretty, JsonItem, Members,
};
use vstd::prelude::*;

verus! {

/// The method by which to authenticate the login.
#[derive(Clone, Copy, Debug, PartialEq, Eq, Structural)]
pub enum AuthMethod {
    /// The device-code flow, completed in a browser.
    Github,
    /// A user name and a password, sent to the identity service.
    UsernameAndPassword,
}

/// A device code with what the user needs to authorize it.
#[derive(Clone, Debug, PartialEq, Eq)]
pub struct DeviceCodeItem {
    /// Names the request when polling; never stored.
    pub device_code: String,
    /// The one-time code that the user types in.
    pub user_code: String,
    /// Where the user types it in.
    pub verification_url: String,
}

pub struct DeviceCodeItemView {
    pub device_code: Seq<char>,
    pub user_code: Seq<char>,
    pub verification_url: Seq<char>,
}

impl View for DeviceCodeItem {
    type V = DeviceCodeItemView;

    open spec fn view(&self) -> DeviceCodeItemView {
        DeviceCodeItemView {
            device_code: self.device_code@,
            user_code: self.user_code@,
            verification_url: self.verification_url@,
        }
    }
}

impl DeviceCodeItemView {
    /// The members of the JSON object that shows the item, under the names
    /// that the authorization server uses.
    pub open spec fn members(self) -> Members {
        seq![
            ("deviceCode"@, JsonItem::Text(self.device_code)),
            ("userCode"@, JsonItem::Text(self.user_code)),
            ("verificationUrl"@, JsonItem::Text(self.verification_url)),
        ]
    }
}

/// What the authorization server answers when asked about a device code.
#[derive(Clone, Debug, PartialEq, Eq)]
pub struct TokenInfo {
    /// The bearer token, there once the device code has been authorized.
    pub token: Option<String>,
    /// When the token expires, as the server wrote it.
    pub expiration: Option<String>,
}

pub struct TokenInfoView {
    pub token: Option<Seq<char>>,
    pub expiration: Option<Seq<char>>,
}

impl View for TokenInfo {
    type V = TokenInfoView;

    open spec fn view(&self) -> TokenInfoView {
        TokenInfoView { token: self.token.deep_view(), expiration: self.expiration.deep_view() }
    }
}

impl TokenInfoView {
    /// The members of the JSON object that shows the answer: a field that is
    /// not there has no member.
    pub open spec fn members(self) -> Members {
        optional_member("token"@, self.token) + optional_member("expiration"@, self.expiration)
    }

    /// The token, or the empty string.
    pub open spec fn token_or_empty(self) -> Seq<char> {
        match self.token {
            Some(token) => token,
            None => Seq::empty(),
        }
    }

    /// The expiration, or the empty string.
    pub open spec fn expiration_or_empty(self) -> Seq<char> {
        match self.expiration {
            Some(expiration) => expiration,
            None => Seq::empty(),
        }
    }
}

/// Whether an answer of the authorization server carries a token.
#[derive(Clone, Debug, PartialEq, Eq)]
pub enum TokenReadiness {
    Ready(TokenInfo),
    Unready,
}

pub enum TokenReadinessView {
    Ready(TokenInfoView),
    Unready,
}

impl View for TokenReadiness {
    type V = TokenReadinessView;

    open spec fn view(&self) -> TokenReadinessView {
        match self {
            TokenReadiness::Ready(info) => TokenReadinessView::Ready(info@),
            TokenReadiness::Unready => TokenReadinessView::Unready,
        }
    }
}

/// An answer is ready exactly when it holds a token.
pub open spec fn readiness(info: TokenInfoView) -> TokenReadinessView {
    if info.token is Some {
        TokenReadinessView::Ready(info)
    } else {
        TokenReadinessView::Unready
    }
}

/// What one check of a device code amounts to: a check that failed counts as
/// an answer without a token.
pub open spec fn checked(reply: Result<TokenInfoView, Seq<char>>) -> TokenReadinessView {
    match reply {
        Ok(info) => readiness(info),
        Err(_) => TokenReadinessView::Unready,
    }
}

/// The stored credential.
#[derive(Clone, Debug, PartialEq, Eq)]
pub struct LoginConnection {
    pub url: String,
    pub bindle_url: Option<String>,
    pub bindle_username: Option<String>,
    pub bindle_password: Option<String>,
    pub danger_accept_invalid_certs: bool,
    pub token: String,
    pub expiration: String,
}

pub struct LoginConnectionView {
    pub url: Seq<char>,
    pub bindle_url: Option<Seq<char>>,
    pub bindle_username: Option<Seq<char>>,
    pub bindle_password: Option<Seq<char>>,
    pub danger_accept_invalid_certs: bool,
    pub token: Seq<char>,
    pub expiration: Seq<char>,
}

impl View for LoginConnection {
    type V = LoginConnectionView;

    open spec fn view(&self) -> LoginConnectionView {
        LoginConnectionView {
            url: self.url@,
            bindle_url: self.bindle_url.deep_view(),
            bindle_username: self.bindle_username.deep_view(),
            bindle_password: self.bindle_password.deep_view(),
            danger_accept_invalid_certs: self.danger_accept_invalid_certs,
            token: self.token@,
            expiration: self.expiration@,
        }
    }
}

impl LoginConnectionView {
    /// The members of the stored JSON object, in the order in which they are
    /// written. A registry field that is not there has no member.
    pub open spec fn members(self) -> Members {
        seq![("url"@, JsonItem::Text(self.url))] + optional_member("bindle_url"@, self.bindle_url)
            + optional_member("bindle_username"@, self.bindle_username) + optional_member(
            "bindle_password"@,
            self.bindle_password,
        ) + seq![
            ("danger_accept_invalid_certs"@, JsonItem::Flag(self.danger_accept_invalid_certs)),
            ("token"@, JsonItem::Text(self.token)),
            ("expiration"@, JsonItem::Text(self.expiration)),
        ]
    }
}

/// A copy of an optional string.
pub fn copy_optional(value: &Option<String>) -> (copy: Option<String>)
    ensures
        copy.deep_view() == value.deep_view(),
{
    match value {
        Some(text) => Some(text.clone()),
        None => None,
    }
}

impl TokenReadiness {
    /// Classifies an answer of the authorization server.
    pub fn of(info: TokenInfo) -> (readiness: TokenReadiness)
        ensures
            readiness@ == self::readiness(info@),
    {
        if info.token.is_some() {
            TokenReadiness::Ready(info)
        } else {
            TokenReadiness::Unready
        }
    }
}

/// Classifies the outcome of one check of a device code. An error of the
/// transport or of the parser is not passed on: it counts as `Unready`.
pub fn check_once(reply: Result<TokenInfo, String>) -> (readiness: TokenReadiness)
    ensures
        readiness@ == checked(
            match reply {
                Ok(info) => Ok(info@),
                Err(text) => Err(text@),
            },
        ),
{
    match reply {
        Ok(info) => TokenReadiness::of(info),
        Err(_) => TokenReadiness::Unready,
    }
}

impl TokenInfo {
    /// The answer as pretty-printed JSON, `None` where the printer fails.
    pub fn to_pretty_json(&self) -> (text: Option<String>)
        ensures
            text.deep_view() == pretty_text(self@.members()),
    {
        let mut object = new_object();
        put_optional_text(&mut object, "token", &self.token);
        proof {
            reveal_strlit("token");
            reveal_strlit("expiration");
            assert("token"@.len() == 5);
            assert("expiration"@.len() == 10);
        }
        put_optional_text(&mut object, "expiration", &self.expiration);
        assert(members_of(object) =~= self@.members());
        match render_pretty(&object) {
            Ok(text) => Some(text),
            Err(_) => None,
        }
    }
}

/// The names under which a credential is stored differ from one another.
proof fn lemma_connection_names()
    ensures
        "url"@.len() == 3,
        "bindle_url"@.len() == 10,
        "bindle_username"@.len() == 15,
        "bindle_username"@[7] == 'u',
        "bindle_password"@.len() == 15,
        "bindle_password"@[7] == 'p',
        "danger_accept_invalid_certs"@.len() == 27,
        "token"@.len() == 5,
        "expiration"@.len() == 10,
        "expiration"@[0] == 'e',
        "bindle_url"@[0] == 'b',
{
    reveal_strlit("url");
    reveal_strlit("bindle_url");
    reveal_strlit("bindle_username");
    reveal_strlit("bindle_password");
    reveal_strlit("danger_accept_invalid_certs");
    reveal_strlit("token");
    reveal_strlit("expiration");
}

/// The names under which a device code is shown differ from one another.
proof fn lemma_device_code_names()
    ensures
        "deviceCode"@.len() == 10,
        "userCode"@.len() == 8,
        "verificationUrl"@.len() == 15,
{
    reveal_strlit("deviceCode");
    reveal_strlit("userCode");
    reveal_strlit("verificationUrl");
}

impl LoginConnection {
    /// The credential as the pretty-printed JSON that is stored, `None` where
    /// the printer fails.
    pub fn to_pretty_json(&self) -> (text: Option<String>)
        ensures
            text.deep_view() == pretty_text(self@.members()),
    {
        proof {
            lemma_connection_names();
        }
        let mut object = new_object();
        put_text(&mut object, "url", self.url.as_str());
        put_optional_text(&mut object, "bindle_url", &self.bindle_url);
        put_optional_text(&mut object, "bindle_username", &self.bindle_username);
        put_optional_text(&mut object, "bindle_password", &self.bindle_password);
        put_flag(&mut object, "danger_accept_invalid_certs", self.danger_accept_invalid_certs);
        put_text(&mut object, "token", self.token.as_str());
        put_text(&mut object, "expiration", self.expiration.as_str());
        assert(members_of(object) =~= self@.members());
        match render_pretty(&object) {
            Ok(text) => Some(text),
            Err(_) => None,
        }
    }
}

impl DeviceCodeItem {
    /// The item as pretty-printed JSON, `None` where the printer fails.
    pub fn to_pretty_json(&self) -> (text: Option<String>)
        ensures
            text.deep_view() == pretty_text(self@.members()),
    {
        proof {
            lemma_device_code_names();
        }
        let mut object = new_object();
        put_text(&mut object, "deviceCode", self.device_code.as_str());
        put_text(&mut object, "userCode", self.user_code.as_str());
        put_text(&mut object, "verificationUrl", self.verification_url.as_str());
        assert(members_of(object) =~= self@.members());
        match render_pretty(&object) {
            Ok(text) => Some(text),
            Err(_) => None,
        }
    }
}

} // verus!
