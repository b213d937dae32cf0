//! Signing in with a user name and a password: what the identity service's
//! refusal says to the user.

use crate::json::{member_text, parse_object, parsed_members, text_of, Members};
use crate::text::joined;
use vstd::prelude::*;
use vstd::string::*;

verus! {

/// The error that the identity service describes in the body of a refusal.
#[derive(Clone, Debug, PartialEq, Eq)]
pub struct LoginHippoError {
    pub title: String,
    pub detail: String,
}

pub struct LoginHippoErrorView {
    pub title: Seq<char>,
    pub detail: Seq<char>,
}

impl View for LoginHippoError {
    type V = LoginHippoErrorView;

    open spec fn view(&self) -> LoginHippoErrorView {
        LoginHippoErrorView { title: self.title@, detail: self.detail@ }
    }
}

/// What stands before every message about a refused sign-in.
pub open spec fn banner() -> Seq<char> {
    "Problem logging into Hippo: "@
}

/// Whether `detail` ends in a colon and a space.
pub open spec fn ends_with_colon_space(detail: Seq<char>) -> bool {
    detail.len() >= 2 && detail[detail.len() - 2] == ':' && detail[detail.len() - 1] == ' '
}

/// `detail` with a colon and a space at its end turned into a full stop.
pub open spec fn tidy_detail(detail: Seq<char>) -> Seq<char> {
    if ends_with_colon_space(detail) {
        detail.subrange(0, detail.len() - 2).push('.')
    } else {
        detail
    }
}

/// The error that an object with these members describes: it needs a
/// `title` and a `detail`, both strings.
pub open spec fn described_error(members: Option<Members>) -> Option<LoginHippoErrorView> {
    match members {
        Some(members) => match (text_of(members, "title"@), text_of(members, "detail"@)) {
            (Some(title), Some(detail)) => Some(LoginHippoErrorView { title, detail }),
            _ => None,
        },
        None => None,
    }
}

/// The message for a refusal whose body is `raw` and describes `described`:
/// the banner, then the tidied detail, or the whole body where it describes
/// no error.
pub open spec fn login_error_text(raw: Seq<char>, described: Option<LoginHippoErrorView>) -> Seq<
    char,
> {
    match described {
        Some(error) => banner() + tidy_detail(error.detail),
        None => banner() + raw,
    }
}

/// The view of an error that may not be there.
pub open spec fn view_of(described: Option<LoginHippoError>) -> Option<LoginHippoErrorView> {
    match described {
        Some(error) => Some(error@),
        None => None,
    }
}

/// Reads the body of a refusal as the JSON object in which the identity
/// service describes an error.
pub fn parse_login_error(raw: &str) -> (described: Option<LoginHippoError>)
    ensures
        view_of(described) == described_error(parsed_members(raw@)),
{
    match parse_object(raw) {
        Ok(object) => {
            let title = member_text(&object, "title");
            let detail = member_text(&object, "detail");
            match (title, detail) {
                (Some(title), Some(detail)) => Some(LoginHippoError { title, detail }),
                _ => None,
            }
        },
        Err(_) => None,
    }
}

/// `detail` with a colon and a space at its end turned into a full stop.
pub fn tidy(detail: &str) -> (tidied: String)
    ensures
        tidied@ == tidy_detail(detail@),
{
    let length = detail.unicode_len();
    if length >= 2 && detail.get_char(length - 2) == ':' && detail.get_char(length - 1) == ' ' {
        let head = detail.substring_char(0, length - 2);
        proof {
            reveal_strlit(".");
            assert("."@ =~= seq!['.']);
            assert(head@ + "."@ =~= head@.push('.'));
        }
        joined(head, ".")
    } else {
        detail.to_owned()
    }
}

/// The message for a refusal whose body is `raw`, given the error that the
/// body describes.
pub fn login_error_message(raw: &str, described: Option<&LoginHippoError>) -> (message: String)
    ensures
        message@ == login_error_text(
            raw@,
            match described {
                Some(error) => Some(error@),
                None => None,
            },
        ),
{
    match described {
        Some(error) => {
            let detail = tidy(error.detail.as_str());
            joined("Problem logging into Hippo: ", detail.as_str())
        },
        None => joined("Problem logging into Hippo: ", raw),
    }
}

/// The message for a refusal of the identity service whose body is `raw`.
/// A body that is no JSON object with a `title` and a `detail` is shown as it
/// is.
pub fn format_login_error(raw: &str) -> (message: String)
    ensures
        message@ == login_error_text(raw@, described_error(parsed_members(raw@))),
{
    let described = parse_login_error(raw);
    login_error_message(raw, described.as_ref())
}

} // verus!
