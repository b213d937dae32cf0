//! Where the credential is kept: one file under the user's configuration
//! directory.

use crate::error::{LoginError, LoginErrorView};
use crate::text::joined3;
use vstd::prelude::*;

verus! {

/// The directory under the user's configuration directory that holds the
/// credential file.
pub const CONFIG_DIRECTORY: &'static str = "spin";

/// The name of the credential file.
pub const CONFIG_FILE: &'static str = "config.json";

/// What stands at the path of the configuration root.
#[derive(Clone, Copy, Debug, PartialEq, Eq, Structural)]
pub enum RootStatus {
    /// Nothing.
    Missing,
    /// A directory.
    Directory,
    /// Something that is no directory.
    NotDirectory,
}

/// What to do about the configuration root before it is used.
#[derive(Clone, Copy, Debug, PartialEq, Eq, Structural)]
pub enum RootAction {
    /// Create it, with the directories above it.
    Create,
    /// Use it as it is.
    Use,
}

/// The message about a configuration root that is no directory.
pub open spec fn not_a_directory_message(root: Seq<char>) -> Seq<char> {
    "Configuration root `"@ + root + "` already exists and is not a directory"@
}

/// The message about a configuration root that cannot be created.
pub open spec fn cannot_create_message(root: Seq<char>) -> Seq<char> {
    "Failed to create configuration root directory `"@ + root + "`"@
}

/// What `ensure` decides for a root shown as `root` with `status` at its
/// path.
pub open spec fn ensured(root: Seq<char>, status: RootStatus) -> Result<RootAction, LoginErrorView> {
    match status {
        RootStatus::Missing => Ok(RootAction::Create),
        RootStatus::Directory => Ok(RootAction::Use),
        RootStatus::NotDirectory => Err(
            LoginErrorView::Configuration(not_a_directory_message(root)),
        ),
    }
}

/// Decides how to make sure that the configuration root is there: a missing
/// root is created, a directory is used, anything else is an error.
pub fn ensure(root: &str, status: RootStatus) -> (decision: Result<RootAction, LoginError>)
    ensures
        match decision {
            Ok(action) => ensured(root@, status) == Ok::<RootAction, LoginErrorView>(action),
            Err(error) => ensured(root@, status) == Err::<RootAction, LoginErrorView>(error@),
        },
{
    match status {
        RootStatus::Missing => Ok(RootAction::Create),
        RootStatus::Directory => Ok(RootAction::Use),
        RootStatus::NotDirectory => Err(
            LoginError::Configuration(
                joined3("Configuration root `", root, "` already exists and is not a directory"),
            ),
        ),
    }
}

/// The error about a configuration root that cannot be created.
pub fn cannot_create(root: &str) -> (error: LoginError)
    ensures
        error@ == LoginErrorView::Configuration(cannot_create_message(root@)),
{
    LoginError::Configuration(
        joined3("Failed to create configuration root directory `", root, "`"),
    )
}

} // verus!
