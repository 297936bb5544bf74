//! What the user has configured.

use crate::views::opt_view;
use vstd::prelude::*;

verus! {

/// The user's configuration: the name to log in under, if one is set.
#[derive(Debug, PartialEq, Eq)]
pub struct UserConfig {
    username: Option<String>,
}

impl View for UserConfig {
    type V = Option<Seq<char>>;

    closed spec fn view(&self) -> Option<Seq<char>> {
        opt_view(self.username)
    }
}

impl Clone for UserConfig {
    fn clone(&self) -> (out: Self)
        ensures
            out@ == self@,
    {
        UserConfig { username: self.username.clone() }
    }
}

impl Default for UserConfig {
    fn default() -> (out: UserConfig)
        ensures
            out@ is None,
    {
        UserConfig { username: None }
    }
}

/// The name under which a user with this configuration logs in: the name
/// that is set, or the empty name.
pub open spec fn name_of(config: Option<Seq<char>>) -> Seq<char> {
    match config {
        Some(name) => name,
        None => Seq::empty(),
    }
}

impl UserConfig {
    /// A configuration with the given name.
    pub fn new(username: Option<String>) -> (out: UserConfig)
        ensures
            out@ == opt_view(username),
    {
        UserConfig { username }
    }

    /// The name that is set, if one is.
    pub fn username(&self) -> (out: &Option<String>)
        ensures
            opt_view(*out) == self@,
    {
        &self.username
    }

    /// The name to log in under; empty where none is set.
    pub fn get_username(&self) -> (out: String)
        ensures
            out@ == name_of(self@),
    {
        match &self.username {
            Some(name) => name.clone(),
            None => String::new(),
        }
    }
}

} // verus!
