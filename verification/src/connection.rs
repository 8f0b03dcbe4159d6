//! Where to connect and with what credential.
//!
//! The address and the token of a source come from two variables of the
//! environment, whose names depend on the kind of source. Reading them is the
//! caller's work; this module says which to read and refuses values that are
//! blank.

use vstd::prelude::*;

verus! {

/// The names of the two variables that describe a source.
#[derive(Clone, Copy, Debug, PartialEq, Eq)]
pub struct SourceVariables {
    /// The variable that holds the address.
    pub url: &'static str,
    /// The variable that holds the token.
    pub token: &'static str,
}

/// The address or the token of a source is blank.
#[derive(Clone, Copy, Debug, PartialEq, Eq)]
pub struct EmptyConnectionInfo {
    /// The variables that were read.
    pub variables: SourceVariables,
}

/// The text that `str::trim` returns for a text.
pub uninterp spec fn trimmed(text: Seq<char>) -> Seq<char>;

/// A text is blank when nothing is left of it after trimming.
pub open spec fn blank(text: Seq<char>) -> bool {
    trimmed(text).len() == 0
}

/// The name of the variable with the address of a source.
pub open spec fn url_variable(laser: bool) -> Seq<char> {
    if laser {
        "LASERSTREAM_URL"@
    } else {
        "YELLOWSTONE_GRPC_URL"@
    }
}

/// The name of the variable with the token of a source.
pub open spec fn token_variable(laser: bool) -> Seq<char> {
    if laser {
        "LASERSTREAM_TOKEN"@
    } else {
        "YELLOWSTONE_GRPC_TOKEN"@
    }
}

/// `str::trim`: the text without its leading and trailing whitespace. The
/// contract gives the result a name and claims nothing else of it.
#[verifier::external_body]
fn trim(text: &str) -> (res: &str)
    ensures
        res@ == trimmed(text@),
{
    text.trim()
}

/// The variables to read for a laserstream source (`laser`) or for a
/// yellowstone geyser source.
pub fn source_variables(laser: bool) -> (variables: SourceVariables)
    ensures
        variables.url@ == url_variable(laser),
        variables.token@ == token_variable(laser),
{
    if laser {
        SourceVariables { url: "LASERSTREAM_URL", token: "LASERSTREAM_TOKEN" }
    } else {
        SourceVariables { url: "YELLOWSTONE_GRPC_URL", token: "YELLOWSTONE_GRPC_TOKEN" }
    }
}

/// Whether one of two texts, both already trimmed, is empty.
pub fn either_empty(url: &str, token: &str) -> (empty: bool)
    ensures
        empty == (url@.len() == 0 || token@.len() == 0),
{
    url.unicode_len() == 0 || token.unicode_len() == 0
}

/// Takes the address and the token as read from the variables of the source
/// and hands them back unchanged, unless one of them is blank.
pub fn get_connection_info(laser: bool, url: String, token: String) -> (res: Result<
    (String, String),
    EmptyConnectionInfo,
>)
    ensures
        match res {
            Ok((kept_url, kept_token)) => {
                &&& !blank(url@) && !blank(token@)
                &&& kept_url@ == url@
                &&& kept_token@ == token@
            },
            Err(refused) => {
                &&& blank(url@) || blank(token@)
                &&& refused.variables.url@ == url_variable(laser)
                &&& refused.variables.token@ == token_variable(laser)
            },
        },
{
    if either_empty(trim(url.as_str()), trim(token.as_str())) {
        Err(EmptyConnectionInfo { variables: source_variables(laser) })
    } else {
        Ok((url, token))
    }
}

impl EmptyConnectionInfo {
    /// The refusal in words: the two variables, and that one of them is empty.
    pub fn message(&self) -> (text: String)
        ensures
            text@ == self.variables.url@ + " or "@ + self.variables.token@ + " is empty"@,
    {
        let mut text = String::from_str(self.variables.url);
        text.append(" or ");
        text.append(self.variables.token);
        text.append(" is empty");
        text
    }
}

} // verus!
