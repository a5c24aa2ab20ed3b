//! The rules a session name has to meet before a session is created under
//! it or renamed to it.

use crate::chars::{contains_char, contains_name, views};
use vstd::prelude::*;

verus! {

/// A session name has to be shorter than this many bytes: the name becomes
/// part of a socket path, and the path has a ceiling.
pub const SESSION_NAME_LIMIT: usize = 108;

/// The length of `name` in bytes, as UTF-8 writes it.
pub open spec fn byte_len(name: Seq<char>) -> nat {
    vstd::utf8::encode_utf8(name).len()
}

/// Why a name for a new session is refused.
#[derive(Clone, Copy, Debug, PartialEq, Eq, Structural)]
pub enum NameError {
    /// The name is `SESSION_NAME_LIMIT` bytes long or longer.
    TooLong,
    /// The name holds a `/`.
    ContainsSlash,
    /// A session of this name exists and is closed to this kind of client.
    Forbidden,
}

/// What the rules say of a name for a new session. The length is looked at
/// first, then the slash, then the forbidden sessions.
pub open spec fn new_name_verdict(name: Seq<char>, forbidden: Seq<Seq<char>>) -> Result<
    (),
    NameError,
> {
    if byte_len(name) >= SESSION_NAME_LIMIT {
        Err(NameError::TooLong)
    } else if name.contains('/') {
        Err(NameError::ContainsSlash)
    } else if forbidden.contains(name) {
        Err(NameError::Forbidden)
    } else {
        Ok(())
    }
}

/// What becomes of a request to rename the current session.
#[derive(Clone, Copy, Debug, PartialEq, Eq, Structural)]
pub enum RenameVerdict {
    /// The name can be taken.
    Accepted,
    /// The session is called that already: nothing to do, and no error.
    Unchanged,
    /// The name is empty.
    Empty,
    /// A running session has the name.
    Taken,
    /// A session that can be resurrected has the name.
    TakenByResurrectable,
    /// The name holds a `/`.
    ContainsSlash,
}

/// What the rules say of a new name for the current session. The cases are
/// looked at in the order of the variants of [`RenameVerdict`], the
/// accepting one last.
pub open spec fn rename_verdict(
    name: Seq<char>,
    current: Option<Seq<char>>,
    live: Seq<Seq<char>>,
    resurrectable: Seq<Seq<char>>,
) -> RenameVerdict {
    if name.len() == 0 {
        RenameVerdict::Empty
    } else if current == Some(name) {
        RenameVerdict::Unchanged
    } else if live.contains(name) {
        RenameVerdict::Taken
    } else if resurrectable.contains(name) {
        RenameVerdict::TakenByResurrectable
    } else if name.contains('/') {
        RenameVerdict::ContainsSlash
    } else {
        RenameVerdict::Accepted
    }
}

impl NameError {
    /// The text shown to the user for this error.
    pub open spec fn text(self) -> Seq<char> {
        match self {
            NameError::TooLong => "Session name must be shorter than 108 bytes"@,
            NameError::ContainsSlash => "Session name cannot contain '/'"@,
            NameError::Forbidden => "This session exists and web clients cannot attach to it."@,
        }
    }

    /// The text shown to the user for this error.
    pub fn message(self) -> (text: &'static str)
        ensures
            text@ == self.text(),
    {
        match self {
            NameError::TooLong => "Session name must be shorter than 108 bytes",
            NameError::ContainsSlash => "Session name cannot contain '/'",
            NameError::Forbidden => "This session exists and web clients cannot attach to it.",
        }
    }
}

impl RenameVerdict {
    /// The text shown to the user where the verdict is an error.
    pub open spec fn text(self) -> Option<Seq<char>> {
        match self {
            RenameVerdict::Accepted => None,
            RenameVerdict::Unchanged => None,
            RenameVerdict::Empty => Some("New name must not be empty."@),
            RenameVerdict::Taken => Some("A session by this name already exists."@),
            RenameVerdict::TakenByResurrectable => Some(
                "A resurrectable session by this name already exists."@,
            ),
            RenameVerdict::ContainsSlash => Some("Session names cannot contain '/'"@),
        }
    }

    /// The text shown to the user where the verdict is an error.
    pub fn message(self) -> (text: Option<&'static str>)
        ensures
            text is Some <==> self.text() is Some,
            text matches Some(t) ==> Some(t@) == self.text(),
    {
        match self {
            RenameVerdict::Accepted => None,
            RenameVerdict::Unchanged => None,
            RenameVerdict::Empty => Some("New name must not be empty."),
            RenameVerdict::Taken => Some("A session by this name already exists."),
            RenameVerdict::TakenByResurrectable => Some(
                "A resurrectable session by this name already exists.",
            ),
            RenameVerdict::ContainsSlash => Some("Session names cannot contain '/'"),
        }
    }
}

/// Checks a name for a new session against the rules. `forbidden` holds the
/// names of the sessions that exist and are closed to this kind of client.
pub fn validate_new_session_name(name: &String, forbidden: &Vec<String>) -> (res: Result<
    (),
    NameError,
>)
    ensures
        res == new_name_verdict(name@, views(forbidden@)),
{
    if name.as_str().as_bytes().len() >= SESSION_NAME_LIMIT {
        Err(NameError::TooLong)
    } else if contains_char(name.as_str(), '/') {
        Err(NameError::ContainsSlash)
    } else if contains_name(forbidden, name) {
        Err(NameError::Forbidden)
    } else {
        Ok(())
    }
}

/// Checks a new name for the current session against the rules. `current`
/// is the name the session has now, `live` holds the names of the running
/// sessions and `resurrectable` those of the sessions that can be
/// resurrected.
pub fn validate_rename(
    name: &String,
    current: &Option<String>,
    live: &Vec<String>,
    resurrectable: &Vec<String>,
) -> (verdict: RenameVerdict)
    ensures
        verdict == rename_verdict(
            name@,
            match *current {
                Some(c) => Some(c@),
                None => None,
            },
            views(live@),
            views(resurrectable@),
        ),
{
    let unchanged = match current {
        Some(c) => *c == *name,
        None => false,
    };
    if name.as_str().is_empty() {
        RenameVerdict::Empty
    } else if unchanged {
        RenameVerdict::Unchanged
    } else if contains_name(live, name) {
        RenameVerdict::Taken
    } else if contains_name(resurrectable, name) {
        RenameVerdict::TakenByResurrectable
    } else if contains_char(name.as_str(), '/') {
        RenameVerdict::ContainsSlash
    } else {
        RenameVerdict::Accepted
    }
}

/// A name for a new session is accepted exactly if it is shorter than the
/// limit in bytes, holds no slash and is not the name of a forbidden
/// session; and each refusal comes exactly where the rules before it are
/// met and its own is not.
pub proof fn lemma_new_name_rules(name: Seq<char>, forbidden: Seq<Seq<char>>)
    ensures
        new_name_verdict(name, forbidden) is Ok <==> byte_len(name) < SESSION_NAME_LIMIT
            && !name.contains('/') && !forbidden.contains(name),
        new_name_verdict(name, forbidden) == Err::<(), NameError>(NameError::TooLong)
            <==> byte_len(name) >= SESSION_NAME_LIMIT,
        new_name_verdict(name, forbidden) == Err::<(), NameError>(NameError::ContainsSlash)
            <==> byte_len(name) < SESSION_NAME_LIMIT && name.contains('/'),
        new_name_verdict(name, forbidden) == Err::<(), NameError>(NameError::Forbidden)
            <==> byte_len(name) < SESSION_NAME_LIMIT && !name.contains('/') && forbidden.contains(
            name,
        ),
{
}

/// A name of plain ASCII characters is as many bytes long as it has
/// characters. So such a name of at most 107 characters, without a slash and
/// not forbidden, is accepted, and one of 108 characters or more is refused
/// for its length.
pub proof fn lemma_ascii_name_length(name: Seq<char>, forbidden: Seq<Seq<char>>)
    requires
        vstd::utf8::is_ascii_chars(name),
    ensures
        byte_len(name) == name.len(),
        name.len() <= 107 && !name.contains('/') && !forbidden.contains(name)
            ==> new_name_verdict(name, forbidden) is Ok,
        name.len() >= 108 ==> new_name_verdict(name, forbidden) == Err::<(), NameError>(
            NameError::TooLong,
        ),
{
    vstd::utf8::is_ascii_chars_encode_utf8(name);
}

/// A name is never shorter in bytes than in characters. So a name of 108
/// characters or more is refused for its length, whatever its characters
/// are.
pub proof fn lemma_long_name_refused(name: Seq<char>, forbidden: Seq<Seq<char>>)
    ensures
        byte_len(name) >= name.len(),
        name.len() >= 108 ==> new_name_verdict(name, forbidden) == Err::<(), NameError>(
            NameError::TooLong,
        ),
    decreases name.len(),
{
    if name.len() > 0 {
        lemma_long_name_refused(name.drop_first(), forbidden);
        let c = name[0] as u32;
        vstd::utf8::char_is_scalar(name[0]);
        assert(vstd::utf8::encode_scalar(c).len() >= 1);
    }
}

} // verus!
