//! The error taxonomy of the pipeline, with the exact text each error shows
//! to a requester, and small JSON and path helpers.

use vstd::prelude::*;

use crate::json::{json_as_array, json_as_str};
use crate::linux_user_manage::LinuxError;

verus! {

#[derive(Debug)]
pub enum JsonError {
    AsStr,
    AsArray,
}

impl JsonError {
    pub open spec fn spec_message(self) -> Seq<char> {
        match self {
            JsonError::AsStr => "JSON value isn't string"@,
            JsonError::AsArray => "JSON value isn't array"@,
        }
    }

    pub fn message(&self) -> (r: String)
        ensures
            r@ == self.spec_message(),
    {
        match self {
            JsonError::AsStr => "JSON value isn't string".to_owned(),
            JsonError::AsArray => "JSON value isn't array".to_owned(),
        }
    }
}

/// Everything the pipeline can fail with. Transport faults never reach this
/// type: the driver around the library handles them and either reconnects or
/// aborts.
#[derive(Debug)]
pub enum Error {
    /// A JSON value of an unexpected kind stood where a field was needed.
    Json(JsonError),
    /// An account action failed on the host.
    Linux(LinuxError),
    /// A path was not valid text.
    PathToStr,
    /// A monitored channel name has no public channel behind it.
    NoChannel(String),
    /// A file or directory operation of an account action failed; carries the
    /// reported cause verbatim.
    Io(String),
    /// The platform announced the end of the session.
    CaughtGoodBye,
    /// An inbound frame held no event object.
    NonEvent,
    /// A conversation record carried none of the known kind markers.
    InvalidConversation,
    /// The conversation-kind lookup for a message failed.
    ConversationLookup,
    /// The platform refused a directory request; carries the reported cause.
    Api(String),
    /// The account to create already exists on the named host.
    AccountExists(String),
    /// The account to update or join does not exist on the named host.
    AccountMissing(String),
    /// A message author without a directory entry asked for an action.
    UnknownUser(String),
    /// A message carried a timestamp that is not a wire timestamp.
    BadTimestamp,
    /// A step result of a kind the running action cannot take.
    Internal(String),
}

impl Error {
    pub open spec fn spec_message(self) -> Seq<char> {
        match self {
            Error::Json(e) => "Internal error: "@ + e.spec_message(),
            Error::Linux(e) => e.spec_message(),
            Error::PathToStr => "Internal error: path -> str conversion failed"@,
            Error::NoChannel(c) => "there is no channel named "@ + c@,
            Error::Io(m) => m@,
            Error::CaughtGoodBye => "goodbye event was caught. try to reconnect..."@,
            Error::NonEvent => "receive non-event object on RTM"@,
            Error::InvalidConversation => "invalid conversation object"@,
            Error::ConversationLookup => "conversation type lookup failed"@,
            Error::Api(m) => m@,
            Error::AccountExists(h) => "Your account already exists on "@ + h@,
            Error::AccountMissing(h) => "Your account doesn't exist on "@ + h@,
            Error::UnknownUser(u) => "Internal error: no directory entry for user "@ + u@,
            Error::BadTimestamp => "invalid message timestamp"@,
            Error::Internal(m) => "Internal error: "@ + m@,
        }
    }

    /// The text a requester or the log sees for this error.
    pub fn message(&self) -> (r: String)
        ensures
            r@ == self.spec_message(),
    {
        match self {
            Error::Json(e) => crate::strings::concat2("Internal error: ", e.message().as_str()),
            Error::Linux(e) => e.message(),
            Error::PathToStr => "Internal error: path -> str conversion failed".to_owned(),
            Error::NoChannel(c) => crate::strings::concat2(
                "there is no channel named ",
                c.as_str(),
            ),
            Error::Io(m) => m.clone(),
            Error::CaughtGoodBye => "goodbye event was caught. try to reconnect...".to_owned(),
            Error::NonEvent => "receive non-event object on RTM".to_owned(),
            Error::InvalidConversation => "invalid conversation object".to_owned(),
            Error::ConversationLookup => "conversation type lookup failed".to_owned(),
            Error::Api(m) => m.clone(),
            Error::AccountExists(h) => crate::strings::concat2(
                "Your account already exists on ",
                h.as_str(),
            ),
            Error::AccountMissing(h) => crate::strings::concat2(
                "Your account doesn't exist on ",
                h.as_str(),
            ),
            Error::UnknownUser(u) => crate::strings::concat2(
                "Internal error: no directory entry for user ",
                u.as_str(),
            ),
            Error::BadTimestamp => "invalid message timestamp".to_owned(),
            Error::Internal(m) => crate::strings::concat2("Internal error: ", m.as_str()),
        }
    }
}

/// The string content of a JSON value, or the typed failure.
pub fn as_str(v: &serde_json::Value) -> (r: Result<String, Error>)
    ensures
        r is Err ==> r->Err_0 matches Error::Json(JsonError::AsStr),
{
    match json_as_str(v) {
        Some(s) => Ok(s),
        None => Err(Error::Json(JsonError::AsStr)),
    }
}

/// The elements of a JSON array, or the typed failure.
pub fn as_array(v: &serde_json::Value) -> (r: Result<Vec<serde_json::Value>, Error>)
    ensures
        r is Err ==> r->Err_0 matches Error::Json(JsonError::AsArray),
{
    match json_as_array(v) {
        Some(a) => Ok(a),
        None => Err(Error::Json(JsonError::AsArray)),
    }
}

/// One `PathBuf::push` step: an absolute component replaces the path, and any
/// other is appended behind a separator unless one is already there.
pub open spec fn push_path(acc: Seq<char>, p: Seq<char>) -> Seq<char> {
    if p.len() > 0 && p[0] == '/' {
        p
    } else if acc.len() == 0 {
        p
    } else if acc.last() == '/' {
        acc + p
    } else {
        acc + seq!['/'] + p
    }
}

/// The path the components denote, joined as `PathBuf` collects them.
pub open spec fn path_join_spec(v: Seq<Seq<char>>) -> Seq<char>
    decreases v.len(),
{
    if v.len() == 0 {
        Seq::empty()
    } else {
        push_path(path_join_spec(v.drop_last()), v.last())
    }
}

/// Joins path components. The components are text already, so the conversion
/// back from a path cannot fail and the result is always `Ok`.
pub fn path_join(v: &[&str]) -> (r: Result<String, Error>)
    ensures
        r is Ok,
        r->Ok_0@ == path_join_spec(v.deep_view()),
{
    let mut acc = String::new();
    let mut i: usize = 0;
    proof {
        reveal_strlit("/");
        assert("/"@ =~= seq!['/']);
        assert(v.deep_view().take(0) =~= Seq::<Seq<char>>::empty());
    }
    while i < v.len()
        invariant
            i <= v.len(),
            acc@ == path_join_spec(v.deep_view().take(i as int)),
        decreases v.len() - i,
    {
        let ghost dv = v.deep_view();
        let ghost pre = acc@;
        let p: &str = v[i];
        proof {
            assert(dv[i as int] == p@);
            assert(dv.take(i as int + 1).drop_last() =~= dv.take(i as int));
            assert(dv.take(i as int + 1).last() == dv[i as int]);
        }
        let pl = p.unicode_len();
        if pl > 0 && p.get_char(0) == '/' {
            acc = p.to_owned();
        } else if acc.as_str().unicode_len() == 0 {
            acc = p.to_owned();
        } else {
            let al = acc.as_str().unicode_len();
            if acc.as_str().get_char(al - 1) == '/' {
                acc.append(p);
            } else {
                proof {
                    reveal_strlit("/");
                }
                acc.append("/");
                acc.append(p);
                proof {
                    assert(acc@ =~= pre + seq!['/'] + p@);
                }
            }
        }
        i += 1;
    }
    proof {
        assert(v.deep_view().take(v.len() as int) =~= v.deep_view());
    }
    Ok(acc)
}

} // verus!
