//! Decision logic of the account actions on the local host: reading the
//! account and group tables, the exact command lines of the mutating steps,
//! and the step machine that sequences them. Running a command, reading a
//! file or fetching a key is the driver's work; this module says which step
//! comes next and what each result means.

use vstd::prelude::*;

use crate::runtime_error::{path_join, path_join_spec, Error};
use crate::strings::{concat3, eq_str, fill_spec, fill_template, i32_dec, int_dec_str};
use crate::strings::{fields_from, split_char, split_char_spec};

verus! {

#[derive(Debug)]
pub enum LinuxError {
    /// The key source did not answer the existence probe; the URI and the
    /// response body.
    HeadPublicKey(String, String),
    /// The key source did not hand out the keys; the URI and the response
    /// body.
    GetPublicKey(String, String),
    /// A host command exited with the given status code.
    Command(&'static str, i32),
    /// A host command was ended by a signal.
    CommandKilled(&'static str),
    /// The group id to create is already taken by the named group.
    GIDAlreadyExists(String, String),
}

impl LinuxError {
    pub open spec fn spec_message(self) -> Seq<char> {
        match self {
            LinuxError::HeadPublicKey(uri, body) => "can't access "@ + uri@ + ": "@ + body@,
            LinuxError::GetPublicKey(uri, body) => "get public key from "@ + uri@ + " failed: "@
                + body@,
            LinuxError::Command(name, code) => "`"@ + name@ + "` failed. status code: "@
                + int_dec_str(code as int),
            LinuxError::CommandKilled(name) => "`"@ + name@ + "` is killed by signal"@,
            LinuxError::GIDAlreadyExists(gid, group) => "GID "@ + gid@ + " already exists: "@
                + group@,
        }
    }

    /// The text a requester sees for this failure.
    pub fn message(&self) -> (r: String)
        ensures
            r@ == self.spec_message(),
    {
        match self {
            LinuxError::HeadPublicKey(uri, body) => {
                let mut r = concat3("can't access ", uri.as_str(), ": ");
                r.append(body.as_str());
                r
            },
            LinuxError::GetPublicKey(uri, body) => {
                let mut r = concat3("get public key from ", uri.as_str(), " failed: ");
                r.append(body.as_str());
                r
            },
            LinuxError::Command(name, code) => {
                let mut r = concat3("`", name, "` failed. status code: ");
                r.append(i32_dec(*code).as_str());
                r
            },
            LinuxError::CommandKilled(name) => concat3("`", name, "` is killed by signal"),
            LinuxError::GIDAlreadyExists(gid, group) => {
                let mut r = concat3("GID ", gid.as_str(), " already exists: ");
                r.append(group.as_str());
                r
            },
        }
    }
}

/// The outcome a finished host command denotes: success, an exit code, or
/// death by signal.
pub fn from_command_status(command: &'static str, success: bool, code: Option<i32>) -> (r: Result<
    (),
    LinuxError,
>)
    ensures
        success ==> r is Ok,
        !success && code is Some ==> r == Result::<(), LinuxError>::Err(
            LinuxError::Command(command, code->0),
        ),
        !success && code is None ==> r == Result::<(), LinuxError>::Err(
            LinuxError::CommandKilled(command),
        ),
{
    if success {
        Ok(())
    } else if let Some(c) = code {
        Err(LinuxError::Command(command, c))
    } else {
        Err(LinuxError::CommandKilled(command))
    }
}

/// Splitting yields at least the fields accumulated plus one.
proof fn lemma_fields_from_len(s: Seq<char>, sep: char, i: int, cur: Seq<char>, acc: Seq<Seq<char>>)
    ensures
        fields_from(s, sep, i, cur, acc).len() > acc.len(),
    decreases s.len() - i,
{
    if !(i < 0 || i >= s.len()) {
        if s[i] == sep {
            lemma_fields_from_len(s, sep, i + 1, Seq::empty(), acc.push(cur));
        } else {
            lemma_fields_from_len(s, sep, i + 1, cur.push(s[i]), acc);
        }
    }
}

/// The first `:`-separated field of a table line.
pub open spec fn first_field(line: Seq<char>) -> Seq<char> {
    split_char_spec(line, ':')[0]
}

/// The first line of the account table whose name field is `user`.
pub open spec fn passwd_match_spec(lines: Seq<Seq<char>>, user: Seq<char>) -> Option<Seq<char>>
    decreases lines.len(),
{
    if lines.len() == 0 {
        None
    } else if first_field(lines[0]) == user {
        Some(lines[0])
    } else {
        passwd_match_spec(lines.drop_first(), user)
    }
}

/// Looks `user_id` up in the lines of the account table and hands back its
/// line, if any.
pub fn etc_passwd(lines: &Vec<String>, user_id: &str) -> (r: Option<String>)
    ensures
        match r {
            Some(l) => passwd_match_spec(lines.deep_view(), user_id@) == Some(l@),
            None => passwd_match_spec(lines.deep_view(), user_id@) is None,
        },
{
    let ghost dv = lines.deep_view();
    let mut i: usize = 0;
    proof {
        assert(dv.skip(0) =~= dv);
    }
    while i < lines.len()
        invariant
            i <= lines.len(),
            dv == lines.deep_view(),
            passwd_match_spec(dv, user_id@) == passwd_match_spec(dv.skip(i as int), user_id@),
        decreases lines.len() - i,
    {
        let fields = split_char(lines[i].as_str(), ':');
        proof {
            lemma_fields_from_len(dv[i as int], ':', 0, Seq::empty(), Seq::empty());
            assert(fields.deep_view().len() == fields@.len());
            assert(dv.skip(i as int)[0] == dv[i as int]);
            assert(dv.skip(i as int).drop_first() =~= dv.skip(i as int + 1));
            assert(fields.deep_view()[0] == first_field(dv[i as int]));
        }
        if eq_str(fields[0].as_str(), user_id) {
            return Some(lines[i].clone());
        }
        i += 1;
    }
    None
}

/// The name of the first group whose id field is `gid`, if any; defined over
/// lines with at least three fields.
pub open spec fn group_match_spec(lines: Seq<Seq<char>>, gid: Seq<char>) -> Option<Seq<char>>
    decreases lines.len(),
{
    if lines.len() == 0 {
        None
    } else if split_char_spec(lines[0], ':').len() >= 3 && split_char_spec(lines[0], ':')[2]
        == gid {
        Some(split_char_spec(lines[0], ':')[0])
    } else {
        group_match_spec(lines.drop_first(), gid)
    }
}

/// Looks a group id up in the lines of the group table and hands back the
/// name of the group holding it, if any. Lines with fewer than three fields
/// are passed over.
pub fn group_exist(lines: &Vec<String>, gid: &str) -> (r: Option<String>)
    ensures
        match r {
            Some(name) => group_match_spec(lines.deep_view(), gid@) == Some(name@),
            None => group_match_spec(lines.deep_view(), gid@) is None,
        },
{
    let ghost dv = lines.deep_view();
    let mut i: usize = 0;
    proof {
        assert(dv.skip(0) =~= dv);
    }
    while i < lines.len()
        invariant
            i <= lines.len(),
            dv == lines.deep_view(),
            group_match_spec(dv, gid@) == group_match_spec(dv.skip(i as int), gid@),
        decreases lines.len() - i,
    {
        let fields = split_char(lines[i].as_str(), ':');
        proof {
            assert(fields.deep_view().len() == fields@.len());
            assert(dv.skip(i as int)[0] == dv[i as int]);
            assert(dv.skip(i as int).drop_first() =~= dv.skip(i as int + 1));
        }
        if fields.len() >= 3 && eq_str(fields[2].as_str(), gid) {
            return Some(fields[0].clone());
        }
        i += 1;
    }
    None
}

/// Where a running account action stands.
#[derive(Clone, Copy, Debug, PartialEq, Eq, Structural)]
pub enum Stage {
    /// Probe the key source for the requester's public keys.
    CheckKeys,
    /// Read the group table to see whether the wanted gid is taken.
    CheckGroup,
    /// Create the group.
    AddGroup,
    /// Read the account table; the account must not exist yet.
    CheckUserAbsent,
    /// Create the account.
    AddUser,
    /// Read the account table for the home directory.
    LookupHome,
    /// Create the `.ssh` directory under the home.
    MakeSshDir,
    /// Fetch the public keys.
    FetchKeys,
    /// Overwrite `authorized_keys` with the fetched keys.
    WriteKeys,
    /// Restrict the permissions of the `.ssh` directory.
    Chmod,
    /// Hand the `.ssh` directory to the account.
    Chown,
    /// Read the account table; the account must exist.
    CheckUserJoin,
    /// Add the account to the group.
    AddToGroup,
    /// The action finished.
    Done,
    /// The action failed; the task carries the failure.
    Failed,
}

/// One piece of outside work the driver must perform for a step.
#[derive(Debug)]
pub enum StepRequest {
    HttpHead { uri: String },
    HttpGet { uri: String },
    ReadPasswd,
    ReadGroup,
    Run { program: &'static str, args: Vec<String> },
    MakeDir { path: String },
    WriteFile { path: String, contents: String },
}

/// What the driver observed performing a step.
#[derive(Debug)]
pub enum StepResult {
    /// An HTTP probe or fetch: whether the status was a success, and the body.
    Http { success: bool, body: String },
    /// The lines of a table file.
    Lines { lines: Vec<String> },
    /// A finished command: whether it succeeded, and its exit code if any.
    Status { success: bool, code: Option<i32> },
    /// A directory or file operation: whether it succeeded, and the reported
    /// cause when it did not.
    Io { ok: bool, message: String },
}

/// The arguments of the `useradd` call: a fresh home, a bash shell, an empty
/// password, the optional uid and gid, and the account name last.
pub open spec fn useradd_args_spec(
    uid: Option<Seq<char>>,
    gid: Option<Seq<char>>,
    user: Seq<char>,
) -> Seq<Seq<char>> {
    seq!["-m"@, "-s"@, "/bin/bash"@, "-p"@, ""@] + (match uid {
        Some(u) => seq!["-u"@, u],
        None => Seq::empty(),
    }) + (match gid {
        Some(g) => seq!["-g"@, g],
        None => Seq::empty(),
    }) + seq![user]
}

fn useradd_args(uid: &Option<String>, gid: &Option<String>, user: &str) -> (r: Vec<String>)
    ensures
        r.deep_view() == useradd_args_spec(
            match uid {
                Some(u) => Some(u@),
                None => None,
            },
            match gid {
                Some(g) => Some(g@),
                None => None,
            },
            user@,
        ),
{
    let mut args: Vec<String> = Vec::new();
    args.push("-m".to_owned());
    args.push("-s".to_owned());
    args.push("/bin/bash".to_owned());
    args.push("-p".to_owned());
    args.push("".to_owned());
    match uid {
        Some(u) => {
            args.push("-u".to_owned());
            args.push(u.clone());
        },
        None => {},
    }
    match gid {
        Some(g) => {
            args.push("-g".to_owned());
            args.push(g.clone());
        },
        None => {},
    }
    args.push(user.to_owned());
    proof {
        match (uid, gid) {
            (Some(u), Some(g)) => {
                assert(args.deep_view() =~= useradd_args_spec(Some(u@), Some(g@), user@));
            },
            (Some(u), None) => {
                assert(args.deep_view() =~= useradd_args_spec(Some(u@), None, user@));
            },
            (None, Some(g)) => {
                assert(args.deep_view() =~= useradd_args_spec(None, Some(g@), user@));
            },
            (None, None) => {
                assert(args.deep_view() =~= useradd_args_spec(None, None, user@));
            },
        }
    }
    args
}

/// A running account action: what it works on and where it stands. The
/// driver alternates `request`, performing the requested work, and `advance`
/// with the result, until `request` yields nothing.
#[derive(Debug)]
pub struct ProvisionTask {
    pub stage: Stage,
    pub user_name: String,
    pub local_host_name: String,
    pub uri_format: String,
    pub uid: Option<String>,
    pub gid: Option<String>,
    pub group_name: String,
    pub ssh_dir: String,
    pub keys: String,
    pub failure: Option<Error>,
}

/// A result of a kind the running stage cannot take fails the task with an
/// internal error; everything else of the task is kept.
pub open spec fn step_mismatch(o: ProvisionTask, f: ProvisionTask) -> bool {
    f == (ProvisionTask { stage: Stage::Failed, failure: f.failure, ..o }) && (
    f.failure matches Some(Error::Internal(m)) && m@ == "unexpected step result"@)
}

impl ProvisionTask {
    pub open spec fn wf(self) -> bool {
        ((self.stage matches Stage::AddGroup || self.stage matches Stage::CheckGroup)
            ==> self.gid is Some) && (self.stage matches Stage::Failed ==> self.failure is Some)
    }

    /// The URI the keys of the account are probed and fetched from.
    pub open spec fn spec_uri(self) -> Seq<char> {
        fill_spec(self.uri_format@, self.user_name@)
    }
}

/// Begins creating an account: probe the keys, take the gid if one is asked
/// for, create the account, then fill its `authorized_keys` as an update
/// does.
pub fn create_account(
    user_name: &str,
    local_host_name: &str,
    uri_format: &str,
    uid: Option<&str>,
    gid: Option<&str>,
) -> (t: ProvisionTask)
    ensures
        t.stage matches Stage::CheckKeys,
        t.user_name@ == user_name@,
        t.local_host_name@ == local_host_name@,
        t.uri_format@ == uri_format@,
        match (t.uid, uid) {
            (Some(a), Some(b)) => a@ == b@,
            (None, None) => true,
            _ => false,
        },
        match (t.gid, gid) {
            (Some(a), Some(b)) => a@ == b@,
            (None, None) => true,
            _ => false,
        },
        t.group_name@ == Seq::<char>::empty(),
        t.ssh_dir@ == Seq::<char>::empty(),
        t.keys@ == Seq::<char>::empty(),
        t.failure is None,
        t.wf(),
{
    ProvisionTask {
        stage: Stage::CheckKeys,
        user_name: user_name.to_owned(),
        local_host_name: local_host_name.to_owned(),
        uri_format: uri_format.to_owned(),
        uid: match uid {
            Some(u) => Some(u.to_owned()),
            None => None,
        },
        gid: match gid {
            Some(g) => Some(g.to_owned()),
            None => None,
        },
        group_name: String::new(),
        ssh_dir: String::new(),
        keys: String::new(),
        failure: None,
    }
}

/// Begins refreshing an existing account's `authorized_keys`.
pub fn update_account(user_name: &str, local_host_name: &str, uri_format: &str) -> (t:
    ProvisionTask)
    ensures
        t.stage matches Stage::LookupHome,
        t.user_name@ == user_name@,
        t.local_host_name@ == local_host_name@,
        t.uri_format@ == uri_format@,
        t.uid is None && t.gid is None,
        t.group_name@ == Seq::<char>::empty(),
        t.ssh_dir@ == Seq::<char>::empty(),
        t.keys@ == Seq::<char>::empty(),
        t.failure is None,
        t.wf(),
{
    ProvisionTask {
        stage: Stage::LookupHome,
        user_name: user_name.to_owned(),
        local_host_name: local_host_name.to_owned(),
        uri_format: uri_format.to_owned(),
        uid: None,
        gid: None,
        group_name: String::new(),
        ssh_dir: String::new(),
        keys: String::new(),
        failure: None,
    }
}

/// Begins adding an existing account to a group.
pub fn join_group(user_name: &str, group_name: &str, local_host_name: &str) -> (t: ProvisionTask)
    ensures
        t.stage matches Stage::CheckUserJoin,
        t.user_name@ == user_name@,
        t.local_host_name@ == local_host_name@,
        t.uri_format@ == Seq::<char>::empty(),
        t.uid is None && t.gid is None,
        t.group_name@ == group_name@,
        t.ssh_dir@ == Seq::<char>::empty(),
        t.keys@ == Seq::<char>::empty(),
        t.failure is None,
        t.wf(),
{
    ProvisionTask {
        stage: Stage::CheckUserJoin,
        user_name: user_name.to_owned(),
        local_host_name: local_host_name.to_owned(),
        uri_format: String::new(),
        uid: None,
        gid: None,
        group_name: group_name.to_owned(),
        ssh_dir: String::new(),
        keys: String::new(),
        failure: None,
    }
}

impl ProvisionTask {
    /// The outside work the current stage needs, or nothing when the action
    /// has finished or failed.
    pub fn request(&self) -> (r: Option<StepRequest>)
        requires
            self.wf(),
        ensures
            self.stage matches Stage::CheckKeys ==> r matches Some(StepRequest::HttpHead { uri })
                && uri@ == self.spec_uri(),
            self.stage matches Stage::CheckGroup ==> r matches Some(StepRequest::ReadGroup),
            self.stage matches Stage::AddGroup ==> r matches Some(
                StepRequest::Run { program, args },
            ) && program@ == "groupadd"@ && args.deep_view() == seq![
                "-g"@,
                self.gid->0@,
                self.user_name@,
            ],
            self.stage matches Stage::CheckUserAbsent ==> r matches Some(StepRequest::ReadPasswd),
            self.stage matches Stage::AddUser ==> r matches Some(StepRequest::Run { program, args })
                && program@ == "useradd"@ && args.deep_view() == useradd_args_spec(
                match self.uid {
                    Some(u) => Some(u@),
                    None => None,
                },
                match self.gid {
                    Some(g) => Some(g@),
                    None => None,
                },
                self.user_name@,
            ),
            self.stage matches Stage::LookupHome ==> r matches Some(StepRequest::ReadPasswd),
            self.stage matches Stage::MakeSshDir ==> r matches Some(StepRequest::MakeDir { path })
                && path@ == self.ssh_dir@,
            self.stage matches Stage::FetchKeys ==> r matches Some(StepRequest::HttpGet { uri })
                && uri@ == self.spec_uri(),
            self.stage matches Stage::WriteKeys ==> r matches Some(
                StepRequest::WriteFile { path, contents },
            ) && path@ == path_join_spec(seq![self.ssh_dir@, "authorized_keys"@]) && contents@
                == self.keys@,
            self.stage matches Stage::Chmod ==> r matches Some(StepRequest::Run { program, args })
                && program@ == "chmod"@ && args.deep_view() == seq!["700"@, self.ssh_dir@],
            self.stage matches Stage::Chown ==> r matches Some(StepRequest::Run { program, args })
                && program@ == "chown"@ && args.deep_view() == seq![
                "-R"@,
                self.user_name@ + ":"@ + self.user_name@,
                self.ssh_dir@,
            ],
            self.stage matches Stage::CheckUserJoin ==> r matches Some(StepRequest::ReadPasswd),
            self.stage matches Stage::AddToGroup ==> r matches Some(
                StepRequest::Run { program, args },
            ) && program@ == "usermod"@ && args.deep_view() == seq![
                "-aG"@,
                self.group_name@,
                self.user_name@,
            ],
            self.stage matches Stage::Done ==> r is None,
            self.stage matches Stage::Failed ==> r is None,
    {
        match self.stage {
            Stage::CheckKeys => Some(
                StepRequest::HttpHead {
                    uri: fill_template(self.uri_format.as_str(), self.user_name.as_str()),
                },
            ),
            Stage::CheckGroup => Some(StepRequest::ReadGroup),
            Stage::AddGroup => {
                let g = match &self.gid {
                    Some(g) => g.clone(),
                    None => {
                        proof {
                            assert(false);
                        }
                        String::new()
                    },
                };
                let args = vec!["-g".to_owned(), g, self.user_name.clone()];
                proof {
                    assert(args.deep_view() =~= seq!["-g"@, self.gid->0@, self.user_name@]);
                }
                Some(StepRequest::Run { program: "groupadd", args })
            },
            Stage::CheckUserAbsent => Some(StepRequest::ReadPasswd),
            Stage::AddUser => Some(
                StepRequest::Run {
                    program: "useradd",
                    args: useradd_args(&self.uid, &self.gid, self.user_name.as_str()),
                },
            ),
            Stage::LookupHome => Some(StepRequest::ReadPasswd),
            Stage::MakeSshDir => Some(StepRequest::MakeDir { path: self.ssh_dir.clone() }),
            Stage::FetchKeys => Some(
                StepRequest::HttpGet {
                    uri: fill_template(self.uri_format.as_str(), self.user_name.as_str()),
                },
            ),
            Stage::WriteKeys => {
                let dir = self.ssh_dir.as_str();
                let parts = [dir, "authorized_keys"];
                proof {
                    assert(parts.deep_view() =~= seq![self.ssh_dir@, "authorized_keys"@]);
                }
                let path = match path_join(&parts) {
                    Ok(p) => p,
                    Err(_) => {
                        proof {
                            assert(false);
                        }
                        String::new()
                    },
                };
                Some(StepRequest::WriteFile { path, contents: self.keys.clone() })
            },
            Stage::Chmod => {
                let args = vec!["700".to_owned(), self.ssh_dir.clone()];
                proof {
                    assert(args.deep_view() =~= seq!["700"@, self.ssh_dir@]);
                }
                Some(StepRequest::Run { program: "chmod", args })
            },
            Stage::Chown => {
                let owner = concat3(self.user_name.as_str(), ":", self.user_name.as_str());
                let args = vec!["-R".to_owned(), owner, self.ssh_dir.clone()];
                proof {
                    assert(args.deep_view() =~= seq![
                        "-R"@,
                        self.user_name@ + ":"@ + self.user_name@,
                        self.ssh_dir@,
                    ]);
                }
                Some(StepRequest::Run { program: "chown", args })
            },
            Stage::CheckUserJoin => Some(StepRequest::ReadPasswd),
            Stage::AddToGroup => {
                let args = vec![
                    "-aG".to_owned(),
                    self.group_name.clone(),
                    self.user_name.clone(),
                ];
                proof {
                    assert(args.deep_view() =~= seq![
                        "-aG"@,
                        self.group_name@,
                        self.user_name@,
                    ]);
                }
                Some(StepRequest::Run { program: "usermod", args })
            },
            Stage::Done => None,
            Stage::Failed => None,
        }
    }

    /// Takes the result of the requested work and moves to the next stage;
    /// a failed step carries its typed failure into the task.
    pub fn advance(&mut self, result: StepResult)
        requires
            old(self).wf(),
            match result {
                StepResult::Lines { lines } => old(self).stage matches Stage::LookupHome ==> (
                match passwd_match_spec(lines.deep_view(), old(self).user_name@) {
                    Some(l) => split_char_spec(l, ':').len() >= 6,
                    None => true,
                }),
                _ => true,
            },
        ensures
            final(self).user_name == old(self).user_name,
            final(self).local_host_name == old(self).local_host_name,
            final(self).uri_format == old(self).uri_format,
            final(self).uid == old(self).uid,
            final(self).gid == old(self).gid,
            final(self).group_name == old(self).group_name,
            final(self).wf(),
            old(self).stage matches Stage::CheckKeys ==> (match result {
                StepResult::Http { success, body } => if success {
                    *final(self) == (ProvisionTask {
                        stage: if old(self).gid is Some {
                            Stage::CheckGroup
                        } else {
                            Stage::CheckUserAbsent
                        },
                        ..*old(self)
                    })
                } else {
                    *final(self) == (ProvisionTask {
                        stage: Stage::Failed,
                        failure: final(self).failure,
                        ..*old(self)
                    }) && (final(self).failure matches Some(
                        Error::Linux(LinuxError::HeadPublicKey(u, b)),
                    ) && u@ == old(self).spec_uri() && b == body)
                },
                _ => step_mismatch(*old(self), *final(self)),
            }),
            old(self).stage matches Stage::CheckGroup ==> (match result {
                StepResult::Lines { lines } => (match group_match_spec(
                    lines.deep_view(),
                    old(self).gid->0@,
                ) {
                    Some(name) => *final(self) == (ProvisionTask {
                        stage: Stage::Failed,
                        failure: final(self).failure,
                        ..*old(self)
                    }) && (final(self).failure matches Some(
                        Error::Linux(LinuxError::GIDAlreadyExists(g, n)),
                    ) && g == old(self).gid->0 && n@ == name),
                    None => *final(self) == (ProvisionTask { stage: Stage::AddGroup, ..*old(self) }),
                }),
                _ => step_mismatch(*old(self), *final(self)),
            }),
            old(self).stage matches Stage::AddGroup ==> command_step(
                *old(self),
                *final(self),
                result,
                "groupadd"@,
                Stage::CheckUserAbsent,
            ),
            old(self).stage matches Stage::CheckUserAbsent ==> (match result {
                StepResult::Lines { lines } => (match passwd_match_spec(
                    lines.deep_view(),
                    old(self).user_name@,
                ) {
                    Some(_) => *final(self) == (ProvisionTask {
                        stage: Stage::Failed,
                        failure: final(self).failure,
                        ..*old(self)
                    }) && (final(self).failure matches Some(Error::AccountExists(h)) && h == old(
                        self,
                    ).local_host_name),
                    None => *final(self) == (ProvisionTask { stage: Stage::AddUser, ..*old(self) }),
                }),
                _ => step_mismatch(*old(self), *final(self)),
            }),
            old(self).stage matches Stage::AddUser ==> command_step(
                *old(self),
                *final(self),
                result,
                "useradd"@,
                Stage::LookupHome,
            ),
            old(self).stage matches Stage::LookupHome ==> (match result {
                StepResult::Lines { lines } => (match passwd_match_spec(
                    lines.deep_view(),
                    old(self).user_name@,
                ) {
                    Some(l) => *final(self) == (ProvisionTask {
                        stage: Stage::MakeSshDir,
                        ssh_dir: final(self).ssh_dir,
                        ..*old(self)
                    }) && final(self).ssh_dir@ == path_join_spec(
                        seq![split_char_spec(l, ':')[5], ".ssh"@],
                    ),
                    None => *final(self) == (ProvisionTask {
                        stage: Stage::Failed,
                        failure: final(self).failure,
                        ..*old(self)
                    }) && (final(self).failure matches Some(Error::AccountMissing(h)) && h == old(
                        self,
                    ).local_host_name),
                }),
                _ => step_mismatch(*old(self), *final(self)),
            }),
            old(self).stage matches Stage::MakeSshDir ==> io_step(
                *old(self),
                *final(self),
                result,
                Stage::FetchKeys,
            ),
            old(self).stage matches Stage::FetchKeys ==> (match result {
                StepResult::Http { success, body } => if success {
                    *final(self) == (ProvisionTask {
                        stage: Stage::WriteKeys,
                        keys: final(self).keys,
                        ..*old(self)
                    }) && final(self).keys == body
                } else {
                    *final(self) == (ProvisionTask {
                        stage: Stage::Failed,
                        failure: final(self).failure,
                        ..*old(self)
                    }) && (final(self).failure matches Some(
                        Error::Linux(LinuxError::GetPublicKey(u, b)),
                    ) && u@ == old(self).spec_uri() && b == body)
                },
                _ => step_mismatch(*old(self), *final(self)),
            }),
            old(self).stage matches Stage::WriteKeys ==> io_step(
                *old(self),
                *final(self),
                result,
                Stage::Chmod,
            ),
            old(self).stage matches Stage::Chmod ==> command_step(
                *old(self),
                *final(self),
                result,
                "chmod"@,
                Stage::Chown,
            ),
            old(self).stage matches Stage::Chown ==> command_step(
                *old(self),
                *final(self),
                result,
                "chown"@,
                Stage::Done,
            ),
            old(self).stage matches Stage::CheckUserJoin ==> (match result {
                StepResult::Lines { lines } => (match passwd_match_spec(
                    lines.deep_view(),
                    old(self).user_name@,
                ) {
                    Some(_) => *final(self) == (ProvisionTask {
                        stage: Stage::AddToGroup,
                        ..*old(self)
                    }),
                    None => *final(self) == (ProvisionTask {
                        stage: Stage::Failed,
                        failure: final(self).failure,
                        ..*old(self)
                    }) && (final(self).failure matches Some(Error::AccountMissing(h)) && h == old(
                        self,
                    ).local_host_name),
                }),
                _ => step_mismatch(*old(self), *final(self)),
            }),
            old(self).stage matches Stage::AddToGroup ==> command_step(
                *old(self),
                *final(self),
                result,
                "usermod"@,
                Stage::Done,
            ),
            old(self).stage matches Stage::Done ==> *final(self) == *old(self),
            old(self).stage matches Stage::Failed ==> *final(self) == *old(self),
    {
        match (self.stage, result) {
            (Stage::Done, _) => {},
            (Stage::Failed, _) => {},
            (Stage::CheckKeys, StepResult::Http { success, body }) => {
                if success {
                    self.stage = if self.gid.is_some() {
                        Stage::CheckGroup
                    } else {
                        Stage::CheckUserAbsent
                    };
                } else {
                    let uri = fill_template(self.uri_format.as_str(), self.user_name.as_str());
                    self.failure = Some(Error::Linux(LinuxError::HeadPublicKey(uri, body)));
                    self.stage = Stage::Failed;
                }
            },
            (Stage::CheckGroup, StepResult::Lines { lines }) => {
                let g = match &self.gid {
                    Some(g) => g.clone(),
                    None => {
                        proof {
                            assert(false);
                        }
                        String::new()
                    },
                };
                match group_exist(&lines, g.as_str()) {
                    Some(name) => {
                        self.failure = Some(
                            Error::Linux(LinuxError::GIDAlreadyExists(g, name)),
                        );
                        self.stage = Stage::Failed;
                    },
                    None => {
                        self.stage = Stage::AddGroup;
                    },
                }
            },
            (Stage::AddGroup, StepResult::Status { success, code }) => {
                self.command_result("groupadd", success, code, Stage::CheckUserAbsent);
            },
            (Stage::CheckUserAbsent, StepResult::Lines { lines }) => {
                match etc_passwd(&lines, self.user_name.as_str()) {
                    Some(_) => {
                        self.failure = Some(Error::AccountExists(self.local_host_name.clone()));
                        self.stage = Stage::Failed;
                    },
                    None => {
                        self.stage = Stage::AddUser;
                    },
                }
            },
            (Stage::AddUser, StepResult::Status { success, code }) => {
                self.command_result("useradd", success, code, Stage::LookupHome);
            },
            (Stage::LookupHome, StepResult::Lines { lines }) => {
                match etc_passwd(&lines, self.user_name.as_str()) {
                    None => {
                        self.failure = Some(Error::AccountMissing(self.local_host_name.clone()));
                        self.stage = Stage::Failed;
                    },
                    Some(line) => {
                        let home = home_directory(line);
                        let hd = home.as_str();
                        let parts = [hd, ".ssh"];
                        proof {
                            assert(parts.deep_view() =~= seq![home@, ".ssh"@]);
                        }
                        let dir = match path_join(&parts) {
                            Ok(p) => p,
                            Err(_) => {
                                proof {
                                    assert(false);
                                }
                                String::new()
                            },
                        };
                        self.ssh_dir = dir;
                        self.stage = Stage::MakeSshDir;
                    },
                }
            },
            (Stage::MakeSshDir, StepResult::Io { ok, message }) => {
                self.io_result(ok, message, Stage::FetchKeys);
            },
            (Stage::FetchKeys, StepResult::Http { success, body }) => {
                if success {
                    self.keys = body;
                    self.stage = Stage::WriteKeys;
                } else {
                    let uri = fill_template(self.uri_format.as_str(), self.user_name.as_str());
                    self.failure = Some(Error::Linux(LinuxError::GetPublicKey(uri, body)));
                    self.stage = Stage::Failed;
                }
            },
            (Stage::WriteKeys, StepResult::Io { ok, message }) => {
                self.io_result(ok, message, Stage::Chmod);
            },
            (Stage::Chmod, StepResult::Status { success, code }) => {
                self.command_result("chmod", success, code, Stage::Chown);
            },
            (Stage::Chown, StepResult::Status { success, code }) => {
                self.command_result("chown", success, code, Stage::Done);
            },
            (Stage::CheckUserJoin, StepResult::Lines { lines }) => {
                match etc_passwd(&lines, self.user_name.as_str()) {
                    Some(_) => {
                        self.stage = Stage::AddToGroup;
                    },
                    None => {
                        self.failure = Some(Error::AccountMissing(self.local_host_name.clone()));
                        self.stage = Stage::Failed;
                    },
                }
            },
            (Stage::AddToGroup, StepResult::Status { success, code }) => {
                self.command_result("usermod", success, code, Stage::Done);
            },
            (_, _) => {
                self.failure = Some(Error::Internal("unexpected step result".to_owned()));
                self.stage = Stage::Failed;
            },
        }
    }

    /// Applies a finished command's status: move on, or fail with its error.
    fn command_result(
        &mut self,
        command: &'static str,
        success: bool,
        code: Option<i32>,
        next: Stage,
    )
        requires
            !(next matches Stage::Failed),
            !(next matches Stage::AddGroup),
            !(next matches Stage::CheckGroup) || old(self).gid is Some,
        ensures
            command_step(
                *old(self),
                *final(self),
                StepResult::Status { success, code },
                command@,
                next,
            ),
            final(self).wf(),
    {
        match from_command_status(command, success, code) {
            Ok(_) => {
                self.stage = next;
            },
            Err(e) => {
                self.failure = Some(Error::Linux(e));
                self.stage = Stage::Failed;
            },
        }
    }

    /// Applies a file or directory step's outcome: move on, or fail with the
    /// reported cause.
    fn io_result(&mut self, ok: bool, message: String, next: Stage)
        requires
            !(next matches Stage::Failed),
            !(next matches Stage::AddGroup),
            !(next matches Stage::CheckGroup),
        ensures
            io_step(*old(self), *final(self), StepResult::Io { ok, message }, next),
            final(self).wf(),
    {
        if ok {
            self.stage = next;
        } else {
            self.failure = Some(Error::Io(message));
            self.stage = Stage::Failed;
        }
    }

    /// The finished action's outcome: success, its failure, or nothing while
    /// steps remain.
    pub fn into_outcome(self) -> (r: Option<Result<(), Error>>)
        requires
            self.wf(),
        ensures
            self.stage matches Stage::Done ==> r == Some(Result::<(), Error>::Ok(())),
            self.stage matches Stage::Failed ==> r matches Some(Err(e)) && Some(e) == self.failure,
            !(self.stage matches Stage::Done) && !(self.stage matches Stage::Failed) ==> r is None,
    {
        match self.stage {
            Stage::Done => Some(Ok(())),
            Stage::Failed => match self.failure {
                Some(e) => Some(Err(e)),
                None => {
                    proof {
                        assert(false);
                    }
                    None
                },
            },
            _ => None,
        }
    }
}

/// A command stage's transition: on success the task moves to `next`, on a
/// failure it carries the command's typed error.
pub open spec fn command_step(
    o: ProvisionTask,
    f: ProvisionTask,
    result: StepResult,
    command: Seq<char>,
    next: Stage,
) -> bool {
    match result {
        StepResult::Status { success, code } => if success {
            f == (ProvisionTask { stage: next, ..o })
        } else {
            f == (ProvisionTask { stage: Stage::Failed, failure: f.failure, ..o }) && (match code {
                Some(c) => f.failure matches Some(Error::Linux(LinuxError::Command(name, c2)))
                    && name@ == command && c2 == c,
                None => f.failure matches Some(Error::Linux(LinuxError::CommandKilled(name)))
                    && name@ == command,
            })
        },
        _ => step_mismatch(o, f),
    }
}

/// A file or directory stage's transition: on success the task moves to
/// `next`, otherwise it carries the reported cause verbatim.
pub open spec fn io_step(o: ProvisionTask, f: ProvisionTask, result: StepResult, next: Stage) -> bool {
    match result {
        StepResult::Io { ok, message } => if ok {
            f == (ProvisionTask { stage: next, ..o })
        } else {
            f == (ProvisionTask { stage: Stage::Failed, failure: f.failure, ..o }) && (
            f.failure matches Some(Error::Io(m)) && m == message)
        },
        _ => step_mismatch(o, f),
    }
}

/// The home directory recorded in an account-table line: its sixth field.
pub fn home_directory(passwd_line: String) -> (r: String)
    requires
        split_char_spec(passwd_line@, ':').len() >= 6,
    ensures
        r@ == split_char_spec(passwd_line@, ':')[5],
{
    let fields = split_char(passwd_line.as_str(), ':');
    proof {
        assert(fields.deep_view().len() == fields@.len());
        assert(fields.deep_view()[5] == split_char_spec(passwd_line@, ':')[5]);
    }
    fields[5].clone()
}

} // verus!
