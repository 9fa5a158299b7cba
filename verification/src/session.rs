use vstd::prelude::*;
use crate::json::{Json, json_get, opt_str, parse_json, serde_parse};
use crate::output::{CliOutput, OutputView, failed, failed_with, succeeded};
use crate::text::{decimal, decimal_i32, join2, join3};

verus! {

/// The home directory assumed when `HOME` is not set.
pub const DEFAULT_HOME: &'static str = "/Users/admin";

/// Where the session file lies below a home directory.
pub const AUTH_FILE_IN_HOME: &'static str = ".grok/auth.json";

/// The session file of the default home directory.
pub const ADMIN_AUTH_FILE: &'static str = "/Users/admin/.grok/auth.json";

/// The session file of the root user.
pub const ROOT_AUTH_FILE: &'static str = "/root/.grok/auth.json";

/// Where the `grok` binary lies below a home directory.
pub const GROK_BIN_IN_HOME: &'static str = ".grok/bin/grok";

/// The first argument of the login program.
pub const LOGIN_COMMAND: &'static str = "login";

/// The flag that selects the device-authorization flow.
pub const LOGIN_DEVICE_FLAG: &'static str = "--device-auth";

/// The program run when no `grok` binary lies in the home directory.
pub const GROK_PROGRAM: &'static str = "grok";

/// `base` joined with the relative path `rel`, as `Path::join` does on Unix:
/// a `/` goes between them unless `base` is empty or already ends in `/`.
pub open spec fn join_path(base: Seq<char>, rel: Seq<char>) -> Seq<char> {
    if base.len() == 0 {
        rel
    } else if base.last() == '/' {
        base + rel
    } else {
        base + seq!['/'] + rel
    }
}

/// The view of an optional text.
pub open spec fn opt_view(o: Option<String>) -> Option<Seq<char>> {
    match o {
        Some(s) => Some(s@),
        None => None,
    }
}

/// `o`, or `d` when `o` is absent.
pub open spec fn text_or(o: Option<Seq<char>>, d: Seq<char>) -> Seq<char> {
    match o {
        Some(s) => s,
        None => d,
    }
}

/// The home directory in use: `HOME`, else the default.
pub open spec fn home_dir(home: Option<Seq<char>>) -> Seq<char> {
    text_or(home, DEFAULT_HOME@)
}

/// The places searched for the session file, in order: below `HOME` (when
/// it is set), below the default home, below `/root`.
pub open spec fn auth_candidates(home: Option<Seq<char>>) -> Seq<Seq<char>> {
    match home {
        Some(h) => seq![join_path(h, AUTH_FILE_IN_HOME@), ADMIN_AUTH_FILE@, ROOT_AUTH_FILE@],
        None => seq![ADMIN_AUTH_FILE@, ROOT_AUTH_FILE@],
    }
}

/// The first candidate that exists, counting from `from`.
pub open spec fn first_existing(cands: Seq<Seq<char>>, exists: Seq<bool>, from: int) -> Option<Seq<char>>
    decreases cands.len() - from,
{
    if from < 0 || from >= cands.len() {
        None
    } else if exists[from] {
        Some(cands[from])
    } else {
        first_existing(cands, exists, from + 1)
    }
}

/// The session file in use: the first candidate that exists, else the one
/// below the home directory in use.
pub open spec fn auth_path_of(home: Option<Seq<char>>, exists: Seq<bool>) -> Seq<char> {
    text_or(
        first_existing(auth_candidates(home), exists, 0),
        join_path(home_dir(home), AUTH_FILE_IN_HOME@),
    )
}

/// Join a base path and a relative path (`Path::join` on Unix).
pub fn path_join(base: &str, rel: &str) -> (p: String)
    ensures
        p@ == join_path(base@, rel@),
{
    let n = base.unicode_len();
    if n == 0 {
        String::from_str(rel)
    } else if base.get_char(n - 1) == '/' {
        join2(base, rel)
    } else {
        proof { reveal_strlit("/"); }
        let p = join3(base, "/", rel);
        p
    }
}

fn home_or_default(home: &Option<String>) -> (h: &str)
    ensures
        h@ == home_dir(opt_view(*home)),
{
    match home {
        Some(h) => h.as_str(),
        None => DEFAULT_HOME,
    }
}

/// The places where the session file is looked for, in order; the caller
/// tells `grok_auth_path` which of them exist.
pub fn auth_path_candidates(home: &Option<String>) -> (c: Vec<String>)
    ensures
        c@.map_values(|s: String| s@) == auth_candidates(opt_view(*home)),
{
    let mut c: Vec<String> = Vec::new();
    match home {
        Some(h) => {
            c.push(path_join(h.as_str(), AUTH_FILE_IN_HOME));
        },
        None => {},
    }
    c.push(String::from_str(ADMIN_AUTH_FILE));
    c.push(String::from_str(ROOT_AUTH_FILE));
    assert(c@.map_values(|s: String| s@) =~= auth_candidates(opt_view(*home)));
    c
}

/// The session file to read: the first of `auth_path_candidates(home)`
/// that exists (`exists` says which do), else the one below `HOME` or the
/// default home.
pub fn grok_auth_path(home: &Option<String>, exists: &Vec<bool>) -> (p: String)
    requires
        exists@.len() == auth_candidates(opt_view(*home)).len(),
    ensures
        p@ == auth_path_of(opt_view(*home), exists@),
{
    let cands = auth_path_candidates(home);
    let ghost cs = auth_candidates(opt_view(*home));
    assert(cands@.len() == cs.len());
    let n = cands.len();
    let mut i: usize = 0;
    while i < n
        invariant
            n == cands@.len(),
            n == cs.len(),
            cs == auth_candidates(opt_view(*home)),
            n == exists@.len(),
            forall|k: int| 0 <= k < n ==> (#[trigger] cands@[k])@ == cs[k],
            i <= n,
            first_existing(cs, exists@, 0) == first_existing(cs, exists@, i as int),
        decreases n - i,
    {
        assert(cands@.map_values(|s: String| s@)[i as int] == cs[i as int]);
        if exists[i] {
            assert(first_existing(cs, exists@, i as int) == Some(cs[i as int]));
            let found = String::from_str(cands[i].as_str());
            return found;
        }
        i = i + 1;
    }
    path_join(home_or_default(home), AUTH_FILE_IN_HOME)
}

/// What became of reading the session file: it does not exist, it could
/// not be read (with the error's text), or its contents.
#[derive(Debug, PartialEq, Eq)]
pub enum AuthFile {
    Missing,
    Unreadable(String),
    Contents(String),
}

/// The text of member `key` of `v` when it is a JSON string, else `d`.
pub open spec fn field_text(v: Json, key: Seq<char>, d: Seq<char>) -> Seq<char> {
    text_or(opt_str(json_get(v, key)), d)
}

/// The report that `maw grok status` prints for a session whose first
/// credential is stored under `key` with the fields of `v`.
pub open spec fn status_report(key: Seq<char>, v: Json) -> Seq<char> {
    "grok session status:\n  email      "@ + field_text(v, "email"@, "unknown"@)
        + "\n  user       "@ + field_text(v, "first_name"@, ""@) + " "@
        + field_text(v, "last_name"@, ""@) + "\n  team_id    "@
        + field_text(v, "team_id"@, "unknown"@) + "\n  expires_at "@
        + field_text(v, "expires_at"@, "unknown"@) + "\n  source     "@ + key + "\n"@
}

/// What `maw grok status` answers for the session file at `path`.
pub open spec fn status_outcome(path: Seq<char>, file: AuthFile) -> OutputView {
    match file {
        AuthFile::Missing => failed(
            "grok: no active session found at "@ + path
                + ". Please run 'maw grok login' to authenticate.\n"@,
        ),
        AuthFile::Unreadable(e) => failed(
            "grok: failed to read auth.json at "@ + path + ": "@ + e@ + "\n"@,
        ),
        AuthFile::Contents(raw) => match serde_parse(raw@) {
            Err(e) => failed("grok: failed to parse auth.json: "@ + e + "\n"@),
            Ok(Json::Object(members)) => if members@.len() == 0 {
                failed("grok: auth.json contains no credentials. Run 'maw grok login' first.\n"@)
            } else {
                succeeded(status_report(members@[0].key@, members@[0].value))
            },
            Ok(_) => failed("grok: invalid auth.json structure\n"@),
        },
    }
}

/// What reading the API token from the session file at `path` gives.
pub open spec fn token_outcome(path: Seq<char>, file: AuthFile) -> Result<Seq<char>, Seq<char>> {
    match file {
        AuthFile::Missing => Err(
            "no active session found at "@ + path + ". Run 'maw grok login' first."@,
        ),
        AuthFile::Unreadable(e) => Err("failed to read auth.json at "@ + path + ": "@ + e@),
        AuthFile::Contents(raw) => match serde_parse(raw@) {
            Err(e) => Err("failed to parse auth.json: "@ + e),
            Ok(Json::Object(members)) => if members@.len() == 0 {
                Err("auth.json is empty. Run 'maw grok login' first."@)
            } else {
                match opt_str(json_get(members@[0].value, "key"@)) {
                    Some(t) => Ok(t),
                    None => Err("missing 'key' field in auth.json"@),
                }
            },
            Ok(_) => Err("invalid auth.json structure"@),
        },
    }
}

/// The text of member `key` of `v` when it is a JSON string, else `d`
/// (`v.get(key).and_then(Value::as_str).unwrap_or(d)`).
pub fn field_or(v: &Json, key: &str, d: &str) -> (s: String)
    ensures
        s@ == field_text(*v, key@, d@),
{
    match v.get(key) {
        Some(w) => match w.as_str() {
            Some(t) => String::from_str(t),
            None => String::from_str(d),
        },
        None => String::from_str(d),
    }
}

fn status_text(key: &str, v: &Json) -> (s: String)
    ensures
        s@ == status_report(key@, *v),
{
    let email = field_or(v, "email", "unknown");
    let first = field_or(v, "first_name", "");
    let last = field_or(v, "last_name", "");
    let team = field_or(v, "team_id", "unknown");
    let expires = field_or(v, "expires_at", "unknown");
    let mut s = String::from_str("grok session status:\n  email      ");
    s.append(email.as_str());
    s.append("\n  user       ");
    s.append(first.as_str());
    s.append(" ");
    s.append(last.as_str());
    s.append("\n  team_id    ");
    s.append(team.as_str());
    s.append("\n  expires_at ");
    s.append(expires.as_str());
    s.append("\n  source     ");
    s.append(key);
    s.append("\n");
    assert(s@ =~= status_report(key@, *v));
    s
}

/// `maw grok status`: report the first credential of the session file at
/// `auth_path`, or why there is none.
pub fn grok_status(auth_path: &str, file: &AuthFile) -> (o: CliOutput)
    ensures
        o@ == status_outcome(auth_path@, *file),
{
    match file {
        AuthFile::Missing => {
            let mut s = String::from_str("grok: no active session found at ");
            s.append(auth_path);
            s.append(". Please run 'maw grok login' to authenticate.\n");
            CliOutput::failure(s)
        },
        AuthFile::Unreadable(e) => {
            let mut s = String::from_str("grok: failed to read auth.json at ");
            s.append(auth_path);
            s.append(": ");
            s.append(e.as_str());
            s.append("\n");
            CliOutput::failure(s)
        },
        AuthFile::Contents(raw) => match parse_json(raw.as_str()) {
            Err(e) => CliOutput::failure(join3("grok: failed to parse auth.json: ", e.as_str(), "\n")),
            Ok(json) => match &json {
                Json::Object(members) => {
                    if members.len() == 0 {
                        CliOutput::failure(
                            String::from_str(
                                "grok: auth.json contains no credentials. Run 'maw grok login' first.\n",
                            ),
                        )
                    } else {
                        CliOutput::success(status_text(members[0].key.as_str(), &members[0].value))
                    }
                },
                _ => CliOutput::failure(String::from_str("grok: invalid auth.json structure\n")),
            },
        },
    }
}

/// The xAI API token stored as `key` of the first credential in the
/// session file at `auth_path`, or why there is none.
pub fn grok_get_token(auth_path: &str, file: &AuthFile) -> (r: Result<String, String>)
    ensures
        match r {
            Ok(t) => token_outcome(auth_path@, *file) == Ok::<Seq<char>, Seq<char>>(t@),
            Err(e) => token_outcome(auth_path@, *file) == Err::<Seq<char>, Seq<char>>(e@),
        },
{
    match file {
        AuthFile::Missing => Err(join3("no active session found at ", auth_path, ". Run 'maw grok login' first.")),
        AuthFile::Unreadable(e) => {
            let mut s = String::from_str("failed to read auth.json at ");
            s.append(auth_path);
            s.append(": ");
            s.append(e.as_str());
            Err(s)
        },
        AuthFile::Contents(raw) => match parse_json(raw.as_str()) {
            Err(e) => Err(join2("failed to parse auth.json: ", e.as_str())),
            Ok(json) => match &json {
                Json::Object(members) => {
                    if members.len() == 0 {
                        Err(String::from_str("auth.json is empty. Run 'maw grok login' first."))
                    } else {
                        match members[0].value.get("key") {
                            Some(w) => match w.as_str() {
                                Some(t) => Ok(String::from_str(t)),
                                None => Err(String::from_str("missing 'key' field in auth.json")),
                            },
                            None => Err(String::from_str("missing 'key' field in auth.json")),
                        }
                    }
                },
                _ => Err(String::from_str("invalid auth.json structure")),
            },
        },
    }
}

/// A readable session always has a status: whenever a token can be read
/// from the session file, `maw grok status` succeeds on the same file, and
/// whenever `maw grok status` fails, no token can be read.
pub proof fn lemma_token_implies_status(path: Seq<char>, file: AuthFile)
    ensures
        token_outcome(path, file) is Ok ==> status_outcome(path, file).code == 0,
        status_outcome(path, file).code != 0 ==> token_outcome(path, file) is Err,
{
}

/// The path of the `grok` binary below the home directory in use; the
/// caller checks whether it exists.
pub fn login_binary_path(home: &Option<String>) -> (p: String)
    ensures
        p@ == join_path(home_dir(opt_view(*home)), GROK_BIN_IN_HOME@),
{
    path_join(home_or_default(home), GROK_BIN_IN_HOME)
}

/// The program that `maw grok login` runs: the binary in the home directory
/// when it exists, else `grok` from the search path.
pub fn grok_login_program(home: &Option<String>, binary_exists: bool) -> (p: String)
    ensures
        binary_exists ==> p@ == join_path(home_dir(opt_view(*home)), GROK_BIN_IN_HOME@),
        !binary_exists ==> p@ == GROK_PROGRAM@,
{
    if binary_exists {
        login_binary_path(home)
    } else {
        String::from_str(GROK_PROGRAM)
    }
}

/// How running `grok login --device-auth` ended: it exited (with its exit
/// code, none when a signal ended it), or it could not be started (with the
/// error's text).
#[derive(Debug, PartialEq, Eq)]
pub enum LoginRun {
    Exited(Option<i32>),
    SpawnFailed(String),
}

/// What `maw grok login` answers for how the login program ended. An exit
/// counts as success exactly when its code is 0 (`ExitStatus::success`).
pub open spec fn login_outcome(run: LoginRun) -> OutputView {
    match run {
        LoginRun::Exited(Some(0i32)) => succeeded("grok: login successful!\n"@),
        LoginRun::Exited(code) => {
            let c: int = match code {
                Some(c) => c as int,
                None => 1,
            };
            failed_with(c, "grok: login failed with exit code "@ + decimal(c) + "\n"@)
        },
        LoginRun::SpawnFailed(e) => failed("grok: failed to run grok login command: "@ + e@ + "\n"@),
    }
}

/// `maw grok login`: the answer for how the login program ended.
pub fn grok_login(run: &LoginRun) -> (o: CliOutput)
    ensures
        o@ == login_outcome(*run),
{
    match run {
        LoginRun::Exited(code) => {
            if *code == Some(0i32) {
                CliOutput::success(String::from_str("grok: login successful!\n"))
            } else {
                let c: i32 = match code {
                    Some(c) => *c,
                    None => 1,
                };
                let digits = decimal_i32(c);
                CliOutput::failure_code(
                    c,
                    join3("grok: login failed with exit code ", digits.as_str(), "\n"),
                )
            }
        },
        LoginRun::SpawnFailed(e) => CliOutput::failure(
            join3("grok: failed to run grok login command: ", e.as_str(), "\n"),
        ),
    }
}

} // verus!
