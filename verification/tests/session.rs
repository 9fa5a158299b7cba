use maw_grok::output::CliOutput;
use maw_grok::session::{
    auth_path_candidates, grok_auth_path, grok_get_token, grok_login, grok_login_program, grok_status,
    login_binary_path, path_join, AuthFile, LoginRun,
};

const AUTH: &str = r#"{"xai": {"email": "ada@example.com", "first_name": "Ada", "last_name": "Lovelace", "team_id": "team-7", "expires_at": "2030-01-01T00:00:00Z", "key": "xai-token-123"}}"#;

fn contents(s: &str) -> AuthFile {
    AuthFile::Contents(s.to_string())
}

#[test]
fn status_reports_first_credential() {
    let o = grok_status("/home/a/.grok/auth.json", &contents(AUTH));
    assert_eq!(o.code, 0);
    assert_eq!(o.stderr, "");
    assert_eq!(
        o.stdout,
        "grok session status:\n  email      ada@example.com\n  user       Ada Lovelace\n  team_id    team-7\n  expires_at 2030-01-01T00:00:00Z\n  source     xai\n"
    );
}

#[test]
fn status_fills_in_missing_fields() {
    let o = grok_status("p", &contents(r#"{"only": {"email": 5}}"#));
    assert_eq!(
        o.stdout,
        format!("grok session status:\n  email      unknown\n  user       {} {}\n  team_id    unknown\n  expires_at unknown\n  source     only\n", "", "")
    );
}

#[test]
fn status_uses_first_key_in_key_order() {
    let o = grok_status("p", &contents(r#"{"zeta": {"email": "z@x"}, "alpha": {"email": "a@x"}}"#));
    assert!(o.stdout.contains("  email      a@x\n"));
    assert!(o.stdout.ends_with("  source     alpha\n"));
}

#[test]
fn status_without_session_file() {
    let o = grok_status("/home/a/.grok/auth.json", &AuthFile::Missing);
    assert_eq!(
        o,
        CliOutput {
            code: 1,
            stdout: String::new(),
            stderr: "grok: no active session found at /home/a/.grok/auth.json. Please run 'maw grok login' to authenticate.\n".to_string()
        }
    );
}

#[test]
fn status_with_unreadable_file() {
    let o = grok_status("/x", &AuthFile::Unreadable("permission denied".to_string()));
    assert_eq!(o.stderr, "grok: failed to read auth.json at /x: permission denied\n");
    assert_eq!(o.code, 1);
}

#[test]
fn status_with_broken_json() {
    let o = grok_status("/x", &contents("{not json"));
    assert_eq!(o.code, 1);
    assert!(o.stderr.starts_with("grok: failed to parse auth.json: "));
    assert!(o.stderr.contains("line 1"));
    assert!(o.stderr.ends_with("\n"));
}

#[test]
fn status_with_non_object() {
    let o = grok_status("/x", &contents("[1, 2]"));
    assert_eq!(o.stderr, "grok: invalid auth.json structure\n");
}

#[test]
fn status_with_empty_object() {
    let o = grok_status("/x", &contents("{}"));
    assert_eq!(o.stderr, "grok: auth.json contains no credentials. Run 'maw grok login' first.\n");
}

#[test]
fn token_is_read_from_first_credential() {
    assert_eq!(grok_get_token("/x", &contents(AUTH)), Ok("xai-token-123".to_string()));
}

#[test]
fn token_errors() {
    assert_eq!(
        grok_get_token("/h/auth.json", &AuthFile::Missing),
        Err("no active session found at /h/auth.json. Run 'maw grok login' first.".to_string())
    );
    assert_eq!(
        grok_get_token("/h", &AuthFile::Unreadable("io".to_string())),
        Err("failed to read auth.json at /h: io".to_string())
    );
    assert!(grok_get_token("/h", &contents("")).unwrap_err().starts_with("failed to parse auth.json: "));
    assert_eq!(grok_get_token("/h", &contents("\"s\"")), Err("invalid auth.json structure".to_string()));
    assert_eq!(
        grok_get_token("/h", &contents("{}")),
        Err("auth.json is empty. Run 'maw grok login' first.".to_string())
    );
    assert_eq!(
        grok_get_token("/h", &contents(r#"{"a": {"key": 7}}"#)),
        Err("missing 'key' field in auth.json".to_string())
    );
    assert_eq!(
        grok_get_token("/h", &contents(r#"{"a": {"email": "x"}}"#)),
        Err("missing 'key' field in auth.json".to_string())
    );
}

#[test]
fn token_readable_means_status_succeeds() {
    for raw in [AUTH, r#"{"a": {"key": "k"}}"#] {
        assert!(grok_get_token("/p", &contents(raw)).is_ok());
        assert_eq!(grok_status("/p", &contents(raw)).code, 0);
    }
    // a status without a token is still a status
    assert!(grok_get_token("/p", &contents(r#"{"a": {}}"#)).is_err());
    assert_eq!(grok_status("/p", &contents(r#"{"a": {}}"#)).code, 0);
}

#[test]
fn paths_join_like_std() {
    assert_eq!(path_join("/home/a", ".grok/auth.json"), "/home/a/.grok/auth.json");
    assert_eq!(path_join("/home/a/", ".grok/auth.json"), "/home/a/.grok/auth.json");
    assert_eq!(path_join("", ".grok/auth.json"), ".grok/auth.json");
    for base in ["/home/a", "/home/a/", "", "rel"] {
        let p = std::path::PathBuf::from(base).join(".grok/bin/grok");
        assert_eq!(path_join(base, ".grok/bin/grok"), p.to_string_lossy());
    }
}

#[test]
fn auth_candidates_in_order() {
    assert_eq!(
        auth_path_candidates(&Some("/home/a".to_string())),
        vec!["/home/a/.grok/auth.json", "/Users/admin/.grok/auth.json", "/root/.grok/auth.json"]
    );
    assert_eq!(auth_path_candidates(&None), vec!["/Users/admin/.grok/auth.json", "/root/.grok/auth.json"]);
}

#[test]
fn auth_path_takes_first_existing() {
    let home = Some("/home/a".to_string());
    assert_eq!(grok_auth_path(&home, &vec![true, true, true]), "/home/a/.grok/auth.json");
    assert_eq!(grok_auth_path(&home, &vec![false, true, true]), "/Users/admin/.grok/auth.json");
    assert_eq!(grok_auth_path(&home, &vec![false, false, true]), "/root/.grok/auth.json");
    assert_eq!(grok_auth_path(&home, &vec![false, false, false]), "/home/a/.grok/auth.json");
    assert_eq!(grok_auth_path(&None, &vec![false, true]), "/root/.grok/auth.json");
    assert_eq!(grok_auth_path(&None, &vec![false, false]), "/Users/admin/.grok/auth.json");
}

#[test]
fn login_program_choice() {
    let home = Some("/home/a".to_string());
    assert_eq!(login_binary_path(&home), "/home/a/.grok/bin/grok");
    assert_eq!(login_binary_path(&None), "/Users/admin/.grok/bin/grok");
    assert_eq!(grok_login_program(&home, true), "/home/a/.grok/bin/grok");
    assert_eq!(grok_login_program(&home, false), "grok");
}

#[test]
fn login_outcomes() {
    assert_eq!(
        grok_login(&LoginRun::Exited(Some(0))),
        CliOutput { code: 0, stdout: "grok: login successful!\n".to_string(), stderr: String::new() }
    );
    assert_eq!(
        grok_login(&LoginRun::Exited(Some(2))),
        CliOutput { code: 2, stdout: String::new(), stderr: "grok: login failed with exit code 2\n".to_string() }
    );
    assert_eq!(
        grok_login(&LoginRun::Exited(Some(-3))),
        CliOutput { code: -3, stdout: String::new(), stderr: "grok: login failed with exit code -3\n".to_string() }
    );
    assert_eq!(
        grok_login(&LoginRun::Exited(None)),
        CliOutput { code: 1, stdout: String::new(), stderr: "grok: login failed with exit code 1\n".to_string() }
    );
    assert_eq!(
        grok_login(&LoginRun::SpawnFailed("No such file or directory (os error 2)".to_string())),
        CliOutput {
            code: 1,
            stdout: String::new(),
            stderr: "grok: failed to run grok login command: No such file or directory (os error 2)\n".to_string()
        }
    );
}

#[test]
fn grok_error_lines() {
    assert_eq!(
        CliOutput::grok_error("request failed: timeout"),
        CliOutput { code: 1, stdout: String::new(), stderr: "grok: request failed: timeout\n".to_string() }
    );
}
