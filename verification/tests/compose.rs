use gh_repo_create::seed_content;
use gh_repo_create::creation_endpoint;
use gh_repo_create::request_body;
use gh_repo_create::json_escape;
use gh_repo_create::u16_to_string;
use gh_repo_create::auth_header_value;
use gh_repo_create::accept_header;
use gh_repo_create::user_agent;
use gh_repo_create::Error;

#[test]
fn seed_content_is_heading_and_newline() {
    assert_eq!(seed_content("demo"), "# demo\n");
    assert_eq!(seed_content("my-repo"), "# my-repo\n");
    assert_eq!(seed_content("a"), "# a\n");
}

#[test]
fn endpoint_personal_when_no_org() {
    assert_eq!(
        creation_endpoint(&None),
        "https://api.github.com/user/repos"
    );
}

#[test]
fn endpoint_organization_when_org_given() {
    assert_eq!(
        creation_endpoint(&Some(String::from("acme"))),
        "https://api.github.com/orgs/acme/repos"
    );
}

#[test]
fn request_body_public_repo() {
    assert_eq!(
        request_body("demo", false),
        "{\"name\":\"demo\",\"private\":false}"
    );
}

#[test]
fn request_body_private_repo() {
    assert_eq!(
        request_body("secret-repo", true),
        "{\"name\":\"secret-repo\",\"private\":true}"
    );
}

#[test]
fn json_escape_plain_text_unchanged() {
    assert_eq!(json_escape("demo"), "demo");
    assert_eq!(json_escape(""), "");
}

#[test]
fn json_escape_quotes_backslashes_and_controls() {
    assert_eq!(json_escape("a\"b"), "a\\\"b");
    assert_eq!(json_escape("a\\b"), "a\\\\b");
    assert_eq!(json_escape("a\nb"), "a\\u000ab");
    assert_eq!(json_escape("\u{1f}"), "\\u001f");
}

#[test]
fn request_body_escapes_the_name() {
    assert_eq!(
        request_body("we\"ird", true),
        "{\"name\":\"we\\\"ird\",\"private\":true}"
    );
}

#[test]
fn decimal_rendering() {
    assert_eq!(u16_to_string(0), "0");
    assert_eq!(u16_to_string(7), "7");
    assert_eq!(u16_to_string(201), "201");
    assert_eq!(u16_to_string(422), "422");
    assert_eq!(u16_to_string(65535), "65535");
}

#[test]
fn header_values() {
    assert_eq!(auth_header_value("tok123"), "token tok123");
    assert_eq!(accept_header(), "application/vnd.github+json");
    assert_eq!(user_agent(), "gh-repo-create-cli");
}

#[test]
fn missing_credential_message_names_the_variable() {
    let msg = Error::MissingCredential.message();
    assert_eq!(msg, "GITHUB_TOKEN is not set in the environment");
    assert!(msg.contains("GITHUB_TOKEN"));
}

#[test]
fn dir_create_message() {
    let e = Error::DirCreate {
        name: String::from("demo"),
        cause: String::from("permission denied"),
    };
    assert_eq!(e.message(), "creating directory demo: permission denied");
}

#[test]
fn seed_write_message() {
    let e = Error::SeedWrite {
        cause: String::from("disk full"),
    };
    assert_eq!(e.message(), "writing README.md: disk full");
}

#[test]
fn vcs_launch_message() {
    let e = Error::VcsLaunch {
        command: String::from("git init"),
        cause: String::from("No such file or directory"),
    };
    assert_eq!(e.message(), "running git init: No such file or directory");
}

#[test]
fn vcs_failure_message_carries_stderr() {
    let e = Error::VcsFailure {
        command: String::from("git commit -m Initial commit"),
        stderr: String::from("nothing to commit"),
    };
    let msg = e.message();
    assert_eq!(
        msg,
        "git commit -m Initial commit failed: nothing to commit"
    );
    assert!(msg.contains("nothing to commit"));
}

#[test]
fn transport_message() {
    let e = Error::Transport {
        cause: String::from("connection refused"),
    };
    assert_eq!(e.message(), "GitHub API request failed: connection refused");
}

#[test]
fn api_rejected_message_carries_status_and_body() {
    let e = Error::ApiRejected {
        status: 422,
        body: String::from("{\"message\":\"name already exists\"}"),
    };
    let msg = e.message();
    assert_eq!(
        msg,
        "GitHub repo creation failed: 422 {\"message\":\"name already exists\"}"
    );
    assert!(msg.contains("422"));
    assert!(msg.contains("{\"message\":\"name already exists\"}"));
}

#[test]
fn response_parse_message() {
    let e = Error::ResponseParse {
        cause: String::from("missing field ssh_url"),
    };
    assert_eq!(
        e.message(),
        "parsing GitHub API response: missing field ssh_url"
    );
}
