use gh_repo_create::Action;
use gh_repo_create::Error;
use gh_repo_create::Event;
use gh_repo_create::Options;
use gh_repo_create::Runner;

fn demo_options() -> Options {
    Options {
        repo_name: String::from("demo"),
        private: false,
        org: None,
    }
}

fn expect_vcs(runner: &Runner, expected_args: &[&str]) {
    match runner.next_action() {
        Some(Action::RunVcs { dir, args }) => {
            assert_eq!(dir, "demo");
            let got: Vec<&str> = args.iter().map(|a| a.as_str()).collect();
            assert_eq!(got, expected_args);
        }
        other => panic!("expected a VCS action, got {:?}", action_name(&other)),
    }
}

fn action_name(a: &Option<Action>) -> &'static str {
    match a {
        None => "none",
        Some(Action::CreateDir { .. }) => "create dir",
        Some(Action::WriteSeed { .. }) => "write seed",
        Some(Action::RunVcs { .. }) => "run vcs",
        Some(Action::CallApi { .. }) => "call api",
        Some(Action::ParseBody { .. }) => "parse body",
    }
}

#[test]
fn successful_end_to_end_run() {
    let mut runner = Runner::new(demo_options(), Some(String::from("tok")));

    match runner.next_action() {
        Some(Action::CreateDir { name }) => assert_eq!(name, "demo"),
        other => panic!("expected create dir, got {}", action_name(&other)),
    }
    runner.on_event(Event::DirOk);

    match runner.next_action() {
        Some(Action::WriteSeed { dir, content }) => {
            assert_eq!(dir, "demo");
            assert_eq!(content, "# demo\n");
        }
        other => panic!("expected write seed, got {}", action_name(&other)),
    }
    runner.on_event(Event::SeedOk);

    expect_vcs(&runner, &["init"]);
    runner.on_event(Event::VcsOk);
    expect_vcs(&runner, &["add", "."]);
    runner.on_event(Event::VcsOk);
    expect_vcs(&runner, &["commit", "-m", "Initial commit"]);
    runner.on_event(Event::VcsOk);

    match runner.next_action() {
        Some(Action::CallApi {
            url,
            body,
            auth,
            accept,
            user_agent,
        }) => {
            assert_eq!(url, "https://api.github.com/user/repos");
            assert_eq!(body, "{\"name\":\"demo\",\"private\":false}");
            assert_eq!(auth, "token tok");
            assert_eq!(accept, "application/vnd.github+json");
            assert_eq!(user_agent, "gh-repo-create-cli");
        }
        other => panic!("expected api call, got {}", action_name(&other)),
    }
    runner.on_event(Event::ApiResponded {
        status: 201,
        body: String::from("{\"ssh_url\":\"git@host:user/demo.git\"}"),
    });

    match runner.next_action() {
        Some(Action::ParseBody { body }) => {
            assert_eq!(body, "{\"ssh_url\":\"git@host:user/demo.git\"}");
        }
        other => panic!("expected parse body, got {}", action_name(&other)),
    }
    runner.on_event(Event::ParsedOk {
        ssh_url: String::from("git@host:user/demo.git"),
    });

    expect_vcs(&runner, &["remote", "add", "origin", "git@host:user/demo.git"]);
    runner.on_event(Event::VcsOk);
    expect_vcs(&runner, &["branch", "-M", "main"]);
    runner.on_event(Event::VcsOk);
    expect_vcs(&runner, &["push", "-u", "origin", "main"]);
    runner.on_event(Event::VcsOk);

    assert!(runner.finished());
    assert!(!runner.is_failed());
    assert!(runner.next_action().is_none());
    match runner.outcome() {
        Some(Ok(url)) => assert_eq!(url, "git@host:user/demo.git"),
        _ => panic!("expected a successful outcome"),
    }
}

#[test]
fn missing_credential_fails_before_any_action() {
    let mut runner = Runner::new(demo_options(), None);
    assert!(runner.next_action().is_none());
    assert!(runner.is_failed());

    runner.on_event(Event::DirOk);
    assert!(runner.is_failed());
    assert!(runner.next_action().is_none());

    match runner.outcome() {
        Some(Err(e)) => {
            let msg = e.message();
            assert!(msg.contains("GITHUB_TOKEN"));
        }
        _ => panic!("expected a failed outcome"),
    }
}

#[test]
fn organization_run_targets_org_endpoint() {
    let mut runner = Runner::new(
        Options {
            repo_name: String::from("demo"),
            private: true,
            org: Some(String::from("acme")),
        },
        Some(String::from("tok")),
    );
    runner.on_event(Event::DirOk);
    runner.on_event(Event::SeedOk);
    runner.on_event(Event::VcsOk);
    runner.on_event(Event::VcsOk);
    runner.on_event(Event::VcsOk);
    match runner.next_action() {
        Some(Action::CallApi { url, body, .. }) => {
            assert_eq!(url, "https://api.github.com/orgs/acme/repos");
            assert_eq!(body, "{\"name\":\"demo\",\"private\":true}");
        }
        other => panic!("expected api call, got {}", action_name(&other)),
    }
}

#[test]
fn vcs_failure_halts_the_run_before_the_network_call() {
    let mut runner = Runner::new(demo_options(), Some(String::from("tok")));
    runner.on_event(Event::DirOk);
    runner.on_event(Event::SeedOk);
    runner.on_event(Event::VcsOk);
    runner.on_event(Event::VcsOk);
    // The commit fails: the run must end here, never reaching the API call.
    runner.on_event(Event::VcsErr {
        stderr: String::from("fatal: unable to commit"),
    });
    assert!(runner.is_failed());
    assert!(runner.next_action().is_none());
    match runner.outcome() {
        Some(Err(e)) => {
            let msg = e.message();
            assert_eq!(
                msg,
                "git commit -m Initial commit failed: fatal: unable to commit"
            );
            assert!(msg.contains("fatal: unable to commit"));
        }
        _ => panic!("expected a failed outcome"),
    }
}

#[test]
fn vcs_launch_failure_halts_the_run() {
    let mut runner = Runner::new(demo_options(), Some(String::from("tok")));
    runner.on_event(Event::DirOk);
    runner.on_event(Event::SeedOk);
    runner.on_event(Event::VcsLaunchErr {
        cause: String::from("No such file or directory"),
    });
    assert!(runner.is_failed());
    assert!(runner.next_action().is_none());
    match runner.outcome() {
        Some(Err(e)) => {
            assert_eq!(e.message(), "running git init: No such file or directory");
        }
        _ => panic!("expected a failed outcome"),
    }
}

#[test]
fn api_rejection_halts_the_run_with_status_and_body() {
    let mut runner = Runner::new(demo_options(), Some(String::from("tok")));
    runner.on_event(Event::DirOk);
    runner.on_event(Event::SeedOk);
    runner.on_event(Event::VcsOk);
    runner.on_event(Event::VcsOk);
    runner.on_event(Event::VcsOk);
    runner.on_event(Event::ApiResponded {
        status: 422,
        body: String::from("name already exists"),
    });
    assert!(runner.is_failed());
    assert!(runner.next_action().is_none());
    match runner.outcome() {
        Some(Err(e)) => {
            let msg = e.message();
            assert_eq!(
                msg,
                "GitHub repo creation failed: 422 name already exists"
            );
            assert!(msg.contains("422"));
            assert!(msg.contains("name already exists"));
        }
        _ => panic!("expected a failed outcome"),
    }
}

#[test]
fn transport_failure_halts_the_run() {
    let mut runner = Runner::new(demo_options(), Some(String::from("tok")));
    runner.on_event(Event::DirOk);
    runner.on_event(Event::SeedOk);
    runner.on_event(Event::VcsOk);
    runner.on_event(Event::VcsOk);
    runner.on_event(Event::VcsOk);
    runner.on_event(Event::ApiTransportErr {
        cause: String::from("connection refused"),
    });
    assert!(runner.is_failed());
    match runner.outcome() {
        Some(Err(e)) => {
            assert_eq!(e.message(), "GitHub API request failed: connection refused");
        }
        _ => panic!("expected a failed outcome"),
    }
}

#[test]
fn parse_failure_halts_the_run() {
    let mut runner = Runner::new(demo_options(), Some(String::from("tok")));
    runner.on_event(Event::DirOk);
    runner.on_event(Event::SeedOk);
    runner.on_event(Event::VcsOk);
    runner.on_event(Event::VcsOk);
    runner.on_event(Event::VcsOk);
    runner.on_event(Event::ApiResponded {
        status: 200,
        body: String::from("{}"),
    });
    runner.on_event(Event::ParseErr {
        cause: String::from("missing field ssh_url"),
    });
    assert!(runner.is_failed());
    match runner.outcome() {
        Some(Err(e)) => {
            assert_eq!(
                e.message(),
                "parsing GitHub API response: missing field ssh_url"
            );
        }
        _ => panic!("expected a failed outcome"),
    }
}

#[test]
fn filesystem_failures_halt_the_run() {
    let mut runner = Runner::new(demo_options(), Some(String::from("tok")));
    runner.on_event(Event::DirErr {
        cause: String::from("permission denied"),
    });
    assert!(runner.is_failed());
    assert!(runner.next_action().is_none());
    match runner.outcome() {
        Some(Err(e)) => {
            assert_eq!(e.message(), "creating directory demo: permission denied");
        }
        _ => panic!("expected a failed outcome"),
    }

    let mut runner = Runner::new(demo_options(), Some(String::from("tok")));
    runner.on_event(Event::DirOk);
    runner.on_event(Event::SeedErr {
        cause: String::from("disk full"),
    });
    assert!(runner.is_failed());
    match runner.outcome() {
        Some(Err(e)) => {
            assert_eq!(e.message(), "writing README.md: disk full");
        }
        _ => panic!("expected a failed outcome"),
    }
}

#[test]
fn unexpected_events_leave_the_state_alone() {
    let mut runner = Runner::new(demo_options(), Some(String::from("tok")));
    // The run waits for the directory; other reports do not move it.
    runner.on_event(Event::VcsOk);
    runner.on_event(Event::ParsedOk {
        ssh_url: String::from("git@host:user/demo.git"),
    });
    assert!(!runner.finished());
    match runner.next_action() {
        Some(Action::CreateDir { name }) => assert_eq!(name, "demo"),
        other => panic!("expected create dir, got {}", action_name(&other)),
    }
}
