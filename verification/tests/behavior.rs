use portal_login::config::{check_domain, Config, ConfigError};
use portal_login::login::{login_result, LoginFailure, LoginTask, ProcessOutcome};
use portal_login::paths::get_program_folder;
use portal_login::portal::{extract_login_url, ResolveProgress, Resolver, MAX_RESOLVE_ATTEMPTS};
use portal_login::probe::online_status;
use portal_login::scheduler::{action_of, step, Action, Event, State};

#[test]
fn probe_only_204_is_online() {
    assert!(online_status(Some(204)));
    assert!(!online_status(Some(200)));
    assert!(!online_status(Some(302)));
    assert!(!online_status(Some(500)));
    assert!(!online_status(None));
}

#[test]
fn probe_is_idempotent() {
    let first = online_status(Some(204));
    let second = online_status(Some(204));
    assert_eq!(first, second);
    let first = online_status(None);
    let second = online_status(None);
    assert_eq!(first, second);
}

#[test]
fn extract_exact_example() {
    let body = "<form action=\"https://w.example.edu/login?x=1\" method=\"post\">";
    let url = extract_login_url(body);
    assert_eq!(url.as_deref(), Some("https://w.example.edu/login?x=1"));
}

#[test]
fn extract_takes_leftmost_match() {
    let body = "action=\"https://w.example.edu/a\" action=\"https://w.example.edu/b\"";
    let url = extract_login_url(body);
    assert_eq!(url.as_deref(), Some("https://w.example.edu/a"));
}

#[test]
fn extract_needs_closing_quote() {
    let body = "action=\"https://w.example.edu/login";
    assert_eq!(extract_login_url(body), None);
}

#[test]
fn extract_needs_nonempty_path() {
    let body = "action=\"https://w.example.edu\"";
    assert_eq!(extract_login_url(body), None);
}

#[test]
fn extract_rejects_other_hosts() {
    let body = "action=\"https://evil.example.com/login\"";
    assert_eq!(extract_login_url(body), None);
    assert_eq!(extract_login_url(""), None);
    assert_eq!(extract_login_url("no form here"), None);
}

#[test]
fn extract_stops_at_disallowed_character() {
    let body = "action=\"https://w.example.edu/a b\"";
    assert_eq!(extract_login_url(body), None);
}

#[test]
fn resolver_finds_url_and_stops_counting_matches() {
    let mut resolver = Resolver::new();
    let miss = String::from("<html>nothing to see</html>");
    let hit = String::from("x action=\"https://w.example.edu/login/auth\" y");
    assert!(matches!(resolver.offer(Some(&miss)), ResolveProgress::Retry));
    assert!(matches!(resolver.offer(None), ResolveProgress::Retry));
    match resolver.offer(Some(&hit)) {
        ResolveProgress::Found(url) => assert_eq!(url, "https://w.example.edu/login/auth"),
        _ => panic!("expected a resolved URL"),
    }
    assert_eq!(resolver.attempts, 3);
}

#[test]
fn resolver_exhausts_after_five_misses() {
    let mut resolver = Resolver::new();
    let miss = String::from("still captive, no form action");
    for _ in 0..MAX_RESOLVE_ATTEMPTS - 1 {
        assert!(!resolver.exhausted());
        assert!(matches!(resolver.offer(Some(&miss)), ResolveProgress::Retry));
    }
    assert!(!resolver.exhausted());
    assert!(matches!(resolver.offer(Some(&miss)), ResolveProgress::Exhausted));
    assert!(resolver.exhausted());
    assert_eq!(resolver.attempts, 5);
}

#[test]
fn domain_tokens() {
    assert!(check_domain(""));
    assert!(check_domain("@dx"));
    assert!(check_domain("@lt"));
    assert!(check_domain("@yd"));
    assert!(!check_domain("@xx"));
    assert!(!check_domain("dx"));
}

#[test]
fn config_rejects_bad_domain() {
    let bad = Config::new("u".to_string(), "p".to_string(), "@zz".to_string());
    assert_eq!(bad.err(), Some(ConfigError::InvalidDomain));
    let good = Config::new("u".to_string(), "p".to_string(), "@dx".to_string());
    let config = good.expect("accepted domain");
    assert_eq!(config.username, "u");
    assert_eq!(config.password, "p");
    assert_eq!(config.domain, "@dx");
}

#[test]
fn login_env_holds_all_five_variables() {
    let task = LoginTask::new("alice".to_string(), "secret".to_string(), "@lt".to_string());
    let env = task.login_env("https://w.example.edu/login", false);
    assert_eq!(env.len(), 5);
    assert_eq!(env[0], ("NODE_ENV".to_string(), "production".to_string()));
    assert_eq!(
        env[1],
        (
            "XDWLAN_LOGIN_URL".to_string(),
            "https://w.example.edu/login".to_string()
        )
    );
    assert_eq!(env[2], ("XDWLAN_USERNAME".to_string(), "alice".to_string()));
    assert_eq!(env[3], ("XDWLAN_PASSWORD".to_string(), "secret".to_string()));
    assert_eq!(env[4], ("XDWLAN_DOMAIN".to_string(), "@lt".to_string()));
    let env = task.login_env("https://w.example.edu/login", true);
    assert_eq!(env[0].1, "development");
}

#[test]
fn login_result_reads_exit_status() {
    let ok = ProcessOutcome { success: true, exit_code: 0 };
    assert_eq!(login_result(&ok), Ok(()));
    let failed = ProcessOutcome { success: false, exit_code: 7 };
    assert_eq!(
        login_result(&failed),
        Err(LoginFailure::ProcessFailed { exit_code: 7 })
    );
}

#[test]
fn program_folder_is_parent_of_path() {
    assert_eq!(get_program_folder("/usr/local/bin/login"), "/usr/local/bin");
    assert_eq!(get_program_folder("/login"), "/");
    assert_eq!(get_program_folder("login"), "");
}

#[test]
fn scheduler_transitions() {
    assert_eq!(step(State::CheckingOnline, Event::ProbeDone { online: true }), State::IdlePolling);
    assert_eq!(
        step(State::CheckingOnline, Event::ProbeDone { online: false }),
        State::AttemptingLogin
    );
    assert_eq!(
        step(State::AttemptingLogin, Event::AttemptDone { success: false }),
        State::PostAttemptPause
    );
    assert_eq!(
        step(State::PostAttemptPause, Event::ElapsedProbed { online: true }),
        State::IdlePolling
    );
    assert_eq!(
        step(State::PostAttemptPause, Event::ElapsedProbed { online: false }),
        State::InterAttemptPause
    );
    assert_eq!(step(State::InterAttemptPause, Event::Elapsed), State::AttemptingLogin);
    assert_eq!(
        step(State::IdlePolling, Event::ElapsedProbed { online: true }),
        State::IdlePolling
    );
    assert_eq!(
        step(State::IdlePolling, Event::ElapsedProbed { online: false }),
        State::AttemptingLogin
    );
}

#[test]
fn scheduler_wait_budgets() {
    assert_eq!(action_of(State::CheckingOnline), Action::Probe);
    assert_eq!(action_of(State::AttemptingLogin), Action::Attempt);
    assert_eq!(action_of(State::PostAttemptPause), Action::WaitThenProbe { secs: 1 });
    assert_eq!(action_of(State::InterAttemptPause), Action::Wait { secs: 5 });
    assert_eq!(action_of(State::IdlePolling), Action::WaitThenProbe { secs: 60 });
    assert_eq!(action_of(State::Cancelled), Action::Finish);
}

#[test]
fn cancellation_in_any_pause_ends_the_loop() {
    for pause in [State::PostAttemptPause, State::InterAttemptPause, State::IdlePolling] {
        let cancelled = step(pause, Event::Quit);
        assert_eq!(cancelled, State::Cancelled);
        assert_eq!(action_of(cancelled), Action::Finish);
    }
    // The terminal state absorbs everything: no probe and no attempt follows.
    assert_eq!(step(State::Cancelled, Event::ProbeDone { online: false }), State::Cancelled);
    assert_eq!(step(State::Cancelled, Event::Elapsed), State::Cancelled);
}

#[test]
fn offline_then_successful_login_settles_into_idle_polling() {
    // Initial probe says offline, the attempt's process exits 0, the
    // post-attempt probe says online: the machine settles into the
    // sixty-second polling cadence.
    let mut state = State::CheckingOnline;
    state = step(state, Event::ProbeDone { online: false });
    assert_eq!(state, State::AttemptingLogin);
    let outcome = ProcessOutcome { success: true, exit_code: 0 };
    let attempt = login_result(&outcome);
    state = step(state, Event::AttemptDone { success: attempt.is_ok() });
    assert_eq!(state, State::PostAttemptPause);
    assert_eq!(action_of(state), Action::WaitThenProbe { secs: 1 });
    state = step(state, Event::ElapsedProbed { online: true });
    assert_eq!(state, State::IdlePolling);
    assert_eq!(action_of(state), Action::WaitThenProbe { secs: 60 });
}

#[test]
fn exhausted_resolution_still_paces_the_next_attempt() {
    // Initial probe says offline; the resolver misses on all five fetches,
    // so the attempt fails with the URL-not-found error; the scheduler still
    // pauses, re-checks, pauses again, and only then retries the login.
    let mut state = State::CheckingOnline;
    state = step(state, Event::ProbeDone { online: false });
    assert_eq!(state, State::AttemptingLogin);

    let mut resolver = Resolver::new();
    let captive_page = String::from("<html>welcome, but no form</html>");
    let mut attempt: Result<(), LoginFailure> = Ok(());
    while !resolver.exhausted() {
        match resolver.offer(Some(&captive_page)) {
            ResolveProgress::Found(_) => panic!("page holds no URL"),
            ResolveProgress::Retry => continue,
            ResolveProgress::Exhausted => attempt = Err(LoginFailure::UrlNotFound),
        }
    }
    assert_eq!(resolver.attempts, 5);
    assert_eq!(attempt, Err(LoginFailure::UrlNotFound));

    state = step(state, Event::AttemptDone { success: attempt.is_ok() });
    assert_eq!(state, State::PostAttemptPause);
    state = step(state, Event::ElapsedProbed { online: false });
    assert_eq!(state, State::InterAttemptPause);
    assert_eq!(action_of(state), Action::Wait { secs: 5 });
    state = step(state, Event::Elapsed);
    assert_eq!(state, State::AttemptingLogin);
}
