use chrono::Utc;
use ini::Ini;
use pam_rampdelay::tally::path_of_record;
use pam_rampdelay::{
    answer_without_conversation, bounce_at, bounce_auth, calc_delay, excess, fmt_remaining_time,
    Actions, PamRampDelay, ResultCode, Settings, Tally, Timestamp, UserIdentity, Verdict,
};
use std::path::{Path, PathBuf};
use tempdir::TempDir;

const USER_NAME: &str = "test_user";
const USER_PASSWD: &str = "test_password";
const USER_PWD: &str = USER_PASSWD;
const PAM_SRV: &str = "test-rampdelay";

/// A line of a service's stack, as the host would read it from its
/// configuration.
#[derive(Clone, Copy)]
enum Line {
    /// The policy with one argument: every later line still runs, and a
    /// denial here denies the attempt.
    Policy(&'static str),
    /// The policy with one argument, ending the attempt whatever it says.
    PolicyOrDie(&'static str),
    /// The system's password check: it must pass.
    Password,
    /// The system's password check: where it passes the attempt is accepted
    /// at once.
    PasswordSuffices,
}

/// The authentication and the account lines of the services that the tests
/// use.
fn service(name: &str) -> (Vec<Line>, Vec<Line>) {
    match name {
        "test-system-auth" => (vec![Line::Password], vec![]),
        "test-rampdelay-preauth" => (vec![Line::Policy("preauth"), Line::Password], vec![]),
        "test-rampdelay-authfail" => (vec![Line::Policy("authfail")], vec![]),
        "test-rampdelay" | "rampdelay-auth" => (
            vec![
                Line::Policy("preauth"),
                Line::PasswordSuffices,
                Line::PolicyOrDie("authfail"),
            ],
            vec![Line::Policy("authsucc")],
        ),
        _ => panic!("no such service"),
    }
}

/// What stands for the machine in these tests: one known user, a directory
/// of tallies, a clock that moves only while the policy waits, and the
/// notices that the policy sent.
struct Host {
    dir: TempDir,
    config: String,
    clock: Timestamp,
    notices: Vec<String>,
}

fn new_host(name: &str) -> Host {
    let dir = TempDir::new(name).unwrap();
    let mut conf = Ini::new();
    conf.with_section(Some("Settings"))
        .set("tally_dir", dir.path().to_str().unwrap());
    let mut text: Vec<u8> = Vec::new();
    conf.write_to(&mut text).unwrap();
    Host {
        dir,
        config: String::from_utf8(text).unwrap(),
        clock: Timestamp { micros: Utc::now().timestamp_micros() },
        notices: Vec::new(),
    }
}

fn resolve_user(name: &str) -> Option<UserIdentity> {
    if name == USER_NAME {
        Some(UserIdentity::new(9999, name, 9999))
    } else {
        None
    }
}

fn password_is_right(user: &str, password: &str) -> bool {
    user == USER_NAME && password == USER_PASSWD
}

fn nano_ln(excess: u32) -> u64 {
    if excess == 0 {
        0
    } else {
        (f64::from(excess).ln() * 1_000_000_000.0) as u64
    }
}

fn read_file(path: &Path) -> Option<String> {
    if !path.exists() {
        return None;
    }
    let doc = Ini::load_from_file(path).unwrap();
    let mut text: Vec<u8> = Vec::new();
    doc.write_to(&mut text).unwrap();
    Some(String::from_utf8(text).unwrap())
}

fn get_tally_file_path(host: &Host, u_name: &str) -> PathBuf {
    host.dir.path().join(u_name)
}

/// Resolves the settings and opens the tally as a checkpoint does, storing
/// what the library hands back.
fn init_rampdelay(
    host: &mut Host,
    user: &str,
    args: Vec<&str>,
) -> Result<(Settings, Tally), ResultCode> {
    let settings = Settings::build(resolve_user(user), args, 0, Some(&host.config))?;
    let name = settings.user.as_ref().unwrap().name().to_string();
    let tally_file = PathBuf::from(path_of_record(&settings.tally_dir, &name));
    let record = read_file(&tally_file);
    let opened = Tally::open_at(&settings, record.as_deref(), host.clock)?;
    if let Some(text) = &opened.persist {
        Ini::load_from_str(text)
            .unwrap()
            .write_to_file(&tally_file)
            .map_err(|_| ResultCode::SystemError)?;
    }
    Ok((settings, opened.tally))
}

/// One authentication checkpoint, the wait included.
fn sm_authenticate(host: &mut Host, user: &str, args: Vec<&str>) -> ResultCode {
    let (settings, tally) = match init_rampdelay(host, user, args) {
        Ok(opened) => opened,
        Err(code) => return code,
    };
    let log = nano_ln(excess(tally.failures_count, &settings));
    let verdict = PamRampDelay::sm_authenticate(&settings, &tally, log);
    if let Some(unlock) = verdict.unlock {
        while let Some(notice) = bounce_at(unlock, host.clock) {
            host.notices.push(notice);
            host.clock.micros += 1_000_000;
        }
    }
    verdict.code
}

/// One account checkpoint.
fn acct_mgmt(host: &mut Host, user: &str, args: Vec<&str>) -> ResultCode {
    match init_rampdelay(host, user, args) {
        Ok((settings, tally)) => PamRampDelay::acct_mgmt(&settings, &tally),
        Err(code) => code,
    }
}

fn authenticate(host: &mut Host, srv: &str, user: &str, password: &str) -> Result<(), ResultCode> {
    let mut denied: Option<ResultCode> = None;
    for line in service(srv).0 {
        match line {
            Line::Policy(arg) => {
                let code = sm_authenticate(host, user, vec![arg]);
                if code != ResultCode::Success && denied.is_none() {
                    denied = Some(code);
                }
            }
            Line::PolicyOrDie(arg) => {
                let code = sm_authenticate(host, user, vec![arg]);
                return match (denied, code) {
                    (Some(first), _) => Err(first),
                    (None, ResultCode::Success) => Ok(()),
                    (None, code) => Err(code),
                };
            }
            Line::Password => {
                if !password_is_right(user, password) && denied.is_none() {
                    denied = Some(ResultCode::AuthError);
                }
            }
            Line::PasswordSuffices => {
                if password_is_right(user, password) && denied.is_none() {
                    return Ok(());
                }
            }
        }
    }
    match denied {
        Some(code) => Err(code),
        None => Ok(()),
    }
}

fn account(host: &mut Host, srv: &str, user: &str) -> Result<(), ResultCode> {
    for line in service(srv).1 {
        if let Line::Policy(arg) = line {
            let code = acct_mgmt(host, user, vec![arg]);
            if code != ResultCode::Success {
                return Err(code);
            }
        }
    }
    Ok(())
}

fn test_service(srv: &str, u_name: &str, u_pwd: &str) -> Result<(), ResultCode> {
    let mut host = new_host(srv);
    authenticate(&mut host, srv, u_name, u_pwd)?;
    account(&mut host, srv, u_name)?;
    Ok(())
}

fn settings_with(action: Option<Actions>) -> Settings {
    Settings {
        user: Some(UserIdentity::new(9999, USER_NAME, 9999)),
        tally_dir: "/var/run/rampdelay".to_string(),
        action,
        free_tries: 6,
        base_delay_seconds: 30,
        ramp_multiplier: 50,
    }
}

fn tally_with(count: u32, micros: i64) -> Tally {
    Tally {
        tally_file: None,
        failures_count: count,
        failure_instant: Timestamp { micros },
    }
}

#[test]
fn test_system_auth_valid() {
    // Test that the system authentication is successful with valid credentials
    test_service("test-system-auth", USER_NAME, USER_PASSWD).unwrap();
}

#[test]
fn test_system_auth_invalid() {
    // Test that the system authentication is unsuccessful with invalid credentials
    assert!(test_service("test-system-auth", "INVALID", "CREDS").is_err());
}

#[test]
fn test_rampdelay_preauth() {
    // Test that the rampdelay auth initializes properly and returns successful
    test_service("test-rampdelay-preauth", USER_NAME, USER_PASSWD).unwrap();
}

#[test]
fn test_rampdelay_authfail() {
    // Test that the rampdelay authfail parameter unsuccessful even with valid credentials
    assert!(test_service("test-rampdelay-authfail", USER_NAME, USER_PASSWD).is_err());
    assert_eq!(
        test_service("test-rampdelay-authfail", USER_NAME, USER_PASSWD),
        Err(ResultCode::AuthError)
    );
}

#[test]
fn valid_credentials() {
    let mut host = new_host("valid_credentials");
    // Authenticate the user
    authenticate(&mut host, "rampdelay-auth", USER_NAME, USER_PASSWD)
        .expect("Authentication failed");
    // Validate the account
    account(&mut host, "rampdelay-auth", USER_NAME).expect("Account validation failed");
}

#[test]
fn invalid_credentials() {
    let mut host = new_host("invalid_credentials");
    // Authenticate the user
    let res = authenticate(&mut host, "rampdelay-auth", "invalid", "creds");
    match res {
        Ok(_) => panic!("Authenticated with invalid credentials!"),
        Err(code) => assert_eq!(code, ResultCode::SystemError),
    }
}

#[test]
fn test_valid_auth_success() {
    let mut host = new_host("test_valid_auth_success");
    // Expect the authentication to succeed
    authenticate(&mut host, PAM_SRV, USER_NAME, USER_PWD).expect("Authentication failed");
    account(&mut host, PAM_SRV, USER_NAME).expect("Account management failed");
}

#[test]
fn test_invalid_auth_creates_tally() {
    let mut host = new_host("test_invalid_auth_creates_tally");
    // Expect an error during authentication (invalid credentials)
    let auth_result = authenticate(&mut host, PAM_SRV, USER_NAME, "INVALID");
    assert!(auth_result.is_err(), "Authentication succeeded!");

    // Expect tally file gets created
    let tally_file_path = get_tally_file_path(&host, USER_NAME);
    assert!(tally_file_path.exists(), "Tally file not created")
}

#[test]
fn test_consecutive_invalid_adds_tally() {
    let mut host = new_host("test_consecutive_invalid_adds_tally");
    let mut count = 0;
    let total_tries = 2;

    while count < total_tries {
        // Expect an error during authentication (invalid credentials)
        let auth_result = authenticate(&mut host, PAM_SRV, USER_NAME, "INVALID");
        assert!(auth_result.is_err(), "Authentication succeeded!");

        count += 1;
    }

    // Expect tally file gets created
    let tally_file_path = get_tally_file_path(&host, USER_NAME);
    assert!(tally_file_path.exists(), "Tally file not created");

    // Expect tally count
    let ini_content = read_file(&tally_file_path).unwrap();
    assert!(ini_content.contains(&format!("count={}", total_tries)));
    assert!(host.notices.is_empty());
}

#[test]
fn test_valid_auth_clears_tally() {
    let mut host = new_host("test_valid_auth_clears_tally");
    // Expect an error during authentication (invalid credentials)
    let auth_result = authenticate(&mut host, PAM_SRV, USER_NAME, "INVALID");
    assert!(auth_result.is_err(), "Authentication succeeded!");

    // Expect tally file gets created
    let tally_file_path = get_tally_file_path(&host, USER_NAME);
    assert!(tally_file_path.exists(), "Tally file not created");

    // Expect tally count to increase
    let ini_content = read_file(&tally_file_path).unwrap();
    assert!(
        ini_content.contains("count=1"),
        "Expected tally count to increase"
    );

    let auth_result = authenticate(&mut host, PAM_SRV, USER_NAME, USER_PWD);
    assert!(auth_result.is_ok(), "Authentication failed!");

    account(&mut host, PAM_SRV, USER_NAME).expect("Account management failed");

    // Expect tally count to decrease
    let ini_content = read_file(&tally_file_path).unwrap();
    assert!(ini_content.contains("count=0"), "Expected tally count = 0");
}

#[test]
fn failures_beyond_the_free_tries_make_the_user_wait() {
    let mut host = new_host("failures_beyond_the_free_tries");
    let started = host.clock;
    for _ in 0..6 {
        assert!(authenticate(&mut host, PAM_SRV, USER_NAME, "INVALID").is_err());
    }
    assert!(host.notices.is_empty());
    assert_eq!(host.clock, started);
    // The seventh failure is the first beyond the free tries: the base delay.
    assert_eq!(
        authenticate(&mut host, PAM_SRV, USER_NAME, "INVALID"),
        Err(ResultCode::AuthError)
    );
    assert_eq!(host.notices.len(), 30);
    assert_eq!(host.notices[0], "Account locked! Unlocking in 30 seconds.");
    assert_eq!(host.notices[29], "Account locked! Unlocking in 1 seconds.");
    assert_eq!(host.clock.micros, started.micros + 30_000_000);
    let ini_content = read_file(&get_tally_file_path(&host, USER_NAME)).unwrap();
    assert!(ini_content.contains("count=7"));
    // The eighth: 50 * 2 * ln 2 = 69 whole seconds on top of the base delay.
    host.notices.clear();
    assert!(authenticate(&mut host, PAM_SRV, USER_NAME, "INVALID").is_err());
    assert_eq!(host.notices.len(), 99);
    assert_eq!(
        host.notices[0],
        "Account locked! Unlocking in 1 minutes 39 seconds."
    );
    // The lock has run out: the right password is accepted without a wait.
    host.notices.clear();
    assert_eq!(authenticate(&mut host, PAM_SRV, USER_NAME, USER_PWD), Ok(()));
    assert!(host.notices.is_empty());
}

#[test]
fn after_seven_failures_the_next_attempt_is_held_for_the_base_delay() {
    let failed_at: i64 = 1_700_000_000_000_000;
    let settings = settings_with(Some(Actions::PREAUTH));
    let tally = tally_with(7, failed_at);
    assert_eq!(excess(7, &settings), 1);
    assert_eq!(nano_ln(1), 0);
    let verdict = PamRampDelay::sm_authenticate(&settings, &tally, nano_ln(1));
    assert_eq!(
        verdict,
        Verdict {
            code: ResultCode::Success,
            unlock: Some(Timestamp { micros: failed_at + 30_000_000 }),
        }
    );
    let unlock = verdict.unlock.unwrap();
    assert_eq!(
        bounce_at(unlock, Timestamp { micros: failed_at }),
        Some("Account locked! Unlocking in 30 seconds.".to_string())
    );
    assert_eq!(
        bounce_at(unlock, Timestamp { micros: failed_at + 29_999_999 }),
        Some("Account locked! Unlocking in 0 seconds.".to_string())
    );
    assert_eq!(bounce_at(unlock, Timestamp { micros: failed_at + 30_000_000 }), None);
    assert_eq!(bounce_at(unlock, Timestamp { micros: failed_at + 30_000_001 }), None);
}

#[test]
fn an_unknown_user_is_a_system_error_and_opens_no_tally() {
    let mut host = new_host("an_unknown_user");
    for arg in ["preauth", "authfail", "authsucc"] {
        assert_eq!(sm_authenticate(&mut host, "nobody", vec![arg]), ResultCode::SystemError);
        assert_eq!(acct_mgmt(&mut host, "nobody", vec![arg]), ResultCode::SystemError);
    }
    assert!(!get_tally_file_path(&host, "nobody").exists());
    assert!(host.notices.is_empty());
}

#[test]
fn an_unknown_checkpoint_is_denied_and_changes_nothing() {
    let mut host = new_host("an_unknown_checkpoint");
    assert!(authenticate(&mut host, PAM_SRV, USER_NAME, "INVALID").is_err());
    let before = read_file(&get_tally_file_path(&host, USER_NAME)).unwrap();
    assert_eq!(sm_authenticate(&mut host, USER_NAME, vec![]), ResultCode::AuthError);
    assert_eq!(
        sm_authenticate(&mut host, USER_NAME, vec!["debug", "auth"]),
        ResultCode::AuthError
    );
    assert_eq!(read_file(&get_tally_file_path(&host, USER_NAME)).unwrap(), before);
    let verdict =
        PamRampDelay::sm_authenticate(&settings_with(None), &tally_with(100, 0), nano_ln(94));
    assert_eq!(verdict, Verdict { code: ResultCode::AuthError, unlock: None });
}

#[test]
fn each_checkpoint_has_its_verdict() {
    let at: i64 = 1_700_000_000_000_000;
    let free = tally_with(6, at);
    let locked = tally_with(8, at);
    let log = nano_ln(2);
    assert_eq!(log, 693_147_180);
    let end = Some(Timestamp { micros: at + 99_000_000 });
    let pre = settings_with(Some(Actions::PREAUTH));
    let fail = settings_with(Some(Actions::AUTHFAIL));
    let succ = settings_with(Some(Actions::AUTHSUCC));
    assert_eq!(
        PamRampDelay::sm_authenticate(&pre, &free, 0),
        Verdict { code: ResultCode::Success, unlock: None }
    );
    assert_eq!(
        PamRampDelay::sm_authenticate(&pre, &locked, log),
        Verdict { code: ResultCode::Success, unlock: end }
    );
    assert_eq!(
        PamRampDelay::sm_authenticate(&fail, &free, 0),
        Verdict { code: ResultCode::AuthError, unlock: None }
    );
    assert_eq!(
        PamRampDelay::sm_authenticate(&fail, &locked, log),
        Verdict { code: ResultCode::AuthError, unlock: end }
    );
    assert_eq!(
        PamRampDelay::sm_authenticate(&succ, &locked, log),
        Verdict { code: ResultCode::Success, unlock: None }
    );
    assert_eq!(PamRampDelay::acct_mgmt(&succ, &locked), ResultCode::Success);
    let last = tally_with(u32::MAX, i64::MAX - 5);
    assert_eq!(
        PamRampDelay::sm_authenticate(&pre, &last, nano_ln(u32::MAX - 6)),
        Verdict { code: ResultCode::Success, unlock: Some(Timestamp { micros: i64::MAX }) }
    );
}

#[test]
fn the_delay_follows_the_formula() {
    let settings = settings_with(None);
    for fails in 0..=6 {
        assert_eq!(calc_delay(fails, &settings, 5_000_000_000), 0);
        assert_eq!(excess(fails, &settings), 0);
    }
    assert_eq!(calc_delay(7, &settings, nano_ln(1)), 30);
    assert_eq!(calc_delay(8, &settings, nano_ln(2)), 99);
    assert_eq!(calc_delay(10, &settings, nano_ln(4)), 307);
    assert_eq!(calc_delay(106, &settings, nano_ln(100)), 23_055);
    let mut last = 0;
    for fails in 7..2000 {
        let beyond = excess(fails, &settings);
        assert_eq!(beyond, fails - 6);
        let delay = calc_delay(fails, &settings, nano_ln(beyond));
        let exact = (50.0 * f64::from(beyond) * f64::from(beyond).ln() + 30.0) as u64;
        assert!(delay >= last);
        assert!(delay.abs_diff(exact) <= 1);
        last = delay;
    }
    let flat = Settings { ramp_multiplier: 0, ..settings_with(None) };
    assert_eq!(calc_delay(1000, &flat, nano_ln(994)), 30);
    let none = Settings { free_tries: 0, base_delay_seconds: 0, ..settings_with(None) };
    assert_eq!(calc_delay(0, &none, 0), 0);
    assert_eq!(calc_delay(1, &none, nano_ln(1)), 0);
    let huge = Settings {
        free_tries: 0,
        base_delay_seconds: u32::MAX,
        ramp_multiplier: u32::MAX,
        ..settings_with(None)
    };
    assert_eq!(calc_delay(u32::MAX, &huge, u64::MAX), u64::MAX);
    assert_eq!(calc_delay(2, &huge, 1_000_000_000), 2 * 4_294_967_295 + 4_294_967_295);
}

#[test]
fn the_time_left_is_put_in_words() {
    assert_eq!(fmt_remaining_time(0), "0 seconds");
    assert_eq!(fmt_remaining_time(59), "59 seconds");
    assert_eq!(fmt_remaining_time(60), "1 minutes 0 seconds");
    assert_eq!(fmt_remaining_time(3599), "59 minutes 59 seconds");
    assert_eq!(fmt_remaining_time(3600), "1 hours 0 minutes 0 seconds");
    assert_eq!(fmt_remaining_time(3661), "1 hours 1 minutes 1 seconds");
    assert_eq!(fmt_remaining_time(90_061), "25 hours 1 minutes 1 seconds");
}

#[test]
fn instants_are_moved_and_measured_in_whole_seconds() {
    let at = Timestamp { micros: 1_500_000 };
    assert_eq!(at.plus_seconds(0), at);
    assert_eq!(at.plus_seconds(2), Timestamp { micros: 3_500_000 });
    assert_eq!(at.plus_seconds(u64::MAX), Timestamp { micros: i64::MAX });
    assert_eq!(
        Timestamp { micros: i64::MIN }.plus_seconds(1),
        Timestamp { micros: i64::MIN + 1_000_000 }
    );
    assert_eq!(at.seconds_until(at), 0);
    assert_eq!(at.seconds_until(Timestamp { micros: 9_000_000 }), 0);
    assert_eq!(at.seconds_until(Timestamp { micros: 500_001 }), 0);
    assert_eq!(at.seconds_until(Timestamp { micros: 500_000 }), 1);
    assert_eq!(
        Timestamp { micros: i64::MAX }.seconds_until(Timestamp { micros: i64::MIN }),
        18_446_744_073_709
    );
}

#[test]
fn the_wait_goes_by_the_clock() {
    let now = Utc::now().timestamp_micros();
    assert_eq!(bounce_auth(Timestamp { micros: now - 1 }), None);
    assert_eq!(bounce_auth(Timestamp { micros: i64::MIN }), None);
    let notice = bounce_auth(Timestamp { micros: now + 3_600_000_000 }).unwrap();
    assert!(
        notice == "Account locked! Unlocking in 59 minutes 59 seconds."
            || notice == "Account locked! Unlocking in 59 minutes 58 seconds."
    );
}

#[test]
fn without_a_conversation_a_locked_attempt_is_denied_at_once() {
    let unlock = Some(Timestamp { micros: 1 });
    for code in [ResultCode::Success, ResultCode::AuthError, ResultCode::SystemError] {
        assert_eq!(
            answer_without_conversation(Verdict { code, unlock }),
            ResultCode::AuthError
        );
        assert_eq!(answer_without_conversation(Verdict { code, unlock: None }), code);
    }
    let locked = PamRampDelay::sm_authenticate(
        &settings_with(Some(Actions::PREAUTH)),
        &tally_with(7, 0),
        0,
    );
    assert_eq!(locked.code, ResultCode::Success);
    assert_eq!(answer_without_conversation(locked), ResultCode::AuthError);
}
