use std::collections::HashMap;

use auth_session::auth_error::AuthError;
use auth_session::auth_handler::{
    check_begin, check_begin_at, current_moment, login_begin, refresh_begin, refresh_begin_at,
    session_advance, session_advance_at, Config, Moment, SessionAction, SessionEvent,
    SessionOutcome, SessionState, SessionStep, TokenPair,
};
use auth_session::identity::{
    judge_login_row, resolver_advance, resolver_begin, Backend, BackendAction, BackendEvent,
    Principal, ResolverError, ResolverPhase, ResolverRequest, ResolverStep,
};
use auth_session::token_service::{generate_jwt_token_at, verify_jwt_token_at};
use auth_session::user_model::{LoginUserSchema, RefreshSchema, User};

// Fixture keys: two throwaway 2048-bit RSA pairs, used by nothing but these tests.

const PRIVATE_A_BODY: &[&str] = &[
    "MIIEogIBAAKCAQEAhWjiOwvJ4TXERXt8Y3t2WLij4ecFd68KH6X5oThQkQXyG4UG",
    "BI8XBvanwTH4NK9OX6GlZQy+V8waCtcxwRq68llapWCMrcfRC/925/XS+EuoX573",
    "OnD3/EmTinSgaawHrqoRwnA20YhNFVOizp8gI9yEqUsmTpNczwLvZkzF8NkZnHZG",
    "QOfqTc36noquunJd7UUzISCFgFnf8TynALX/EDlC61ZjLC17eTHNflVA8sU3h4xm",
    "AsROXB+x+ZYaDq1YSlnwWsS2Ay/AfPbQAmNMVxcIFMmTjd0s28u45RHvjq2WDRS1",
    "m8QSMk3BITLMqOHa6Ec49UVXKEpkyvm74q9ujwIDAQABAoIBAALHEsLA9ZSTToFV",
    "11qo5Odm/L6E1VfPFKphBcgGCKNkWMya4euxYPzboNWEaVMLfVm/X1axw7rHPJmS",
    "Lm6DVHYcRydfUb6ChQc3a+3bb+eMh7Zp9GLKnFcr3v8Ie5iHpOdNki4WsQV+zYAO",
    "rDqaFIy6mCaAMo17QvjqajqaiZqAmvZQ5vmUQ66Fj/Zuh0X+aoLnPCQzj++M45PO",
    "+/27iPb7E1bYP6DSo6CZleVErLUGStJSS8Ld9iQv0fS0dsz8lIKeL1RkfasYj6zF",
    "b5PnEfCXymcPBn5RcBNercHNPtpB2GEimo/5LT+YJ/xwFjO0OKqGWH2ZY3i69Y+l",
    "w0x3WkECgYEAufWVmegksAhsjiga3tnirLqqWNg4Z2UFpDcMXQd0/HgV+nqd8XBR",
    "zaMk3QpHEmyIjnI/609kHv1InCNp4nbXvlvGV1+87JqeU03bAMv3KYYB/xTQ/2n8",
    "v5LemOvsojMSiF4R/BCUuORkUeCQ9vj4EFnPNb8CLhBn1fvA68+nNcECgYEAt6hn",
    "a2+DS8JhPS9VIdxN7qziI0deGfVGs3trhNgKkJ2SMmkbCnBLCaDqa0ZDqA+qKZPq",
    "n3FLK68lezzQGO1osRCvj93j2N7Q4hlrGtn+mUPD5ImBhwlXlQBdk3QgZS8yns6g",
    "eLVadWVJqm1dVEW84cZIKv8gWEGMY1tPJiV72E8CgYACxDuQiZqaH9X1m3Ui4Zz0",
    "suY74iOcri0ST1tYuvarluHE0zQsVl5xL78pprB9/q1daSe4SXsU1vHQmNpHazs0",
    "cssVm7AE2RwH4z2h2mb38C1xbQ7a7em7s+Sp48CmfRoGe1fLJzf/NC6l5TBi7DtM",
    "ivmBNDFFHCtfTJqHJ5S2QQKBgCKPuW6ZXJ7sJHpsJtwpZi0NMb0r2ASQiM6L4k7s",
    "jQhr7rA34VPUj/pu4s5vOZot4HrUkCmTG29MFYScjBi0zKfNmQw82HzeaXazC9nQ",
    "vj2/Z+ThD5QG6QlsOS/fgZ0pBaCnB8HPdwdymStOS2rpeMMQGlKlEkQpia7E5x8p",
    "nKW3AoGAGRyQmGJ3NNTQP96nFvEAW+7QgucfU9RmhhnnmZRgSpSDGg+m6pp5zCAU",
    "NG1xFmsZOI/3QREQwd3R7NN18703gLsKjH4wdPgz6C4RJL3rF3LLGTREvZUuDE+d",
    "QduzvKxrKMTOzqKBDAuP8iXyAzbljXBsFuHH0NAgY/94wrFcFUY=",
];

const PUBLIC_A_BODY: &[&str] = &[
    "MIIBIjANBgkqhkiG9w0BAQEFAAOCAQ8AMIIBCgKCAQEAhWjiOwvJ4TXERXt8Y3t2",
    "WLij4ecFd68KH6X5oThQkQXyG4UGBI8XBvanwTH4NK9OX6GlZQy+V8waCtcxwRq6",
    "8llapWCMrcfRC/925/XS+EuoX573OnD3/EmTinSgaawHrqoRwnA20YhNFVOizp8g",
    "I9yEqUsmTpNczwLvZkzF8NkZnHZGQOfqTc36noquunJd7UUzISCFgFnf8TynALX/",
    "EDlC61ZjLC17eTHNflVA8sU3h4xmAsROXB+x+ZYaDq1YSlnwWsS2Ay/AfPbQAmNM",
    "VxcIFMmTjd0s28u45RHvjq2WDRS1m8QSMk3BITLMqOHa6Ec49UVXKEpkyvm74q9u",
    "jwIDAQAB",
];

const PRIVATE_B_BODY: &[&str] = &[
    "MIIEowIBAAKCAQEAzJgEK5ovHNsL01Y0FInigYPatizrhysVJCl6kkqEGba2b2L8",
    "BNwqams+PtnOkM9HaivRdrDL7d+rnWFOg7cabV306gsQeQOJfZrJYQapr0CeXAvq",
    "I2YjyUW+gPCg0qEGAtDR4q9RjyvlMz3iZb0BdIPnBJVcRzJhWEue0qkvcLajfeuy",
    "Fcpbn8HUSu465gEhS/ehMm4aeN5CC+sTXqL8z32UFxY5+4rSbyAyaLU0Hnjop7Yf",
    "fUnn1crutbiz+WNNVEy/v0mYYxqqDeTE7Fa3jKhvmlqG7uxX5zpy8MrUvJ5GheTk",
    "KNk1OBu5182b+sJ91oqbz4Wsgvn7avblKamB0QIDAQABAoIBAACOyYl05NFR/OOZ",
    "ReW9xShP5mC+GUZHunRcHewYLT6vXiqfknWmRAIA7i0tsCp6O4TxPvjxMnJ2PE7e",
    "3QqZjTDkeK51U+4rMaIYse6Ec3dO2HUCc05Ku6joz8Qk48tZ37JSRMA2yiTMcdYv",
    "Qla/VSmu0l++KH+T25VqCgd4/prIDhoP8NQtFqqLsGRwgKZfk2hNwa9cL34t7OEc",
    "7GOXaFoK4UXZwVrLxUoX2hKA0n2I9Yy8OdYwgueFkLj5XZnSrq968hvOGqJqZUw+",
    "69xRp7/e6bOdHlt/5dFyUJpUtlA072YokOOJJUWos7h4R0PUCEcccOqX9WOKnwVf",
    "Bb3+j4ECgYEA8oojPcg8p8i4jVFd2CAsAaFUtnIfLHgnbAqaGzI4Dx4zwajldCNa",
    "ZHRb+Kb4+M77x2f2wL7kuH38fnDlWGdPguUCF9VXw8mXESP5yVsAnl76qmftkG9n",
    "x7/Pby2f6FfJVSHXwZpUni0NAzQ6DDDbPmf1GU5zTBAcZ91rjNP1Xg0CgYEA1/LE",
    "T9ZE2pK01Cn0FCUIEI445z2gz940XR1M6Cb6SyMbCrJy3ePzLEOjgszfG0a5qkiq",
    "fau/Ua8DlL/sUy5UBHhqxHMxM2Cikzfupq+kVCBP0Nw8SawMOisMYHL0ggCnqC6b",
    "34uaW58ne6V9BCxXz/Ff+lXJzg+CBjDTTVNcBdUCgYEAiylNbS6N9utJUPRltxNG",
    "jKznsUMrtdU/MVOn9oDK/4mhwrVI6mk6fTbyampLol8IwfJZ91/QVjcbf+UBAsdM",
    "LNt/ZvNnRxRM1G3i7XCEm1n903aMLXpufoME31K7VJHCGFGxvQjzEkrhE3yM7d++",
    "fEEjtaB4sSTxV3sJMaWQPKUCgYAy+y09a+h1cY0fSYhF+TgeMHVeoj4E1QCnuvMd",
    "G5abhn4r2FUl7VrLaGyBxLwnRFswyFb3tERGlHrT8ztnp9hN9d++4TMMXhQDjYDZ",
    "+T1iXv544IWbHvMECIWzf3AaAO2T1u0VqW+XkctQdZE+GvngLavq/bXW3/JiY8R+",
    "zN88wQKBgCjahD4npkwSQ6vkRRMni+ZyQ6PQZg7qPT3/cJzlZAi2yzS3poGupooG",
    "AvAWjmzS+BwX35iWBzTaZhuUpg4Tl/t3nnbPMKU2lE1wB0gb3KACGabRif6FYjct",
    "HK0XreztHbPG846uydQ6Fp2ZXLemFexeClBQLKUJ5n+PSgN50tE1",
];

const PUBLIC_B_BODY: &[&str] = &[
    "MIIBIjANBgkqhkiG9w0BAQEFAAOCAQ8AMIIBCgKCAQEAzJgEK5ovHNsL01Y0FIni",
    "gYPatizrhysVJCl6kkqEGba2b2L8BNwqams+PtnOkM9HaivRdrDL7d+rnWFOg7ca",
    "bV306gsQeQOJfZrJYQapr0CeXAvqI2YjyUW+gPCg0qEGAtDR4q9RjyvlMz3iZb0B",
    "dIPnBJVcRzJhWEue0qkvcLajfeuyFcpbn8HUSu465gEhS/ehMm4aeN5CC+sTXqL8",
    "z32UFxY5+4rSbyAyaLU0Hnjop7YffUnn1crutbiz+WNNVEy/v0mYYxqqDeTE7Fa3",
    "jKhvmlqG7uxX5zpy8MrUvJ5GheTkKNk1OBu5182b+sJ91oqbz4Wsgvn7avblKamB",
    "0QIDAQAB",
];


fn pem(label: &str, body: &[&str]) -> String {
    let mut text = format!("-----BEGIN {}-----\n", label);
    for line in body {
        text.push_str(line);
        text.push('\n');
    }
    text.push_str(&format!("-----END {}-----\n", label));
    text
}

fn private_a() -> String {
    pem(&format!("RSA {} KEY", "PRIVATE"), PRIVATE_A_BODY)
}

fn public_a() -> String {
    pem("PUBLIC KEY", PUBLIC_A_BODY)
}

fn private_b() -> String {
    pem(&format!("RSA {} KEY", "PRIVATE"), PRIVATE_B_BODY)
}

fn public_b() -> String {
    pem("PUBLIC KEY", PUBLIC_B_BODY)
}

const ACCESS_TTL: i64 = 900;
const REFRESH_TTL: i64 = 86_400;

fn config() -> Config {
    Config {
        access_token_private_key: private_a(),
        access_token_public_key: public_a(),
        refresh_token_private_key: private_b(),
        refresh_token_public_key: public_b(),
        access_token_max_age: ACCESS_TTL,
        refresh_token_max_age: REFRESH_TTL,
    }
}

fn bearer(token: &str) -> String {
    format!("Bearer {}", token)
}

/// A directory, a user table and a ledger that live in memory, and a clock
/// that the test sets.
struct World {
    backend: Backend,
    users: Vec<(u64, String, String)>,
    backend_up: bool,
    ledger: HashMap<String, (String, i64)>,
    ledger_up: bool,
    ledger_writable: bool,
    now: i64,
    minted: u32,
    done: Vec<String>,
}

impl World {
    fn new(backend: Backend) -> World {
        World {
            backend,
            users: vec![
                (1001, "ada@example.com".to_string(), "correct horse".to_string()),
                (1002, "bob@example.com".to_string(), "battery staple".to_string()),
            ],
            backend_up: true,
            ledger: HashMap::new(),
            ledger_up: true,
            ledger_writable: true,
            now: 1_700_000_000,
            minted: 0,
            done: Vec::new(),
        }
    }

    fn fresh_id(&mut self) -> String {
        self.minted += 1;
        format!("{:08x}-0000-4000-8000-000000000000", self.minted)
    }

    fn moment(&mut self) -> Moment {
        Moment { now: self.now, first_id: self.fresh_id(), second_id: self.fresh_id() }
    }

    fn row(&self, user: &(u64, String, String)) -> User {
        User {
            id: format!("00000000-0000-4000-8000-{:012x}", user.0),
            email: user.1.clone(),
            password: hash_of(&user.2),
            user_id: user.0 as i32,
            created_at: Some(1_600_000_000),
        }
    }

    fn backend_answer(&mut self, action: BackendAction) -> BackendEvent {
        if !self.backend_up {
            return BackendEvent::Unavailable;
        }
        match action {
            BackendAction::DirectorySearch { base_dn, filter, attribute } => {
                assert_eq!(base_dn, "ou=dia,dc=diditalready,dc=com");
                let mut found = Vec::new();
                for (id, email, _) in &self.users {
                    if directory_matches(&filter, *id, email) {
                        found.push(match attribute.as_str() {
                            "uid" => Some(id.to_string()),
                            "mail" => Some(email.clone()),
                            _ => None,
                        });
                    }
                }
                BackendEvent::DirectoryEntries(found)
            }
            BackendAction::DirectoryBind { dn, password } => {
                let accepted = self.users.iter().any(|(id, _, secret)| {
                    dn == format!("uid={},ou=dia,dc=diditalready,dc=com", id) && *secret == password
                });
                if accepted {
                    BackendEvent::BindAccepted
                } else {
                    BackendEvent::BindRejected
                }
            }
            BackendAction::SqlFetchByEmail { query, email } => {
                assert_eq!(query, "SELECT * FROM users WHERE email = $1");
                let row = self.users.iter().find(|u| u.1 == email).map(|u| self.row(u));
                BackendEvent::SqlRow(row)
            }
            BackendAction::SqlFetchById { query, id } => {
                assert_eq!(query, "SELECT * FROM users WHERE id = $1");
                let row = self.users.iter().find(|u| u.0 as i64 == id).map(|u| self.row(u));
                BackendEvent::SqlRow(row)
            }
        }
    }

    fn resolve(&mut self, request: ResolverRequest) -> Result<Principal, ResolverError> {
        let mut step = resolver_begin(self.backend, &request);
        loop {
            match step {
                ResolverStep::Perform(phase, action) => {
                    let event = self.backend_answer(action);
                    step = resolver_advance(&request, phase, event);
                }
                ResolverStep::Resolved(answer) => return answer,
            }
        }
    }

    fn answer(&mut self, action: SessionAction) -> SessionEvent {
        match action {
            SessionAction::Resolve(request) => {
                self.done.push("resolve".to_string());
                SessionEvent::Resolved(self.resolve(request))
            }
            SessionAction::LedgerLookup { key } => {
                self.done.push(format!("lookup {}", key));
                if !self.ledger_up {
                    return SessionEvent::LedgerFailed;
                }
                match self.ledger.get(&key) {
                    Some((_, expires_at)) if self.now < *expires_at => SessionEvent::LedgerFound,
                    _ => SessionEvent::LedgerAbsent,
                }
            }
            SessionAction::LedgerRecord { key, value, ttl } => {
                self.done.push(format!("record {} {} {}", key, value, ttl));
                if !self.ledger_up || !self.ledger_writable || ttl <= 0 {
                    return SessionEvent::LedgerRecordFailed;
                }
                self.ledger.insert(key, (value, self.now + ttl));
                SessionEvent::LedgerRecorded
            }
        }
    }

    fn step(&mut self, cfg: &Config, step: SessionStep) -> SessionStep {
        match step {
            SessionStep::Perform(state, action) => {
                let event = self.answer(action);
                let moment = self.moment();
                session_advance_at(cfg, state, event, moment)
            }
            done => done,
        }
    }

    fn run(&mut self, cfg: &Config, first: SessionStep) -> Result<SessionOutcome, AuthError> {
        let mut step = first;
        loop {
            match step {
                SessionStep::Done(outcome) => return outcome,
                SessionStep::Perform(state, action) => {
                    let event = self.answer(action);
                    let moment = self.moment();
                    step = session_advance_at(cfg, state, event, moment);
                }
            }
        }
    }

    fn login(&mut self, cfg: &Config, email: &str, password: &str) -> Result<SessionOutcome, AuthError> {
        let body = LoginUserSchema { email: email.to_string(), password: password.to_string() };
        self.run(cfg, login_begin(body))
    }

    fn refresh(&mut self, cfg: &Config, token: &str) -> Result<SessionOutcome, AuthError> {
        let body = RefreshSchema { refresh: token.to_string() };
        let first = refresh_begin_at(cfg, &body, self.now);
        self.run(cfg, first)
    }

    fn check(&mut self, cfg: &Config, header: Option<&str>) -> Result<SessionOutcome, AuthError> {
        let first = check_begin_at(cfg, header, self.now);
        self.run(cfg, first)
    }
}

/// What a directory does with a filter of the two shapes that the service
/// sends: a lone asterisk as value matches every entry that has the
/// attribute, and any other value is unescaped and matched as it is.
fn directory_matches(filter: &str, id: u64, email: &str) -> bool {
    let inner = filter
        .strip_prefix("(&(objectClass=inetOrgPerson)(")
        .and_then(|rest| rest.strip_suffix("))"))
        .expect("a filter of the service");
    let (attribute, value) = inner.split_once('=').expect("an equality filter");
    let held = match attribute {
        "mail" => email.to_string(),
        "uid" => id.to_string(),
        other => panic!("unexpected attribute {}", other),
    };
    if value == "*" {
        return true;
    }
    assert!(!value.contains('*') && !value.contains('(') && !value.contains(')'));
    let mut plain = String::new();
    let mut rest = value;
    while let Some(at) = rest.find('\\') {
        plain.push_str(&rest[..at]);
        let code = u8::from_str_radix(&rest[at + 1..at + 3], 16).expect("two hex digits");
        plain.push(code as char);
        rest = &rest[at + 3..];
    }
    plain.push_str(rest);
    plain == held
}

fn hash_of(password: &str) -> String {
    let salt = argon2::password_hash::SaltString::from_b64("c29tZXNhbHRzb21lc2FsdA").unwrap();
    argon2::PasswordHasher::hash_password(&argon2::Argon2::default(), password.as_bytes(), &salt)
        .unwrap()
        .to_string()
}

fn pair_of(outcome: Result<SessionOutcome, AuthError>) -> TokenPair {
    match outcome {
        Ok(SessionOutcome::LoggedIn(pair)) => pair,
        Ok(SessionOutcome::Refreshed { pair, .. }) => pair,
        other => panic!("no pair: {:?}", other),
    }
}

fn failure_of(outcome: Result<SessionOutcome, AuthError>) -> AuthError {
    match outcome {
        Err(e) => e,
        Ok(o) => panic!("no failure: {:?}", o),
    }
}

fn session_of(outcome: Result<SessionOutcome, AuthError>) -> Principal {
    match outcome {
        Ok(SessionOutcome::Session(p)) => p,
        other => panic!("no session: {:?}", other),
    }
}

#[test]
fn login_then_check_gives_the_same_principal() {
    let cfg = config();
    let mut world = World::new(Backend::Directory);
    let pair = pair_of(world.login(&cfg, "ada@example.com", "correct horse"));
    let seen = session_of(world.check(&cfg, Some(&bearer(&pair.access))));
    assert_eq!(seen.id, 1001);
    assert_eq!(seen.email, "ada@example.com");
    assert_eq!(seen.created_at, None);
}

#[test]
fn login_then_check_works_on_the_user_table_too() {
    let cfg = config();
    let mut world = World::new(Backend::Sql);
    let pair = pair_of(world.login(&cfg, "bob@example.com", "battery staple"));
    let seen = session_of(world.check(&cfg, Some(&bearer(&pair.access))));
    assert_eq!(seen.id, 1002);
    assert_eq!(seen.email, "bob@example.com");
    assert_eq!(seen.created_at, Some(1_600_000_000));
}

#[test]
fn login_mints_the_pair_with_the_configured_keys_and_lifetimes() {
    let cfg = config();
    let mut world = World::new(Backend::Directory);
    let pair = pair_of(world.login(&cfg, "ada@example.com", "correct horse"));
    let access = verify_jwt_token_at(&public_a(), &pair.access, world.now).unwrap();
    assert_eq!(access.user_id, 1001);
    assert_eq!(access.expires_in, Some(world.now + ACCESS_TTL));
    assert_eq!(access.token_uuid, "00000001-0000-4000-8000-000000000000");
    let refresh = verify_jwt_token_at(&public_b(), &pair.refresh, world.now).unwrap();
    assert_eq!(refresh.user_id, 1001);
    assert_eq!(refresh.expires_in, Some(world.now + REFRESH_TTL));
    assert_eq!(refresh.token_uuid, "00000002-0000-4000-8000-000000000000");
    assert!(verify_jwt_token_at(&public_b(), &pair.access, world.now).is_err());
}

#[test]
fn unknown_login_and_wrong_secret_fail_alike() {
    let cfg = config();
    for backend in [Backend::Directory, Backend::Sql] {
        let mut world = World::new(backend);
        let unknown = failure_of(world.login(&cfg, "eve@example.com", "correct horse"));
        let wrong = failure_of(world.login(&cfg, "ada@example.com", "wrong"));
        assert_eq!(unknown, AuthError::InvalidCredential);
        assert_eq!(wrong, AuthError::InvalidCredential);
        assert_eq!(unknown.http_status(), wrong.http_status());
        assert_eq!(unknown.message(), wrong.message());
    }
}

#[test]
fn login_reports_an_unreachable_backend_as_such() {
    let cfg = config();
    let mut world = World::new(Backend::Directory);
    world.backend_up = false;
    assert_eq!(
        failure_of(world.login(&cfg, "ada@example.com", "correct horse")),
        AuthError::ResolverUnavailable
    );
}

#[test]
fn login_with_an_unusable_key_is_a_signing_error() {
    let mut cfg = config();
    cfg.refresh_token_private_key = "no key".to_string();
    let mut world = World::new(Backend::Directory);
    assert_eq!(
        failure_of(world.login(&cfg, "ada@example.com", "correct horse")),
        AuthError::SigningError
    );
}

#[test]
fn session_check_follows_the_access_token_expiry() {
    let mut cfg = config();
    cfg.access_token_max_age = 5;
    let mut world = World::new(Backend::Directory);
    world.now = 0;
    let pair = pair_of(world.login(&cfg, "ada@example.com", "correct horse"));
    world.now = 4;
    assert_eq!(session_of(world.check(&cfg, Some(&bearer(&pair.access)))).id, 1001);
    world.now = 6;
    assert_eq!(failure_of(world.check(&cfg, Some(&bearer(&pair.access)))), AuthError::Expired);
}

#[test]
fn session_check_rejects_missing_unreadable_and_foreign_tokens() {
    let cfg = config();
    let mut world = World::new(Backend::Directory);
    assert_eq!(failure_of(world.check(&cfg, None)), AuthError::MissingToken);
    assert_eq!(failure_of(world.check(&cfg, Some("Bearer junk"))), AuthError::Malformed);
    assert_eq!(failure_of(world.check(&cfg, Some("short"))), AuthError::Malformed);
    assert_eq!(failure_of(world.check(&cfg, Some("Bearer "))), AuthError::Malformed);
    let pair = pair_of(world.login(&cfg, "ada@example.com", "correct horse"));
    assert_eq!(
        failure_of(world.check(&cfg, Some(&bearer(&pair.refresh)))),
        AuthError::InvalidSignature
    );
    assert!(world.done.iter().all(|d| !d.starts_with("lookup")));
}

#[test]
fn session_check_of_a_deleted_principal_finds_nobody() {
    let cfg = config();
    let mut world = World::new(Backend::Directory);
    let pair = pair_of(world.login(&cfg, "ada@example.com", "correct horse"));
    world.users.remove(0);
    assert_eq!(
        failure_of(world.check(&cfg, Some(&bearer(&pair.access)))),
        AuthError::PrincipalNotFound
    );
}

#[test]
fn refresh_rotates_the_pair_and_the_old_token_is_used_up() {
    let cfg = config();
    let mut world = World::new(Backend::Directory);
    let first = pair_of(world.login(&cfg, "ada@example.com", "correct horse"));
    let outcome = world.refresh(&cfg, &first.refresh);
    let recorded = matches!(&outcome, Ok(SessionOutcome::Refreshed { ledger_recorded: true, .. }));
    assert!(recorded);
    let second = pair_of(outcome);
    assert_ne!(second.access, first.access);
    assert_ne!(second.refresh, first.refresh);
    assert_eq!(session_of(world.check(&cfg, Some(&bearer(&second.access)))).id, 1001);
    assert_eq!(failure_of(world.refresh(&cfg, &first.refresh)), AuthError::RefreshAlreadyUsed);
    let third = pair_of(world.refresh(&cfg, &second.refresh));
    assert_eq!(session_of(world.check(&cfg, Some(&bearer(&third.access)))).id, 1001);
}

#[test]
fn refresh_records_the_old_token_for_the_access_lifetime() {
    let cfg = config();
    let mut world = World::new(Backend::Directory);
    let first = pair_of(world.login(&cfg, "ada@example.com", "correct horse"));
    world.done.clear();
    pair_of(world.refresh(&cfg, &first.refresh));
    assert_eq!(
        world.done,
        vec![
            "lookup 00000002-0000-4000-8000-000000000000".to_string(),
            "resolve".to_string(),
            "record 00000002-0000-4000-8000-000000000000 1001 900".to_string(),
        ]
    );
    let entry = world.ledger.get("00000002-0000-4000-8000-000000000000").unwrap();
    assert_eq!(entry, &("1001".to_string(), world.now + 900));
}

#[test]
fn used_refresh_token_is_rejected_until_the_ledger_forgets_it() {
    let cfg = config();
    let mut world = World::new(Backend::Directory);
    let start = world.now;
    let first = pair_of(world.login(&cfg, "ada@example.com", "correct horse"));
    pair_of(world.refresh(&cfg, &first.refresh));
    world.now = start + ACCESS_TTL - 1;
    assert_eq!(failure_of(world.refresh(&cfg, &first.refresh)), AuthError::RefreshAlreadyUsed);
    world.now = start + ACCESS_TTL;
    let again = pair_of(world.refresh(&cfg, &first.refresh));
    assert_eq!(session_of(world.check(&cfg, Some(&bearer(&again.access)))).id, 1001);
    world.now = start + REFRESH_TTL;
    assert_eq!(failure_of(world.refresh(&cfg, &first.refresh)), AuthError::InvalidRefreshToken);
}

#[test]
fn refresh_with_an_empty_token_asks_nothing() {
    let cfg = config();
    let mut world = World::new(Backend::Directory);
    assert_eq!(failure_of(world.refresh(&cfg, "")), AuthError::EmptyRefreshToken);
    assert!(world.done.is_empty());
    let step = refresh_begin(&cfg, &RefreshSchema { refresh: String::new() });
    assert!(matches!(step, SessionStep::Done(Err(AuthError::EmptyRefreshToken))));
}

#[test]
fn refresh_with_a_token_that_does_not_verify_asks_nothing() {
    let cfg = config();
    let mut world = World::new(Backend::Directory);
    let pair = pair_of(world.login(&cfg, "ada@example.com", "correct horse"));
    world.done.clear();
    assert_eq!(failure_of(world.refresh(&cfg, "junk")), AuthError::InvalidRefreshToken);
    assert_eq!(failure_of(world.refresh(&cfg, &pair.access)), AuthError::InvalidRefreshToken);
    assert!(world.done.is_empty());
}

#[test]
fn refresh_for_a_deleted_principal_writes_nothing() {
    let cfg = config();
    let mut world = World::new(Backend::Directory);
    let pair = pair_of(world.login(&cfg, "ada@example.com", "correct horse"));
    world.users.remove(0);
    world.done.clear();
    assert_eq!(failure_of(world.refresh(&cfg, &pair.refresh)), AuthError::PrincipalGone);
    assert!(world.ledger.is_empty());
    assert!(world.done.iter().all(|d| !d.starts_with("record")));
}

#[test]
fn refresh_stops_when_the_ledger_cannot_be_read() {
    let cfg = config();
    let mut world = World::new(Backend::Directory);
    let pair = pair_of(world.login(&cfg, "ada@example.com", "correct horse"));
    world.ledger_up = false;
    world.done.clear();
    assert_eq!(failure_of(world.refresh(&cfg, &pair.refresh)), AuthError::LedgerUnavailable);
    assert_eq!(world.done.len(), 1);
}

#[test]
fn refresh_succeeds_when_the_ledger_write_fails() {
    let cfg = config();
    let mut world = World::new(Backend::Directory);
    let pair = pair_of(world.login(&cfg, "ada@example.com", "correct horse"));
    world.ledger_writable = false;
    let outcome = world.refresh(&cfg, &pair.refresh);
    let degraded = matches!(&outcome, Ok(SessionOutcome::Refreshed { ledger_recorded: false, .. }));
    assert!(degraded);
    let next = pair_of(outcome);
    assert_eq!(session_of(world.check(&cfg, Some(&bearer(&next.access)))).id, 1001);
    assert!(world.refresh(&cfg, &pair.refresh).is_ok());
}

#[test]
fn refresh_reports_an_unreachable_backend_and_writes_nothing() {
    let cfg = config();
    let mut world = World::new(Backend::Sql);
    let pair = pair_of(world.login(&cfg, "ada@example.com", "correct horse"));
    world.backend_up = false;
    assert_eq!(failure_of(world.refresh(&cfg, &pair.refresh)), AuthError::ResolverUnavailable);
    assert!(world.ledger.is_empty());
}

#[test]
fn an_answer_of_the_wrong_kind_counts_as_no_answer() {
    let cfg = config();
    let moment = || Moment {
        now: 10,
        first_id: "00000001-0000-4000-8000-000000000000".to_string(),
        second_id: "00000002-0000-4000-8000-000000000000".to_string(),
    };
    let step = session_advance_at(&cfg, SessionState::LoginResolve, SessionEvent::LedgerFound, moment());
    assert!(matches!(step, SessionStep::Done(Err(AuthError::ResolverUnavailable))));
    let waiting = SessionState::RefreshLookup {
        token_uuid: "00000003-0000-4000-8000-000000000000".to_string(),
        user_id: 5,
    };
    let step = session_advance_at(&cfg, waiting, SessionEvent::LedgerRecorded, moment());
    assert!(matches!(step, SessionStep::Done(Err(AuthError::LedgerUnavailable))));
    let step = session_advance_at(
        &cfg,
        SessionState::CheckResolve { user_id: 5 },
        SessionEvent::Resolved(Ok(Principal { id: 6, email: String::new(), created_at: None })),
        moment(),
    );
    assert!(matches!(step, SessionStep::Done(Err(AuthError::ResolverUnavailable))));
}

#[test]
fn flows_run_on_the_real_clock_with_fresh_identifiers() {
    let cfg = config();
    let mut world = World::new(Backend::Directory);
    let moment = current_moment();
    assert_ne!(moment.first_id, moment.second_id);
    assert_eq!(moment.first_id.len(), 36);
    assert!(moment.now > 1_600_000_000);
    let answer = world.resolve(ResolverRequest::Authenticate {
        login: "ada@example.com".to_string(),
        secret: "correct horse".to_string(),
    });
    let step = session_advance(&cfg, SessionState::LoginResolve, SessionEvent::Resolved(answer));
    let pair = match step {
        SessionStep::Done(outcome) => pair_of(outcome),
        other => panic!("login did not end: {:?}", other),
    };
    let step = check_begin(&cfg, Some(&bearer(&pair.access)));
    assert!(matches!(
        step,
        SessionStep::Perform(
            SessionState::CheckResolve { user_id: 1001 },
            SessionAction::Resolve(ResolverRequest::FetchById { id: 1001 })
        )
    ));
    let body = RefreshSchema { refresh: pair.refresh.clone() };
    let step = refresh_begin(&cfg, &body);
    assert!(matches!(step, SessionStep::Perform(SessionState::RefreshLookup { user_id: 1001, .. }, _)));
    assert!(matches!(check_begin(&cfg, None), SessionStep::Done(Err(AuthError::MissingToken))));
}

#[test]
fn directory_entries_without_a_usable_uid_give_no_credential() {
    let request = ResolverRequest::Authenticate {
        login: "ada@example.com".to_string(),
        secret: "pw".to_string(),
    };
    let phase = match resolver_begin(Backend::Directory, &request) {
        ResolverStep::Perform(phase, BackendAction::DirectorySearch { base_dn, filter, attribute }) => {
            assert_eq!(base_dn, "ou=dia,dc=diditalready,dc=com");
            assert_eq!(filter, "(&(objectClass=inetOrgPerson)(mail=ada@example.com))");
            assert_eq!(attribute, "uid");
            phase
        }
        other => panic!("unexpected step: {:?}", other),
    };
    for entries in [vec![], vec![None], vec![Some("x1".to_string())], vec![Some(String::new())]] {
        let step = resolver_advance(&request, phase, BackendEvent::DirectoryEntries(entries));
        assert!(matches!(step, ResolverStep::Resolved(Err(ResolverError::InvalidCredential))));
    }
    let step = resolver_advance(
        &request,
        phase,
        BackendEvent::DirectoryEntries(vec![Some("77".to_string()), Some("78".to_string())]),
    );
    match step {
        ResolverStep::Perform(_, BackendAction::DirectoryBind { dn, password }) => {
            assert_eq!(dn, "uid=77,ou=dia,dc=diditalready,dc=com");
            assert_eq!(password, "pw");
        }
        other => panic!("unexpected step: {:?}", other),
    }
    let step = resolver_advance(&request, phase, BackendEvent::Unavailable);
    assert!(matches!(step, ResolverStep::Resolved(Err(ResolverError::ResolverUnavailable))));
    let step = resolver_advance(&request, phase, BackendEvent::SqlRow(None));
    assert!(matches!(step, ResolverStep::Resolved(Err(ResolverError::ResolverUnavailable))));
}

#[test]
fn directory_lookup_by_identifier_reads_the_mail() {
    let request = ResolverRequest::FetchById { id: 42 };
    let phase = match resolver_begin(Backend::Directory, &request) {
        ResolverStep::Perform(phase, BackendAction::DirectorySearch { filter, attribute, .. }) => {
            assert_eq!(filter, "(&(objectClass=inetOrgPerson)(uid=42))");
            assert_eq!(attribute, "mail");
            phase
        }
        other => panic!("unexpected step: {:?}", other),
    };
    let step = resolver_advance(&request, phase, BackendEvent::DirectoryEntries(vec![]));
    assert!(matches!(step, ResolverStep::Resolved(Err(ResolverError::PrincipalNotFound))));
    let step = resolver_advance(&request, phase, BackendEvent::DirectoryEntries(vec![None]));
    assert!(matches!(step, ResolverStep::Resolved(Err(ResolverError::ResolverUnavailable))));
    let found = BackendEvent::DirectoryEntries(vec![Some("z@example.com".to_string())]);
    match resolver_advance(&request, phase, found) {
        ResolverStep::Resolved(Ok(p)) => {
            assert_eq!((p.id, p.email.as_str(), p.created_at), (42, "z@example.com", None));
        }
        other => panic!("unexpected step: {:?}", other),
    }
}

#[test]
fn user_table_rows_are_checked_against_the_stored_hash() {
    let request = ResolverRequest::Authenticate {
        login: "ada@example.com".to_string(),
        secret: "correct horse".to_string(),
    };
    let phase = match resolver_begin(Backend::Sql, &request) {
        ResolverStep::Perform(phase, BackendAction::SqlFetchByEmail { query, email }) => {
            assert_eq!(query, "SELECT * FROM users WHERE email = $1");
            assert_eq!(email, "ada@example.com");
            phase
        }
        other => panic!("unexpected step: {:?}", other),
    };
    assert_eq!(phase, ResolverPhase::SqlLoginRow);
    let row = |password: String, user_id: i32| User {
        id: "00000000-0000-4000-8000-000000000001".to_string(),
        email: "ada@example.com".to_string(),
        password,
        user_id,
        created_at: None,
    };
    let good = resolver_advance(&request, phase, BackendEvent::SqlRow(Some(row(hash_of("correct horse"), 9))));
    assert!(matches!(good, ResolverStep::Resolved(Ok(Principal { id: 9, .. }))));
    let other = resolver_advance(&request, phase, BackendEvent::SqlRow(Some(row(hash_of("other"), 9))));
    assert!(matches!(other, ResolverStep::Resolved(Err(ResolverError::InvalidCredential))));
    let plain = resolver_advance(
        &request,
        phase,
        BackendEvent::SqlRow(Some(row("correct horse".to_string(), 9))),
    );
    assert!(matches!(plain, ResolverStep::Resolved(Err(ResolverError::InvalidCredential))));
    let negative = resolver_advance(
        &request,
        phase,
        BackendEvent::SqlRow(Some(row(hash_of("correct horse"), -1))),
    );
    assert!(matches!(negative, ResolverStep::Resolved(Err(ResolverError::InvalidCredential))));
    let none = resolver_advance(&request, phase, BackendEvent::SqlRow(None));
    assert!(matches!(none, ResolverStep::Resolved(Err(ResolverError::InvalidCredential))));
}

#[test]
fn refresh_token_of_another_service_key_is_not_accepted() {
    let cfg = config();
    let mut world = World::new(Backend::Directory);
    let foreign = generate_jwt_token_at(
        1001,
        REFRESH_TTL,
        &private_a(),
        world.now,
        "0000000a-0000-4000-8000-000000000000".to_string(),
    )
    .unwrap()
    .token
    .unwrap();
    assert_eq!(failure_of(world.refresh(&cfg, &foreign)), AuthError::InvalidRefreshToken);
}

#[test]
fn two_refreshes_of_one_token_that_interleave_both_succeed() {
    let cfg = config();
    let mut world = World::new(Backend::Directory);
    let pair = pair_of(world.login(&cfg, "ada@example.com", "correct horse"));
    let body = RefreshSchema { refresh: pair.refresh.clone() };
    let a = refresh_begin_at(&cfg, &body, world.now);
    let b = refresh_begin_at(&cfg, &body, world.now);
    let a = world.step(&cfg, a);
    let b = world.step(&cfg, b);
    let a = world.step(&cfg, a);
    let b = world.step(&cfg, b);
    assert!(world.ledger.is_empty());
    world.now += 10;
    let a = world.step(&cfg, a);
    let first_write = world.now;
    assert_eq!(world.ledger.len(), 1);
    world.now += 10;
    let b = world.step(&cfg, b);
    let last_write = world.now;
    assert!(matches!(a, SessionStep::Done(Ok(SessionOutcome::Refreshed { ledger_recorded: true, .. }))));
    assert!(matches!(b, SessionStep::Done(Ok(SessionOutcome::Refreshed { ledger_recorded: true, .. }))));
    assert_eq!(world.ledger.len(), 1);
    let entry = world.ledger.values().next().unwrap();
    assert_eq!(entry, &("1001".to_string(), last_write + ACCESS_TTL));
    assert_ne!(first_write, last_write);
    assert_eq!(failure_of(world.refresh(&cfg, &pair.refresh)), AuthError::RefreshAlreadyUsed);
}

#[test]
fn login_text_with_filter_characters_is_matched_literally() {
    let cfg = config();
    let mut world = World::new(Backend::Directory);
    world.users = vec![(7, "a@b.c".to_string(), "pw".to_string())];
    for login in ["*", "a*", "*@b.c", "a@b.c)(uid=7", "a@b.c))(|(uid=*", "\\2a", "a@b.c\0"] {
        assert_eq!(failure_of(world.login(&cfg, login, "pw")), AuthError::InvalidCredential, "{}", login);
    }
    assert!(world.done.iter().all(|d| d == "resolve"));
    assert_eq!(session_of_login(&mut world, &cfg, "a@b.c", "pw"), 7);
    let request = ResolverRequest::Authenticate { login: "*".to_string(), secret: "pw".to_string() };
    match resolver_begin(Backend::Directory, &request) {
        ResolverStep::Perform(_, BackendAction::DirectorySearch { filter, .. }) => {
            assert_eq!(filter, "(&(objectClass=inetOrgPerson)(mail=\\2a))");
        }
        other => panic!("unexpected step: {:?}", other),
    }
    let request = ResolverRequest::Authenticate {
        login: "a(b)c\\d\0e*".to_string(),
        secret: "pw".to_string(),
    };
    match resolver_begin(Backend::Directory, &request) {
        ResolverStep::Perform(_, BackendAction::DirectorySearch { filter, .. }) => {
            assert_eq!(
                filter,
                "(&(objectClass=inetOrgPerson)(mail=a\\28b\\29c\\5cd\\00e\\2a))"
            );
        }
        other => panic!("unexpected step: {:?}", other),
    }
}

fn session_of_login(world: &mut World, cfg: &Config, login: &str, secret: &str) -> u64 {
    let pair = pair_of(world.login(cfg, login, secret));
    session_of(world.check(cfg, Some(&bearer(&pair.access)))).id
}

#[test]
fn login_with_an_asterisk_finds_nobody_in_the_user_table_either() {
    let cfg = config();
    let mut world = World::new(Backend::Sql);
    assert_eq!(failure_of(world.login(&cfg, "*", "correct horse")), AuthError::InvalidCredential);
    assert_eq!(failure_of(world.login(&cfg, "%", "correct horse")), AuthError::InvalidCredential);
}

#[test]
fn header_under_another_scheme_is_not_admitted() {
    let cfg = config();
    let mut world = World::new(Backend::Directory);
    let pair = pair_of(world.login(&cfg, "ada@example.com", "correct horse"));
    world.done.clear();
    let others = [
        format!("Basic__{}", pair.access),
        format!("bearer {}", pair.access),
        format!("BEARER {}", pair.access),
        format!("Bearer\t{}", pair.access),
        format!(" Bearer{}", pair.access),
        format!("Token 1{}", pair.access),
        pair.access.clone(),
        "Bearer".to_string(),
        String::new(),
    ];
    for header in &others {
        assert_eq!(failure_of(world.check(&cfg, Some(header))), AuthError::Malformed, "{}", header);
    }
    assert!(world.done.is_empty());
    assert_eq!(session_of(world.check(&cfg, Some(&bearer(&pair.access)))).id, 1001);
}

#[test]
fn identifier_beyond_the_user_table_is_nobody() {
    let request = ResolverRequest::FetchById { id: i64::MAX as u64 + 1 };
    let step = resolver_begin(Backend::Sql, &request);
    assert!(matches!(step, ResolverStep::Resolved(Err(ResolverError::PrincipalNotFound))));
    let request = ResolverRequest::FetchById { id: u64::MAX };
    let step = resolver_begin(Backend::Sql, &request);
    assert!(matches!(step, ResolverStep::Resolved(Err(ResolverError::PrincipalNotFound))));
    let request = ResolverRequest::FetchById { id: i64::MAX as u64 };
    match resolver_begin(Backend::Sql, &request) {
        ResolverStep::Perform(phase, BackendAction::SqlFetchById { query, id }) => {
            assert_eq!(phase, ResolverPhase::SqlIdRow);
            assert_eq!(query, "SELECT * FROM users WHERE id = $1");
            assert_eq!(id, i64::MAX);
        }
        other => panic!("unexpected step: {:?}", other),
    }
    let request = ResolverRequest::FetchById { id: u64::MAX };
    assert!(matches!(
        resolver_begin(Backend::Directory, &request),
        ResolverStep::Perform(ResolverPhase::DirectoryIdSearch, _)
    ));
}

#[test]
fn row_of_a_login_is_judged_by_the_hash_verdict_and_the_identifier() {
    let row = |user_id: i32| User {
        id: "00000000-0000-4000-8000-000000000001".to_string(),
        email: "ada@example.com".to_string(),
        password: "stored".to_string(),
        user_id,
        created_at: Some(12),
    };
    match judge_login_row(true, row(9)) {
        Ok(p) => assert_eq!((p.id, p.email.as_str(), p.created_at), (9, "ada@example.com", Some(12))),
        Err(e) => panic!("unexpected failure: {:?}", e),
    }
    assert!(matches!(judge_login_row(true, row(0)), Ok(Principal { id: 0, .. })));
    assert!(matches!(judge_login_row(true, row(i32::MAX)), Ok(Principal { id: 2147483647, .. })));
    assert!(matches!(judge_login_row(false, row(9)), Err(ResolverError::InvalidCredential)));
    assert!(matches!(judge_login_row(true, row(-1)), Err(ResolverError::InvalidCredential)));
    assert!(matches!(judge_login_row(false, row(-1)), Err(ResolverError::InvalidCredential)));
    assert!(matches!(judge_login_row(true, row(i32::MIN)), Err(ResolverError::InvalidCredential)));
}

#[test]
fn refresh_right_after_login_gives_three_distinct_tokens_of_the_principal() {
    let cfg = config();
    let mut world = World::new(Backend::Directory);
    let first = pair_of(world.login(&cfg, "bob@example.com", "battery staple"));
    let second = pair_of(world.refresh(&cfg, &first.refresh));
    let old = verify_jwt_token_at(&public_b(), &first.refresh, world.now).unwrap();
    let access = verify_jwt_token_at(&public_a(), &second.access, world.now).unwrap();
    let refresh = verify_jwt_token_at(&public_b(), &second.refresh, world.now).unwrap();
    assert_eq!((access.user_id, refresh.user_id, old.user_id), (1002, 1002, 1002));
    assert_ne!(access.token_uuid, old.token_uuid);
    assert_ne!(refresh.token_uuid, old.token_uuid);
    assert_ne!(access.token_uuid, refresh.token_uuid);
    assert_eq!(access.expires_in, Some(world.now + ACCESS_TTL));
    assert_eq!(refresh.expires_in, Some(world.now + REFRESH_TTL));
    assert_eq!(failure_of(world.refresh(&cfg, &first.refresh)), AuthError::RefreshAlreadyUsed);
}
