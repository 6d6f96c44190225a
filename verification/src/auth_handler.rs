//! The login, refresh and session-check flows.
//!
//! Each flow is a short run of steps. A step either ends the flow or names
//! the one thing to do next -- resolve a principal, look a token up in the
//! ledger, record a token in it -- and the state to come back with. The
//! caller does that thing and hands the answer to [`session_advance`]. No
//! flow reads the ledger or the identity backend by itself, and none knows
//! which backend is in use.

use vstd::prelude::*;
use vstd::string::*;
use crate::auth_error::AuthError;
use crate::decimal::{decimal_text, u64_to_text};
use crate::identity::{
    resolved_view, Principal, PrincipalView, ResolverError, ResolverRequest, ResolverRequestView,
};
use crate::jwt_auth::{admission, header_view, JwtMiddleware};
use crate::token_model::{is_token_uuid, text_view};
use crate::token_service::{
    generate_jwt_token_at, minted_token, new_token_uuid, rs256_decoded, unix_now,
    verify_jwt_token_at, verify_outcome,
};
use crate::user_model::{LoginUserSchema, RefreshSchema};

verus! {

/// The keys and lifetimes that tokens are minted and verified with. Keys are
/// PEM texts, lifetimes seconds.
#[derive(Debug, Clone)]
pub struct Config {
    pub access_token_private_key: String,
    pub access_token_public_key: String,
    pub refresh_token_private_key: String,
    pub refresh_token_public_key: String,
    pub access_token_max_age: i64,
    pub refresh_token_max_age: i64,
}

/// The mathematical value of [`Config`].
pub struct ConfigView {
    pub access_token_private_key: Seq<char>,
    pub access_token_public_key: Seq<char>,
    pub refresh_token_private_key: Seq<char>,
    pub refresh_token_public_key: Seq<char>,
    pub access_token_max_age: i64,
    pub refresh_token_max_age: i64,
}

impl View for Config {
    type V = ConfigView;

    open spec fn view(&self) -> ConfigView {
        ConfigView {
            access_token_private_key: self.access_token_private_key@,
            access_token_public_key: self.access_token_public_key@,
            refresh_token_private_key: self.refresh_token_private_key@,
            refresh_token_public_key: self.refresh_token_public_key@,
            access_token_max_age: self.access_token_max_age,
            refresh_token_max_age: self.refresh_token_max_age,
        }
    }
}

/// A lifetime given in minutes, in seconds.
pub open spec fn minutes_in_seconds(minutes: i64) -> int {
    minutes * 60
}

/// Turns a lifetime given in minutes into seconds, where the seconds are
/// representable.
pub fn lifetime_seconds(minutes: i64) -> (seconds: Option<i64>)
    ensures
        seconds is Some <==> i64::MIN <= minutes_in_seconds(minutes) <= i64::MAX,
        seconds matches Some(s) ==> s == minutes_in_seconds(minutes),
{
    minutes.checked_mul(60)
}

/// What a step takes from the moment it runs in: the current second and two
/// unused token identifiers.
#[derive(Debug, Clone)]
pub struct Moment {
    pub now: i64,
    pub first_id: String,
    pub second_id: String,
}

/// The mathematical value of [`Moment`].
pub struct MomentView {
    pub now: i64,
    pub first_id: Seq<char>,
    pub second_id: Seq<char>,
}

impl View for Moment {
    type V = MomentView;

    open spec fn view(&self) -> MomentView {
        MomentView { now: self.now, first_id: self.first_id@, second_id: self.second_id@ }
    }
}

/// An access token and a refresh token, minted together.
#[derive(Debug, Clone)]
pub struct TokenPair {
    pub access: String,
    pub refresh: String,
}

/// The mathematical value of [`TokenPair`].
pub struct TokenPairView {
    pub access: Seq<char>,
    pub refresh: Seq<char>,
}

impl View for TokenPair {
    type V = TokenPairView;

    open spec fn view(&self) -> TokenPairView {
        TokenPairView { access: self.access@, refresh: self.refresh@ }
    }
}

/// The one thing to do before the next step.
#[derive(Debug)]
pub enum SessionAction {
    /// Ask the identity resolver.
    Resolve(ResolverRequest),
    /// Ask the ledger whether it holds `key`.
    LedgerLookup { key: String },
    /// Have the ledger hold `key` with `value` for `ttl` seconds, whether or
    /// not it holds the key already.
    LedgerRecord { key: String, value: String, ttl: i64 },
}

/// The mathematical value of [`SessionAction`].
pub enum SessionActionView {
    Resolve(ResolverRequestView),
    LedgerLookup { key: Seq<char> },
    LedgerRecord { key: Seq<char>, value: Seq<char>, ttl: i64 },
}

impl View for SessionAction {
    type V = SessionActionView;

    open spec fn view(&self) -> SessionActionView {
        match self {
            SessionAction::Resolve(request) => SessionActionView::Resolve(request@),
            SessionAction::LedgerLookup { key } => SessionActionView::LedgerLookup { key: key@ },
            SessionAction::LedgerRecord { key, value, ttl } => SessionActionView::LedgerRecord {
                key: key@,
                value: value@,
                ttl: *ttl,
            },
        }
    }
}

/// The answer to an action.
#[derive(Debug)]
pub enum SessionEvent {
    /// The resolver's answer.
    Resolved(Result<Principal, ResolverError>),
    /// The ledger holds the key.
    LedgerFound,
    /// The ledger does not hold the key.
    LedgerAbsent,
    /// The ledger could not be asked, or did not answer in time.
    LedgerFailed,
    /// The ledger holds the key from now on.
    LedgerRecorded,
    /// The ledger did not take the key.
    LedgerRecordFailed,
}

/// The mathematical value of [`SessionEvent`].
pub enum SessionEventView {
    Resolved(Result<PrincipalView, ResolverError>),
    LedgerFound,
    LedgerAbsent,
    LedgerFailed,
    LedgerRecorded,
    LedgerRecordFailed,
}

impl View for SessionEvent {
    type V = SessionEventView;

    open spec fn view(&self) -> SessionEventView {
        match self {
            SessionEvent::Resolved(r) => SessionEventView::Resolved(resolved_view(*r)),
            SessionEvent::LedgerFound => SessionEventView::LedgerFound,
            SessionEvent::LedgerAbsent => SessionEventView::LedgerAbsent,
            SessionEvent::LedgerFailed => SessionEventView::LedgerFailed,
            SessionEvent::LedgerRecorded => SessionEventView::LedgerRecorded,
            SessionEvent::LedgerRecordFailed => SessionEventView::LedgerRecordFailed,
        }
    }
}

/// Where a flow stands between two steps: which answer it awaits and what it
/// keeps for the steps to come.
#[derive(Debug)]
pub enum SessionState {
    /// A login awaits the principal of its credential.
    LoginResolve,
    /// A session check awaits the principal of its access token.
    CheckResolve { user_id: u64 },
    /// A refresh awaits the ledger's word on its refresh token.
    RefreshLookup { token_uuid: String, user_id: u64 },
    /// A refresh awaits the principal of its refresh token.
    RefreshResolve { token_uuid: String, user_id: u64 },
    /// A refresh has minted the new access token and awaits the ledger's
    /// receipt for the old refresh token.
    RefreshRecord { user_id: u64, access: String },
}

/// The mathematical value of [`SessionState`].
pub enum SessionStateView {
    LoginResolve,
    CheckResolve { user_id: u64 },
    RefreshLookup { token_uuid: Seq<char>, user_id: u64 },
    RefreshResolve { token_uuid: Seq<char>, user_id: u64 },
    RefreshRecord { user_id: u64, access: Seq<char> },
}

impl View for SessionState {
    type V = SessionStateView;

    open spec fn view(&self) -> SessionStateView {
        match self {
            SessionState::LoginResolve => SessionStateView::LoginResolve,
            SessionState::CheckResolve { user_id } => SessionStateView::CheckResolve {
                user_id: *user_id,
            },
            SessionState::RefreshLookup { token_uuid, user_id } => SessionStateView::RefreshLookup {
                token_uuid: token_uuid@,
                user_id: *user_id,
            },
            SessionState::RefreshResolve {
                token_uuid,
                user_id,
            } => SessionStateView::RefreshResolve { token_uuid: token_uuid@, user_id: *user_id },
            SessionState::RefreshRecord { user_id, access } => SessionStateView::RefreshRecord {
                user_id: *user_id,
                access: access@,
            },
        }
    }
}

/// What a flow ends in when it succeeds.
#[derive(Debug)]
pub enum SessionOutcome {
    /// A login: the new pair.
    LoggedIn(TokenPair),
    /// A refresh: the new pair, and whether the ledger took the old refresh
    /// token. Where it did not, the old token can be used once more.
    Refreshed { pair: TokenPair, ledger_recorded: bool },
    /// A session check: the principal of the access token.
    Session(Principal),
}

/// The mathematical value of [`SessionOutcome`].
pub enum SessionOutcomeView {
    LoggedIn(TokenPairView),
    Refreshed { pair: TokenPairView, ledger_recorded: bool },
    Session(PrincipalView),
}

impl View for SessionOutcome {
    type V = SessionOutcomeView;

    open spec fn view(&self) -> SessionOutcomeView {
        match self {
            SessionOutcome::LoggedIn(pair) => SessionOutcomeView::LoggedIn(pair@),
            SessionOutcome::Refreshed { pair, ledger_recorded } => SessionOutcomeView::Refreshed {
                pair: pair@,
                ledger_recorded: *ledger_recorded,
            },
            SessionOutcome::Session(p) => SessionOutcomeView::Session(p@),
        }
    }
}

/// One step of a flow.
#[derive(Debug)]
pub enum SessionStep {
    /// The flow goes on once the action is done.
    Perform(SessionState, SessionAction),
    /// The flow has ended.
    Done(Result<SessionOutcome, AuthError>),
}

/// The view of a flow's result.
pub open spec fn outcome_view(r: Result<SessionOutcome, AuthError>) -> Result<
    SessionOutcomeView,
    AuthError,
> {
    match r {
        Ok(o) => Ok(o@),
        Err(e) => Err(e),
    }
}

/// The mathematical value of [`SessionStep`].
pub enum SessionStepView {
    Perform(SessionStateView, SessionActionView),
    Done(Result<SessionOutcomeView, AuthError>),
}

impl View for SessionStep {
    type V = SessionStepView;

    open spec fn view(&self) -> SessionStepView {
        match self {
            SessionStep::Perform(state, action) => SessionStepView::Perform(state@, action@),
            SessionStep::Done(r) => SessionStepView::Done(outcome_view(*r)),
        }
    }
}

/// A step that ends a flow in a failure.
pub open spec fn failed(e: AuthError) -> SessionStepView {
    SessionStepView::Done(Err(e))
}

/// The first step of a login: the credential goes to the resolver.
pub open spec fn login_first(login: Seq<char>, secret: Seq<char>) -> SessionStepView {
    SessionStepView::Perform(
        SessionStateView::LoginResolve,
        SessionActionView::Resolve(ResolverRequestView::Authenticate { login, secret }),
    )
}

/// The first step of a refresh at second `now`. An empty token ends the flow
/// at once, and so does one that does not verify against the refresh key;
/// otherwise the ledger is asked for the token's identifier.
pub open spec fn refresh_first(cfg: ConfigView, token: Seq<char>, now: i64) -> SessionStepView {
    if token.len() == 0 {
        failed(AuthError::EmptyRefreshToken)
    } else {
        match verify_outcome(rs256_decoded(token, cfg.refresh_token_public_key), now) {
            Err(_) => failed(AuthError::InvalidRefreshToken),
            Ok(d) => SessionStepView::Perform(
                SessionStateView::RefreshLookup { token_uuid: d.token_uuid, user_id: d.user_id },
                SessionActionView::LedgerLookup { key: d.token_uuid },
            ),
        }
    }
}

/// The first step of a session check at second `now`: the bearer token is
/// verified against the access key, then its principal is asked for.
pub open spec fn check_first(cfg: ConfigView, header: Option<Seq<char>>, now: i64) -> SessionStepView {
    match admission(header, cfg.access_token_public_key, now) {
        Err(e) => failed(e),
        Ok(admitted) => SessionStepView::Perform(
            SessionStateView::CheckResolve { user_id: admitted.user_id },
            SessionActionView::Resolve(ResolverRequestView::FetchById { id: admitted.user_id }),
        ),
    }
}

/// The access token minted for a principal in a moment, if minting succeeds.
pub open spec fn access_minted(cfg: ConfigView, user_id: u64, now: i64, id: Seq<char>) -> Option<
    Seq<char>,
> {
    minted_token(user_id, cfg.access_token_max_age, cfg.access_token_private_key, now, id)
}

/// The refresh token minted for a principal in a moment, if minting succeeds.
pub open spec fn refresh_minted(cfg: ConfigView, user_id: u64, now: i64, id: Seq<char>) -> Option<
    Seq<char>,
> {
    minted_token(user_id, cfg.refresh_token_max_age, cfg.refresh_token_private_key, now, id)
}

/// How a login ends once the resolver has answered: with a pair minted for
/// the principal, the access token under the moment's first identifier and
/// the refresh token under its second.
pub open spec fn login_end(
    cfg: ConfigView,
    answer: Result<PrincipalView, ResolverError>,
    moment: MomentView,
) -> Result<SessionOutcomeView, AuthError> {
    match answer {
        Err(ResolverError::ResolverUnavailable) => Err(AuthError::ResolverUnavailable),
        Err(_) => Err(AuthError::InvalidCredential),
        Ok(p) => match (
            access_minted(cfg, p.id, moment.now, moment.first_id),
            refresh_minted(cfg, p.id, moment.now, moment.second_id),
        ) {
            (Some(access), Some(refresh)) => Ok(
                SessionOutcomeView::LoggedIn(TokenPairView { access, refresh }),
            ),
            _ => Err(AuthError::SigningError),
        },
    }
}

/// How a session check ends once the resolver has answered.
pub open spec fn check_end(user_id: u64, answer: Result<PrincipalView, ResolverError>) -> Result<
    SessionOutcomeView,
    AuthError,
> {
    match answer {
        Ok(p) => if p.id == user_id {
            Ok(SessionOutcomeView::Session(p))
        } else {
            Err(AuthError::ResolverUnavailable)
        },
        Err(ResolverError::PrincipalNotFound) => Err(AuthError::PrincipalNotFound),
        Err(_) => Err(AuthError::ResolverUnavailable),
    }
}

/// What follows the resolver's answer in a refresh: where the principal is
/// there, the new access token is minted and the old refresh token goes to
/// the ledger for the lifetime of an access token; where it is gone, the flow
/// ends and the ledger is not written.
pub open spec fn refresh_after_resolve(
    cfg: ConfigView,
    token_uuid: Seq<char>,
    user_id: u64,
    answer: Result<PrincipalView, ResolverError>,
    moment: MomentView,
) -> SessionStepView {
    match answer {
        Err(ResolverError::PrincipalNotFound) => failed(AuthError::PrincipalGone),
        Err(_) => failed(AuthError::ResolverUnavailable),
        Ok(p) => if p.id != user_id {
            failed(AuthError::ResolverUnavailable)
        } else {
            match access_minted(cfg, user_id, moment.now, moment.first_id) {
                None => failed(AuthError::SigningError),
                Some(access) => SessionStepView::Perform(
                    SessionStateView::RefreshRecord { user_id, access },
                    SessionActionView::LedgerRecord {
                        key: token_uuid,
                        value: decimal_text(user_id as nat),
                        ttl: cfg.access_token_max_age,
                    },
                ),
            }
        },
    }
}

/// How a refresh ends once the ledger has answered the write: the new
/// refresh token is minted whether or not the ledger took the old one.
pub open spec fn refresh_end(
    cfg: ConfigView,
    user_id: u64,
    access: Seq<char>,
    recorded: bool,
    moment: MomentView,
) -> Result<SessionOutcomeView, AuthError> {
    match refresh_minted(cfg, user_id, moment.now, moment.first_id) {
        None => Err(AuthError::SigningError),
        Some(refresh) => Ok(
            SessionOutcomeView::Refreshed {
                pair: TokenPairView { access, refresh },
                ledger_recorded: recorded,
            },
        ),
    }
}

/// What follows an answer. An answer of another kind than the one awaited
/// counts as the awaited service not answering; to the write in a refresh,
/// every answer but the receipt counts as a failed write.
pub open spec fn session_next(
    cfg: ConfigView,
    state: SessionStateView,
    event: SessionEventView,
    moment: MomentView,
) -> SessionStepView {
    match state {
        SessionStateView::LoginResolve => match event {
            SessionEventView::Resolved(answer) => SessionStepView::Done(
                login_end(cfg, answer, moment),
            ),
            _ => failed(AuthError::ResolverUnavailable),
        },
        SessionStateView::CheckResolve { user_id } => match event {
            SessionEventView::Resolved(answer) => SessionStepView::Done(check_end(user_id, answer)),
            _ => failed(AuthError::ResolverUnavailable),
        },
        SessionStateView::RefreshLookup { token_uuid, user_id } => match event {
            SessionEventView::LedgerFound => failed(AuthError::RefreshAlreadyUsed),
            SessionEventView::LedgerAbsent => SessionStepView::Perform(
                SessionStateView::RefreshResolve { token_uuid, user_id },
                SessionActionView::Resolve(ResolverRequestView::FetchById { id: user_id }),
            ),
            _ => failed(AuthError::LedgerUnavailable),
        },
        SessionStateView::RefreshResolve { token_uuid, user_id } => match event {
            SessionEventView::Resolved(answer) => refresh_after_resolve(
                cfg,
                token_uuid,
                user_id,
                answer,
                moment,
            ),
            _ => failed(AuthError::ResolverUnavailable),
        },
        SessionStateView::RefreshRecord { user_id, access } => SessionStepView::Done(
            refresh_end(cfg, user_id, access, event is LedgerRecorded, moment),
        ),
    }
}

fn fail(e: AuthError) -> (step: SessionStep)
    ensures
        step@ == failed(e),
{
    SessionStep::Done(Err(e))
}

/// Begins a login.
pub fn login_begin(body: LoginUserSchema) -> (step: SessionStep)
    ensures
        step@ == login_first(body.email@, body.password@),
{
    SessionStep::Perform(
        SessionState::LoginResolve,
        SessionAction::Resolve(
            ResolverRequest::Authenticate { login: body.email, secret: body.password },
        ),
    )
}

/// Begins a refresh at second `now`.
pub fn refresh_begin_at(cfg: &Config, body: &RefreshSchema, now: i64) -> (step: SessionStep)
    ensures
        step@ == refresh_first(cfg@, body.refresh@, now),
{
    if body.refresh.as_str().is_empty() {
        return fail(AuthError::EmptyRefreshToken);
    }
    match verify_jwt_token_at(cfg.refresh_token_public_key.as_str(), body.refresh.as_str(), now) {
        Err(_) => fail(AuthError::InvalidRefreshToken),
        Ok(details) => {
            let key = details.token_uuid.clone();
            SessionStep::Perform(
                SessionState::RefreshLookup {
                    token_uuid: details.token_uuid,
                    user_id: details.user_id,
                },
                SessionAction::LedgerLookup { key },
            )
        },
    }
}

/// Begins a session check at second `now` for a request with the given
/// `Authorization` header, if it has one.
pub fn check_begin_at(cfg: &Config, header: Option<&str>, now: i64) -> (step: SessionStep)
    ensures
        step@ == check_first(
            cfg@,
            header_view(header),
            now,
        ),
{
    match JwtMiddleware::from_request(header, cfg.access_token_public_key.as_str(), now) {
        Err(e) => fail(e),
        Ok(admitted) => SessionStep::Perform(
            SessionState::CheckResolve { user_id: admitted.user_id },
            SessionAction::Resolve(ResolverRequest::FetchById { id: admitted.user_id }),
        ),
    }
}

fn mint(user_id: u64, ttl: i64, private_key: &str, now: i64, id: String) -> (token: Option<String>)
    ensures
        text_view(token) == minted_token(user_id, ttl, private_key@, now, id@),
{
    match generate_jwt_token_at(user_id, ttl, private_key, now, id) {
        Ok(details) => details.token,
        Err(_) => None,
    }
}

fn login_finish(cfg: &Config, answer: Result<Principal, ResolverError>, moment: Moment) -> (r: Result<
    SessionOutcome,
    AuthError,
>)
    ensures
        outcome_view(r) == login_end(cfg@, resolved_view(answer), moment@),
{
    let principal = match answer {
        Err(ResolverError::ResolverUnavailable) => {
            return Err(AuthError::ResolverUnavailable);
        },
        Err(_) => {
            return Err(AuthError::InvalidCredential);
        },
        Ok(p) => p,
    };
    let Moment { now, first_id, second_id } = moment;
    let access = mint(
        principal.id,
        cfg.access_token_max_age,
        cfg.access_token_private_key.as_str(),
        now,
        first_id,
    );
    let refresh = mint(
        principal.id,
        cfg.refresh_token_max_age,
        cfg.refresh_token_private_key.as_str(),
        now,
        second_id,
    );
    match (access, refresh) {
        (Some(access), Some(refresh)) => Ok(SessionOutcome::LoggedIn(TokenPair { access, refresh })),
        _ => Err(AuthError::SigningError),
    }
}

fn check_finish(user_id: u64, answer: Result<Principal, ResolverError>) -> (r: Result<
    SessionOutcome,
    AuthError,
>)
    ensures
        outcome_view(r) == check_end(user_id, resolved_view(answer)),
{
    match answer {
        Ok(p) => if p.id == user_id {
            Ok(SessionOutcome::Session(p))
        } else {
            Err(AuthError::ResolverUnavailable)
        },
        Err(ResolverError::PrincipalNotFound) => Err(AuthError::PrincipalNotFound),
        Err(_) => Err(AuthError::ResolverUnavailable),
    }
}

fn refresh_resolved(
    cfg: &Config,
    token_uuid: String,
    user_id: u64,
    answer: Result<Principal, ResolverError>,
    moment: Moment,
) -> (step: SessionStep)
    ensures
        step@ == refresh_after_resolve(cfg@, token_uuid@, user_id, resolved_view(answer), moment@),
{
    match answer {
        Err(ResolverError::PrincipalNotFound) => fail(AuthError::PrincipalGone),
        Err(_) => fail(AuthError::ResolverUnavailable),
        Ok(p) => {
            if p.id != user_id {
                return fail(AuthError::ResolverUnavailable);
            }
            let minted = mint(
                user_id,
                cfg.access_token_max_age,
                cfg.access_token_private_key.as_str(),
                moment.now,
                moment.first_id,
            );
            match minted {
                None => fail(AuthError::SigningError),
                Some(access) => SessionStep::Perform(
                    SessionState::RefreshRecord { user_id, access },
                    SessionAction::LedgerRecord {
                        key: token_uuid,
                        value: u64_to_text(user_id),
                        ttl: cfg.access_token_max_age,
                    },
                ),
            }
        },
    }
}

fn refresh_finish(cfg: &Config, user_id: u64, access: String, recorded: bool, moment: Moment) -> (r:
    Result<SessionOutcome, AuthError>)
    ensures
        outcome_view(r) == refresh_end(cfg@, user_id, access@, recorded, moment@),
{
    let minted = mint(
        user_id,
        cfg.refresh_token_max_age,
        cfg.refresh_token_private_key.as_str(),
        moment.now,
        moment.first_id,
    );
    match minted {
        None => Err(AuthError::SigningError),
        Some(refresh) => Ok(
            SessionOutcome::Refreshed {
                pair: TokenPair { access, refresh },
                ledger_recorded: recorded,
            },
        ),
    }
}

/// Takes the answer to the action of the step before and gives the next
/// step, minting at `moment.now` under the moment's identifiers.
pub fn session_advance_at(cfg: &Config, state: SessionState, event: SessionEvent, moment: Moment) -> (step:
    SessionStep)
    ensures
        step@ == session_next(cfg@, state@, event@, moment@),
{
    match state {
        SessionState::LoginResolve => match event {
            SessionEvent::Resolved(answer) => SessionStep::Done(login_finish(cfg, answer, moment)),
            _ => fail(AuthError::ResolverUnavailable),
        },
        SessionState::CheckResolve { user_id } => match event {
            SessionEvent::Resolved(answer) => SessionStep::Done(check_finish(user_id, answer)),
            _ => fail(AuthError::ResolverUnavailable),
        },
        SessionState::RefreshLookup { token_uuid, user_id } => match event {
            SessionEvent::LedgerFound => fail(AuthError::RefreshAlreadyUsed),
            SessionEvent::LedgerAbsent => SessionStep::Perform(
                SessionState::RefreshResolve { token_uuid, user_id },
                SessionAction::Resolve(ResolverRequest::FetchById { id: user_id }),
            ),
            _ => fail(AuthError::LedgerUnavailable),
        },
        SessionState::RefreshResolve { token_uuid, user_id } => match event {
            SessionEvent::Resolved(answer) => refresh_resolved(
                cfg,
                token_uuid,
                user_id,
                answer,
                moment,
            ),
            _ => fail(AuthError::ResolverUnavailable),
        },
        SessionState::RefreshRecord { user_id, access } => {
            let recorded = match event {
                SessionEvent::LedgerRecorded => true,
                _ => false,
            };
            SessionStep::Done(refresh_finish(cfg, user_id, access, recorded, moment))
        },
    }
}

/// Reads the clock and draws two fresh token identifiers.
pub fn current_moment() -> (moment: Moment)
    ensures
        is_token_uuid(moment.first_id@),
        is_token_uuid(moment.second_id@),
{
    Moment { now: unix_now(), first_id: new_token_uuid(), second_id: new_token_uuid() }
}

/// Begins a refresh at the current second, whatever that second is.
pub fn refresh_begin(cfg: &Config, body: &RefreshSchema) -> (step: SessionStep)
    ensures
        exists|now: i64| step@ == #[trigger] refresh_first(cfg@, body.refresh@, now),
        body.refresh@.len() == 0 ==> step@ == failed(AuthError::EmptyRefreshToken),
{
    let now = unix_now();
    let step = refresh_begin_at(cfg, body, now);
    assert(step@ == refresh_first(cfg@, body.refresh@, now));
    step
}

/// Begins a session check at the current second, whatever that second is.
pub fn check_begin(cfg: &Config, header: Option<&str>) -> (step: SessionStep)
    ensures
        exists|now: i64|
            step@ == #[trigger] check_first(
                cfg@,
                header_view(header),
                now,
            ),
        header is None ==> step@ == failed(AuthError::MissingToken),
{
    let now = unix_now();
    let step = check_begin_at(cfg, header, now);
    assert(step@ == check_first(
        cfg@,
        header_view(header),
        now,
    ));
    step
}

/// Takes the answer to the action of the step before and gives the next
/// step, minting at the current second under fresh identifiers, whatever
/// those are.
pub fn session_advance(cfg: &Config, state: SessionState, event: SessionEvent) -> (step: SessionStep)
    ensures
        exists|moment: MomentView|
            is_token_uuid(moment.first_id) && is_token_uuid(moment.second_id) && step@
                == #[trigger] session_next(cfg@, state@, event@, moment),
{
    let moment = current_moment();
    let ghost m = moment@;
    let step = session_advance_at(cfg, state, event, moment);
    assert(step@ == session_next(cfg@, state@, event@, m));
    step
}

} // verus!
