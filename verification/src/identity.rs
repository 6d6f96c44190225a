//! Resolving principals against the identity backend.
//!
//! A principal is looked up by credential or by identifier, in a directory or
//! in a user table. The backend is reached by the caller: this module says
//! which request to make next and what the answers mean. Whatever the
//! backend, an unknown login and a wrong secret give the same answer.

use vstd::prelude::*;
use vstd::string::*;
use crate::decimal::{decimal_text, parse_decimal, text_to_u64, u64_to_text};
use crate::ldap_filter::{escape_filter_value, filter_escaped};
use crate::token_model::text_view;
use crate::user_model::{User, UserView};
use crate::user_service::{
    fetch_user_by_email_query, fetch_user_by_email_sql, fetch_user_by_id_query,
    fetch_user_by_id_sql,
};

verus! {

/// The identity backend in use.
#[derive(Debug, Clone, Copy, PartialEq, Eq, Structural)]
pub enum Backend {
    Directory,
    Sql,
}

/// The authenticated entity on whose behalf tokens are minted.
#[derive(Debug, Clone)]
pub struct Principal {
    pub id: u64,
    pub email: String,
    pub created_at: Option<i64>,
}

/// The mathematical value of [`Principal`].
pub struct PrincipalView {
    pub id: u64,
    pub email: Seq<char>,
    pub created_at: Option<i64>,
}

impl View for Principal {
    type V = PrincipalView;

    open spec fn view(&self) -> PrincipalView {
        PrincipalView { id: self.id, email: self.email@, created_at: self.created_at }
    }
}

/// Why no principal was resolved.
#[derive(Debug, Clone, Copy, PartialEq, Eq, Structural)]
pub enum ResolverError {
    /// The login is unknown or the secret is wrong; which of the two is not told.
    InvalidCredential,
    /// No principal has the identifier.
    PrincipalNotFound,
    /// The backend did not answer, or not in a usable way.
    ResolverUnavailable,
}

/// What is asked of the resolver.
#[derive(Debug)]
pub enum ResolverRequest {
    Authenticate { login: String, secret: String },
    FetchById { id: u64 },
}

/// The mathematical value of [`ResolverRequest`].
pub enum ResolverRequestView {
    Authenticate { login: Seq<char>, secret: Seq<char> },
    FetchById { id: u64 },
}

impl View for ResolverRequest {
    type V = ResolverRequestView;

    open spec fn view(&self) -> ResolverRequestView {
        match self {
            ResolverRequest::Authenticate { login, secret } => ResolverRequestView::Authenticate {
                login: login@,
                secret: secret@,
            },
            ResolverRequest::FetchById { id } => ResolverRequestView::FetchById { id: *id },
        }
    }
}

/// One request to the backend.
#[derive(Debug)]
pub enum BackendAction {
    /// Bind as the service account on a pooled connection and search below
    /// `base_dn` for the entries that match `filter`, asking for `attribute`.
    DirectorySearch { base_dn: String, filter: String, attribute: String },
    /// Bind as `dn` with `password` on a pooled connection.
    DirectoryBind { dn: String, password: String },
    /// Run `query` with `email` as its parameter and fetch at most one row.
    SqlFetchByEmail { query: String, email: String },
    /// Run `query` with `id` as its parameter and fetch at most one row.
    SqlFetchById { query: String, id: i64 },
}

/// The mathematical value of [`BackendAction`].
pub enum BackendActionView {
    DirectorySearch { base_dn: Seq<char>, filter: Seq<char>, attribute: Seq<char> },
    DirectoryBind { dn: Seq<char>, password: Seq<char> },
    SqlFetchByEmail { query: Seq<char>, email: Seq<char> },
    SqlFetchById { query: Seq<char>, id: i64 },
}

impl View for BackendAction {
    type V = BackendActionView;

    open spec fn view(&self) -> BackendActionView {
        match self {
            BackendAction::DirectorySearch {
                base_dn,
                filter,
                attribute,
            } => BackendActionView::DirectorySearch {
                base_dn: base_dn@,
                filter: filter@,
                attribute: attribute@,
            },
            BackendAction::DirectoryBind { dn, password } => BackendActionView::DirectoryBind {
                dn: dn@,
                password: password@,
            },
            BackendAction::SqlFetchByEmail { query, email } => BackendActionView::SqlFetchByEmail {
                query: query@,
                email: email@,
            },
            BackendAction::SqlFetchById { query, id } => BackendActionView::SqlFetchById {
                query: query@,
                id: *id,
            },
        }
    }
}

/// One answer of the backend.
#[derive(Debug)]
pub enum BackendEvent {
    /// The search succeeded; for each entry found, in the directory's order,
    /// the first value of the attribute asked for, if the entry has one.
    DirectoryEntries(Vec<Option<String>>),
    /// The directory accepted the bind.
    BindAccepted,
    /// The directory answered the bind with an error code.
    BindRejected,
    /// The query succeeded, with the row it found, if any.
    SqlRow(Option<User>),
    /// No connection could be had from the pool, or the exchange failed.
    Unavailable,
}

/// The mathematical value of [`BackendEvent`].
pub enum BackendEventView {
    DirectoryEntries(Seq<Option<Seq<char>>>),
    BindAccepted,
    BindRejected,
    SqlRow(Option<UserView>),
    Unavailable,
}

impl View for BackendEvent {
    type V = BackendEventView;

    open spec fn view(&self) -> BackendEventView {
        match self {
            BackendEvent::DirectoryEntries(entries) => BackendEventView::DirectoryEntries(
                entries@.map_values(|e: Option<String>| text_view(e)),
            ),
            BackendEvent::BindAccepted => BackendEventView::BindAccepted,
            BackendEvent::BindRejected => BackendEventView::BindRejected,
            BackendEvent::SqlRow(row) => BackendEventView::SqlRow(
                match row {
                    Some(u) => Some(u@),
                    None => None,
                },
            ),
            BackendEvent::Unavailable => BackendEventView::Unavailable,
        }
    }
}

/// Where a resolution stands: which answer is awaited.
#[derive(Debug, Clone, Copy, PartialEq, Eq, Structural)]
pub enum ResolverPhase {
    /// The directory is searched for the login.
    DirectoryLoginSearch,
    /// The directory is asked to bind as the entry found for the login.
    DirectoryUserBind { id: u64 },
    /// The directory is searched for the identifier.
    DirectoryIdSearch,
    /// The user table is asked for the row of the login.
    SqlLoginRow,
    /// The user table is asked for the row of the identifier.
    SqlIdRow,
}

/// What follows an answer of the backend.
#[derive(Debug)]
pub enum ResolverStep {
    /// The backend is asked once more.
    Perform(ResolverPhase, BackendAction),
    /// The resolution has ended.
    Resolved(Result<Principal, ResolverError>),
}

/// The view of a resolution's result.
pub open spec fn resolved_view(r: Result<Principal, ResolverError>) -> Result<
    PrincipalView,
    ResolverError,
> {
    match r {
        Ok(p) => Ok(p@),
        Err(e) => Err(e),
    }
}

/// The mathematical value of [`ResolverStep`].
pub enum ResolverStepView {
    Perform(ResolverPhase, BackendActionView),
    Resolved(Result<PrincipalView, ResolverError>),
}

impl View for ResolverStep {
    type V = ResolverStepView;

    open spec fn view(&self) -> ResolverStepView {
        match self {
            ResolverStep::Perform(phase, action) => ResolverStepView::Perform(*phase, action@),
            ResolverStep::Resolved(r) => ResolverStepView::Resolved(resolved_view(*r)),
        }
    }
}

/// Whether the stored password hash accepts the password: whether Argon2,
/// run with the parameters and salt that the hash names, gives the hash's
/// output. A text that is no password hash accepts nothing.
pub uninterp spec fn argon2_accepts(stored_hash: Seq<char>, password: Seq<char>) -> bool;

/// `PasswordHash::new` on the stored text, then
/// `Argon2::default().verify_password`. Both depend on their arguments alone,
/// so the result is named by [`argon2_accepts`]; a text that does not parse
/// gives `false`.
#[verifier::external_body]
fn password_matches(stored_hash: &str, password: &str) -> (ok: bool)
    ensures
        ok == argon2_accepts(stored_hash@, password@),
{
    match argon2::PasswordHash::new(stored_hash) {
        Ok(parsed) => argon2::PasswordVerifier::verify_password(
            &argon2::Argon2::default(),
            password.as_bytes(),
            &parsed,
        ).is_ok(),
        Err(_) => false,
    }
}

/// The directory subtree that holds the principals.
pub open spec fn base_dn() -> Seq<char> {
    "ou=dia,dc=diditalready,dc=com"@
}

/// The filter that finds the entry whose mail is the login, character for
/// character: the login stands in it escaped.
pub open spec fn login_filter(login: Seq<char>) -> Seq<char> {
    "(&(objectClass=inetOrgPerson)(mail="@ + filter_escaped(login) + "))"@
}

/// The filter that finds the entry of an identifier.
pub open spec fn id_filter(id: u64) -> Seq<char> {
    "(&(objectClass=inetOrgPerson)(uid="@ + decimal_text(id as nat) + "))"@
}

/// The distinguished name of the entry of an identifier.
pub open spec fn user_dn(id: u64) -> Seq<char> {
    "uid="@ + decimal_text(id as nat) + ","@ + base_dn()
}

/// The first step of a resolution: the first request to make. An identifier
/// that no row of the user table can have is not asked for: nobody has it.
pub open spec fn first_step(backend: Backend, request: ResolverRequestView) -> ResolverStepView {
    match (backend, request) {
        (
            Backend::Directory,
            ResolverRequestView::Authenticate { login, secret },
        ) => ResolverStepView::Perform(
            ResolverPhase::DirectoryLoginSearch,
            BackendActionView::DirectorySearch {
                base_dn: base_dn(),
                filter: login_filter(login),
                attribute: "uid"@,
            },
        ),
        (Backend::Directory, ResolverRequestView::FetchById { id }) => ResolverStepView::Perform(
            ResolverPhase::DirectoryIdSearch,
            BackendActionView::DirectorySearch {
                base_dn: base_dn(),
                filter: id_filter(id),
                attribute: "mail"@,
            },
        ),
        (
            Backend::Sql,
            ResolverRequestView::Authenticate { login, secret },
        ) => ResolverStepView::Perform(
            ResolverPhase::SqlLoginRow,
            BackendActionView::SqlFetchByEmail { query: fetch_user_by_email_sql(), email: login },
        ),
        (Backend::Sql, ResolverRequestView::FetchById { id }) => if id > i64::MAX {
            ResolverStepView::Resolved(Err(ResolverError::PrincipalNotFound))
        } else {
            ResolverStepView::Perform(
                ResolverPhase::SqlIdRow,
                BackendActionView::SqlFetchById { query: fetch_user_by_id_sql(), id: id as i64 },
            )
        },
    }
}

/// What the answer to the search for a login leads to: a bind as the first
/// entry found, where there is one and its `uid` reads as a number.
pub open spec fn after_login_search(secret: Seq<char>, entries: Seq<Option<Seq<char>>>) -> ResolverStepView {
    if entries.len() == 0 || entries[0] is None || parse_decimal(entries[0]->0) is None {
        ResolverStepView::Resolved(Err(ResolverError::InvalidCredential))
    } else {
        let id = parse_decimal(entries[0]->0)->0;
        ResolverStepView::Perform(
            ResolverPhase::DirectoryUserBind { id },
            BackendActionView::DirectoryBind { dn: user_dn(id), password: secret },
        )
    }
}

/// What the answer to the search for an identifier leads to.
pub open spec fn after_id_search(id: u64, entries: Seq<Option<Seq<char>>>) -> Result<
    PrincipalView,
    ResolverError,
> {
    if entries.len() == 0 {
        Err(ResolverError::PrincipalNotFound)
    } else if entries[0] is None {
        Err(ResolverError::ResolverUnavailable)
    } else {
        Ok(PrincipalView { id, email: entries[0]->0, created_at: None })
    }
}

/// What a row found for a login leads to, given whether its stored hash
/// accepted the secret: the principal of the row where it did and the row's
/// numeric identifier is not negative.
pub open spec fn login_row_outcome(accepted: bool, row: UserView) -> Result<
    PrincipalView,
    ResolverError,
> {
    if !accepted || row.user_id < 0 {
        Err(ResolverError::InvalidCredential)
    } else {
        Ok(PrincipalView { id: row.user_id as u64, email: row.email, created_at: row.created_at })
    }
}

/// What the row found for a login leads to.
pub open spec fn after_login_row(secret: Seq<char>, row: Option<UserView>) -> Result<
    PrincipalView,
    ResolverError,
> {
    match row {
        None => Err(ResolverError::InvalidCredential),
        Some(u) => login_row_outcome(argon2_accepts(u.password, secret), u),
    }
}

/// What the row found for an identifier leads to.
pub open spec fn after_id_row(id: u64, row: Option<UserView>) -> Result<
    PrincipalView,
    ResolverError,
> {
    match row {
        None => Err(ResolverError::PrincipalNotFound),
        Some(u) => Ok(PrincipalView { id, email: u.email, created_at: u.created_at }),
    }
}

/// What follows an answer of the backend. An answer that does not fit the
/// request and the phase counts as no answer.
pub open spec fn next_step(
    request: ResolverRequestView,
    phase: ResolverPhase,
    event: BackendEventView,
) -> ResolverStepView {
    match (request, phase, event) {
        (
            ResolverRequestView::Authenticate { login, secret },
            ResolverPhase::DirectoryLoginSearch,
            BackendEventView::DirectoryEntries(entries),
        ) => after_login_search(secret, entries),
        (
            ResolverRequestView::Authenticate { login, secret },
            ResolverPhase::DirectoryUserBind { id },
            BackendEventView::BindAccepted,
        ) => ResolverStepView::Resolved(Ok(PrincipalView { id, email: login, created_at: None })),
        (
            ResolverRequestView::Authenticate { login, secret },
            ResolverPhase::DirectoryUserBind { id },
            BackendEventView::BindRejected,
        ) => ResolverStepView::Resolved(Err(ResolverError::InvalidCredential)),
        (
            ResolverRequestView::FetchById { id },
            ResolverPhase::DirectoryIdSearch,
            BackendEventView::DirectoryEntries(entries),
        ) => ResolverStepView::Resolved(after_id_search(id, entries)),
        (
            ResolverRequestView::Authenticate { login, secret },
            ResolverPhase::SqlLoginRow,
            BackendEventView::SqlRow(row),
        ) => ResolverStepView::Resolved(after_login_row(secret, row)),
        (
            ResolverRequestView::FetchById { id },
            ResolverPhase::SqlIdRow,
            BackendEventView::SqlRow(row),
        ) => ResolverStepView::Resolved(after_id_row(id, row)),
        _ => ResolverStepView::Resolved(Err(ResolverError::ResolverUnavailable)),
    }
}

/// An unknown login and a wrong secret end a resolution alike, in the
/// directory and in the user table: the answer does not tell which it was.
pub proof fn law_credential_failures_are_alike(
    login: Seq<char>,
    secret: Seq<char>,
    id: u64,
    row: UserView,
)
    requires
        !argon2_accepts(row.password, secret),
    ensures
        next_step(
            ResolverRequestView::Authenticate { login, secret },
            ResolverPhase::DirectoryLoginSearch,
            BackendEventView::DirectoryEntries(Seq::empty()),
        ) == ResolverStepView::Resolved(Err(ResolverError::InvalidCredential)),
        next_step(
            ResolverRequestView::Authenticate { login, secret },
            ResolverPhase::DirectoryUserBind { id },
            BackendEventView::BindRejected,
        ) == ResolverStepView::Resolved(Err(ResolverError::InvalidCredential)),
        next_step(
            ResolverRequestView::Authenticate { login, secret },
            ResolverPhase::SqlLoginRow,
            BackendEventView::SqlRow(None),
        ) == ResolverStepView::Resolved(Err(ResolverError::InvalidCredential)),
        next_step(
            ResolverRequestView::Authenticate { login, secret },
            ResolverPhase::SqlLoginRow,
            BackendEventView::SqlRow(Some(row)),
        ) == ResolverStepView::Resolved(Err(ResolverError::InvalidCredential)),
{
}

/// A backend that does not answer ends every resolution as unavailable: it
/// is never taken for a principal that is not there or a credential that is
/// wrong.
pub proof fn law_silent_backend_is_reported(request: ResolverRequestView, phase: ResolverPhase)
    ensures
        next_step(request, phase, BackendEventView::Unavailable) == ResolverStepView::Resolved(
            Err(ResolverError::ResolverUnavailable),
        ),
{
}

fn directory_search(filter_head: &str, key: &str, attribute: &str) -> (action: BackendAction)
    ensures
        action@ == (BackendActionView::DirectorySearch {
            base_dn: base_dn(),
            filter: filter_head@ + key@ + "))"@,
            attribute: attribute@,
        }),
{
    let mut filter = String::from_str(filter_head);
    filter.append(key);
    filter.append("))");
    BackendAction::DirectorySearch {
        base_dn: String::from_str("ou=dia,dc=diditalready,dc=com"),
        filter,
        attribute: String::from_str(attribute),
    }
}

fn directory_bind(id: u64, password: &str) -> (action: BackendAction)
    ensures
        action@ == (BackendActionView::DirectoryBind { dn: user_dn(id), password: password@ }),
{
    let mut dn = String::from_str("uid=");
    let digits = u64_to_text(id);
    dn.append(digits.as_str());
    dn.append(",");
    dn.append("ou=dia,dc=diditalready,dc=com");
    BackendAction::DirectoryBind { dn, password: String::from_str(password) }
}

/// Starts a resolution: the first request to make, or its end where nothing
/// needs to be asked.
pub fn resolver_begin(backend: Backend, request: &ResolverRequest) -> (step: ResolverStep)
    ensures
        step@ == first_step(backend, request@),
{
    match (backend, request) {
        (Backend::Directory, ResolverRequest::Authenticate { login, secret }) => {
            let value = escape_filter_value(login.as_str());
            ResolverStep::Perform(
                ResolverPhase::DirectoryLoginSearch,
                directory_search("(&(objectClass=inetOrgPerson)(mail=", value.as_str(), "uid"),
            )
        },
        (Backend::Directory, ResolverRequest::FetchById { id }) => {
            let digits = u64_to_text(*id);
            ResolverStep::Perform(
                ResolverPhase::DirectoryIdSearch,
                directory_search("(&(objectClass=inetOrgPerson)(uid=", digits.as_str(), "mail"),
            )
        },
        (Backend::Sql, ResolverRequest::Authenticate { login, secret }) => {
            let (query, email) = fetch_user_by_email_query(login.as_str());
            ResolverStep::Perform(
                ResolverPhase::SqlLoginRow,
                BackendAction::SqlFetchByEmail {
                    query: String::from_str(query),
                    email: String::from_str(email),
                },
            )
        },
        (Backend::Sql, ResolverRequest::FetchById { id }) => {
            let (query, param) = fetch_user_by_id_query(id);
            if *param > 0x7fff_ffff_ffff_ffff {
                return ResolverStep::Resolved(Err(ResolverError::PrincipalNotFound));
            }
            ResolverStep::Perform(
                ResolverPhase::SqlIdRow,
                BackendAction::SqlFetchById { query: String::from_str(query), id: *param as i64 },
            )
        },
    }
}

/// Judges a row found for a login, given whether its stored hash accepted
/// the secret.
pub fn judge_login_row(accepted: bool, row: User) -> (r: Result<Principal, ResolverError>)
    ensures
        resolved_view(r) == login_row_outcome(accepted, row@),
{
    if !accepted || row.user_id < 0 {
        return Err(ResolverError::InvalidCredential);
    }
    Ok(Principal { id: row.user_id as u64, email: row.email, created_at: row.created_at })
}

fn unavailable() -> (step: ResolverStep)
    ensures
        step@ == ResolverStepView::Resolved(Err(ResolverError::ResolverUnavailable)),
{
    ResolverStep::Resolved(Err(ResolverError::ResolverUnavailable))
}

fn refused() -> (step: ResolverStep)
    ensures
        step@ == ResolverStepView::Resolved(Err(ResolverError::InvalidCredential)),
{
    ResolverStep::Resolved(Err(ResolverError::InvalidCredential))
}

/// Takes an answer of the backend and says what follows: one more request, or
/// the end of the resolution.
pub fn resolver_advance(request: &ResolverRequest, phase: ResolverPhase, event: BackendEvent) -> (step:
    ResolverStep)
    ensures
        step@ == next_step(request@, phase, event@),
{
    match request {
        ResolverRequest::Authenticate { login, secret } => match (phase, event) {
            (ResolverPhase::DirectoryLoginSearch, BackendEvent::DirectoryEntries(entries)) => {
                if entries.len() == 0 {
                    return refused();
                }
                let id = match &entries[0] {
                    None => {
                        return refused();
                    },
                    Some(uid) => match text_to_u64(uid.as_str()) {
                        None => {
                            return refused();
                        },
                        Some(id) => id,
                    },
                };
                ResolverStep::Perform(
                    ResolverPhase::DirectoryUserBind { id },
                    directory_bind(id, secret.as_str()),
                )
            },
            (ResolverPhase::DirectoryUserBind { id }, BackendEvent::BindAccepted) => {
                ResolverStep::Resolved(Ok(Principal { id, email: login.clone(), created_at: None }))
            },
            (ResolverPhase::DirectoryUserBind { id }, BackendEvent::BindRejected) => refused(),
            (ResolverPhase::SqlLoginRow, BackendEvent::SqlRow(row)) => match row {
                None => refused(),
                Some(user) => {
                    let accepted = password_matches(user.password.as_str(), secret.as_str());
                    ResolverStep::Resolved(judge_login_row(accepted, user))
                },
            },
            _ => unavailable(),
        },
        ResolverRequest::FetchById { id } => match (phase, event) {
            (ResolverPhase::DirectoryIdSearch, BackendEvent::DirectoryEntries(entries)) => {
                if entries.len() == 0 {
                    return ResolverStep::Resolved(Err(ResolverError::PrincipalNotFound));
                }
                match &entries[0] {
                    None => unavailable(),
                    Some(mail) => ResolverStep::Resolved(
                        Ok(Principal { id: *id, email: mail.clone(), created_at: None }),
                    ),
                }
            },
            (ResolverPhase::SqlIdRow, BackendEvent::SqlRow(row)) => match row {
                None => ResolverStep::Resolved(Err(ResolverError::PrincipalNotFound)),
                Some(user) => ResolverStep::Resolved(
                    Ok(Principal { id: *id, email: user.email, created_at: user.created_at }),
                ),
            },
            _ => unavailable(),
        },
    }
}

} // verus!
