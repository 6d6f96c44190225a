//! Registering and deleting users in the directory.
//!
//! Both are two requests long: a search that tells whether the user is
//! there, then the change. The caller talks to the directory, on a pooled
//! connection bound as the service account; this module says what to ask and
//! what the answers mean.

use vstd::prelude::*;
use vstd::string::*;
use crate::decimal::{i32_to_text, signed_text, u64_to_text};
use crate::identity::{base_dn, id_filter, user_dn};
use crate::ldap_filter::{escape_filter_value, filter_escaped};
use crate::user_model::RegisterUserSchema;

verus! {

/// What is asked: a new user, or the removal of one.
#[derive(Debug)]
pub enum AdminRequest {
    Register(RegisterUserSchema),
    Delete(u64),
}

/// One request to the directory.
#[derive(Debug)]
pub enum AdminAction {
    /// Search below `base_dn` for the entries that match `filter`, asking
    /// for `attribute`.
    Search { base_dn: String, filter: String, attribute: String },
    /// Add an entry under `dn`, each attribute with its one value.
    Add { dn: String, attributes: Vec<(String, String)> },
    /// Delete the entry under `dn`.
    Delete { dn: String },
}

/// The mathematical value of [`AdminAction`].
pub enum AdminActionView {
    Search { base_dn: Seq<char>, filter: Seq<char>, attribute: Seq<char> },
    Add { dn: Seq<char>, attributes: Seq<(Seq<char>, Seq<char>)> },
    Delete { dn: Seq<char> },
}

/// The view of an attribute with its value.
pub open spec fn pair_view(p: (String, String)) -> (Seq<char>, Seq<char>) {
    (p.0@, p.1@)
}

impl View for AdminAction {
    type V = AdminActionView;

    open spec fn view(&self) -> AdminActionView {
        match self {
            AdminAction::Search { base_dn, filter, attribute } => AdminActionView::Search {
                base_dn: base_dn@,
                filter: filter@,
                attribute: attribute@,
            },
            AdminAction::Add { dn, attributes } => AdminActionView::Add {
                dn: dn@,
                attributes: attributes@.map_values(|p: (String, String)| pair_view(p)),
            },
            AdminAction::Delete { dn } => AdminActionView::Delete { dn: dn@ },
        }
    }
}

/// One answer of the directory.
#[derive(Debug, Clone, Copy, PartialEq, Eq, Structural)]
pub enum AdminEvent {
    /// The search succeeded and found this many entries.
    Found(usize),
    /// The directory carried the change out.
    Succeeded,
    /// The directory answered the change with an error code.
    Rejected,
    /// No connection could be had, or the exchange failed.
    Failed,
}

/// Which answer is awaited.
#[derive(Debug, Clone, Copy, PartialEq, Eq, Structural)]
pub enum AdminPhase {
    RegisterSearch,
    RegisterAdd,
    DeleteSearch,
    DeleteRemove,
}

/// Why a change was not made.
#[derive(Debug, Clone, Copy, PartialEq, Eq, Structural)]
pub enum AdminError {
    /// An entry has the email or the identifier already.
    AlreadyExists,
    /// No entry has the identifier.
    UserNotFound,
    /// The directory did not answer, or did not carry the change out.
    DirectoryUnavailable,
}

/// The change that was made.
#[derive(Debug)]
pub enum AdminOutcome {
    /// The user was added; its identifier and email as the reply shows them.
    Registered { user_id: String, email: String },
    /// The delete request was answered.
    Deleted,
}

/// The mathematical value of [`AdminOutcome`].
pub enum AdminOutcomeView {
    Registered { user_id: Seq<char>, email: Seq<char> },
    Deleted,
}

impl View for AdminOutcome {
    type V = AdminOutcomeView;

    open spec fn view(&self) -> AdminOutcomeView {
        match self {
            AdminOutcome::Registered { user_id, email } => AdminOutcomeView::Registered {
                user_id: user_id@,
                email: email@,
            },
            AdminOutcome::Deleted => AdminOutcomeView::Deleted,
        }
    }
}

/// One step of a change.
#[derive(Debug)]
pub enum AdminStep {
    Perform(AdminPhase, AdminAction),
    Done(Result<AdminOutcome, AdminError>),
}

/// The mathematical value of [`AdminStep`].
pub enum AdminStepView {
    Perform(AdminPhase, AdminActionView),
    Done(Result<AdminOutcomeView, AdminError>),
}

impl View for AdminStep {
    type V = AdminStepView;

    open spec fn view(&self) -> AdminStepView {
        match self {
            AdminStep::Perform(phase, action) => AdminStepView::Perform(*phase, action@),
            AdminStep::Done(r) => AdminStepView::Done(
                match r {
                    Ok(o) => Ok(o@),
                    Err(e) => Err(*e),
                },
            ),
        }
    }
}

/// How many characters stand before the first `@` of a text, or in the whole
/// text where it has none.
pub open spec fn local_len(s: Seq<char>) -> nat
    decreases s.len(),
{
    if s.len() == 0 || s[0] == '@' {
        0
    } else {
        1 + local_len(s.skip(1))
    }
}

/// The part of an email before its first `@`.
pub open spec fn local_part(email: Seq<char>) -> Seq<char> {
    email.take(local_len(email) as int)
}

/// The distinguished name of the entry of a registration.
pub open spec fn new_user_dn(user_id: i32) -> Seq<char> {
    "uid="@ + signed_text(user_id as int) + ","@ + base_dn()
}

/// The filter that finds the entries that have the email or the identifier
/// of a registration. The email stands in it escaped, so that it is matched
/// character for character.
pub open spec fn taken_filter(email: Seq<char>, user_id: i32) -> Seq<char> {
    "(&(objectClass=inetOrgPerson)(|(mail="@ + filter_escaped(email) + ")(uid="@ + signed_text(
        user_id as int,
    ) + ")))"@
}

/// The attributes of the entry of a registration.
pub open spec fn new_user_attributes(email: Seq<char>, password: Seq<char>, user_id: i32) -> Seq<
    (Seq<char>, Seq<char>),
> {
    seq![
        ("objectClass"@, "inetOrgPerson"@),
        ("uid"@, signed_text(user_id as int)),
        ("mail"@, email),
        ("sn"@, local_part(email)),
        ("cn"@, email),
        ("userPassword"@, password),
    ]
}

/// The first step of a change: the search that tells whether the user is
/// there.
pub open spec fn admin_first(request: AdminRequest) -> AdminStepView {
    match request {
        AdminRequest::Register(body) => AdminStepView::Perform(
            AdminPhase::RegisterSearch,
            AdminActionView::Search {
                base_dn: base_dn(),
                filter: taken_filter(body.email@, body.user_id),
                attribute: "1.1"@,
            },
        ),
        AdminRequest::Delete(id) => AdminStepView::Perform(
            AdminPhase::DeleteSearch,
            AdminActionView::Search { base_dn: base_dn(), filter: id_filter(id), attribute: "1.1"@ },
        ),
    }
}

/// What follows an answer of the directory. A user is added only where the
/// search found nobody, and deleted only where it found somebody; a delete
/// counts as done once the directory has answered it. An answer that does
/// not fit the request and the phase counts as no answer.
pub open spec fn admin_next(request: AdminRequest, phase: AdminPhase, event: AdminEvent) -> AdminStepView {
    match (request, phase, event) {
        (AdminRequest::Register(body), AdminPhase::RegisterSearch, AdminEvent::Found(n)) => if n > 0
        {
            AdminStepView::Done(Err(AdminError::AlreadyExists))
        } else {
            AdminStepView::Perform(
                AdminPhase::RegisterAdd,
                AdminActionView::Add {
                    dn: new_user_dn(body.user_id),
                    attributes: new_user_attributes(body.email@, body.password@, body.user_id),
                },
            )
        },
        (
            AdminRequest::Register(body),
            AdminPhase::RegisterAdd,
            AdminEvent::Succeeded,
        ) => AdminStepView::Done(
            Ok(
                AdminOutcomeView::Registered {
                    user_id: signed_text(body.user_id as int),
                    email: body.email@,
                },
            ),
        ),
        (AdminRequest::Delete(id), AdminPhase::DeleteSearch, AdminEvent::Found(n)) => if n == 0 {
            AdminStepView::Done(Err(AdminError::UserNotFound))
        } else {
            AdminStepView::Perform(
                AdminPhase::DeleteRemove,
                AdminActionView::Delete { dn: user_dn(id) },
            )
        },
        (
            AdminRequest::Delete(id),
            AdminPhase::DeleteRemove,
            AdminEvent::Succeeded,
        ) => AdminStepView::Done(Ok(AdminOutcomeView::Deleted)),
        (
            AdminRequest::Delete(id),
            AdminPhase::DeleteRemove,
            AdminEvent::Rejected,
        ) => AdminStepView::Done(Ok(AdminOutcomeView::Deleted)),
        _ => AdminStepView::Done(Err(AdminError::DirectoryUnavailable)),
    }
}

proof fn lemma_local_len_step(s: Seq<char>, i: int)
    requires
        0 <= i <= s.len(),
        forall|j: int| 0 <= j < i ==> s[j] != '@',
    ensures
        local_len(s) == i + local_len(s.skip(i)),
    decreases i,
{
    if i == 0 {
        assert(s.skip(0) == s);
    } else {
        lemma_local_len_step(s, i - 1);
        let t = s.skip(i - 1);
        assert(t[0] == s[i - 1]);
        assert(t.skip(1) == s.skip(i));
    }
}

/// Takes the part of an email before its first `@`.
pub fn local_part_of(email: &str) -> (part: &str)
    ensures
        part@ == local_part(email@),
{
    let n: usize = email.unicode_len();
    let mut i: usize = 0;
    while i < n && email.get_char(i) != '@'
        invariant
            0 <= i <= n,
            n == email@.len(),
            forall|j: int| 0 <= j < i ==> email@[j] != '@',
        decreases n - i,
    {
        i = i + 1;
    }
    proof {
        lemma_local_len_step(email@, i as int);
        let rest = email@.skip(i as int);
        if i < n {
            assert(rest[0] == email@[i as int]);
        }
        assert(local_len(rest) == 0);
    }
    email.substring_char(0, i)
}

fn search(filter: String) -> (action: AdminAction)
    ensures
        action@ == (AdminActionView::Search {
            base_dn: base_dn(),
            filter: filter@,
            attribute: "1.1"@,
        }),
{
    AdminAction::Search {
        base_dn: String::from_str("ou=dia,dc=diditalready,dc=com"),
        filter,
        attribute: String::from_str("1.1"),
    }
}

fn entry_dn(digits: &str) -> (dn: String)
    ensures
        dn@ == "uid="@ + digits@ + ","@ + base_dn(),
{
    let mut dn = String::from_str("uid=");
    dn.append(digits);
    dn.append(",");
    dn.append("ou=dia,dc=diditalready,dc=com");
    dn
}

fn attribute(name: &str, value: &str) -> (pair: (String, String))
    ensures
        pair_view(pair) == (name@, value@),
{
    (String::from_str(name), String::from_str(value))
}

fn register_entry(body: &RegisterUserSchema) -> (action: AdminAction)
    ensures
        action@ == (AdminActionView::Add {
            dn: new_user_dn(body.user_id),
            attributes: new_user_attributes(body.email@, body.password@, body.user_id),
        }),
{
    let uid = i32_to_text(body.user_id);
    let email = body.email.as_str();
    let mut attributes: Vec<(String, String)> = Vec::new();
    attributes.push(attribute("objectClass", "inetOrgPerson"));
    attributes.push(attribute("uid", uid.as_str()));
    attributes.push(attribute("mail", email));
    attributes.push(attribute("sn", local_part_of(email)));
    attributes.push(attribute("cn", email));
    attributes.push(attribute("userPassword", body.password.as_str()));
    assert(attributes@.map_values(|p: (String, String)| pair_view(p)) =~= new_user_attributes(
        body.email@,
        body.password@,
        body.user_id,
    ));
    AdminAction::Add { dn: entry_dn(uid.as_str()), attributes }
}

/// Begins a change.
pub fn admin_begin(request: &AdminRequest) -> (step: AdminStep)
    ensures
        step@ == admin_first(*request),
{
    match request {
        AdminRequest::Register(body) => {
            let uid = i32_to_text(body.user_id);
            let email = escape_filter_value(body.email.as_str());
            let mut filter = String::from_str("(&(objectClass=inetOrgPerson)(|(mail=");
            filter.append(email.as_str());
            filter.append(")(uid=");
            filter.append(uid.as_str());
            filter.append(")))");
            AdminStep::Perform(AdminPhase::RegisterSearch, search(filter))
        },
        AdminRequest::Delete(id) => {
            let digits = u64_to_text(*id);
            let mut filter = String::from_str("(&(objectClass=inetOrgPerson)(uid=");
            filter.append(digits.as_str());
            filter.append("))");
            AdminStep::Perform(AdminPhase::DeleteSearch, search(filter))
        },
    }
}

/// Takes an answer of the directory and gives the next step.
pub fn admin_advance(request: &AdminRequest, phase: AdminPhase, event: AdminEvent) -> (step: AdminStep)
    ensures
        step@ == admin_next(*request, phase, event),
{
    match (request, phase, event) {
        (AdminRequest::Register(body), AdminPhase::RegisterSearch, AdminEvent::Found(n)) => {
            if n > 0 {
                AdminStep::Done(Err(AdminError::AlreadyExists))
            } else {
                AdminStep::Perform(AdminPhase::RegisterAdd, register_entry(body))
            }
        },
        (AdminRequest::Register(body), AdminPhase::RegisterAdd, AdminEvent::Succeeded) => {
            AdminStep::Done(
                Ok(
                    AdminOutcome::Registered {
                        user_id: i32_to_text(body.user_id),
                        email: body.email.clone(),
                    },
                ),
            )
        },
        (AdminRequest::Delete(id), AdminPhase::DeleteSearch, AdminEvent::Found(n)) => {
            if n == 0 {
                AdminStep::Done(Err(AdminError::UserNotFound))
            } else {
                let digits = u64_to_text(*id);
                AdminStep::Perform(
                    AdminPhase::DeleteRemove,
                    AdminAction::Delete { dn: entry_dn(digits.as_str()) },
                )
            }
        },
        (AdminRequest::Delete(_), AdminPhase::DeleteRemove, AdminEvent::Succeeded) => {
            AdminStep::Done(Ok(AdminOutcome::Deleted))
        },
        (AdminRequest::Delete(_), AdminPhase::DeleteRemove, AdminEvent::Rejected) => {
            AdminStep::Done(Ok(AdminOutcome::Deleted))
        },
        _ => AdminStep::Done(Err(AdminError::DirectoryUnavailable)),
    }
}

/// The message that a failed change is answered with.
pub open spec fn admin_message_of(e: AdminError) -> Seq<char> {
    match e {
        AdminError::AlreadyExists => "User with that email or uid already exists"@,
        AdminError::UserNotFound => "User does not exist"@,
        AdminError::DirectoryUnavailable => "Could not reach the directory"@,
    }
}

impl AdminError {
    /// The message that the failure is answered with.
    pub fn message(&self) -> (text: &'static str)
        ensures
            text@ == admin_message_of(*self),
    {
        match self {
            AdminError::AlreadyExists => "User with that email or uid already exists",
            AdminError::UserNotFound => "User does not exist",
            AdminError::DirectoryUnavailable => "Could not reach the directory",
        }
    }


    /// The HTTP status that the failure is answered with.
    pub fn http_status(&self) -> (code: u16)
        ensures
            code == (match *self {
                AdminError::AlreadyExists => 409u16,
                AdminError::UserNotFound => 409u16,
                AdminError::DirectoryUnavailable => 500u16,
            }),
    {
        match self {
            AdminError::AlreadyExists | AdminError::UserNotFound => 409,
            AdminError::DirectoryUnavailable => 500,
        }
    }
}

} // verus!
