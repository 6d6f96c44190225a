//! What the flows guarantee when they are run against a ledger and an
//! identity backend that answer truthfully.

use vstd::prelude::*;
use vstd::string::*;
use crate::auth_error::AuthError;
use crate::auth_handler::{
    access_minted, check_first, failed, login_first, refresh_first, refresh_minted, session_next,
    ConfigView, MomentView, SessionActionView, SessionEventView, SessionOutcomeView,
    SessionStateView, SessionStepView, TokenPairView,
};
use crate::decimal::{decimal_text, lemma_parse_decimal_text};
use crate::identity::{PrincipalView, ResolverError, ResolverRequestView};
use crate::jwt_auth::{bearer_prefix, bearer_token};
use crate::ledger::Ledger;
use crate::token_model::DetailsView;
use crate::token_service::{
    claims_readable, minted_claims, minted_token, rs256_decoded, rs256_signed, verify_outcome,
    DecodeFailure, RawClaimsView, TokenError,
};

verus! {

/// The services that a flow's actions go to: the ledger, which changes with
/// every write, and the identity resolver, which answers a request the same
/// way throughout.
pub struct World {
    pub ledger: Ledger,
    pub resolver: spec_fn(ResolverRequestView) -> Result<PrincipalView, ResolverError>,
}

/// The answer to an action done at second `now`, and the world after it.
pub open spec fn answer(world: World, action: SessionActionView, now: i64) -> (
    SessionEventView,
    World,
) {
    match action {
        SessionActionView::Resolve(request) => (
            SessionEventView::Resolved((world.resolver)(request)),
            world,
        ),
        SessionActionView::LedgerLookup { key } => (
            if world.ledger.holds(key, now as int) {
                SessionEventView::LedgerFound
            } else {
                SessionEventView::LedgerAbsent
            },
            world,
        ),
        SessionActionView::LedgerRecord { key, value, ttl } => if Ledger::takes(ttl as int) {
            (
                SessionEventView::LedgerRecorded,
                World {
                    ledger: world.ledger.record(key, value, ttl as int, now as int),
                    resolver: world.resolver,
                },
            )
        } else {
            (SessionEventView::LedgerRecordFailed, world)
        },
    }
}

/// Runs a flow from a step to its end: each pending action is done in the
/// next of the given moments and its answer handed to the step after. A flow
/// that is left with an action and no moment ends as if nothing answered.
pub open spec fn run(cfg: ConfigView, step: SessionStepView, world: World, moments: Seq<MomentView>) -> (
    Result<SessionOutcomeView, AuthError>,
    World,
)
    decreases moments.len(),
{
    match step {
        SessionStepView::Done(r) => (r, world),
        SessionStepView::Perform(state, action) => if moments.len() == 0 {
            (Err(AuthError::ResolverUnavailable), world)
        } else {
            let (event, after) = answer(world, action, moments[0].now);
            run(cfg, session_next(cfg, state, event, moments[0]), after, moments.skip(1))
        },
    }
}

/// Whether a public key confirms what a private key signs: every token that
/// signing yields decodes to the very claims that were signed.
pub open spec fn keys_pair(private_key: Seq<char>, public_key: Seq<char>) -> bool {
    forall|sub: Seq<char>, token_uuid: Seq<char>, exp: i64, iat: i64|
        (#[trigger] rs256_signed(sub, token_uuid, exp, iat, private_key)) matches Some(token)
            ==> rs256_decoded(token, public_key) == Ok::<RawClaimsView, DecodeFailure>(
            RawClaimsView {
                sub: Some(sub),
                token_uuid: Some(token_uuid),
                exp: Some(exp),
                iat: Some(iat),
            },
        )
}

/// The `Authorization` header that carries a token.
pub open spec fn bearer_header(token: Seq<char>) -> Seq<char> {
    bearer_prefix() + token
}

/// The token of a bearer header is the token it was made from.
pub proof fn lemma_bearer_header_token(token: Seq<char>)
    ensures
        bearer_token(bearer_header(token)) == Some(token),
{
    assert(bearer_header(token).take(7) =~= bearer_prefix());
    assert(bearer_header(token).skip(7) =~= token);
}

/// A token minted under keys that pair verifies, until its expiry, as the
/// token of the principal, the identifier and the expiry it was minted with.
pub proof fn lemma_minted_token_verifies(
    user_id: u64,
    ttl: i64,
    private_key: Seq<char>,
    public_key: Seq<char>,
    now: i64,
    id: Seq<char>,
    later: i64,
)
    requires
        keys_pair(private_key, public_key),
        minted_token(user_id, ttl, private_key, now, id) is Some,
        later < now + ttl,
    ensures
        verify_outcome(
            rs256_decoded(minted_token(user_id, ttl, private_key, now, id)->0, public_key),
            later,
        ) == Ok::<DetailsView, TokenError>(
            DetailsView {
                token: None,
                token_uuid: id,
                user_id,
                expires_in: Some((now + ttl) as i64),
            },
        ),
{
    lemma_parse_decimal_text(user_id);
    let c = minted_claims(user_id, ttl, now, id);
    assert(rs256_signed(c.sub, c.token_uuid, c.exp, c.iat, private_key) is Some);
}

/// The principal that the resolver gives for a credential.
pub open spec fn credential_principal(world: World, login: Seq<char>, secret: Seq<char>) -> PrincipalView {
    (world.resolver)(ResolverRequestView::Authenticate { login, secret })->Ok_0
}

/// Whether the resolver accepts a credential and knows its principal by
/// its identifier too.
pub open spec fn knows(world: World, login: Seq<char>, secret: Seq<char>) -> bool {
    let id = credential_principal(world, login, secret).id;
    &&& (world.resolver)(ResolverRequestView::Authenticate { login, secret }) is Ok
    &&& (world.resolver)(ResolverRequestView::FetchById { id }) is Ok
    &&& (world.resolver)(ResolverRequestView::FetchById { id })->Ok_0.id == id
}

/// The pair that a login ended in.
pub open spec fn logged_in(outcome: Result<SessionOutcomeView, AuthError>) -> TokenPairView {
    outcome->Ok_0->LoggedIn_0
}

/// Whether a flow ended in a refresh that the ledger gave its receipt for.
pub open spec fn refreshed_with_receipt(outcome: Result<SessionOutcomeView, AuthError>) -> bool {
    outcome matches Ok(SessionOutcomeView::Refreshed { pair, ledger_recorded }) && ledger_recorded
}

/// Whether a refresh token verifies at a second and the resolver knows its
/// principal.
pub open spec fn still_usable(cfg: ConfigView, token: Seq<char>, world: World, at: i64) -> bool {
    let verified = verify_outcome(rs256_decoded(token, cfg.refresh_token_public_key), at);
    let found = (world.resolver)(ResolverRequestView::FetchById { id: verified->Ok_0.user_id });
    &&& verified is Ok
    &&& found is Ok
    &&& found->Ok_0.id == verified->Ok_0.user_id
}

/// A login that succeeds, followed at once by a session check with the new
/// access token, ends in the session of the principal that logged in --
/// provided the access keys pair, access tokens live for at least a second,
/// and the resolver knows the principal by its identifier.
pub proof fn law_login_then_check(
    cfg: ConfigView,
    login: Seq<char>,
    secret: Seq<char>,
    world: World,
    moment: MomentView,
    later: MomentView,
)
    requires
        keys_pair(cfg.access_token_private_key, cfg.access_token_public_key),
        cfg.access_token_max_age > 0,
        run(cfg, login_first(login, secret), world, seq![moment]).0 is Ok,
        knows(world, login, secret),
    ensures
        ({
            let (outcome, after) = run(cfg, login_first(login, secret), world, seq![moment]);
            let checked = run(
                cfg,
                check_first(cfg, Some(bearer_header(logged_in(outcome).access)), moment.now),
                after,
                seq![later],
            ).0;
            &&& outcome matches Ok(SessionOutcomeView::LoggedIn(_))
            &&& after == world
            &&& checked matches Ok(SessionOutcomeView::Session(q))
            &&& q.id == credential_principal(world, login, secret).id
        }),
{
    reveal_with_fuel(run, 3);
    let p = credential_principal(world, login, secret);
    assert(seq![moment].skip(1).len() == 0);
    let access = access_minted(cfg, p.id, moment.now, moment.first_id);
    assert(access is Some);
    lemma_minted_token_verifies(
        p.id,
        cfg.access_token_max_age,
        cfg.access_token_private_key,
        cfg.access_token_public_key,
        moment.now,
        moment.first_id,
        moment.now,
    );
    lemma_bearer_header_token(access->0);
    assert(seq![later].skip(1).len() == 0);
}

/// What a refresh that got as far as the ledger was looking up.
pub open spec fn refresh_key(cfg: ConfigView, token: Seq<char>) -> Seq<char> {
    rs256_decoded(token, cfg.refresh_token_public_key)->Ok_0.token_uuid->0
}

/// A refresh token that a refresh has used, with the ledger's receipt, is
/// turned down as already used by every refresh that looks it up before the
/// lifetime of an access token has passed since the write -- even though the
/// token itself still verifies.
pub proof fn law_refresh_token_is_single_use(
    cfg: ConfigView,
    token: Seq<char>,
    world: World,
    began: i64,
    moments: Seq<MomentView>,
    again: i64,
    later: Seq<MomentView>,
)
    requires
        moments.len() == 3,
        later.len() >= 1,
        refreshed_with_receipt(run(cfg, refresh_first(cfg, token, began), world, moments).0),
        verify_outcome(rs256_decoded(token, cfg.refresh_token_public_key), again) is Ok,
        later[0].now < moments[2].now + cfg.access_token_max_age,
    ensures
        ({
            let after = run(cfg, refresh_first(cfg, token, began), world, moments).1;
            run(cfg, refresh_first(cfg, token, again), after, later) == (
                Err::<SessionOutcomeView, AuthError>(AuthError::RefreshAlreadyUsed),
                after,
            )
        }),
{
    reveal_with_fuel(run, 5);
    lemma_refresh_writes_its_key(cfg, token, world, began, moments);
}

/// A refresh that succeeds with the ledger's receipt leaves the token's
/// identifier in the ledger until the lifetime of an access token has passed
/// since the write, and no longer.
pub proof fn lemma_refresh_writes_its_key(
    cfg: ConfigView,
    token: Seq<char>,
    world: World,
    began: i64,
    moments: Seq<MomentView>,
)
    requires
        moments.len() == 3,
        refreshed_with_receipt(run(cfg, refresh_first(cfg, token, began), world, moments).0),
    ensures
        ({
            let after = run(cfg, refresh_first(cfg, token, began), world, moments).1;
            &&& token.len() > 0
            &&& cfg.access_token_max_age > 0
            &&& after.resolver == world.resolver
            &&& forall|at: int|
                after.ledger.holds(refresh_key(cfg, token), at) <==> at < moments[2].now
                    + cfg.access_token_max_age
        }),
{
    reveal_with_fuel(run, 5);
    let first = refresh_first(cfg, token, began);
    assert(first is Perform);
    let m0 = moments[0];
    let (e0, w0) = answer(world, first->Perform_1, m0.now);
    let s1 = session_next(cfg, first->Perform_0, e0, m0);
    let rest1 = moments.skip(1);
    assert(rest1.len() == 2 && rest1[0] == moments[1]);
    assert(s1 is Perform);
    let (e1, w1) = answer(w0, s1->Perform_1, rest1[0].now);
    let s2 = session_next(cfg, s1->Perform_0, e1, rest1[0]);
    let rest2 = rest1.skip(1);
    assert(rest2.len() == 1 && rest2[0] == moments[2]);
    assert(s2 is Perform);
    let (e2, w2) = answer(w1, s2->Perform_1, rest2[0].now);
    let s3 = session_next(cfg, s2->Perform_0, e2, rest2[0]);
    assert(rest2.skip(1).len() == 0);
    assert(s3 is Done);
    assert(run(cfg, first, world, moments).1 == w2);
}

/// The principal that a refresh token is for, as verifying it at a second
/// tells.
pub open spec fn refresh_subject(cfg: ConfigView, token: Seq<char>, at: i64) -> u64 {
    verify_outcome(rs256_decoded(token, cfg.refresh_token_public_key), at)->Ok_0.user_id
}

/// Whether both tokens of a refresh can be minted in the moments in which
/// the refresh mints them: the access token in the second moment, the
/// refresh token in the third.
pub open spec fn refresh_mints(
    cfg: ConfigView,
    token: Seq<char>,
    began: i64,
    moments: Seq<MomentView>,
) -> bool {
    let subject = refresh_subject(cfg, token, began);
    &&& access_minted(cfg, subject, moments[1].now, moments[1].first_id) is Some
    &&& refresh_minted(cfg, subject, moments[2].now, moments[2].first_id) is Some
}

/// Whether nothing stands in the way of a refresh: the token is not empty
/// and verifies, the ledger does not hold it when it is looked up, the
/// resolver knows its principal, the ledger takes the write, and both new
/// tokens can be minted.
pub open spec fn refresh_unhindered(
    cfg: ConfigView,
    token: Seq<char>,
    world: World,
    began: i64,
    moments: Seq<MomentView>,
) -> bool {
    &&& moments.len() == 3
    &&& token.len() > 0
    &&& still_usable(cfg, token, world, began)
    &&& !world.ledger.holds(refresh_key(cfg, token), moments[0].now as int)
    &&& cfg.access_token_max_age > 0
    &&& refresh_mints(cfg, token, began, moments)
}

/// The pair that an unhindered refresh ends in.
pub open spec fn refreshed_pair(
    cfg: ConfigView,
    token: Seq<char>,
    began: i64,
    moments: Seq<MomentView>,
) -> TokenPairView {
    let subject = refresh_subject(cfg, token, began);
    TokenPairView {
        access: access_minted(cfg, subject, moments[1].now, moments[1].first_id)->0,
        refresh: refresh_minted(cfg, subject, moments[2].now, moments[2].first_id)->0,
    }
}

/// The world that an unhindered refresh leaves: the token's identifier is in
/// the ledger, written in the third moment for the lifetime of an access
/// token.
pub open spec fn refreshed_world(
    cfg: ConfigView,
    token: Seq<char>,
    world: World,
    began: i64,
    moments: Seq<MomentView>,
) -> World {
    World {
        ledger: world.ledger.record(
            refresh_key(cfg, token),
            decimal_text(refresh_subject(cfg, token, began) as nat),
            cfg.access_token_max_age as int,
            moments[2].now as int,
        ),
        resolver: world.resolver,
    }
}

/// A refresh that nothing stands in the way of ends in a new pair, with the
/// ledger's receipt, and leaves the used token in the ledger.
pub proof fn law_unhindered_refresh_succeeds(
    cfg: ConfigView,
    token: Seq<char>,
    world: World,
    began: i64,
    moments: Seq<MomentView>,
)
    requires
        refresh_unhindered(cfg, token, world, began, moments),
    ensures
        run(cfg, refresh_first(cfg, token, began), world, moments) == (
            Ok::<SessionOutcomeView, AuthError>(
                SessionOutcomeView::Refreshed {
                    pair: refreshed_pair(cfg, token, began, moments),
                    ledger_recorded: true,
                },
            ),
            refreshed_world(cfg, token, world, began, moments),
        ),
{
    reveal_with_fuel(run, 5);
    let first = refresh_first(cfg, token, began);
    assert(first is Perform);
    let (e0, w0) = answer(world, first->Perform_1, moments[0].now);
    assert(e0 == SessionEventView::LedgerAbsent);
    let s1 = session_next(cfg, first->Perform_0, e0, moments[0]);
    let rest1 = moments.skip(1);
    assert(rest1.len() == 2 && rest1[0] == moments[1]);
    assert(s1 is Perform);
    let (e1, w1) = answer(w0, s1->Perform_1, rest1[0].now);
    let s2 = session_next(cfg, s1->Perform_0, e1, rest1[0]);
    let rest2 = rest1.skip(1);
    assert(rest2.len() == 1 && rest2[0] == moments[2]);
    assert(s2 is Perform);
    let (e2, w2) = answer(w1, s2->Perform_1, rest2[0].now);
    assert(e2 == SessionEventView::LedgerRecorded);
    let s3 = session_next(cfg, s2->Perform_0, e2, rest2[0]);
    assert(rest2.skip(1).len() == 0);
    assert(s3 is Done);
    assert(w2 == refreshed_world(cfg, token, world, began, moments));
}

/// Once the lifetime of an access token has passed since a refresh recorded
/// its token, the same token, if it still verifies and its principal is still
/// there, gets past the ledger again. The second refresh fails in signing or
/// not at all; where both new tokens can be minted it ends in a new pair with
/// the ledger's receipt, and the ledger holds the token for one more lifetime
/// of an access token, counted from the second write.
pub proof fn law_refresh_window_reopens(
    cfg: ConfigView,
    token: Seq<char>,
    world: World,
    began: i64,
    moments: Seq<MomentView>,
    again: i64,
    later: Seq<MomentView>,
)
    requires
        moments.len() == 3,
        later.len() == 3,
        refreshed_with_receipt(run(cfg, refresh_first(cfg, token, began), world, moments).0),
        still_usable(cfg, token, world, again),
        later[0].now >= moments[2].now + cfg.access_token_max_age,
    ensures
        ({
            let after = run(cfg, refresh_first(cfg, token, began), world, moments).1;
            let second = run(cfg, refresh_first(cfg, token, again), after, later);
            &&& second.0 matches Err(e) ==> e == AuthError::SigningError
            &&& refresh_mints(cfg, token, again, later) ==> {
                &&& second.0 == Ok::<SessionOutcomeView, AuthError>(
                    SessionOutcomeView::Refreshed {
                        pair: refreshed_pair(cfg, token, again, later),
                        ledger_recorded: true,
                    },
                )
                &&& forall|at: int|
                    second.1.ledger.holds(refresh_key(cfg, token), at) <==> at < later[2].now
                        + cfg.access_token_max_age
            }
        }),
{
    reveal_with_fuel(run, 5);
    lemma_refresh_writes_its_key(cfg, token, world, began, moments);
    let after = run(cfg, refresh_first(cfg, token, began), world, moments).1;
    let first = refresh_first(cfg, token, again);
    let (e0, w0) = answer(after, first->Perform_1, later[0].now);
    assert(e0 == SessionEventView::LedgerAbsent);
    let s1 = session_next(cfg, first->Perform_0, e0, later[0]);
    let rest1 = later.skip(1);
    assert(rest1.len() == 2);
    let (e1, w1) = answer(w0, s1->Perform_1, rest1[0].now);
    let s2 = session_next(cfg, s1->Perform_0, e1, rest1[0]);
    let rest2 = rest1.skip(1);
    assert(rest2.len() == 1);
    if s2 is Perform {
        let (e2, w2) = answer(w1, s2->Perform_1, rest2[0].now);
        let s3 = session_next(cfg, s2->Perform_0, e2, rest2[0]);
        assert(rest2.skip(1).len() == 0);
        assert(s3 is Done);
    }
    if refresh_mints(cfg, token, again, later) {
        law_unhindered_refresh_succeeds(cfg, token, after, again, later);
    }
}

/// A refresh right after a login succeeds. Where the keys pair, both
/// lifetimes are positive, the resolver knows the principal, the ledger has
/// not seen the login's refresh token and the new tokens can be minted, the
/// refresh ends in a new pair with the ledger's receipt. Each new token
/// verifies under its own public key as a token of the principal that logged
/// in, under the identifier of the moment it was minted in: the three
/// identifiers differ wherever the three draws do. The refresh token of the
/// login is used up by it.
pub proof fn law_login_then_refresh(
    cfg: ConfigView,
    login: Seq<char>,
    secret: Seq<char>,
    world: World,
    moment: MomentView,
    moments: Seq<MomentView>,
    later: Seq<MomentView>,
)
    requires
        keys_pair(cfg.access_token_private_key, cfg.access_token_public_key),
        keys_pair(cfg.refresh_token_private_key, cfg.refresh_token_public_key),
        cfg.access_token_max_age > 0,
        cfg.refresh_token_max_age > 0,
        knows(world, login, secret),
        run(cfg, login_first(login, secret), world, seq![moment]).0 is Ok,
        logged_in(run(cfg, login_first(login, secret), world, seq![moment]).0).refresh.len() > 0,
        moments.len() == 3,
        !world.ledger.holds(moment.second_id, moments[0].now as int),
        access_minted(
            cfg,
            credential_principal(world, login, secret).id,
            moments[1].now,
            moments[1].first_id,
        ) is Some,
        refresh_minted(
            cfg,
            credential_principal(world, login, secret).id,
            moments[2].now,
            moments[2].first_id,
        ) is Some,
        later.len() >= 1,
        later[0].now < moments[2].now + cfg.access_token_max_age,
    ensures
        ({
            let id = credential_principal(world, login, secret).id;
            let old = logged_in(run(cfg, login_first(login, secret), world, seq![moment]).0);
            let (outcome, after) = run(
                cfg,
                refresh_first(cfg, old.refresh, moment.now),
                world,
                moments,
            );
            let pair = refreshed_pair(cfg, old.refresh, moment.now, moments);
            &&& outcome == Ok::<SessionOutcomeView, AuthError>(
                SessionOutcomeView::Refreshed { pair, ledger_recorded: true },
            )
            &&& verify_outcome(
                rs256_decoded(old.refresh, cfg.refresh_token_public_key),
                moment.now,
            ) == Ok::<DetailsView, TokenError>(
                DetailsView {
                    token: None,
                    token_uuid: moment.second_id,
                    user_id: id,
                    expires_in: Some((moment.now + cfg.refresh_token_max_age) as i64),
                },
            )
            &&& verify_outcome(
                rs256_decoded(pair.access, cfg.access_token_public_key),
                moments[1].now,
            ) == Ok::<DetailsView, TokenError>(
                DetailsView {
                    token: None,
                    token_uuid: moments[1].first_id,
                    user_id: id,
                    expires_in: Some((moments[1].now + cfg.access_token_max_age) as i64),
                },
            )
            &&& verify_outcome(
                rs256_decoded(pair.refresh, cfg.refresh_token_public_key),
                moments[2].now,
            ) == Ok::<DetailsView, TokenError>(
                DetailsView {
                    token: None,
                    token_uuid: moments[2].first_id,
                    user_id: id,
                    expires_in: Some((moments[2].now + cfg.refresh_token_max_age) as i64),
                },
            )
            &&& run(cfg, refresh_first(cfg, old.refresh, moment.now), after, later).0 == Err::<
                SessionOutcomeView,
                AuthError,
            >(AuthError::RefreshAlreadyUsed)
        }),
{
    reveal_with_fuel(run, 3);
    let id = credential_principal(world, login, secret).id;
    assert(seq![moment].skip(1).len() == 0);
    let old = logged_in(run(cfg, login_first(login, secret), world, seq![moment]).0);
    assert(refresh_minted(cfg, id, moment.now, moment.second_id) == Some(old.refresh));
    lemma_minted_token_verifies(
        id,
        cfg.refresh_token_max_age,
        cfg.refresh_token_private_key,
        cfg.refresh_token_public_key,
        moment.now,
        moment.second_id,
        moment.now,
    );
    lemma_minted_token_verifies(
        id,
        cfg.access_token_max_age,
        cfg.access_token_private_key,
        cfg.access_token_public_key,
        moments[1].now,
        moments[1].first_id,
        moments[1].now,
    );
    lemma_minted_token_verifies(
        id,
        cfg.refresh_token_max_age,
        cfg.refresh_token_private_key,
        cfg.refresh_token_public_key,
        moments[2].now,
        moments[2].first_id,
        moments[2].now,
    );
    assert(refresh_key(cfg, old.refresh) == moment.second_id);
    assert(refresh_unhindered(cfg, old.refresh, world, moment.now, moments));
    law_unhindered_refresh_succeeds(cfg, old.refresh, world, moment.now, moments);
    law_refresh_token_is_single_use(
        cfg,
        old.refresh,
        world,
        moment.now,
        moments,
        moment.now,
        later,
    );
}

/// A token whose signature is good and whose claims are readable fails, from
/// its expiry second on, as expired and as nothing else -- as an access token
/// in a session check too.
pub proof fn law_expired_token_is_reported_expired(
    cfg: ConfigView,
    token: Seq<char>,
    now: i64,
)
    requires
        rs256_decoded(token, cfg.access_token_public_key) is Ok,
        claims_readable(rs256_decoded(token, cfg.access_token_public_key)->Ok_0),
        rs256_decoded(token, cfg.access_token_public_key)->Ok_0.exp->0 <= now,
    ensures
        verify_outcome(rs256_decoded(token, cfg.access_token_public_key), now) == Err::<DetailsView, TokenError>(
            TokenError::Expired,
        ),
        check_first(cfg, Some(bearer_header(token)), now) == failed(AuthError::Expired),
{
    lemma_bearer_header_token(token);
}

/// A refresh with an empty token ends at its first step: nothing is asked of
/// the ledger or the resolver, and the world stays as it was.
pub proof fn law_empty_refresh_fails_fast(
    cfg: ConfigView,
    now: i64,
    world: World,
    moments: Seq<MomentView>,
)
    ensures
        refresh_first(cfg, Seq::<char>::empty(), now) == failed(AuthError::EmptyRefreshToken),
        run(cfg, refresh_first(cfg, Seq::<char>::empty(), now), world, moments) == (
            Err::<SessionOutcomeView, AuthError>(AuthError::EmptyRefreshToken),
            world,
        ),
{
    reveal_with_fuel(run, 1);
}

/// A refresh whose principal is gone ends so, and writes nothing to the
/// ledger.
pub proof fn law_gone_principal_writes_nothing(
    cfg: ConfigView,
    token: Seq<char>,
    world: World,
    began: i64,
    moments: Seq<MomentView>,
)
    requires
        moments.len() >= 2,
        verify_outcome(rs256_decoded(token, cfg.refresh_token_public_key), began) is Ok,
        token.len() > 0,
        !world.ledger.holds(refresh_key(cfg, token), moments[0].now as int),
        (world.resolver)(
            ResolverRequestView::FetchById {
                id: verify_outcome(
                    rs256_decoded(token, cfg.refresh_token_public_key),
                    began,
                )->Ok_0.user_id,
            },
        ) == Err::<PrincipalView, ResolverError>(ResolverError::PrincipalNotFound),
    ensures
        run(cfg, refresh_first(cfg, token, began), world, moments) == (
            Err::<SessionOutcomeView, AuthError>(AuthError::PrincipalGone),
            world,
        ),
{
    reveal_with_fuel(run, 4);
    assert(moments.skip(1).len() >= 1);
}

/// A ledger that cannot be read stops a refresh: the failure is taken
/// neither for "used" nor for "not used", and nothing is minted or written.
pub proof fn law_unreadable_ledger_stops_refresh(
    cfg: ConfigView,
    token_uuid: Seq<char>,
    user_id: u64,
    moment: MomentView,
)
    ensures
        session_next(
            cfg,
            SessionStateView::RefreshLookup { token_uuid, user_id },
            SessionEventView::LedgerFailed,
            moment,
        ) == failed(AuthError::LedgerUnavailable),
{
}

/// A ledger write that fails does not hold a refresh up: where the new
/// refresh token can be minted the flow ends in the new pair, and says that
/// the ledger gave no receipt.
pub proof fn law_failed_write_does_not_block(
    cfg: ConfigView,
    user_id: u64,
    access: Seq<char>,
    moment: MomentView,
)
    requires
        refresh_minted(cfg, user_id, moment.now, moment.first_id) is Some,
    ensures
        session_next(
            cfg,
            SessionStateView::RefreshRecord { user_id, access },
            SessionEventView::LedgerRecordFailed,
            moment,
        ) == SessionStepView::Done(
            Ok(
                SessionOutcomeView::Refreshed {
                    pair: TokenPairView {
                        access,
                        refresh: refresh_minted(cfg, user_id, moment.now, moment.first_id)->0,
                    },
                    ledger_recorded: false,
                },
            ),
        ),
{
}

} // verus!
