//! The steps from a request's credential to an authenticated user, and the
//! decision at login.

use crate::auth::bearer::{bearer_token, parse_bearer};
use crate::auth::token::{decoded, Claims, ClaimsView};
use crate::auth::{issued_view, verified_view, AuthManager, IssueFailure, VerifyFailure};
use crate::definitions::{Signal, User, UserView};
use crate::storage::database_manager::{Resolution, ResolutionView};
use vstd::prelude::*;

verus! {

/// Why a request was not authenticated. The reasons are listed in the order
/// in which they are looked for; the first that applies is the one reported.
#[derive(Debug, Clone, Copy, PartialEq, Eq, Structural)]
pub enum AuthFailure {
    /// The request carries no bearer credential.
    NoCredential,
    /// The credential is not a token.
    Malformed,
    /// The token is not signed with the configured algorithm and secret.
    BadSignature,
    /// The token's validity has ended.
    Expired,
    /// The token is sound, and the user it speaks for is gone.
    PrincipalNotFound,
    /// The user store could not be asked.
    StoreUnavailable,
}

impl AuthFailure {
    /// Whether trying again later may help. Only a store that could not be
    /// asked is worth a second try; every other reason lies with the client.
    pub open spec fn transient(self) -> bool {
        self == AuthFailure::StoreUnavailable
    }

    /// Whether trying again later may help.
    pub fn is_transient(&self) -> (r: bool)
        ensures
            r == self.transient(),
    {
        match self {
            AuthFailure::StoreUnavailable => true,
            _ => false,
        }
    }

    /// What a caller is told: that the service failed where the user store
    /// could not be asked, and for every other reason, without telling them
    /// apart, that the request is not let in.
    pub open spec fn signal_spec(self) -> Signal {
        if self == AuthFailure::StoreUnavailable {
            Signal::InternalError
        } else {
            Signal::Unauthorized
        }
    }

    /// What a caller is told of this failure.
    pub fn signal(&self) -> (r: Signal)
        ensures
            r == self.signal_spec(),
    {
        match self {
            AuthFailure::StoreUnavailable => Signal::InternalError,
            _ => Signal::Unauthorized,
        }
    }

    /// The reason that a failed verification stands for.
    pub open spec fn of_verification(failure: VerifyFailure) -> AuthFailure {
        match failure {
            VerifyFailure::Malformed => AuthFailure::Malformed,
            VerifyFailure::BadSignature => AuthFailure::BadSignature,
            VerifyFailure::Expired => AuthFailure::Expired,
        }
    }

    /// The reason that a failed verification stands for.
    pub fn from_verification(failure: VerifyFailure) -> (r: Self)
        ensures
            r == Self::of_verification(failure),
    {
        match failure {
            VerifyFailure::Malformed => AuthFailure::Malformed,
            VerifyFailure::BadSignature => AuthFailure::BadSignature,
            VerifyFailure::Expired => AuthFailure::Expired,
        }
    }
}

/// Where the authentication of one request stands. A request moves from
/// `Start` through the three steps in their order and ends as
/// `Authenticated` or, from whichever step fails first, as `Rejected`.
#[derive(Debug)]
pub enum AuthState {
    /// Nothing has been looked at yet.
    Start,
    /// The request is in; its credential is to be extracted.
    ExtractCredential { authorization: Option<Vec<u8>>, now: u64 },
    /// The credential is extracted; its token is to be verified.
    VerifyToken { token: String, now: u64 },
    /// The token is verified; the user store has to say who the subject of
    /// these claims is.
    ResolvePrincipal(Claims),
    /// The request speaks for this user.
    Authenticated(User),
    /// The request is turned away.
    Rejected(AuthFailure),
}

/// What an [`AuthState`] holds, as mathematical values.
pub enum AuthStateView {
    Start,
    ExtractCredential { authorization: Option<Seq<u8>>, now: u64 },
    VerifyToken { token: Seq<char>, now: u64 },
    ResolvePrincipal(ClaimsView),
    Authenticated(UserView),
    Rejected(AuthFailure),
}

/// The view of a header value that may be missing.
pub open spec fn header_view(authorization: Option<Vec<u8>>) -> Option<Seq<u8>> {
    match authorization {
        Some(bytes) => Some(bytes@),
        None => None,
    }
}

impl View for AuthState {
    type V = AuthStateView;

    open spec fn view(&self) -> AuthStateView {
        match self {
            AuthState::Start => AuthStateView::Start,
            AuthState::ExtractCredential { authorization, now } => AuthStateView::ExtractCredential {
                authorization: header_view(*authorization),
                now: *now,
            },
            AuthState::VerifyToken { token, now } => AuthStateView::VerifyToken {
                token: token@,
                now: *now,
            },
            AuthState::ResolvePrincipal(claims) => AuthStateView::ResolvePrincipal(claims@),
            AuthState::Authenticated(user) => AuthStateView::Authenticated(user@),
            AuthState::Rejected(failure) => AuthStateView::Rejected(*failure),
        }
    }
}

/// What happens outside and moves an authentication on.
#[derive(Debug)]
pub enum AuthEvent {
    /// The request arrived at time `now`, with this `Authorization` header
    /// value, if it has one.
    Request { authorization: Option<Vec<u8>>, now: u64 },
    /// The user store answered.
    Resolved(Resolution),
}

/// What an [`AuthEvent`] holds, as mathematical values.
pub enum AuthEventView {
    Request { authorization: Option<Seq<u8>>, now: u64 },
    Resolved(ResolutionView),
}

impl View for AuthEvent {
    type V = AuthEventView;

    open spec fn view(&self) -> AuthEventView {
        match self {
            AuthEvent::Request { authorization, now } => AuthEventView::Request {
                authorization: header_view(*authorization),
                now: *now,
            },
            AuthEvent::Resolved(resolution) => AuthEventView::Resolved(resolution@),
        }
    }
}

impl AuthStateView {
    /// Where a request with a bearer credential stands once its token has
    /// been judged: waiting for the user store with the claims of a token
    /// that verified, turned away with any other.
    pub open spec fn after_verification(result: Result<ClaimsView, VerifyFailure>) -> AuthStateView {
        match result {
            Ok(claims) => AuthStateView::ResolvePrincipal(claims),
            Err(failure) => AuthStateView::Rejected(AuthFailure::of_verification(failure)),
        }
    }

    /// Whether the authentication has ended, one way or the other.
    pub open spec fn terminal(self) -> bool {
        self is Authenticated || self is Rejected
    }

    /// Whether the next step needs nothing from outside: the credential is
    /// to be extracted, or the token to be verified.
    pub open spec fn in_hand(self) -> bool {
        self is ExtractCredential || self is VerifyToken
    }

    /// The subject that the user store has to be asked about now, if any.
    pub open spec fn lookup(self) -> Option<Seq<char>> {
        match self {
            AuthStateView::ResolvePrincipal(claims) => Some(claims.sub),
            _ => None,
        }
    }
}

impl AuthManager {
    /// The state after the step that `state` has in hand: the credential
    /// extracted, or the token verified. A state with nothing in hand stays.
    pub open spec fn moved(&self, state: AuthStateView) -> AuthStateView {
        match state {
            AuthStateView::ExtractCredential { authorization, now } => match authorization {
                None => AuthStateView::Rejected(AuthFailure::NoCredential),
                Some(header) => match bearer_token(header) {
                    None => AuthStateView::Rejected(AuthFailure::NoCredential),
                    Some(token) => AuthStateView::VerifyToken { token, now },
                },
            },
            AuthStateView::VerifyToken { token, now } => AuthStateView::after_verification(
                self.verify_spec(token, now),
            ),
            _ => state,
        }
    }

    /// The state once every step in hand is taken. Two steps at most are:
    /// after them the authentication has ended or waits for the outside.
    pub open spec fn settled(&self, state: AuthStateView) -> AuthStateView {
        self.moved(self.moved(state))
    }

    /// Where a request stands once its credential has been looked at: turned
    /// away for the first reason that applies, or waiting for the user store.
    pub open spec fn screened(&self, authorization: Option<Seq<u8>>, now: u64) -> AuthStateView {
        match authorization {
            None => AuthStateView::Rejected(AuthFailure::NoCredential),
            Some(header) => match bearer_token(header) {
                None => AuthStateView::Rejected(AuthFailure::NoCredential),
                Some(token) => AuthStateView::after_verification(self.verify_spec(token, now)),
            },
        }
    }

    /// The state after `event` in `state`. An event that the state does not
    /// wait for changes nothing: before the token is verified no answer of
    /// the user store counts, and a finished authentication stays finished.
    pub open spec fn next(&self, state: AuthStateView, event: AuthEventView) -> AuthStateView {
        match (state, event) {
            (
                AuthStateView::Start,
                AuthEventView::Request { authorization, now },
            ) => AuthStateView::ExtractCredential { authorization, now },
            (AuthStateView::ResolvePrincipal(_), AuthEventView::Resolved(resolution)) => concluded(
                resolution,
            ),
            _ => state,
        }
    }

    /// Takes the step that `state` has in hand.
    pub fn advance(&self, state: AuthState) -> (r: AuthState)
        ensures
            r@ == self.moved(state@),
    {
        match state {
            AuthState::ExtractCredential { authorization, now } => match authorization {
                None => AuthState::Rejected(AuthFailure::NoCredential),
                Some(header) => match parse_bearer(header.as_slice()) {
                    None => AuthState::Rejected(AuthFailure::NoCredential),
                    Some(token) => AuthState::VerifyToken { token, now },
                },
            },
            AuthState::VerifyToken { token, now } => AuthState::after_verification(
                self.validate_token(token, now),
            ),
            state => state,
        }
    }

    /// Takes every step in hand.
    pub fn settle(&self, state: AuthState) -> (r: AuthState)
        ensures
            r@ == self.settled(state@),
            !r@.in_hand(),
    {
        self.advance(self.advance(state))
    }

    /// Moves an authentication on by one event from outside.
    pub fn step(&self, state: AuthState, event: AuthEvent) -> (r: AuthState)
        ensures
            r@ == self.next(state@, event@),
    {
        match (state, event) {
            (
                AuthState::Start,
                AuthEvent::Request { authorization, now },
            ) => AuthState::ExtractCredential { authorization, now },
            (AuthState::ResolvePrincipal(_), AuthEvent::Resolved(resolution)) => conclude(
                resolution,
            ),
            (state, _) => state,
        }
    }

    /// Extracts the bearer credential of a request that arrived at `now` and
    /// verifies its token: the way from `Start` to the user store, or out.
    pub fn screen(&self, authorization: Option<&[u8]>, now: u64) -> (r: AuthState)
        ensures
            r@ == self.screened(
                match authorization {
                    Some(header) => Some(header@),
                    None => None,
                },
                now,
            ),
    {
        match authorization {
            None => AuthState::Rejected(AuthFailure::NoCredential),
            Some(header) => match parse_bearer(header) {
                None => AuthState::Rejected(AuthFailure::NoCredential),
                Some(token) => AuthState::after_verification(self.validate_token(token, now)),
            },
        }
    }
}

/// Where a verified request stands once the user store has answered.
pub open spec fn concluded(resolution: ResolutionView) -> AuthStateView {
    match resolution {
        ResolutionView::Found(user) => AuthStateView::Authenticated(user),
        ResolutionView::Missing => AuthStateView::Rejected(AuthFailure::PrincipalNotFound),
        ResolutionView::Unavailable => AuthStateView::Rejected(AuthFailure::StoreUnavailable),
    }
}

/// Ends the authentication of a verified request with the user store's answer.
pub fn conclude(resolution: Resolution) -> (r: AuthState)
    ensures
        r@ == concluded(resolution@),
{
    match resolution {
        Resolution::Found(user) => AuthState::Authenticated(user),
        Resolution::Missing => AuthState::Rejected(AuthFailure::PrincipalNotFound),
        Resolution::Unavailable => AuthState::Rejected(AuthFailure::StoreUnavailable),
    }
}

impl AuthState {
    /// Where a request with a bearer credential stands once its token has
    /// been judged.
    pub fn after_verification(result: Result<Claims, VerifyFailure>) -> (r: AuthState)
        ensures
            r@ == AuthStateView::after_verification(verified_view(result)),
    {
        match result {
            Ok(claims) => AuthState::ResolvePrincipal(claims),
            Err(failure) => AuthState::Rejected(AuthFailure::from_verification(failure)),
        }
    }

    /// The subject that the user store has to be asked about now, if any.
    pub fn lookup(&self) -> (r: Option<&String>)
        ensures
            r.deep_view() == self@.lookup(),
    {
        match self {
            AuthState::ResolvePrincipal(claims) => Some(&claims.sub),
            _ => None,
        }
    }

    /// Whether the authentication has ended.
    pub fn is_terminal(&self) -> (r: bool)
        ensures
            r == self@.terminal(),
    {
        match self {
            AuthState::Authenticated(_) => true,
            AuthState::Rejected(_) => true,
            _ => false,
        }
    }
}

/// How a login attempt ends.
#[derive(Debug)]
pub enum LoginOutcome {
    /// The credentials are right; this token speaks for the user from now on.
    Token(String),
    /// No such user, or not that password. The two are not told apart.
    InvalidCredentials,
    /// The user store could not be asked.
    StoreUnavailable,
    /// The credentials are right, and no token could be made.
    TokenFailure(IssueFailure),
}

/// What a [`LoginOutcome`] holds, as mathematical values.
pub enum LoginOutcomeView {
    Token(Seq<char>),
    InvalidCredentials,
    StoreUnavailable,
    TokenFailure(IssueFailure),
}

impl LoginOutcomeView {
    /// How a login with the right password ends, given what issuing gave.
    pub open spec fn of_issue(issued: Result<Seq<char>, IssueFailure>) -> LoginOutcomeView {
        match issued {
            Ok(token) => LoginOutcomeView::Token(token),
            Err(failure) => LoginOutcomeView::TokenFailure(failure),
        }
    }
}

impl LoginOutcome {
    /// How a login with the right password ends, given what issuing gave.
    pub fn of_issue(issued: Result<String, IssueFailure>) -> (r: LoginOutcome)
        ensures
            r@ == LoginOutcomeView::of_issue(issued_view(issued)),
    {
        match issued {
            Ok(token) => LoginOutcome::Token(token),
            Err(failure) => LoginOutcome::TokenFailure(failure),
        }
    }
}

impl View for LoginOutcome {
    type V = LoginOutcomeView;

    open spec fn view(&self) -> LoginOutcomeView {
        match self {
            LoginOutcome::Token(token) => LoginOutcomeView::Token(token@),
            LoginOutcome::InvalidCredentials => LoginOutcomeView::InvalidCredentials,
            LoginOutcome::StoreUnavailable => LoginOutcomeView::StoreUnavailable,
            LoginOutcome::TokenFailure(failure) => LoginOutcomeView::TokenFailure(*failure),
        }
    }
}

impl AuthManager {
    /// How a login with `password` at time `now` ends, given what the user
    /// store said of the name that was typed in. A token is issued to the
    /// user's key, and only where the password is that user's.
    pub open spec fn login_spec(
        &self,
        resolution: ResolutionView,
        password: Seq<char>,
        now: u64,
    ) -> LoginOutcomeView {
        match resolution {
            ResolutionView::Unavailable => LoginOutcomeView::StoreUnavailable,
            ResolutionView::Missing => LoginOutcomeView::InvalidCredentials,
            ResolutionView::Found(user) => if user.password != password {
                LoginOutcomeView::InvalidCredentials
            } else {
                LoginOutcomeView::of_issue(self.issue_spec(user.id, now))
            },
        }
    }

    /// Decides a login attempt.
    pub fn login(&self, resolution: Resolution, password: String, now: u64) -> (r: LoginOutcome)
        ensures
            r@ == self.login_spec(resolution@, password@, now),
    {
        match resolution {
            Resolution::Unavailable => LoginOutcome::StoreUnavailable,
            Resolution::Missing => LoginOutcome::InvalidCredentials,
            Resolution::Found(user) => {
                if !user.validate_password(password) {
                    LoginOutcome::InvalidCredentials
                } else {
                    let subject = user.id.to_string();
                    LoginOutcome::of_issue(self.issue(subject.as_str(), now))
                }
            },
        }
    }
}

impl AuthManager {
    /// The state that a run of events leaves behind, starting in `state`,
    /// with every step in hand taken after each event.
    pub open spec fn run(&self, state: AuthStateView, events: Seq<AuthEventView>) -> AuthStateView
        decreases events.len(),
    {
        if events.len() == 0 {
            state
        } else {
            self.settled(self.next(self.run(state, events.drop_last()), events.last()))
        }
    }

    /// Whether `event` is a request whose credential verifies to `claims`.
    pub open spec fn accepts(&self, event: AuthEventView, claims: ClaimsView) -> bool {
        event matches AuthEventView::Request { authorization: Some(header), now }
            && bearer_token(header) matches Some(token) && self.verify_spec(token, now) == Ok::<
            ClaimsView,
            VerifyFailure,
        >(claims)
    }
}

/// The two steps in hand after a request came in are the screening of its
/// credential: extraction, then verification, and out at the first failure.
pub proof fn lemma_screening_is_two_steps(
    manager: AuthManager,
    authorization: Option<Seq<u8>>,
    now: u64,
)
    ensures
        manager.settled(
            manager.next(AuthStateView::Start, AuthEventView::Request { authorization, now }),
        ) == manager.screened(authorization, now),
        !manager.screened(authorization, now).in_hand(),
        manager.screened(authorization, now) !is Start,
        manager.screened(authorization, now) !is Authenticated,
{
}

/// The first failure is the one reported, in this order: no credential, a
/// credential that is no token, a signature that is not ours, a validity that
/// has ended; and once the token is verified, a user who is gone, a store
/// that could not be asked. A request that fails in an earlier way is never
/// reported as failing in a later one, and the later steps are not tried.
pub proof fn lemma_first_failure_is_reported(
    manager: AuthManager,
    authorization: Option<Seq<u8>>,
    now: u64,
)
    ensures
        match authorization {
            None => manager.screened(authorization, now) == AuthStateView::Rejected(
                AuthFailure::NoCredential,
            ),
            Some(header) => match bearer_token(header) {
                None => manager.screened(authorization, now) == AuthStateView::Rejected(
                    AuthFailure::NoCredential,
                ),
                Some(token) => match decoded(manager.secret(), token) {
                    Err(fault) => manager.screened(authorization, now) == AuthStateView::Rejected(
                        if fault == crate::auth::token::DecodeFault::Shape {
                            AuthFailure::Malformed
                        } else {
                            AuthFailure::BadSignature
                        },
                    ),
                    Ok(raw) => manager.screened(authorization, now) == if !raw.complete() {
                        AuthStateView::Rejected(AuthFailure::Malformed)
                    } else if raw.exp.unwrap() <= now {
                        AuthStateView::Rejected(AuthFailure::Expired)
                    } else {
                        AuthStateView::ResolvePrincipal(raw.claims())
                    },
                },
            },
        },
        forall|claims: ClaimsView, resolution: ResolutionView| #[trigger]
            manager.next(AuthStateView::ResolvePrincipal(claims), AuthEventView::Resolved(resolution))
                == match resolution {
                ResolutionView::Found(user) => AuthStateView::Authenticated(user),
                ResolutionView::Missing => AuthStateView::Rejected(AuthFailure::PrincipalNotFound),
                ResolutionView::Unavailable => AuthStateView::Rejected(
                    AuthFailure::StoreUnavailable,
                ),
            },
{
}

/// A finished authentication stays as it is, whatever happens next.
pub proof fn lemma_terminal_states_absorb(
    manager: AuthManager,
    state: AuthStateView,
    event: AuthEventView,
)
    requires
        state.terminal(),
    ensures
        manager.next(state, event) == state,
        manager.moved(state) == state,
        manager.settled(state) == state,
{
}

/// The user store is asked in exactly one state, the one that a verified
/// credential leads to, and its answer ends the authentication: so there is
/// one lookup for a credential that verified and none for any other.
pub proof fn lemma_one_lookup_per_verified_credential(
    manager: AuthManager,
    authorization: Option<Seq<u8>>,
    now: u64,
    resolution: ResolutionView,
)
    ensures
        AuthStateView::Start.lookup() is None,
        forall|state: AuthStateView| state.in_hand() ==> (#[trigger] state.lookup()) is None,
        manager.screened(authorization, now).lookup() is Some <==> exists|claims: ClaimsView|
            manager.accepts(AuthEventView::Request { authorization, now }, claims),
        manager.next(
            manager.screened(authorization, now),
            AuthEventView::Resolved(resolution),
        ).lookup() is None,
{
    let event = AuthEventView::Request { authorization, now };
    if let AuthStateView::ResolvePrincipal(claims) = manager.screened(authorization, now) {
        assert(manager.accepts(event, claims));
    }
}

/// A token whose validity ended at or before the time of the request never
/// gets as far as the user store, let alone to an authenticated user: however
/// sound it is otherwise, the request is turned away as `Expired`, and
/// nothing that happens afterwards changes that.
pub proof fn lemma_expired_token_is_rejected(
    manager: AuthManager,
    header: Seq<u8>,
    now: u64,
    later: Seq<AuthEventView>,
)
    ensures
        (bearer_token(header) matches Some(token) && decoded(manager.secret(), token) matches Ok(raw)
            && raw.complete() && raw.exp.unwrap() <= now) ==> manager.run(
            AuthStateView::Start,
            seq![AuthEventView::Request { authorization: Some(header), now }] + later,
        ) == AuthStateView::Rejected(AuthFailure::Expired),
{
    let first = AuthEventView::Request { authorization: Some(header), now };
    let state = manager.settled(manager.next(AuthStateView::Start, first));
    assert(manager.run(AuthStateView::Start, seq![first]) == state) by {
        assert(seq![first].drop_last() == Seq::<AuthEventView>::empty());
        assert(manager.run(AuthStateView::Start, Seq::<AuthEventView>::empty())
            == AuthStateView::Start);
    }
    lemma_run_in_two_parts(manager, AuthStateView::Start, seq![first], later);
    if state.terminal() {
        lemma_finished_stays_finished(manager, state, later);
    }
}

/// A run of events is the run of its first part followed by the run of the
/// rest.
pub proof fn lemma_run_in_two_parts(
    manager: AuthManager,
    state: AuthStateView,
    first: Seq<AuthEventView>,
    rest: Seq<AuthEventView>,
)
    ensures
        manager.run(state, first + rest) == manager.run(manager.run(state, first), rest),
    decreases rest.len(),
{
    if rest.len() == 0 {
        assert(first + rest == first);
    } else {
        lemma_run_in_two_parts(manager, state, first, rest.drop_last());
        assert((first + rest).drop_last() == first + rest.drop_last());
        assert((first + rest).last() == rest.last());
    }
}

/// Once an authentication has ended, as authenticated or as rejected, no run
/// of events moves it: rejection is final, and so is the user.
pub proof fn lemma_finished_stays_finished(
    manager: AuthManager,
    state: AuthStateView,
    events: Seq<AuthEventView>,
)
    requires
        state.terminal(),
    ensures
        manager.run(state, events) == state,
    decreases events.len(),
{
    if events.len() > 0 {
        lemma_finished_stays_finished(manager, state, events.drop_last());
    }
}

/// A sound token for a user who is gone is turned away as
/// `PrincipalNotFound`; it neither authenticates nor counts as a store fault.
pub proof fn lemma_missing_principal_is_rejected(manager: AuthManager, claims: ClaimsView)
    ensures
        manager.next(
            AuthStateView::ResolvePrincipal(claims),
            AuthEventView::Resolved(ResolutionView::Missing),
        ) == AuthStateView::Rejected(AuthFailure::PrincipalNotFound),
{
}

/// No run of events authenticates a user without both a credential that
/// verified and, after it, the user store's answer naming that user. And
/// between events nothing is left in hand.
pub proof fn lemma_authenticated_only_after_verification(
    manager: AuthManager,
    events: Seq<AuthEventView>,
)
    ensures
        !manager.run(AuthStateView::Start, events).in_hand(),
        manager.run(AuthStateView::Start, events) matches AuthStateView::ResolvePrincipal(claims)
            ==> exists|i: int| 0 <= i < events.len() && manager.accepts(#[trigger] events[i], claims),
        manager.run(AuthStateView::Start, events) matches AuthStateView::Authenticated(user)
            ==> exists|i: int, j: int, claims: ClaimsView|
            0 <= i < j < events.len() && #[trigger] manager.accepts(events[i], claims)
                && #[trigger] events[j] == AuthEventView::Resolved(ResolutionView::Found(user)),
    decreases events.len(),
{
    if events.len() > 0 {
        let before = events.drop_last();
        let last = events.last();
        let n = events.len() - 1;
        lemma_authenticated_only_after_verification(manager, before);
        let previous = manager.run(AuthStateView::Start, before);
        let now_state = manager.run(AuthStateView::Start, events);
        assert(now_state == manager.settled(manager.next(previous, last)));
        assert(forall|k: int| 0 <= k < n ==> before[k] == events[k]);
        match now_state {
            AuthStateView::ResolvePrincipal(claims) => {
                if previous is Start {
                    assert(manager.accepts(events[n], claims));
                } else {
                    assert(previous == now_state);
                    let i = choose|i: int| 0 <= i < before.len() && manager.accepts(#[trigger] before[i], claims);
                    assert(manager.accepts(events[i], claims));
                }
            },
            AuthStateView::Authenticated(user) => {
                if let AuthStateView::ResolvePrincipal(claims) = previous {
                    let i = choose|i: int| 0 <= i < before.len() && manager.accepts(#[trigger] before[i], claims);
                    assert(manager.accepts(events[i], claims));
                    assert(events[n] == AuthEventView::Resolved(ResolutionView::Found(user)));
                } else {
                    assert(previous == now_state);
                    let (i, j, claims) = choose|i: int, j: int, claims: ClaimsView|
                        0 <= i < j < before.len() && #[trigger] manager.accepts(before[i], claims)
                            && #[trigger] before[j] == AuthEventView::Resolved(
                            ResolutionView::Found(user),
                        );
                    assert(manager.accepts(events[i], claims));
                    assert(events[j] == AuthEventView::Resolved(ResolutionView::Found(user)));
                }
            },
            _ => {},
        }
    }
}

} // verus!
