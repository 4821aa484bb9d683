//! What a request comes to over a storage that answers each lookup by what it is asked for.
use crate::access_laws::lists;
use crate::get_requester::{
    begin, AccessToken, CancelTransaction, CheckToken, ExtraRouterParameters, FindToken,
    LoadBrowserSession, Lookup, LookupSession, LookupUser, Origin, RecordBrowserSession,
    RecordSession, Step,
};
use crate::identity::{BrowserSession, RequestingEntity, Session, Ulid, User};
use crate::requester::Requester;
use crate::route_error::RouteError;
use vstd::prelude::*;

verus! {

/// What is stored, and what else the tasks depend on. A lookup gives what is stored under
/// the text or the identifier that was asked for, or fails.
pub struct Storage {
    pub token: spec_fn(Seq<char>) -> Lookup<AccessToken>,
    pub session: spec_fn(Ulid) -> Lookup<Session>,
    pub user: spec_fn(Ulid) -> Lookup<User>,
    pub token_valid: bool,
    pub browser_session: Lookup<BrowserSession>,
    pub cancelled: Result<(), String>,
}

/// Sessions and users are stored under their own identifiers.
pub open spec fn is_indexed(storage: Storage) -> bool {
    &&& forall|id: Ulid|
        (#[trigger] (storage.session)(id)) matches Ok(Some(session)) ==> session.id == id
    &&& forall|id: Ulid| (#[trigger] (storage.user)(id)) matches Ok(Some(user)) ==> user.id == id
}

/// Doing the task of a step over the storage gives the next step.
pub open spec fn leads_to(step: Step, storage: Storage, next: Step) -> bool {
    match step {
        Step::FindToken(task) => call_ensures(
            FindToken::found,
            (task, (storage.token)(task.token@)),
            next,
        ),
        Step::LookupSession(task) => call_ensures(
            LookupSession::found,
            (task, (storage.session)(task.session_id)),
            next,
        ),
        Step::RecordSession(task) => call_ensures(RecordSession::done, (task,), next),
        Step::LookupUser(task) => call_ensures(
            LookupUser::found,
            (task, (storage.user)(task.user_id)),
            next,
        ),
        Step::CheckToken(task) => call_ensures(
            CheckToken::checked,
            (task, storage.token_valid),
            next,
        ),
        Step::LoadBrowserSession(task) => call_ensures(
            LoadBrowserSession::loaded,
            (task, storage.browser_session),
            next,
        ),
        Step::RecordBrowserSession(task) => call_ensures(RecordBrowserSession::done, (task,), next),
        Step::CancelTransaction(task) => call_ensures(
            CancelTransaction::cancelled,
            (task, storage.cancelled),
            next,
        ),
        Step::Ready(_) => false,
    }
}

/// A request, from the first step to its end.
pub struct Run {
    pub parameters: ExtraRouterParameters,
    pub token: Option<String>,
    pub origin: Origin,
    pub storage: Storage,
    pub steps: Seq<Step>,
}

impl Run {
    /// The step after the one at `i` is what doing its task gave.
    pub open spec fn goes_on(self, i: int) -> bool {
        leads_to(self.steps[i], self.storage, self.steps[i + 1])
    }

    /// Each step is what doing the task of the one before gave, up to the result.
    pub open spec fn is_done(self) -> bool {
        &&& self.steps.len() > 0
        &&& call_ensures(begin, (&self.parameters, self.token, self.origin), self.steps[0])
        &&& forall|i: int| 0 <= i < self.steps.len() - 1 ==> #[trigger] self.goes_on(i)
        &&& self.steps.last() is Ready
    }

    /// What the request came to.
    pub open spec fn result(self) -> Result<Requester, RouteError> {
        self.steps.last()->Ready_0
    }

    /// The token was given where tokens are taken, and it is stored.
    pub open spec fn has_token(self, stored: AccessToken) -> bool {
        &&& self.parameters.undocumented_oauth2_access
        &&& self.token matches Some(token) && (self.storage.token)(token@) == Ok::<
            Option<AccessToken>,
            String,
        >(Some(stored))
    }

    /// The token's own session is stored.
    pub open spec fn has_session(self, stored: AccessToken, session: Session) -> bool {
        &&& self.has_token(stored)
        &&& (self.storage.session)(stored.session_id) == Ok::<Option<Session>, String>(
            Some(session),
        )
    }

    /// The session's own user is stored, or the session has none.
    pub open spec fn has_user(
        self,
        stored: AccessToken,
        session: Session,
        user: Option<User>,
    ) -> bool {
        &&& self.has_session(stored, session)
        &&& match session.user_id {
            Some(id) => user is Some && (self.storage.user)(id) == Ok::<Option<User>, String>(user),
            None => user is None,
        }
    }
}

/// The token, the session and the user can all be used.
pub open spec fn in_order(storage: Storage, session: Session, user: Option<User>) -> bool {
    storage.token_valid && session.valid && (user is None || user->0.valid)
}

/// The steps of a request with a token, one by one.
proof fn lemma_token_steps(run: Run, token: String)
    requires
        run.is_done(),
        run.token == Some(token),
        run.parameters.undocumented_oauth2_access,
    ensures
        run.steps.len() > 1,
        run.steps[0] == Step::FindToken(FindToken { token, origin: run.origin }),
        leads_to(run.steps[0], run.storage, run.steps[1]),
        run.steps[1] is Ready ==> run.steps.len() == 2,
        !(run.steps[1] is Ready) ==> run.steps.len() > 2 && leads_to(
            run.steps[1],
            run.storage,
            run.steps[2],
        ),
        run.steps.len() > 2 && run.steps[2] is Ready ==> run.steps.len() == 3,
        run.steps.len() > 2 && !(run.steps[2] is Ready) ==> run.steps.len() > 3 && leads_to(
            run.steps[2],
            run.storage,
            run.steps[3],
        ),
        run.steps.len() > 3 && run.steps[3] is Ready ==> run.steps.len() == 4,
        run.steps.len() > 3 && !(run.steps[3] is Ready) ==> run.steps.len() > 4 && leads_to(
            run.steps[3],
            run.storage,
            run.steps[4],
        ),
        run.steps.len() > 4 && run.steps[4] is Ready ==> run.steps.len() == 5,
        run.steps.len() > 4 && !(run.steps[4] is Ready) ==> run.steps.len() > 5 && leads_to(
            run.steps[4],
            run.storage,
            run.steps[5],
        ),
        run.steps.len() > 5 && run.steps[5] is Ready ==> run.steps.len() == 6,
        run.steps.len() > 5 && !(run.steps[5] is Ready) ==> run.steps.len() > 6 && leads_to(
            run.steps[5],
            run.storage,
            run.steps[6],
        ),
        run.steps.len() > 6 && run.steps[6] is Ready ==> run.steps.len() == 7,
{
    let steps = run.steps;
    assert(run.goes_on(0));
    assert(steps.len() > 2 ==> run.goes_on(1));
    assert(steps.len() > 3 ==> run.goes_on(2));
    assert(steps.len() > 4 ==> run.goes_on(3));
    assert(steps.len() > 5 ==> run.goes_on(4));
    assert(steps.len() > 6 ==> run.goes_on(5));
    assert(steps.len() > 7 ==> run.goes_on(6));
}

/// The steps of a request without a token, one by one.
proof fn lemma_cookie_steps(run: Run)
    requires
        run.is_done(),
        run.token is None,
    ensures
        run.steps.len() > 1,
        run.steps[0] == Step::LoadBrowserSession(LoadBrowserSession { origin: run.origin }),
        leads_to(run.steps[0], run.storage, run.steps[1]),
        run.steps[1] is Ready ==> run.steps.len() == 2,
        !(run.steps[1] is Ready) ==> run.steps.len() > 2 && leads_to(
            run.steps[1],
            run.storage,
            run.steps[2],
        ),
        run.steps.len() > 2 && run.steps[2] is Ready ==> run.steps.len() == 3,
        run.steps.len() > 2 && !(run.steps[2] is Ready) ==> run.steps.len() > 3 && leads_to(
            run.steps[2],
            run.storage,
            run.steps[3],
        ),
        run.steps.len() > 3 && run.steps[3] is Ready ==> run.steps.len() == 4,
{
    let steps = run.steps;
    assert(run.goes_on(0));
    assert(steps.len() > 2 ==> run.goes_on(1));
    assert(steps.len() > 3 ==> run.goes_on(2));
    assert(steps.len() > 4 ==> run.goes_on(3));
}

/// A listed token is in the scope.
proof fn lemma_scope(session: Session, token: Seq<char>)
    ensures
        session.scope@.contains(token) <==> lists(session.scope, token),
{
}

/// Whatever is looked up on the way is what the token leads to: the text that was given, the
/// session with the stored token's own `session_id`, all of its bits, and the user with that
/// session's own `user_id`. What is recorded and checked is what was found there.
pub proof fn lookups_follow_the_token(run: Run, i: int)
    requires
        run.is_done(),
        0 <= i < run.steps.len(),
    ensures
        run.steps[i] matches Step::FindToken(task) ==> run.token == Some(task.token),
        run.steps[i] matches Step::LookupSession(task) ==> exists|stored: AccessToken|
            #[trigger] run.has_token(stored) && task.session_id == stored.session_id,
        run.steps[i] matches Step::RecordSession(task) ==> exists|stored: AccessToken|
            #[trigger] run.has_session(stored, task.session),
        run.steps[i] matches Step::LookupUser(task) ==> Some(task.user_id) == task.session.user_id
            && exists|stored: AccessToken| #[trigger] run.has_session(stored, task.session),
        run.steps[i] matches Step::CheckToken(task) ==> exists|stored: AccessToken|
            #[trigger] run.has_user(stored, task.session, task.user),
        run.steps[i] matches Step::RecordBrowserSession(task) ==> run.token is None
            && run.storage.browser_session == Ok::<Option<BrowserSession>, String>(
            Some(task.session),
        ),
{
    if run.token is None {
        lemma_cookie_steps(run);
    } else if run.parameters.undocumented_oauth2_access {
        let token = run.token->0;
        lemma_token_steps(run, token);
        if let Ok(Some(stored)) = (run.storage.token)(token@) {
            assert(run.has_token(stored));
            if let Ok(Some(session)) = (run.storage.session)(stored.session_id) {
                assert(run.has_session(stored, session));
                match session.user_id {
                    Some(id) => {
                        if let Ok(Some(user)) = (run.storage.user)(id) {
                            assert(run.has_user(stored, session, Some(user)));
                        }
                    },
                    None => {
                        assert(run.has_user(stored, session, None));
                    },
                }
            }
        }
    } else {
        assert(run.steps.len() > 1 ==> run.goes_on(0));
    }
}

/// A requester is admitted by a token exactly where the token is stored, its own session is
/// stored, the session's own user is stored or there is none, all three can be used, the
/// scope extends to this endpoint, and the transaction ends well. The requester is then that
/// session and that user, at the address and with the user agent that the request came with.
pub proof fn tokens_admit_their_own_session(run: Run, session: Session, user: Option<User>)
    requires
        run.is_done(),
    ensures
        (run.result() matches Ok(r) && r.entity == RequestingEntity::OAuth2Session(
            Box::new((session, user)),
        )) <==> {
            &&& exists|stored: AccessToken| #[trigger] run.has_user(stored, session, user)
            &&& in_order(run.storage, session, user)
            &&& lists(session.scope, "urn:mas:graphql:*"@)
            &&& run.storage.cancelled is Ok
        },
        run.result() matches Ok(r) ==> r.ip_address == run.origin.ip_address && r.user_agent
            == run.origin.user_agent,
{
    lemma_scope(session, "urn:mas:graphql:*"@);
    if run.token is None {
        lemma_cookie_steps(run);
    } else if run.parameters.undocumented_oauth2_access {
        let token = run.token->0;
        lemma_token_steps(run, token);
        if let Ok(Some(stored)) = (run.storage.token)(token@) {
            if let Ok(Some(found)) = (run.storage.session)(stored.session_id) {
                match found.user_id {
                    Some(id) => {
                        if let Ok(Some(owner)) = (run.storage.user)(id) {
                            assert(run.has_user(stored, found, Some(owner)));
                        }
                    },
                    None => {
                        assert(run.has_user(stored, found, None));
                    },
                }
            }
        }
    } else {
        assert(run.steps.len() > 1 ==> run.goes_on(0));
    }
}

/// Where sessions and users are stored under their own identifiers, an admitted session is
/// the one that the token names, and an admitted user the one that the session names.
pub proof fn admitted_identifiers_agree(run: Run, session: Session, user: Option<User>)
    requires
        run.is_done(),
        is_indexed(run.storage),
        run.result() matches Ok(r) && r.entity == RequestingEntity::OAuth2Session(
            Box::new((session, user)),
        ),
    ensures
        exists|stored: AccessToken| #[trigger]
            run.has_token(stored) && session.id == stored.session_id,
        user is None <==> session.user_id is None,
        user matches Some(u) ==> session.user_id == Some(u.id),
{
    tokens_admit_their_own_session(run, session, user);
    let stored = choose|stored: AccessToken| #[trigger] run.has_user(stored, session, user);
    assert(run.has_token(stored));
    assert((run.storage.session)(stored.session_id) == Ok::<Option<Session>, String>(
        Some(session),
    ));
    if let Some(id) = session.user_id {
        assert((run.storage.user)(id) == Ok::<Option<User>, String>(Some(user->0)));
    }
}

/// A token is refused at once where the listener takes none.
pub proof fn listeners_decide_on_tokens_first(run: Run)
    requires
        run.is_done(),
        run.token is Some,
        !run.parameters.undocumented_oauth2_access,
    ensures
        run.result() == Err::<Requester, RouteError>(RouteError::InvalidToken),
        run.steps.len() == 1,
{
    assert(run.steps.len() > 1 ==> run.goes_on(0));
}

/// A token that is not stored is invalid; where the storage fails, what it said comes back.
pub proof fn unknown_tokens_are_invalid(run: Run, token: String, what: String)
    requires
        run.is_done(),
        run.token == Some(token),
        run.parameters.undocumented_oauth2_access,
    ensures
        (run.storage.token)(token@) == Ok::<Option<AccessToken>, String>(None) ==> run.result()
            == Err::<Requester, RouteError>(RouteError::InvalidToken),
        (run.storage.token)(token@) == Err::<Option<AccessToken>, String>(what) ==> run.result()
            == Err::<Requester, RouteError>(RouteError::Internal(what)),
{
    lemma_token_steps(run, token);
}

/// A token whose own session is not stored, or whose session's own user is not, is a fault
/// of the storage, as is a lookup that fails.
pub proof fn dangling_tokens_are_our_fault(
    run: Run,
    stored: AccessToken,
    session: Session,
    what: String,
)
    requires
        run.is_done(),
        run.has_token(stored),
    ensures
        (run.storage.session)(stored.session_id) == Ok::<Option<Session>, String>(None)
            ==> run.result() == Err::<Requester, RouteError>(RouteError::LoadFailed),
        (run.storage.session)(stored.session_id) == Err::<Option<Session>, String>(what)
            ==> run.result() == Err::<Requester, RouteError>(RouteError::Internal(what)),
        run.has_session(stored, session) ==> (session.user_id matches Some(id) ==> {
            let user = (run.storage.user)(id);
            &&& user == Ok::<Option<User>, String>(None) ==> run.result() == Err::<
                Requester,
                RouteError,
            >(RouteError::LoadFailed)
            &&& user == Err::<Option<User>, String>(what) ==> run.result() == Err::<
                Requester,
                RouteError,
            >(RouteError::Internal(what))
        }),
{
    lemma_token_steps(run, run.token->0);
}

/// What was found is refused as a token where any of it cannot be used, before the scope
/// matters; then for the scope; and then only where the transaction does not end well.
pub proof fn unusable_tokens_are_refused(
    run: Run,
    stored: AccessToken,
    session: Session,
    user: Option<User>,
    what: String,
)
    requires
        run.is_done(),
        run.has_user(stored, session, user),
    ensures
        !in_order(run.storage, session, user) ==> run.result() == Err::<Requester, RouteError>(
            RouteError::InvalidToken,
        ),
        in_order(run.storage, session, user) && !lists(session.scope, "urn:mas:graphql:*"@)
            ==> run.result() == Err::<Requester, RouteError>(RouteError::MissingScope),
        in_order(run.storage, session, user) && lists(session.scope, "urn:mas:graphql:*"@)
            && run.storage.cancelled == Err::<(), String>(what) ==> run.result() == Err::<
            Requester,
            RouteError,
        >(RouteError::Internal(what)),
{
    lemma_scope(session, "urn:mas:graphql:*"@);
    lemma_token_steps(run, run.token->0);
}

/// The activity of the token's own session is recorded where it was found, whatever comes
/// of the request then, and of no other; and likewise that of a browser session.
pub proof fn activity_is_recorded_where_found(
    run: Run,
    session: Session,
    browser: BrowserSession,
)
    requires
        run.is_done(),
    ensures
        run.steps.contains(
            Step::RecordSession(RecordSession { session, origin: run.origin }),
        ) <==> exists|stored: AccessToken| #[trigger] run.has_session(stored, session),
        run.steps.contains(
            Step::RecordBrowserSession(
                RecordBrowserSession { session: browser, origin: run.origin },
            ),
        ) <==> run.token is None && run.storage.browser_session == Ok::<
            Option<BrowserSession>,
            String,
        >(Some(browser)),
{
    let steps = run.steps;
    let record = Step::RecordSession(RecordSession { session, origin: run.origin });
    let record_browser = Step::RecordBrowserSession(
        RecordBrowserSession { session: browser, origin: run.origin },
    );
    if steps.contains(record) {
        let i = choose|i: int| 0 <= i < steps.len() && steps[i] == record;
        lookups_follow_the_token(run, i);
    }
    if steps.contains(record_browser) {
        let i = choose|i: int| 0 <= i < steps.len() && steps[i] == record_browser;
        lookups_follow_the_token(run, i);
    }
    if exists|stored: AccessToken| #[trigger] run.has_session(stored, session) {
        lemma_token_steps(run, run.token->0);
        assert(steps[2] == record);
    }
    if run.token is None && run.storage.browser_session == Ok::<Option<BrowserSession>, String>(
        Some(browser),
    ) {
        lemma_cookie_steps(run);
        assert(steps[1] == record_browser);
    }
}

/// A request without a token comes to the browser session that is stored, or to nobody in
/// particular, unless the storage fails; no token and no listener has a say.
pub proof fn cookies_come_to_their_session(run: Run)
    requires
        run.is_done(),
        run.token is None,
    ensures
        match (run.storage.browser_session, run.storage.cancelled) {
            (Err(said), _) => run.result() == Err::<Requester, RouteError>(
                RouteError::Internal(said),
            ),
            (Ok(_), Err(said)) => run.result() == Err::<Requester, RouteError>(
                RouteError::Internal(said),
            ),
            (Ok(Some(session)), Ok(_)) => run.result() matches Ok(r) && r.entity
                == RequestingEntity::BrowserSession(Box::new(session)) && r.ip_address
                == run.origin.ip_address && r.user_agent == run.origin.user_agent,
            (Ok(None), Ok(_)) => run.result() matches Ok(r) && r.entity is Anonymous
                && r.ip_address == run.origin.ip_address && r.user_agent == run.origin.user_agent,
        },
{
    lemma_cookie_steps(run);
}

/// The transaction is cancelled once, last of all, and exactly where the requester was
/// identified: where the request is admitted, or would have been had the cancelling not
/// failed.
pub proof fn transactions_are_cancelled_last(run: Run, i: int)
    requires
        run.is_done(),
        0 <= i < run.steps.len(),
    ensures
        run.steps[i] is CancelTransaction ==> i == run.steps.len() - 2,
        run.result() is Ok ==> run.steps.len() >= 2 && run.steps[run.steps.len()
            - 2] is CancelTransaction,
        run.steps[i] matches Step::CancelTransaction(task) ==> (run.storage.cancelled is Ok ==> (
        run.result() matches Ok(r) && r.entity == task.entity)),
{
    if run.token is None {
        lemma_cookie_steps(run);
    } else if run.parameters.undocumented_oauth2_access {
        lemma_token_steps(run, run.token->0);
    } else {
        assert(run.steps.len() > 1 ==> run.goes_on(0));
    }
}

/// Two requests over storages that agree on the session and on the user that the token
/// leads to come to the same, whatever else is stored.
pub proof fn other_sessions_do_not_matter(one: Run, other: Run, stored: AccessToken)
    requires
        one.is_done(),
        other.is_done(),
        one.origin == other.origin,
        one.has_token(stored),
        other.has_token(stored),
        (one.storage.session)(stored.session_id) == (other.storage.session)(stored.session_id),
        (one.storage.session)(stored.session_id) matches Ok(Some(session)) ==> (
        session.user_id matches Some(id) ==> (one.storage.user)(id) == (other.storage.user)(id)),
        one.storage.token_valid == other.storage.token_valid,
        one.storage.cancelled == other.storage.cancelled,
    ensures
        one.result() == other.result(),
{
    lemma_token_steps(one, one.token->0);
    lemma_token_steps(other, other.token->0);
}

/// Wherever a task comes from, what it carries goes on with it: the origin, the session and
/// the user are never exchanged for others.
pub proof fn tasks_hand_on_what_they_carry(
    find: FindToken,
    lookup: LookupSession,
    record: RecordSession,
    user: LookupUser,
    found_token: Lookup<AccessToken>,
    found_session: Lookup<Session>,
    found_user: Lookup<User>,
    a: Step,
    b: Step,
    c: Step,
    d: Step,
)
    requires
        call_ensures(FindToken::found, (find, found_token), a),
        call_ensures(LookupSession::found, (lookup, found_session), b),
        call_ensures(RecordSession::done, (record,), c),
        call_ensures(LookupUser::found, (user, found_user), d),
    ensures
        found_token matches Ok(Some(token)) ==> (a matches Step::LookupSession(next)
            && next.session_id == token.session_id && next.origin == find.origin),
        found_session matches Ok(Some(session)) ==> (b matches Step::RecordSession(next)
            && next.session == session && next.origin == lookup.origin),
        record.session.user_id matches Some(id) ==> (c matches Step::LookupUser(next)
            && next.user_id == id && next.session == record.session && next.origin
            == record.origin),
        record.session.user_id is None ==> (c matches Step::CheckToken(next) && next.session
            == record.session && next.user is None && next.origin == record.origin),
        found_user matches Ok(Some(u)) ==> (d matches Step::CheckToken(next) && next.session
            == user.session && next.user == Some(u) && next.origin == user.origin),
{
}

/// Wherever a lookup comes from, one that finds nothing or fails refuses the request: for
/// the token where it was the token's, and else as a fault of the storage.
pub proof fn failed_lookups_refuse(
    find: FindToken,
    lookup: LookupSession,
    user: LookupUser,
    load: LoadBrowserSession,
    what: String,
    a: Step,
    b: Step,
    c: Step,
)
    requires
        call_ensures(FindToken::found, (find, Ok(None)), a),
        call_ensures(LookupSession::found, (lookup, Ok(None)), b),
        call_ensures(LookupUser::found, (user, Ok(None)), c),
    ensures
        a == Step::Ready(Err(RouteError::InvalidToken)),
        b == Step::Ready(Err(RouteError::LoadFailed)),
        c == Step::Ready(Err(RouteError::LoadFailed)),
        forall|next: Step| #[trigger]
            call_ensures(FindToken::found, (find, Err(what)), next) ==> next == Step::Ready(
                Err(RouteError::Internal(what)),
            ),
        forall|next: Step| #[trigger]
            call_ensures(LookupSession::found, (lookup, Err(what)), next) ==> next == Step::Ready(
                Err(RouteError::Internal(what)),
            ),
        forall|next: Step| #[trigger]
            call_ensures(LookupUser::found, (user, Err(what)), next) ==> next == Step::Ready(
                Err(RouteError::Internal(what)),
            ),
        forall|next: Step| #[trigger]
            call_ensures(LoadBrowserSession::loaded, (load, Err(what)), next) ==> next
                == Step::Ready(Err(RouteError::Internal(what))),
{
}

/// Wherever a check comes from, it lets the session and the user that it carries through
/// exactly where all can be used and the scope extends to this endpoint.
pub proof fn checks_let_the_usable_through(task: CheckToken, token_valid: bool, step: Step)
    requires
        call_ensures(CheckToken::checked, (task, token_valid), step),
    ensures
        ({
            let usable = token_valid && task.session.valid && (task.user is None
                || task.user->0.valid);
            let scoped = lists(task.session.scope, "urn:mas:graphql:*"@);
            &&& usable && scoped ==> (step matches Step::CancelTransaction(next) && next.entity
                == RequestingEntity::OAuth2Session(Box::new((task.session, task.user)))
                && next.origin == task.origin)
            &&& usable && !scoped ==> step == Step::Ready(Err(RouteError::MissingScope))
            &&& !usable ==> step == Step::Ready(Err(RouteError::InvalidToken))
        }),
{
    lemma_scope(task.session, "urn:mas:graphql:*"@);
}

/// Wherever the last tasks come from, the requester is the session that was recorded, or
/// what was identified, at the origin that the task carries.
pub proof fn the_last_tasks_keep_the_requester(
    load: LoadBrowserSession,
    record: RecordBrowserSession,
    cancel: CancelTransaction,
    found: Lookup<BrowserSession>,
    cancelled: Result<(), String>,
    a: Step,
    b: Step,
    c: Step,
)
    requires
        call_ensures(LoadBrowserSession::loaded, (load, found), a),
        call_ensures(RecordBrowserSession::done, (record,), b),
        call_ensures(CancelTransaction::cancelled, (cancel, cancelled), c),
    ensures
        found matches Ok(Some(session)) ==> (a matches Step::RecordBrowserSession(next)
            && next.session == session && next.origin == load.origin),
        found matches Ok(None) ==> (a matches Step::CancelTransaction(next) && next.entity
            is Anonymous && next.origin == load.origin),
        b matches Step::CancelTransaction(next) && next.entity == RequestingEntity::BrowserSession(
            Box::new(record.session),
        ) && next.origin == record.origin,
        match cancelled {
            Ok(_) => c matches Step::Ready(Ok(r)) && r.entity == cancel.entity && r.ip_address
                == cancel.origin.ip_address && r.user_agent == cancel.origin.user_agent,
            Err(what) => c == Step::Ready(Err(RouteError::Internal(what))),
        },
{
}

} // verus!
