//! What finding a requester comes to, whatever the lookups find.
use crate::get_requester::{
    first_step, graphql_scope, refused, usable, AccessToken, CancelTransaction, Lookup, Origin,
    RecordBrowserSession, RecordSession, Step,
};
use crate::identity::{BrowserSession, RequestingEntity, Session, Ulid, User};
use crate::requester::Requester;
use crate::route_error::RouteError;
use vstd::prelude::*;

verus! {

/// What every task would come to, if it were done.
pub struct World {
    pub token: Lookup<AccessToken>,
    pub session: Lookup<Session>,
    pub user: Lookup<User>,
    pub token_valid: bool,
    pub browser_session: Lookup<BrowserSession>,
    pub cancelled: Result<(), String>,
}

/// The step after a step that is a task.
pub open spec fn after(step: Step, world: World) -> Step {
    match step {
        Step::FindToken(task) => task.next(world.token),
        Step::LookupSession(task) => task.next(world.session),
        Step::RecordSession(task) => task.next(),
        Step::LookupUser(task) => task.next(world.user),
        Step::CheckToken(task) => task.next(world.token_valid),
        Step::LoadBrowserSession(task) => task.next(world.browser_session),
        Step::RecordBrowserSession(task) => task.next(),
        Step::CancelTransaction(task) => task.next(world.cancelled),
        Step::Ready(_) => step,
    }
}

/// The most tasks that can still follow.
pub open spec fn tasks_left(step: Step) -> nat {
    match step {
        Step::FindToken(_) => 6,
        Step::LookupSession(_) => 5,
        Step::RecordSession(_) => 4,
        Step::LookupUser(_) => 3,
        Step::CheckToken(_) => 2,
        Step::LoadBrowserSession(_) => 3,
        Step::RecordBrowserSession(_) => 2,
        Step::CancelTransaction(_) => 1,
        Step::Ready(_) => 0,
    }
}

/// The steps from `step` to the end.
pub open spec fn course(step: Step, world: World) -> Seq<Step>
    decreases tasks_left(step),
{
    if step is Ready {
        seq![step]
    } else {
        seq![step] + course(after(step, world), world)
    }
}

/// What a request comes to from `step` on.
pub open spec fn result(step: Step, world: World) -> Result<Requester, RouteError>
    decreases tasks_left(step),
{
    match step {
        Step::Ready(result) => result,
        _ => result(after(step, world), world),
    }
}

/// What a lookup found.
pub open spec fn found<T>(lookup: Lookup<T>) -> Option<T> {
    match lookup {
        Ok(found) => found,
        Err(_) => None,
    }
}

/// The user of a session, as far as there is one.
pub open spec fn session_user(session: Session, world: World) -> Result<Option<User>, RouteError> {
    if session.user_id is None {
        Ok(None)
    } else {
        match world.user {
            Err(what) => Err(RouteError::Internal(what)),
            Ok(None) => Err(RouteError::LoadFailed),
            Ok(Some(user)) => Ok(Some(user)),
        }
    }
}

/// Who is asking with an access token.
pub open spec fn token_entity(world: World) -> Result<RequestingEntity, RouteError> {
    match (world.token, world.session) {
        (Err(what), _) => Err(RouteError::Internal(what)),
        (Ok(None), _) => Err(RouteError::InvalidToken),
        (Ok(Some(_)), Err(what)) => Err(RouteError::Internal(what)),
        (Ok(Some(_)), Ok(None)) => Err(RouteError::LoadFailed),
        (Ok(Some(_)), Ok(Some(session))) => match session_user(session, world) {
            Err(error) => Err(error),
            Ok(user) => if !usable(session, user, world.token_valid) {
                Err(RouteError::InvalidToken)
            } else if !session.scope@.contains(graphql_scope()) {
                Err(RouteError::MissingScope)
            } else {
                Ok(RequestingEntity::OAuth2Session(Box::new((session, user))))
            },
        },
    }
}

/// Who is asking without one.
pub open spec fn cookie_entity(world: World) -> Result<RequestingEntity, RouteError> {
    match world.browser_session {
        Err(what) => Err(RouteError::Internal(what)),
        Ok(None) => Ok(RequestingEntity::Anonymous),
        Ok(Some(session)) => Ok(RequestingEntity::BrowserSession(Box::new(session))),
    }
}

/// Who is asking.
pub open spec fn identified(access: bool, token: Option<String>, world: World) -> Result<
    RequestingEntity,
    RouteError,
> {
    if token is None {
        cookie_entity(world)
    } else if access {
        token_entity(world)
    } else {
        Err(RouteError::InvalidToken)
    }
}

/// What a request comes to, told at once.
pub open spec fn requester(
    access: bool,
    token: Option<String>,
    origin: Origin,
    world: World,
) -> Result<Requester, RouteError> {
    match (identified(access, token, world), world.cancelled) {
        (Err(error), _) => Err(error),
        (Ok(_), Err(what)) => Err(RouteError::Internal(what)),
        (Ok(entity), Ok(_)) => Ok(
            Requester { entity, ip_address: origin.ip_address, user_agent: origin.user_agent },
        ),
    }
}

/// Every task brings a request nearer to its end.
pub proof fn tasks_come_to_an_end(step: Step, world: World)
    requires
        !(step is Ready),
    ensures
        tasks_left(after(step, world)) < tasks_left(step),
{
}

/// The steps, taken one by one, come to what is told at once.
pub proof fn steps_come_to_the_requester(
    access: bool,
    token: Option<String>,
    origin: Origin,
    world: World,
)
    ensures
        result(first_step(access, token, origin), world) == requester(access, token, origin, world),
{
    reveal_with_fuel(result, 7);
}

/// A token is refused before anything is looked up, where the listener takes none.
pub proof fn tokens_need_access(token: String, origin: Origin)
    ensures
        first_step(false, Some(token), origin) == refused(RouteError::InvalidToken),
{
}

/// Whoever is admitted by a token has one that was found and is valid, for a session that
/// was found, is valid and extends to this endpoint, of a user that was found and is valid
/// or of none at all.
pub proof fn admitted_sessions_are_in_order(
    access: bool,
    token: Option<String>,
    origin: Origin,
    world: World,
)
    ensures
        requester(access, token, origin, world) matches Ok(r) ==> (r.entity matches
            RequestingEntity::OAuth2Session(pair) ==> {
            &&& access
            &&& token is Some
            &&& found(world.token) is Some
            &&& found(world.session) == Some(pair.0)
            &&& world.token_valid
            &&& pair.0.valid
            &&& pair.0.scope@.contains(graphql_scope())
            &&& pair.1 is Some == pair.0.user_id is Some
            &&& pair.1 matches Some(user) ==> user.valid && found(world.user) == Some(user)
        }),
{
}

/// Without a token no request is refused for one: it comes to the browser session or to
/// nobody, unless the storage fails.
pub proof fn cookies_are_never_refused(access: bool, origin: Origin, world: World)
    ensures
        match requester(access, None, origin, world) {
            Ok(r) => !(r.entity is OAuth2Session) && (r.entity is Anonymous
                <==> found(world.browser_session) is None),
            Err(error) => error is Internal && (world.browser_session is Err || world.cancelled
                is Err),
        },
{
}

/// The requester carries the address and the user agent that the request came with.
pub proof fn origins_are_kept(access: bool, token: Option<String>, origin: Origin, world: World)
    ensures
        requester(access, token, origin, world) matches Ok(r) ==> r.ip_address == origin.ip_address
            && r.user_agent == origin.user_agent,
{
}

/// The activity of an `OAuth2` session is recorded exactly where the session was found,
/// whether or not the request is then admitted.
pub proof fn sessions_are_recorded_when_found(
    access: bool,
    token: Option<String>,
    origin: Origin,
    world: World,
    session: Session,
)
    ensures
        course(first_step(access, token, origin), world).contains(
            Step::RecordSession(RecordSession { session, origin }),
        ) <==> (access && token is Some && found(world.token) is Some && found(world.session)
            == Some(session)),
{
    reveal_with_fuel(course, 8);
    let steps = course(first_step(access, token, origin), world);
    if access && token is Some && found(world.token) is Some && found(world.session) == Some(
        session,
    ) {
        assert(steps[2] == Step::RecordSession(
            RecordSession { session, origin },
        ));
    }
}

/// The activity of a browser session is recorded exactly where it was found and no token
/// was given.
pub proof fn browser_sessions_are_recorded_when_found(
    access: bool,
    token: Option<String>,
    origin: Origin,
    world: World,
    session: BrowserSession,
)
    ensures
        course(first_step(access, token, origin), world).contains(
            Step::RecordBrowserSession(
                RecordBrowserSession { session, origin },
            ),
        ) <==> (token is None && found(world.browser_session) == Some(session)),
{
    reveal_with_fuel(course, 8);
    let steps = course(first_step(access, token, origin), world);
    if token is None && found(world.browser_session) == Some(session) {
        assert(steps[1] == Step::RecordBrowserSession(
            RecordBrowserSession { session, origin },
        ));
    }
}

/// The transaction is cancelled exactly where it was found out who is asking.
pub proof fn transactions_end_with_the_requester(
    access: bool,
    token: Option<String>,
    origin: Origin,
    world: World,
    entity: RequestingEntity,
)
    ensures
        course(first_step(access, token, origin), world).contains(
            Step::CancelTransaction(CancelTransaction { entity, origin }),
        ) <==> identified(access, token, world) == Ok::<RequestingEntity, RouteError>(entity),
{
    reveal_with_fuel(course, 8);
    let steps = course(first_step(access, token, origin), world);
    if identified(access, token, world) == Ok::<RequestingEntity, RouteError>(entity) {
        assert(steps[steps.len() - 2] == Step::CancelTransaction(
            CancelTransaction { entity, origin },
        ));
    }
}

/// What a refused request is answered: one whose token is at fault is unauthorized, and
/// told what the fault is; where the storage fails or contradicts itself, the fault is ours.
pub proof fn refusals_are_answered(
    access: bool,
    token: Option<String>,
    origin: Origin,
    world: World,
)
    ensures
        requester(access, token, origin, world) matches Err(error) ==> {
            ||| error is InvalidToken && error.status() == 401 && error.answer() == "Invalid token"@
            ||| error is MissingScope && error.status() == 401 && error.answer()
                == "Missing urn:mas:graphql:* scope"@
            ||| (error is LoadFailed || error is Internal) && error.status() == 500
        },
        token is None ==> (requester(access, token, origin, world) matches Err(error)
            ==> error.status() == 500),
{
}

/// Administrators can access everything, users what is their own, and the others nothing;
/// what has no owner is for administrators alone.
pub proof fn access_follows_ownership(entity: RequestingEntity, owner: Option<Ulid>)
    ensures
        entity.admin() ==> entity.may_access(owner),
        entity.asking_user() matches Some(user) ==> entity.may_access(Some(user.id)),
        entity.may_access(owner) && !entity.admin() ==> owner is Some && entity.asking_user()
            is Some && owner == Some(entity.asking_user()->0.id),
        entity is Anonymous ==> !entity.may_access(owner),
        entity.may_access(None) ==> entity.admin(),
        entity.admin() ==> entity is OAuth2Session,
{
}

} // verus!
