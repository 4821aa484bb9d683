use mas_graphql::get_requester::{
    begin, AccessToken, ExtraRouterParameters, Origin, Step,
};
use mas_graphql::identity::{
    BrowserSession, CompatSession, OwnerId, RequestingEntity, Scope, Session, Ulid,
    UpstreamOAuthLink, User, UserEmail, UserId,
};
use mas_graphql::requester::{IpAddress, Requester, RequesterFingerprint};
use mas_graphql::route_error::{InternalError, RouteError};

const GRAPHQL: &str = "urn:mas:graphql:*";
const ADMIN: &str = "urn:mas:admin";

fn scope(tokens: &[&str]) -> Scope {
    Scope { tokens: tokens.iter().map(|t| (*t).to_owned()).collect() }
}

fn user(id: u128, valid: bool) -> User {
    User { id: Ulid(id), valid }
}

fn session(user_id: Option<u128>, tokens: &[&str], valid: bool) -> Session {
    Session { id: Ulid(9), user_id: user_id.map(Ulid), scope: scope(tokens), valid }
}

fn origin() -> Origin {
    Origin { ip_address: Some(IpAddress::V4(0x7f00_0001)), user_agent: Some("ua".to_owned()) }
}

/// What every lookup finds, and the tasks that were done.
struct World {
    token: Result<Option<u128>, String>,
    session: Result<Option<Session>, String>,
    user: Result<Option<User>, String>,
    token_valid: bool,
    browser_session: Result<Option<BrowserSession>, String>,
    cancelled: Result<(), String>,
    log: Vec<String>,
}

fn world() -> World {
    World {
        token: Ok(Some(9)),
        session: Ok(Some(session(Some(1), &["openid", GRAPHQL], true))),
        user: Ok(Some(user(1, true))),
        token_valid: true,
        browser_session: Ok(Some(BrowserSession { id: Ulid(5), user: user(1, true) })),
        cancelled: Ok(()),
        log: Vec::new(),
    }
}

fn run(world: &mut World, access: bool, token: Option<&str>) -> Result<Requester, RouteError> {
    let parameters = ExtraRouterParameters { undocumented_oauth2_access: access };
    let mut step = begin(&parameters, token.map(str::to_owned), origin());
    loop {
        step = match step {
            Step::FindToken(task) => {
                world.log.push(format!("find {}", task.token));
                task.found(
                    world.token.clone().map(|t| t.map(|id| AccessToken { session_id: Ulid(id) })),
                )
            }
            Step::LookupSession(task) => {
                world.log.push(format!("session {}", task.session_id.0));
                task.found(world.session.clone())
            }
            Step::RecordSession(task) => {
                world.log.push(format!("record {}", task.session.id.0));
                task.done()
            }
            Step::LookupUser(task) => {
                world.log.push(format!("user {}", task.user_id.0));
                task.found(world.user.clone())
            }
            Step::CheckToken(task) => {
                world.log.push("check".to_owned());
                task.checked(world.token_valid)
            }
            Step::LoadBrowserSession(task) => {
                world.log.push("load".to_owned());
                task.loaded(world.browser_session.clone())
            }
            Step::RecordBrowserSession(task) => {
                world.log.push(format!("record browser {}", task.session.id.0));
                task.done()
            }
            Step::CancelTransaction(task) => {
                world.log.push("cancel".to_owned());
                task.cancelled(world.cancelled.clone())
            }
            Step::Ready(result) => return result,
        }
    }
}

fn refusal(world: &mut World, access: bool, token: Option<&str>) -> RouteError {
    match run(world, access, token) {
        Ok(_) => panic!("admitted"),
        Err(error) => error,
    }
}

#[test]
fn tokens_need_access_on_the_listener() {
    let mut w = world();
    assert_eq!(refusal(&mut w, false, Some("t")), RouteError::InvalidToken);
    assert!(w.log.is_empty());
}

#[test]
fn valid_token_is_admitted() {
    let mut w = world();
    let requester = run(&mut w, true, Some("t")).unwrap_or_else(|_| panic!("refused"));
    assert_eq!(
        requester.entity,
        RequestingEntity::OAuth2Session(Box::new((
            session(Some(1), &["openid", GRAPHQL], true),
            Some(user(1, true))
        )))
    );
    assert_eq!(requester.ip_address, Some(IpAddress::V4(0x7f00_0001)));
    assert_eq!(requester.user_agent.as_deref(), Some("ua"));
    assert_eq!(w.log, ["find t", "session 9", "record 9", "user 1", "check", "cancel"]);
}

#[test]
fn client_without_user_is_admitted() {
    let mut w = world();
    w.session = Ok(Some(session(None, &[GRAPHQL], true)));
    w.user = Ok(None);
    let requester = run(&mut w, true, Some("t")).unwrap_or_else(|_| panic!("refused"));
    assert!(requester.user().is_none());
    assert!(requester.oauth2_session().is_some());
    assert_eq!(w.log, ["find t", "session 9", "record 9", "check", "cancel"]);
}

#[test]
fn bad_tokens_are_refused() {
    let mut w = world();
    w.token = Ok(None);
    assert_eq!(refusal(&mut w, true, Some("t")), RouteError::InvalidToken);
    assert_eq!(w.log, ["find t"]);

    let mut w = world();
    w.token_valid = false;
    assert_eq!(refusal(&mut w, true, Some("t")), RouteError::InvalidToken);
    // The activity was recorded all the same
    assert_eq!(w.log, ["find t", "session 9", "record 9", "user 1", "check"]);

    let mut w = world();
    w.session = Ok(Some(session(Some(1), &[GRAPHQL], false)));
    assert_eq!(refusal(&mut w, true, Some("t")), RouteError::InvalidToken);

    let mut w = world();
    w.user = Ok(Some(user(1, false)));
    assert_eq!(refusal(&mut w, true, Some("t")), RouteError::InvalidToken);
}

#[test]
fn scope_is_needed() {
    for tokens in [&[][..], &["openid"], &["urn:mas:graphql:"], &["urn:mas:graphql:**", ADMIN]] {
        let mut w = world();
        w.session = Ok(Some(session(Some(1), tokens, true)));
        assert_eq!(refusal(&mut w, true, Some("t")), RouteError::MissingScope);
    }
    // An invalid token is reported before a missing scope
    let mut w = world();
    w.session = Ok(Some(session(Some(1), &[], true)));
    w.token_valid = false;
    assert_eq!(refusal(&mut w, true, Some("t")), RouteError::InvalidToken);
}

#[test]
fn missing_objects_are_our_fault() {
    let mut w = world();
    w.session = Ok(None);
    assert_eq!(refusal(&mut w, true, Some("t")), RouteError::LoadFailed);

    let mut w = world();
    w.user = Ok(None);
    assert_eq!(refusal(&mut w, true, Some("t")), RouteError::LoadFailed);
}

#[test]
fn storage_failures_are_internal() {
    let down = || "down".to_owned();
    let internal = RouteError::Internal(down());

    let mut w = world();
    w.token = Err(down());
    assert_eq!(refusal(&mut w, true, Some("t")), internal);
    let mut w = world();
    w.session = Err(down());
    assert_eq!(refusal(&mut w, true, Some("t")), internal);
    let mut w = world();
    w.user = Err(down());
    assert_eq!(refusal(&mut w, true, Some("t")), internal);
    let mut w = world();
    w.browser_session = Err(down());
    assert_eq!(refusal(&mut w, false, None), internal);
    let mut w = world();
    w.cancelled = Err(down());
    assert_eq!(refusal(&mut w, true, Some("t")), internal);
    assert_eq!(refusal(&mut w, true, None), internal);
}

#[test]
fn cookies_give_browser_sessions() {
    let mut w = world();
    let requester = run(&mut w, false, None).unwrap_or_else(|_| panic!("refused"));
    assert_eq!(requester.browser_session().map(|s| s.id), Some(Ulid(5)));
    assert!(!requester.is_unauthenticated());
    assert_eq!(w.log, ["load", "record browser 5", "cancel"]);
}

#[test]
fn nobody_is_anonymous() {
    let mut w = world();
    w.browser_session = Ok(None);
    let requester = run(&mut w, true, None).unwrap_or_else(|_| panic!("refused"));
    assert_eq!(requester.entity, RequestingEntity::Anonymous);
    assert!(requester.is_unauthenticated());
    assert_eq!(w.log, ["load", "cancel"]);
}

#[test]
fn errors_are_answered() {
    let answer = |error: RouteError| {
        let response = error.into_response();
        (response.status, response.message)
    };
    let own = |s: &str| s.to_owned();
    assert_eq!(answer(RouteError::Internal(own("down"))), (500, own("down")));
    assert_eq!(
        answer(RouteError::LoadFailed),
        (500, own("Loading of some database objects failed"))
    );
    assert_eq!(answer(RouteError::InvalidToken), (401, own("Invalid token")));
    assert_eq!(
        answer(RouteError::MissingScope),
        (401, own("Missing urn:mas:graphql:* scope"))
    );
    assert_eq!(answer(RouteError::ParseRequest(own("bad"))), (400, own("bad")));
}

#[test]
fn errors_describe_themselves() {
    assert_eq!(RouteError::Internal("x".to_owned()).display(), "x");
    assert_eq!(
        RouteError::LoadFailed.display(),
        "Loading of some database objects failed"
    );
    assert_eq!(RouteError::InvalidToken.display(), "Invalid access token");
    assert_eq!(RouteError::MissingScope.display(), "Missing scope");
    assert_eq!(RouteError::ParseRequest("y".to_owned()).display(), "y");
    assert_eq!(
        InternalError::from(RouteError::MissingScope).source,
        RouteError::MissingScope
    );
}

#[test]
fn owners() {
    let id = Some(Ulid(7));
    assert_eq!(user(7, true).owner_id(), id);
    assert_eq!(BrowserSession { id: Ulid(1), user: user(7, true) }.owner_id(), id);
    assert_eq!(UserEmail { user_id: Ulid(7) }.owner_id(), id);
    assert_eq!(session(Some(7), &[], true).owner_id(), id);
    assert_eq!(session(None, &[], true).owner_id(), None);
    assert_eq!(CompatSession { user_id: Ulid(7) }.owner_id(), id);
    assert_eq!(UpstreamOAuthLink { user_id: id }.owner_id(), id);
    assert_eq!(UpstreamOAuthLink { user_id: None }.owner_id(), None);
    assert_eq!(UserId(Ulid(7)).owner_id(), id);
}

#[test]
fn access() {
    let anonymous = RequestingEntity::default();
    let browser = RequestingEntity::from(BrowserSession { id: Ulid(1), user: user(7, true) });
    let oauth = |user_id, tokens: &[&str]| {
        RequestingEntity::OAuth2Session(Box::new((
            session(user_id, tokens, true),
            user_id.map(|id| user(id, true)),
        )))
    };
    let own = UserId(Ulid(7));
    let other = UserId(Ulid(8));
    let ownerless = UpstreamOAuthLink { user_id: None };

    assert!(!anonymous.is_owner_or_admin(&own));
    assert!(!anonymous.is_owner_or_admin(&ownerless));
    assert!(browser.is_owner_or_admin(&own));
    assert!(!browser.is_owner_or_admin(&other));
    assert!(!browser.is_owner_or_admin(&ownerless));
    assert!(!browser.is_admin());

    let plain = oauth(Some(7), &[GRAPHQL]);
    assert!(plain.is_owner_or_admin(&own));
    assert!(!plain.is_owner_or_admin(&other));
    assert!(!plain.is_admin());

    let client = oauth(None, &[GRAPHQL]);
    assert!(!client.is_owner_or_admin(&own));
    assert!(!client.is_owner_or_admin(&ownerless));

    let admin = oauth(None, &[GRAPHQL, ADMIN]);
    assert!(admin.is_admin());
    assert!(admin.is_owner_or_admin(&own));
    assert!(admin.is_owner_or_admin(&other));
    assert!(admin.is_owner_or_admin(&ownerless));
}

#[test]
fn entities_from_sessions() {
    let session = BrowserSession { id: Ulid(1), user: user(7, true) };
    assert_eq!(
        RequestingEntity::from(Some(session.clone())),
        RequestingEntity::BrowserSession(Box::new(session))
    );
    assert_eq!(
        RequestingEntity::from(None::<BrowserSession>),
        RequestingEntity::Anonymous
    );
}

#[test]
fn requesters_are_told_apart_by_address() {
    let requester = |ip_address| Requester {
        entity: RequestingEntity::Anonymous,
        ip_address,
        user_agent: Some("ua".to_owned()),
    };
    let ip = IpAddress::V6(1);
    assert_eq!(requester(Some(ip)).fingerprint(), RequesterFingerprint::new(ip));
    assert_eq!(requester(None).fingerprint(), RequesterFingerprint::empty());
    let told = requester(Some(ip)).for_policy();
    assert_eq!(told.ip_address, Some(ip));
    assert_eq!(told.user_agent.as_deref(), Some("ua"));
}
