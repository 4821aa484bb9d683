//! Who may access what, whatever the requester and whatever is asked for.
use crate::identity::{
    BrowserSession, CompatSession, OwnerId, RequestingEntity, Scope, Session, Ulid,
    UpstreamOAuthLink, User, UserEmail, UserId,
};
use vstd::prelude::*;

verus! {

/// A token is one of those that the scope lists.
pub open spec fn lists(scope: Scope, token: Seq<char>) -> bool {
    exists|i: int| 0 <= i < scope.tokens@.len() && #[trigger] scope.tokens@[i]@ == token
}

/// A scope contains what it lists, and nothing else.
pub proof fn scopes_contain_what_they_list(scope: Scope, token: &str, granted: bool)
    requires
        call_ensures(Scope::contains, (&scope, token), granted),
    ensures
        granted <==> lists(scope, token@),
{
    assert(scope@.contains(token@) <==> lists(scope, token@));
}

/// The administrators are the `OAuth2` sessions whose scope lists `urn:mas:admin`, whoever
/// the session's user is and whether or not it has one.
pub proof fn administrators_have_the_scope(entity: RequestingEntity, admin: bool)
    requires
        call_ensures(RequestingEntity::is_admin, (&entity,), admin),
    ensures
        entity matches RequestingEntity::OAuth2Session(pair) ==> (admin <==> lists(
            pair.0.scope,
            "urn:mas:admin"@,
        )),
        !(entity is OAuth2Session) ==> !admin,
{
    if let RequestingEntity::OAuth2Session(pair) = entity {
        assert(pair.0.scope@.contains("urn:mas:admin"@) <==> lists(
            pair.0.scope,
            "urn:mas:admin"@,
        ));
    }
}

/// An administrator's session can access everything, whatever it belongs to.
pub proof fn administrators_access_everything<R: OwnerId>(
    session: Session,
    user: Option<User>,
    resource: R,
    allowed: bool,
)
    requires
        lists(session.scope, "urn:mas:admin"@),
        call_ensures(
            RequestingEntity::is_owner_or_admin::<R>,
            (&RequestingEntity::OAuth2Session(Box::new((session, user))), &resource),
            allowed,
        ),
    ensures
        allowed,
{
    assert(session.scope@.contains("urn:mas:admin"@));
}

/// Any other `OAuth2` session can access what belongs to its user, and nothing else; without
/// a user it can access nothing.
pub proof fn sessions_access_what_their_user_owns<R: OwnerId>(
    session: Session,
    user: Option<User>,
    resource: R,
    id: Option<Ulid>,
    allowed: bool,
)
    requires
        !lists(session.scope, "urn:mas:admin"@),
        call_ensures(<R as OwnerId>::owner_id, (&resource,), id),
        call_ensures(
            RequestingEntity::is_owner_or_admin::<R>,
            (&RequestingEntity::OAuth2Session(Box::new((session, user))), &resource),
            allowed,
        ),
    ensures
        user matches Some(u) ==> (allowed <==> id == Some(u.id)),
        user is None ==> !allowed,
{
    assert(!session.scope@.contains("urn:mas:admin"@));
}

/// A browser session can access what belongs to its user, and nothing else.
pub proof fn browsers_access_what_their_user_owns<R: OwnerId>(
    session: BrowserSession,
    resource: R,
    id: Option<Ulid>,
    allowed: bool,
)
    requires
        call_ensures(<R as OwnerId>::owner_id, (&resource,), id),
        call_ensures(
            RequestingEntity::is_owner_or_admin::<R>,
            (&RequestingEntity::BrowserSession(Box::new(session)), &resource),
            allowed,
        ),
    ensures
        allowed <==> id == Some(session.user.id),
{
}

/// Nobody in particular can access nothing.
pub proof fn nobody_accesses_anything<R: OwnerId>(resource: R, allowed: bool)
    requires
        call_ensures(
            RequestingEntity::is_owner_or_admin::<R>,
            (&RequestingEntity::Anonymous, &resource),
            allowed,
        ),
    ensures
        !allowed,
{
}

/// A user owns themselves, as does the bare identifier of one.
pub proof fn users_own_themselves(user: User, id: UserId, a: Option<Ulid>, b: Option<Ulid>)
    requires
        call_ensures(<User as OwnerId>::owner_id, (&user,), a),
        call_ensures(<UserId as OwnerId>::owner_id, (&id,), b),
    ensures
        a == Some(user.id),
        b == Some(id.0),
{
}

/// A session belongs to the user who is logged in by it, not to its own identifier.
pub proof fn sessions_belong_to_their_users(
    browser: BrowserSession,
    session: Session,
    compat: CompatSession,
    a: Option<Ulid>,
    b: Option<Ulid>,
    c: Option<Ulid>,
)
    requires
        call_ensures(<BrowserSession as OwnerId>::owner_id, (&browser,), a),
        call_ensures(<Session as OwnerId>::owner_id, (&session,), b),
        call_ensures(<CompatSession as OwnerId>::owner_id, (&compat,), c),
    ensures
        a == Some(browser.user.id),
        b == session.user_id,
        c == Some(compat.user_id),
{
}

/// An address belongs to its user, and a link to the user that it was made for, if any.
pub proof fn emails_and_links_belong_to_their_users(
    email: UserEmail,
    link: UpstreamOAuthLink,
    a: Option<Ulid>,
    b: Option<Ulid>,
)
    requires
        call_ensures(<UserEmail as OwnerId>::owner_id, (&email,), a),
        call_ensures(<UpstreamOAuthLink as OwnerId>::owner_id, (&link,), b),
    ensures
        a == Some(email.user_id),
        b == link.user_id,
{
}

/// A requester has a browser session or an `OAuth2` session, never both, and neither exactly
/// where it is nobody in particular. What it has is the session that it was made from.
pub proof fn requesters_have_one_session(
    entity: RequestingEntity,
    browser: Option<&BrowserSession>,
    oauth2: Option<&Session>,
    nobody: bool,
)
    requires
        call_ensures(RequestingEntity::browser_session, (&entity,), browser),
        call_ensures(RequestingEntity::oauth2_session, (&entity,), oauth2),
        call_ensures(RequestingEntity::is_unauthenticated, (&entity,), nobody),
    ensures
        nobody <==> browser is None && oauth2 is None,
        browser is None || oauth2 is None,
        browser matches Some(s) ==> entity == RequestingEntity::BrowserSession(Box::new(*s)),
        oauth2 matches Some(s) ==> (entity matches RequestingEntity::OAuth2Session(pair) && pair.0
            == *s),
        entity is Anonymous <==> nobody,
{
}

/// The user who is asking is the one of the session; an `OAuth2` session may have none.
pub proof fn users_come_from_the_session(
    browser: BrowserSession,
    session: Session,
    beside: Option<User>,
    a: Option<&User>,
    b: Option<&User>,
    c: Option<&User>,
)
    requires
        call_ensures(
            RequestingEntity::user,
            (&RequestingEntity::BrowserSession(Box::new(browser)),),
            a,
        ),
        call_ensures(
            RequestingEntity::user,
            (&RequestingEntity::OAuth2Session(Box::new((session, beside))),),
            b,
        ),
        call_ensures(RequestingEntity::user, (&RequestingEntity::Anonymous,), c),
    ensures
        a matches Some(user) && *user == browser.user,
        b is Some <==> beside is Some,
        b matches Some(user) ==> Some(*user) == beside,
        c is None,
{
}

/// A browser session makes a requester that has this session; without one, and by default,
/// the requester is nobody in particular.
pub proof fn requesters_are_made_from_sessions(
    session: BrowserSession,
    a: RequestingEntity,
    b: RequestingEntity,
    c: RequestingEntity,
    d: RequestingEntity,
)
    requires
        call_ensures(<RequestingEntity as From<BrowserSession>>::from, (session,), a),
        call_ensures(
            <RequestingEntity as From<Option<BrowserSession>>>::from,
            (Some(session),),
            b,
        ),
        call_ensures(<RequestingEntity as From<Option<BrowserSession>>>::from, (None,), c),
        call_ensures(<RequestingEntity as Default>::default, (), d),
    ensures
        a == RequestingEntity::BrowserSession(Box::new(session)),
        b == a,
        c is Anonymous,
        d is Anonymous,
{
}

} // verus!
