//! Users and their sessions, as far as a decision depends on them, and who is asking.
use crate::text::equals;
use vstd::prelude::*;
use vstd::std_specs::convert::{FromSpec, FromSpecImpl, IntoSpec};

verus! {

/// A unique identifier, by its 128 bits.
#[derive(Debug, Clone, Copy, PartialEq, Eq, Structural)]
pub struct Ulid(pub u128);

/// The scope of a session: the tokens that were granted.
#[derive(Debug, Clone, PartialEq, Eq)]
pub struct Scope {
    pub tokens: Vec<String>,
}

impl View for Scope {
    type V = Set<Seq<char>>;

    open spec fn view(&self) -> Set<Seq<char>> {
        Set::new(|t: Seq<char>| exists|i: int| 0 <= i < self.tokens.len() && self.tokens[i]@ == t)
    }
}

impl Scope {
    /// Whether a token was granted.
    pub fn contains(&self, token: &str) -> (granted: bool)
        ensures
            granted == self@.contains(token@),
    {
        let n: usize = self.tokens.len();
        for i in 0..n
            invariant
                n == self.tokens.len(),
                forall|j: int| 0 <= j < i ==> self.tokens[j]@ != token@,
        {
            if equals(self.tokens[i].as_str(), token) {
                return true;
            }
        }
        false
    }
}

/// A user: who they are, and whether the account may be used.
#[derive(Debug, Clone, PartialEq, Eq)]
pub struct User {
    pub id: Ulid,
    pub valid: bool,
}

/// A session of a browser, which always has a user.
#[derive(Debug, Clone, PartialEq, Eq)]
pub struct BrowserSession {
    pub id: Ulid,
    pub user: User,
}

/// An `OAuth2` session, which has a user unless a client acts for itself.
#[derive(Debug, Clone, PartialEq, Eq)]
pub struct Session {
    pub id: Ulid,
    pub user_id: Option<Ulid>,
    pub scope: Scope,
    pub valid: bool,
}

/// An email address of a user.
#[derive(Debug, Clone, PartialEq, Eq)]
pub struct UserEmail {
    pub user_id: Ulid,
}

/// A compatibility session of a user.
#[derive(Debug, Clone, PartialEq, Eq)]
pub struct CompatSession {
    pub user_id: Ulid,
}

/// A link to an account at an upstream provider, which may not have a user yet.
#[derive(Debug, Clone, PartialEq, Eq)]
pub struct UpstreamOAuthLink {
    pub user_id: Option<Ulid>,
}

/// A bare user identifier, to ask about the user's own things.
#[derive(Debug, Clone, PartialEq, Eq)]
pub struct UserId(pub Ulid);

/// What belongs to a user.
pub trait OwnerId {
    /// The user that this belongs to.
    spec fn owner(&self) -> Option<Ulid>;

    /// Finds the user that this belongs to, if it has one.
    fn owner_id(&self) -> (id: Option<Ulid>)
        ensures
            id == self.owner(),
    ;
}

impl OwnerId for User {
    open spec fn owner(&self) -> Option<Ulid> {
        Some(self.id)
    }

    fn owner_id(&self) -> (id: Option<Ulid>) {
        Some(self.id)
    }
}

impl OwnerId for BrowserSession {
    open spec fn owner(&self) -> Option<Ulid> {
        Some(self.user.id)
    }

    fn owner_id(&self) -> (id: Option<Ulid>) {
        Some(self.user.id)
    }
}

impl OwnerId for UserEmail {
    open spec fn owner(&self) -> Option<Ulid> {
        Some(self.user_id)
    }

    fn owner_id(&self) -> (id: Option<Ulid>) {
        Some(self.user_id)
    }
}

impl OwnerId for Session {
    open spec fn owner(&self) -> Option<Ulid> {
        self.user_id
    }

    fn owner_id(&self) -> (id: Option<Ulid>) {
        self.user_id
    }
}

impl OwnerId for CompatSession {
    open spec fn owner(&self) -> Option<Ulid> {
        Some(self.user_id)
    }

    fn owner_id(&self) -> (id: Option<Ulid>) {
        Some(self.user_id)
    }
}

impl OwnerId for UpstreamOAuthLink {
    open spec fn owner(&self) -> Option<Ulid> {
        self.user_id
    }

    fn owner_id(&self) -> (id: Option<Ulid>) {
        self.user_id
    }
}

impl OwnerId for UserId {
    open spec fn owner(&self) -> Option<Ulid> {
        Some(self.0)
    }

    fn owner_id(&self) -> (id: Option<Ulid>) {
        Some(self.0)
    }
}

/// The identity of the requester.
#[derive(Debug, Clone, PartialEq, Eq)]
pub enum RequestingEntity {
    /// The requester presented no authentication information.
    Anonymous,
    /// The requester is a browser session, stored in a cookie.
    BrowserSession(Box<BrowserSession>),
    /// The requester is an `OAuth2` session, with an access token.
    OAuth2Session(Box<(Session, Option<User>)>),
}

impl RequestingEntity {
    /// The user who is asking.
    pub open spec fn asking_user(self) -> Option<User> {
        match self {
            RequestingEntity::BrowserSession(session) => Some(session.user),
            RequestingEntity::OAuth2Session(pair) => pair.1,
            RequestingEntity::Anonymous => None,
        }
    }

    /// The requester may do anything.
    pub open spec fn admin(self) -> bool {
        match self {
            RequestingEntity::OAuth2Session(pair) => pair.0.scope@.contains("urn:mas:admin"@),
            _ => false,
        }
    }

    /// The requester can access what belongs to `owner`.
    pub open spec fn may_access(self, owner: Option<Ulid>) -> bool {
        self.admin() || (owner is Some && self.asking_user() is Some && owner == Some(
            self.asking_user()->0.id,
        ))
    }

    /// The browser session that is asking, if one is.
    pub fn browser_session(&self) -> (session: Option<&BrowserSession>)
        ensures
            match self {
                RequestingEntity::BrowserSession(s) => session == Some(&**s),
                _ => session is None,
            },
    {
        match self {
            RequestingEntity::BrowserSession(session) => Some(session),
            RequestingEntity::OAuth2Session(_) | RequestingEntity::Anonymous => None,
        }
    }

    /// The user who is asking, if one is.
    pub fn user(&self) -> (user: Option<&User>)
        ensures
            match user {
                Some(u) => self.asking_user() == Some(*u),
                None => self.asking_user() is None,
            },
    {
        match self {
            RequestingEntity::BrowserSession(session) => Some(&session.user),
            RequestingEntity::OAuth2Session(pair) => pair.1.as_ref(),
            RequestingEntity::Anonymous => None,
        }
    }

    /// The `OAuth2` session that is asking, if one is.
    pub fn oauth2_session(&self) -> (session: Option<&Session>)
        ensures
            match self {
                RequestingEntity::OAuth2Session(pair) => session == Some(&pair.0),
                _ => session is None,
            },
    {
        match self {
            RequestingEntity::OAuth2Session(pair) => Some(&pair.0),
            RequestingEntity::BrowserSession(_) | RequestingEntity::Anonymous => None,
        }
    }

    /// Whether the requester can access the resource.
    pub fn is_owner_or_admin<R: OwnerId>(&self, resource: &R) -> (allowed: bool)
        ensures
            allowed == self.may_access(resource.owner()),
    {
        // If the requester is an admin, they can do anything.
        if self.is_admin() {
            return true;
        }
        // Otherwise, they must be the owner of the resource.

        let owner_id = match resource.owner_id() {
            Some(id) => id,
            None => {
                return false;
            },
        };
        match self.user() {
            Some(user) => user.id == owner_id,
            None => false,
        }
    }

    /// Whether the requester may do anything.
    pub fn is_admin(&self) -> (b: bool)
        ensures
            b == self.admin(),
    {
        match self {
            RequestingEntity::OAuth2Session(pair) => pair.0.scope.contains("urn:mas:admin"),
            RequestingEntity::BrowserSession(_) | RequestingEntity::Anonymous => false,
        }
    }

    /// Whether the requester is nobody in particular.
    pub fn is_unauthenticated(&self) -> (b: bool)
        ensures
            b == (self is Anonymous),
    {
        matches!(self, RequestingEntity::Anonymous)
    }
}

impl Default for RequestingEntity {
    fn default() -> (entity: RequestingEntity)
        ensures
            entity is Anonymous,
    {
        RequestingEntity::Anonymous
    }
}

impl From<BrowserSession> for RequestingEntity {
    fn from(session: BrowserSession) -> (entity: RequestingEntity) {
        RequestingEntity::BrowserSession(Box::new(session))
    }
}

impl FromSpecImpl<BrowserSession> for RequestingEntity {
    open spec fn obeys_from_spec() -> bool {
        true
    }

    open spec fn from_spec(session: BrowserSession) -> RequestingEntity {
        RequestingEntity::BrowserSession(Box::new(session))
    }
}

impl<T: Into<RequestingEntity>> From<Option<T>> for RequestingEntity {
    fn from(session: Option<T>) -> (entity: RequestingEntity) {
        match session {
            Some(session) => session.into(),
            None => RequestingEntity::default(),
        }
    }
}

impl<T: Into<RequestingEntity>> FromSpecImpl<Option<T>> for RequestingEntity {
    open spec fn obeys_from_spec() -> bool {
        <T as IntoSpec<RequestingEntity>>::obeys_into_spec()
    }

    open spec fn from_spec(session: Option<T>) -> RequestingEntity {
        match session {
            Some(session) => session.into_spec(),
            None => RequestingEntity::Anonymous,
        }
    }
}

} // verus!
