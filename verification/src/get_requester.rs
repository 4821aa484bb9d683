//! Finding out who makes a request: which lookups to make, in which order, and what their
//! results come to.
//!
//! The lookups themselves are made elsewhere. [`begin`] gives the first [`Step`]; each step
//! that is a task takes what the task came to and gives the next one, until the requester
//! is known or the request is refused.
use crate::identity::{BrowserSession, RequestingEntity, Session, Ulid, User};
use crate::requester::{IpAddress, Requester};
use crate::route_error::RouteError;
use vstd::prelude::*;

verus! {

/// Extra parameters we get from the listener configuration, because they are per-listener
/// options. We pass them through request extensions.
#[derive(Debug, Clone)]
pub struct ExtraRouterParameters {
    pub undocumented_oauth2_access: bool,
}

/// Where a request came from.
pub struct Origin {
    pub ip_address: Option<IpAddress>,
    pub user_agent: Option<String>,
}

/// What is stored of an access token.
pub struct AccessToken {
    pub session_id: Ulid,
}

/// What a lookup came to: what it found, or what the storage said when it failed.
pub type Lookup<T> = Result<Option<T>, String>;

/// Find the access token with this text.
pub struct FindToken {
    pub token: String,
    pub origin: Origin,
}

/// Look this `OAuth2` session up.
pub struct LookupSession {
    pub session_id: Ulid,
    pub origin: Origin,
}

/// Record that the session was active.
pub struct RecordSession {
    pub session: Session,
    pub origin: Origin,
}

/// Look the session's user up.
pub struct LookupUser {
    pub user_id: Ulid,
    pub session: Session,
    pub origin: Origin,
}

/// Test whether the access token is valid now.
pub struct CheckToken {
    pub session: Session,
    pub user: Option<User>,
    pub origin: Origin,
}

/// Load the browser session that the cookie names, if it is still active.
pub struct LoadBrowserSession {
    pub origin: Origin,
}

/// Record that the browser session was active.
pub struct RecordBrowserSession {
    pub session: BrowserSession,
    pub origin: Origin,
}

/// Cancel the transaction that the lookups were made in.
pub struct CancelTransaction {
    pub entity: RequestingEntity,
    pub origin: Origin,
}

/// How far a request has come: what is to be done next, or what it came to.
pub enum Step {
    FindToken(FindToken),
    LookupSession(LookupSession),
    RecordSession(RecordSession),
    LookupUser(LookupUser),
    CheckToken(CheckToken),
    LoadBrowserSession(LoadBrowserSession),
    RecordBrowserSession(RecordBrowserSession),
    CancelTransaction(CancelTransaction),
    Ready(Result<Requester, RouteError>),
}

/// A request that is refused.
pub open spec fn refused(error: RouteError) -> Step {
    Step::Ready(Err(error))
}

/// The scope that an access token needs for this endpoint.
pub open spec fn graphql_scope() -> Seq<char> {
    "urn:mas:graphql:*"@
}

/// How a request begins: one with a token is refused where the listener takes none.
pub open spec fn first_step(access: bool, token: Option<String>, origin: Origin) -> Step {
    match token {
        Some(token) => if access {
            Step::FindToken(FindToken { token, origin })
        } else {
            refused(RouteError::InvalidToken)
        },
        None => Step::LoadBrowserSession(LoadBrowserSession { origin }),
    }
}

/// Begins to find out who makes a request.
pub fn begin(parameters: &ExtraRouterParameters, token: Option<String>, origin: Origin) -> (step:
    Step)
    ensures
        step == first_step(parameters.undocumented_oauth2_access, token, origin),
{
    match token {
        Some(token) => {
            // If we haven't enabled undocumented_oauth2_access on the listener, we bail out
            if !parameters.undocumented_oauth2_access {
                return Step::Ready(Err(RouteError::InvalidToken));
            }
            Step::FindToken(FindToken { token, origin })
        },
        None => Step::LoadBrowserSession(LoadBrowserSession { origin }),
    }
}

impl FindToken {
    /// A token that is not stored is not valid.
    pub open spec fn next(self, found: Lookup<AccessToken>) -> Step {
        match found {
            Err(what) => refused(RouteError::Internal(what)),
            Ok(None) => refused(RouteError::InvalidToken),
            Ok(Some(token)) => Step::LookupSession(
                LookupSession { session_id: token.session_id, origin: self.origin },
            ),
        }
    }

    /// Goes on with the token that was found.
    pub fn found(self, found: Lookup<AccessToken>) -> (step: Step)
        ensures
            step == self.next(found),
    {
        match found {
            Err(what) => Step::Ready(Err(RouteError::Internal(what))),
            Ok(None) => Step::Ready(Err(RouteError::InvalidToken)),
            Ok(Some(token)) => Step::LookupSession(
                LookupSession { session_id: token.session_id, origin: self.origin },
            ),
        }
    }
}

impl LookupSession {
    /// A token's session must be stored.
    pub open spec fn next(self, found: Lookup<Session>) -> Step {
        match found {
            Err(what) => refused(RouteError::Internal(what)),
            Ok(None) => refused(RouteError::LoadFailed),
            Ok(Some(session)) => Step::RecordSession(
                RecordSession { session, origin: self.origin },
            ),
        }
    }

    /// Goes on with the session that was found.
    pub fn found(self, found: Lookup<Session>) -> (step: Step)
        ensures
            step == self.next(found),
    {
        match found {
            Err(what) => Step::Ready(Err(RouteError::Internal(what))),
            Ok(None) => Step::Ready(Err(RouteError::LoadFailed)),
            Ok(Some(session)) => Step::RecordSession(
                RecordSession { session, origin: self.origin },
            ),
        }
    }
}

impl RecordSession {
    /// The user is loaded if there is one.
    pub open spec fn next(self) -> Step {
        match self.session.user_id {
            Some(user_id) => Step::LookupUser(
                LookupUser { user_id, session: self.session, origin: self.origin },
            ),
            None => Step::CheckToken(
                CheckToken { session: self.session, user: None, origin: self.origin },
            ),
        }
    }

    /// Goes on after the session's activity was recorded.
    pub fn done(self) -> (step: Step)
        ensures
            step == self.next(),
    {
        match self.session.user_id {
            Some(user_id) => Step::LookupUser(
                LookupUser { user_id, session: self.session, origin: self.origin },
            ),
            None => Step::CheckToken(
                CheckToken { session: self.session, user: None, origin: self.origin },
            ),
        }
    }
}

impl LookupUser {
    /// A session's user must be stored.
    pub open spec fn next(self, found: Lookup<User>) -> Step {
        match found {
            Err(what) => refused(RouteError::Internal(what)),
            Ok(None) => refused(RouteError::LoadFailed),
            Ok(Some(user)) => Step::CheckToken(
                CheckToken { session: self.session, user: Some(user), origin: self.origin },
            ),
        }
    }

    /// Goes on with the user that was found.
    pub fn found(self, found: Lookup<User>) -> (step: Step)
        ensures
            step == self.next(found),
    {
        match found {
            Err(what) => Step::Ready(Err(RouteError::Internal(what))),
            Ok(None) => Step::Ready(Err(RouteError::LoadFailed)),
            Ok(Some(user)) => Step::CheckToken(
                CheckToken { session: self.session, user: Some(user), origin: self.origin },
            ),
        }
    }
}

/// The token, the session and the user, if there is one, can all be used.
pub open spec fn usable(session: Session, user: Option<User>, token_valid: bool) -> bool {
    token_valid && session.valid && (user matches Some(u) ==> u.valid)
}

impl CheckToken {
    /// What cannot be used is refused as a token; what can be used must extend to this
    /// endpoint.
    pub open spec fn next(self, token_valid: bool) -> Step {
        if !usable(self.session, self.user, token_valid) {
            refused(RouteError::InvalidToken)
        } else if !self.session.scope@.contains(graphql_scope()) {
            refused(RouteError::MissingScope)
        } else {
            Step::CancelTransaction(
                CancelTransaction {
                    entity: RequestingEntity::OAuth2Session(Box::new((self.session, self.user))),
                    origin: self.origin,
                },
            )
        }
    }

    /// Goes on knowing whether the token is valid.
    pub fn checked(self, token_valid: bool) -> (step: Step)
        ensures
            step == self.next(token_valid),
    {
        // If there is a user for this session, check that it is not locked
        let user_valid = match &self.user {
            Some(user) => user.valid,
            None => true,
        };
        if !token_valid || !self.session.valid || !user_valid {
            return Step::Ready(Err(RouteError::InvalidToken));
        }
        if !self.session.scope.contains("urn:mas:graphql:*") {
            return Step::Ready(Err(RouteError::MissingScope));
        }
        Step::CancelTransaction(
            CancelTransaction {
                entity: RequestingEntity::OAuth2Session(Box::new((self.session, self.user))),
                origin: self.origin,
            },
        )
    }
}

impl LoadBrowserSession {
    /// Without a session the requester is anonymous.
    pub open spec fn next(self, found: Lookup<BrowserSession>) -> Step {
        match found {
            Err(what) => refused(RouteError::Internal(what)),
            Ok(None) => Step::CancelTransaction(
                CancelTransaction { entity: RequestingEntity::Anonymous, origin: self.origin },
            ),
            Ok(Some(session)) => Step::RecordBrowserSession(
                RecordBrowserSession { session, origin: self.origin },
            ),
        }
    }

    /// Goes on with the session that was loaded.
    pub fn loaded(self, found: Lookup<BrowserSession>) -> (step: Step)
        ensures
            step == self.next(found),
    {
        match found {
            Err(what) => Step::Ready(Err(RouteError::Internal(what))),
            Ok(Some(session)) => Step::RecordBrowserSession(
                RecordBrowserSession { session, origin: self.origin },
            ),
            Ok(None) => Step::CancelTransaction(
                CancelTransaction {
                    entity: RequestingEntity::from(None::<BrowserSession>),
                    origin: self.origin,
                },
            ),
        }
    }
}

impl RecordBrowserSession {
    /// The requester is the browser session.
    pub open spec fn next(self) -> Step {
        Step::CancelTransaction(
            CancelTransaction {
                entity: RequestingEntity::BrowserSession(Box::new(self.session)),
                origin: self.origin,
            },
        )
    }

    /// Goes on after the session's activity was recorded.
    pub fn done(self) -> (step: Step)
        ensures
            step == self.next(),
    {
        Step::CancelTransaction(
            CancelTransaction {
                entity: RequestingEntity::from(Some(self.session)),
                origin: self.origin,
            },
        )
    }
}

impl CancelTransaction {
    /// The requester is known, unless the storage fails even now.
    pub open spec fn next(self, cancelled: Result<(), String>) -> Step {
        match cancelled {
            Err(what) => refused(RouteError::Internal(what)),
            Ok(_) => Step::Ready(
                Ok(
                    Requester {
                        entity: self.entity,
                        ip_address: self.origin.ip_address,
                        user_agent: self.origin.user_agent,
                    },
                ),
            ),
        }
    }

    /// Ends with the requester.
    pub fn cancelled(self, cancelled: Result<(), String>) -> (step: Step)
        ensures
            step == self.next(cancelled),
    {
        match cancelled {
            Err(what) => Step::Ready(Err(RouteError::Internal(what))),
            Ok(_) => Step::Ready(
                Ok(
                    Requester {
                        entity: self.entity,
                        ip_address: self.origin.ip_address,
                        user_agent: self.origin.user_agent,
                    },
                ),
            ),
        }
    }
}

} // verus!
