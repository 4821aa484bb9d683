//! A requester: an identity, and where the request came from.
use crate::identity::RequestingEntity;
use crate::text::string_view;
use vstd::prelude::*;

verus! {

/// An IP address, by its bits.
#[derive(Debug, Clone, Copy, PartialEq, Eq, Structural)]
pub enum IpAddress {
    V4(u32),
    V6(u128),
}

/// What requests are counted by when their rate is limited.
#[derive(Debug, Clone, Copy, PartialEq, Eq, Structural)]
pub struct RequesterFingerprint {
    pub ip: Option<IpAddress>,
}

impl RequesterFingerprint {
    /// The fingerprint of a requester at a known address.
    pub fn new(ip: IpAddress) -> (fingerprint: Self)
        ensures
            fingerprint.ip == Some(ip),
    {
        RequesterFingerprint { ip: Some(ip) }
    }

    /// The fingerprint of a requester at an unknown address.
    pub fn empty() -> (fingerprint: Self)
        ensures
            fingerprint.ip is None,
    {
        RequesterFingerprint { ip: None }
    }
}

/// What a policy is told of a requester.
#[derive(Debug, Clone, PartialEq, Eq)]
pub struct PolicyRequester {
    pub ip_address: Option<IpAddress>,
    pub user_agent: Option<String>,
}

/// A requester.
pub struct Requester {
    pub entity: RequestingEntity,
    pub ip_address: Option<IpAddress>,
    pub user_agent: Option<String>,
}

impl Requester {
    /// The fingerprint to limit this requester's rate by: the address, where it is known.
    pub fn fingerprint(&self) -> (fingerprint: RequesterFingerprint)
        ensures
            fingerprint.ip == self.ip_address,
    {
        match self.ip_address {
            Some(ip) => RequesterFingerprint::new(ip),
            None => RequesterFingerprint::empty(),
        }
    }

    /// What a policy is told of this requester.
    pub fn for_policy(&self) -> (told: PolicyRequester)
        ensures
            told.ip_address == self.ip_address,
            string_view(told.user_agent) == string_view(self.user_agent),
    {
        PolicyRequester {
            ip_address: self.ip_address,
            user_agent: match &self.user_agent {
                Some(agent) => Some(agent.as_str().to_owned()),
                None => None,
            },
        }
    }
}

impl std::ops::Deref for Requester {
    type Target = RequestingEntity;

    fn deref(&self) -> (entity: &RequestingEntity)
        ensures
            *entity == self.entity,
    {
        &self.entity
    }
}

} // verus!
