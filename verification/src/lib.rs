//! Who is calling, and what they run: the parts of an authentication service's
//! GraphQL endpoint that decide, with their proofs.
pub mod access_laws;
pub mod agent_laws;
pub mod custom;
pub mod custom_laws;
pub mod detection;
pub mod detection_laws;
pub mod electron;
pub mod electron_laws;
pub mod endpoint;
pub mod endpoint_laws;
pub mod get_requester;
pub mod identity;
pub mod requester;
pub mod requester_laws;
pub mod route_error;
pub mod storage_laws;
pub mod text;
pub mod text_laws;
pub mod user_agent;
