//! The community contract: a registry of the applications that make up a
//! community (access control, token, voting), the permissions it hands to the
//! access-control application when it is set up, and the decisions of its
//! `invoke` entry point.

pub mod string_map;
pub mod storage;
pub mod json;
pub mod error;
pub mod registry;
pub mod permissions;
pub mod calls;
pub mod contract;
pub mod flat;
pub mod invoke_laws;
