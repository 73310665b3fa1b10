//! Request screening, authorization and query-composition rules of the
//! simprint server, with their contracts proved by Verus.

pub mod text;
pub mod paths;
pub mod clock;
pub mod local_api;
pub mod authorization;
pub mod ids;
pub mod auth;
pub mod sql;
pub mod queries;
pub mod teams;
pub mod messages;
pub mod permissions;
pub mod registration;
pub mod requests;
pub mod extensions;
pub mod ingress;
pub mod routes;
pub mod records;
pub mod coupons;
pub mod purge;
pub mod envelope;
pub mod referral;
pub mod signup;
pub mod invitations;
pub mod listings;
