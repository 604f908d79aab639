//! Authorization and tenant-isolation core of a multi-tenant maintenance
//! management service.
//!
//! Every decision the service takes about a session is made here and proved
//! against its contract: issuing and validating session tokens, evaluating a
//! role's module privileges, and guarding each fetched record so that one
//! company never sees another company's data.  Storage and transport stay
//! outside: callers hand in what they read and carry out what is returned.

pub mod assets;
pub mod digest;
pub mod errors;
pub mod guard;
pub mod maintainance_request;
pub mod model;
pub mod privilege;
pub mod token;
pub mod user;
pub mod utils;
