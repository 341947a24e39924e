//! A client for the ACME protocol (RFC 8555): the signed request envelope,
//! nonce handling, and the account, order, authorization and challenge
//! resources with their state machines. Sending requests is left to the caller.

pub mod account;
pub mod authorization;
pub mod codec;
pub mod der;
pub mod directory;
pub mod error;
pub mod json;
pub mod jws;
pub mod key;
pub mod nonce;
pub mod order;
pub mod register;
pub mod resources;
pub mod text;
pub mod transport;

pub use account::{Account, AccountBuilder, AccountStatus};
pub use authorization::{Authorization, AuthorizationStatus, Challenge, ChallengeStatus, CheckResponse};
pub use codec::b64;
pub use directory::{Directory, DirectoryMeta};
pub use error::{AcmeError, AcmeResult, Error};
pub use jws::{jws, AccountKey, Jwk};
pub use nonce::NonceCache;
pub use order::{Order, OrderBuilder, OrderStatus};
pub use register::AccountRegistration;
pub use resources::{Identifier, Observation, Poll};
pub use transport::{Exchange, ResponseMeta, Step};
