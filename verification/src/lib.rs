//! Chaum-Pedersen proofs of discrete-logarithm equality, and the bookkeeping of a
//! service that authenticates users with them.
//!
//! A prover who knows the secret `x` behind the public key
//! `(alpha ^ x, beta ^ x)` convinces a verifier of it without giving `x` away:
//! the prover commits to a nonce, the verifier draws a challenge, and the
//! prover's response settles both of the verifier's tests.
//!
//! - [`group`] states the mathematics and proves that an honest prover is accepted.
//! - [`zkp`] computes commitments, responses and the verifier's tests.
//! - [`auth`] keeps the users and the open challenges of a service.
//! - [`number`] holds the numbers, [`hexadecimal`] reads them from text, and
//!   [`constants`] gives the reference groups.

pub mod auth;
mod bridge;
pub mod constants;
pub mod group;
pub mod hexadecimal;
pub mod number;
pub mod zkp;

pub use auth::{AuthError, AuthImpl, UserInfo};
pub use number::BigNat;
pub use zkp::ZKP;
