//! Privacy-preserving OpenID-Connect authentication for transactions: binds an
//! ephemeral signing key to a federated identity token through hiding
//! commitments, and verifies that binding either directly (by checking the
//! token's signature) or through a zero-knowledge proof.

pub mod errors;
pub mod hashing;
pub mod b64;
pub mod claims;
pub mod zkid;
pub mod codec;
pub mod validator_txn;
