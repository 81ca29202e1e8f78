//! Failures of a registration run.
use vstd::prelude::*;

verus! {

/// The configuration item that was absent or malformed.
#[derive(Clone, Copy, Debug, PartialEq, Eq, Structural)]
pub enum ConfigField {
    CoreManifest,
    MiddlewareManifest,
    RpcUrl,
    Delegation,
    AvsDirectory,
    ServiceManager,
    StakeRegistry,
    PrivateKey,
    Clock,
}

/// Every way a run can end without a registration.
#[derive(Clone, Debug)]
pub enum RegistrationError {
    /// A deployment file, a secret or the clock gave no usable value.
    Config(ConfigField),
    /// A read from the chain failed or returned nonsense.
    ChainQuery,
    /// The key could not sign the digest.
    Signing,
    /// The secure random source gave no salt.
    Entropy,
    /// The node refused the transaction before inclusion; its message.
    Submission(String),
    /// The transaction was mined and the contract reverted; its reason, where
    /// the contract gave one.
    Revert(Option<String>),
    /// No receipt came within the bounded wait.
    Timeout,
}

} // verus!
