//! The registration run as a state machine: each chain answer moves the run
//! forward and says what to ask of the chain next. The caller performs the
//! requests (reads, the transaction, the bounded wait for its receipt) and
//! feeds back what came of them.
use vstd::prelude::*;
use crate::attestation::{attest, signature_of, OperatorIdentity, RegistrationAttestation};
use crate::config::REGISTRATION_GAS_LIMIT;
use crate::error::RegistrationError;
use crate::topology::{ChainAddress, NetworkTopology};

verus! {

/// How the wait for the registration transaction's receipt ended.
#[derive(Clone, Debug)]
pub enum ReceiptOutcome {
    /// Mined and executed; the transaction hash.
    Mined([u8; 32]),
    /// Mined, and the contract call reverted; its reason where one was given.
    Reverted(Option<String>),
    /// The receipt could not be read; the node's message.
    Unavailable(String),
    /// No receipt within the bounded wait.
    TimedOut,
}

/// What came back from the request last issued.
#[derive(Debug)]
pub enum ChainEvent {
    /// Whether the operator is already registered; `None` where the read failed.
    RegistrationStatus(Option<bool>),
    /// The registration digest computed by the chain; `None` where the read failed.
    Digest(Option<[u8; 32]>),
    /// The node accepted the transaction, or refused it with a message.
    Sent(Result<(), String>),
    /// The end of the wait for the receipt.
    Receipt(ReceiptOutcome),
}

/// What the caller has to do next.
#[derive(Debug)]
pub enum Action {
    /// Read whether `operator` is registered with the directory.
    QueryRegistration { delegation: ChainAddress, avs_directory: ChainAddress, operator: ChainAddress },
    /// Read the registration digest for these values from the directory.
    QueryDigest {
        avs_directory: ChainAddress,
        operator: ChainAddress,
        service_manager: ChainAddress,
        salt: [u8; 32],
        expiry: u64,
    },
    /// Send the registration transaction to the stake registry.
    SendRegistration {
        stake_registry: ChainAddress,
        operator: ChainAddress,
        attestation: RegistrationAttestation,
        gas_limit: u64,
    },
    /// Wait for the receipt, for at most this many seconds.
    AwaitReceipt { timeout_secs: u64 },
    /// The run is over: the transaction hash, or why there is none.
    Finish(Result<[u8; 32], RegistrationError>),
    /// The run was already over; nothing is left to do.
    Stop,
}

/// Where a run stands.
#[derive(Clone, Copy, Debug)]
pub enum Phase {
    CheckingRegistration,
    ComputingDigest,
    Submitting(RegistrationAttestation),
    AwaitingReceipt,
    Finished,
}

/// One registration attempt, with the salt and expiry drawn for it.
pub struct RegistrationRun {
    pub topology: NetworkTopology,
    pub identity: OperatorIdentity,
    pub salt: [u8; 32],
    pub expiry: u64,
    pub receipt_timeout_secs: u64,
    pub phase: Phase,
    /// The advisory answer of the registration check, once it came.
    pub already_registered: Option<bool>,
}

impl RegistrationRun {
    pub open spec fn wf(&self) -> bool {
        self.identity.wf()
    }

    /// The request that the run waits on in its current phase.
    pub open spec fn request(&self) -> Action {
        let t = self.topology;
        let operator = self.identity.address_spec();
        match self.phase {
            Phase::CheckingRegistration => Action::QueryRegistration {
                delegation: t.delegation,
                avs_directory: t.avs_directory,
                operator,
            },
            Phase::ComputingDigest => Action::QueryDigest {
                avs_directory: t.avs_directory,
                operator,
                service_manager: t.service_manager,
                salt: self.salt,
                expiry: self.expiry,
            },
            Phase::Submitting(attestation) => Action::SendRegistration {
                stake_registry: t.stake_registry,
                operator,
                attestation,
                gas_limit: REGISTRATION_GAS_LIMIT,
            },
            Phase::AwaitingReceipt => Action::AwaitReceipt { timeout_secs: self.receipt_timeout_secs },
            Phase::Finished => Action::Stop,
        }
    }

    /// The same attempt, in another phase.
    pub open spec fn same_attempt(&self, other: &RegistrationRun) -> bool {
        &&& self.topology == other.topology
        &&& self.identity == other.identity
        &&& self.salt == other.salt
        &&& self.expiry == other.expiry
        &&& self.receipt_timeout_secs == other.receipt_timeout_secs
    }

    fn operator(&self) -> (r: ChainAddress)
        requires
            self.wf(),
        ensures
            r == self.identity.address_spec(),
    {
        self.identity.address()
    }

    fn current_request(&self) -> (r: Action)
        requires
            self.wf(),
        ensures
            r == self.request(),
    {
        let t = self.topology;
        match self.phase {
            Phase::CheckingRegistration => Action::QueryRegistration {
                delegation: t.delegation,
                avs_directory: t.avs_directory,
                operator: self.operator(),
            },
            Phase::ComputingDigest => Action::QueryDigest {
                avs_directory: t.avs_directory,
                operator: self.operator(),
                service_manager: t.service_manager,
                salt: self.salt,
                expiry: self.expiry,
            },
            Phase::Submitting(attestation) => Action::SendRegistration {
                stake_registry: t.stake_registry,
                operator: self.operator(),
                attestation,
                gas_limit: REGISTRATION_GAS_LIMIT,
            },
            Phase::AwaitingReceipt => Action::AwaitReceipt { timeout_secs: self.receipt_timeout_secs },
            Phase::Finished => Action::Stop,
        }
    }

    /// Starts an attempt with a freshly drawn salt and expiry; the first
    /// request is the registration check.
    pub fn begin(
        topology: NetworkTopology,
        identity: OperatorIdentity,
        salt: [u8; 32],
        expiry: u64,
        receipt_timeout_secs: u64,
    ) -> (r: (RegistrationRun, Action))
        requires
            identity.wf(),
        ensures
            r.0.wf(),
            r.0.topology == topology,
            r.0.identity == identity,
            r.0.salt == salt,
            r.0.expiry == expiry,
            r.0.receipt_timeout_secs == receipt_timeout_secs,
            r.0.phase == Phase::CheckingRegistration,
            r.0.already_registered is None,
            r.1 == r.0.request(),
    {
        let run = RegistrationRun {
            topology,
            identity,
            salt,
            expiry,
            receipt_timeout_secs,
            phase: Phase::CheckingRegistration,
            already_registered: None,
        };
        let action = run.current_request();
        (run, action)
    }
    /// Moves the run forward on the answer to its pending request and
    /// returns the next request.
    ///
    /// The registration check is advisory: its answer, or its failure, is
    /// recorded and the run goes on to the digest. A failed digest read ends
    /// the run with a chain-query error; a digest is signed into the
    /// attestation that is then submitted. A refused transaction, a reverted
    /// call (with its reason, verbatim) and an expired wait each end the run
    /// with their own error; a mined transaction ends it with its hash. An
    /// event that does not answer the pending request changes nothing, and
    /// the request is repeated.
    pub fn advance(&mut self, event: ChainEvent) -> (a: Action)
        requires
            old(self).wf(),
        ensures
            final(self).wf(),
            final(self).same_attempt(old(self)),
            match (old(self).phase, event) {
                (Phase::CheckingRegistration, ChainEvent::RegistrationStatus(status)) => {
                    &&& final(self).phase == Phase::ComputingDigest
                    &&& final(self).already_registered == status
                    &&& a == final(self).request()
                },
                (Phase::ComputingDigest, ChainEvent::Digest(Some(digest))) => {
                    &&& final(self).already_registered == old(self).already_registered
                    &&& match signature_of(old(self).identity.secret(), digest@) {
                        Some(signature) => {
                            &&& final(self).phase == Phase::Submitting(
                                RegistrationAttestation {
                                    signature: final(self).phase->Submitting_0.signature,
                                    salt: old(self).salt,
                                    expiry: old(self).expiry,
                                },
                            )
                            &&& final(self).phase->Submitting_0.signature@ == signature
                            &&& a == final(self).request()
                        },
                        None => {
                            &&& final(self).phase == Phase::Finished
                            &&& a == Action::Finish(Err(RegistrationError::Signing))
                        },
                    }
                },
                (Phase::ComputingDigest, ChainEvent::Digest(None)) => {
                    &&& final(self).phase == Phase::Finished
                    &&& final(self).already_registered == old(self).already_registered
                    &&& a == Action::Finish(Err(RegistrationError::ChainQuery))
                },
                (Phase::Submitting(_), ChainEvent::Sent(Ok(()))) => {
                    &&& final(self).phase == Phase::AwaitingReceipt
                    &&& final(self).already_registered == old(self).already_registered
                    &&& a == final(self).request()
                },
                (Phase::Submitting(_), ChainEvent::Sent(Err(message))) => {
                    &&& final(self).phase == Phase::Finished
                    &&& final(self).already_registered == old(self).already_registered
                    &&& a == Action::Finish(Err(RegistrationError::Submission(message)))
                },
                (Phase::AwaitingReceipt, ChainEvent::Receipt(outcome)) => {
                    &&& final(self).phase == Phase::Finished
                    &&& final(self).already_registered == old(self).already_registered
                    &&& a == Action::Finish(receipt_result(outcome))
                },
                _ => {
                    &&& final(self).phase == old(self).phase
                    &&& final(self).already_registered == old(self).already_registered
                    &&& a == old(self).request()
                },
            },
    {
        match event {
            ChainEvent::RegistrationStatus(status) => {
                if let Phase::CheckingRegistration = self.phase {
                    self.already_registered = status;
                    self.phase = Phase::ComputingDigest;
                }
                self.current_request()
            },
            ChainEvent::Digest(reply) => {
                if let Phase::ComputingDigest = self.phase {
                    match reply {
                        Some(digest) => match attest(&self.identity, &digest, self.salt, self.expiry) {
                            Ok(attestation) => {
                                self.phase = Phase::Submitting(attestation);
                                self.current_request()
                            },
                            Err(e) => {
                                self.phase = Phase::Finished;
                                Action::Finish(Err(e))
                            },
                        },
                        None => {
                            self.phase = Phase::Finished;
                            Action::Finish(Err(RegistrationError::ChainQuery))
                        },
                    }
                } else {
                    self.current_request()
                }
            },
            ChainEvent::Sent(reply) => {
                if let Phase::Submitting(_) = self.phase {
                    match reply {
                        Ok(()) => {
                            self.phase = Phase::AwaitingReceipt;
                            self.current_request()
                        },
                        Err(message) => {
                            self.phase = Phase::Finished;
                            Action::Finish(Err(RegistrationError::Submission(message)))
                        },
                    }
                } else {
                    self.current_request()
                }
            },
            ChainEvent::Receipt(outcome) => {
                if let Phase::AwaitingReceipt = self.phase {
                    self.phase = Phase::Finished;
                    Action::Finish(finish_with_receipt(outcome))
                } else {
                    self.current_request()
                }
            },
        }
    }
}

/// What a run reports once the wait for its receipt has ended.
pub open spec fn receipt_result(outcome: ReceiptOutcome) -> Result<[u8; 32], RegistrationError> {
    match outcome {
        ReceiptOutcome::Mined(hash) => Ok(hash),
        ReceiptOutcome::Reverted(reason) => Err(RegistrationError::Revert(reason)),
        ReceiptOutcome::Unavailable(_) => Err(RegistrationError::ChainQuery),
        ReceiptOutcome::TimedOut => Err(RegistrationError::Timeout),
    }
}

/// The result of a run whose receipt wait ended with `outcome`: the
/// transaction hash, the revert reason as the contract gave it, a failed
/// read, or a timeout.
pub fn finish_with_receipt(outcome: ReceiptOutcome) -> (r: Result<[u8; 32], RegistrationError>)
    ensures
        r == receipt_result(outcome),
{
    match outcome {
        ReceiptOutcome::Mined(hash) => Ok(hash),
        ReceiptOutcome::Reverted(reason) => Err(RegistrationError::Revert(reason)),
        ReceiptOutcome::Unavailable(_) => Err(RegistrationError::ChainQuery),
        ReceiptOutcome::TimedOut => Err(RegistrationError::Timeout),
    }
}

/// Two runs of the same attempt that wait on the digest ask the chain for
/// it with identical operator, service manager, salt and expiry.
pub proof fn lemma_digest_request_determined(a: RegistrationRun, b: RegistrationRun)
    requires
        a.same_attempt(&b),
        a.phase == Phase::ComputingDigest,
        b.phase == Phase::ComputingDigest,
    ensures
        a.request() == b.request(),
{
}

/// What the caller saw while waiting for the registration receipt.
#[derive(Debug)]
pub enum ReceiptWatch {
    /// A receipt arrived. Where the call failed, `revert_data` is the revert
    /// data that replaying it returned, if any.
    Receipt { success: bool, hash: [u8; 32], revert_data: Option<Vec<u8>> },
    /// Reading the receipt failed; the node's message.
    Failed(String),
    /// The bounded wait ran out.
    Elapsed,
}

/// The reason string of Solidity `Error(string)` revert data.
pub uninterp spec fn revert_reason_of(data: Seq<u8>) -> Option<Seq<char>>;

/// Relies on alloy's `<Revert as SolError>::abi_decode`: the reason of
/// `Error(string)` revert data, which must begin with the selector
/// `0x08c379a0`; `None` for any other data.
#[verifier::external_body]
fn decode_revert_reason(data: &[u8]) -> (r: Option<String>)
    ensures
        r is Some <==> revert_reason_of(data@) is Some,
        r matches Some(s) ==> revert_reason_of(data@) == Some(s@),
        data@.len() < 4 || data@.subrange(0, 4) != seq![0x08u8, 0xc3u8, 0x79u8, 0xa0u8] ==> r is None,
{
    <alloy::sol_types::Revert as alloy::sol_types::SolError>::abi_decode(data).ok().map(|e| e.reason)
}

/// The view of an optional string.
pub open spec fn text_of(o: Option<String>) -> Option<Seq<char>> {
    match o {
        Some(s) => Some(s@),
        None => None,
    }
}

/// The reason carried by optional revert data.
pub open spec fn reason_of(data: Option<Vec<u8>>) -> Option<Seq<char>> {
    match data {
        Some(d) => revert_reason_of(d@),
        None => None,
    }
}

/// Classifies the end of the receipt wait: a successful receipt gives its
/// hash; a failed one a revert, with the reason decoded from the revert data
/// where there is one; a failed read and an expired wait their own outcomes.
pub fn classify_receipt(watch: ReceiptWatch) -> (r: ReceiptOutcome)
    ensures
        match watch {
            ReceiptWatch::Receipt { success, hash, revert_data } => if success {
                r == ReceiptOutcome::Mined(hash)
            } else {
                r matches ReceiptOutcome::Reverted(reason) && text_of(reason) == reason_of(
                    revert_data,
                )
            },
            ReceiptWatch::Failed(message) => r == ReceiptOutcome::Unavailable(message),
            ReceiptWatch::Elapsed => r == ReceiptOutcome::TimedOut,
        },
{
    match watch {
        ReceiptWatch::Receipt { success, hash, revert_data } => {
            if success {
                ReceiptOutcome::Mined(hash)
            } else {
                match revert_data {
                    Some(data) => ReceiptOutcome::Reverted(decode_revert_reason(data.as_slice())),
                    None => ReceiptOutcome::Reverted(None),
                }
            }
        },
        ReceiptWatch::Failed(message) => ReceiptOutcome::Unavailable(message),
        ReceiptWatch::Elapsed => ReceiptOutcome::TimedOut,
    }
}

} // verus!
