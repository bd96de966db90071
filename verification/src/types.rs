//! Wire types of the relay protocol, the operator's configuration, and the
//! error taxonomy.

use vstd::prelude::*;

verus! {

/// The status of a relay request, parsed from the integer code carried by
/// the relay's response.
#[derive(Clone, Copy, PartialEq, Eq, Structural, Debug)]
pub enum RelayStatus {
    /// Code 0, or any code the protocol does not define.
    Unknown,
    /// Code 1: the transaction was relayed; a transaction hash accompanies it.
    Relayed,
    /// Code 2: the relay's preflight checks errored.
    PreflightError,
    /// Code 3: the relay's transaction simulation failed.
    SimulationFailure,
    /// Code 4: the relay's preflight checks failed.
    PreflightFailure,
}

/// The status named by each integer code of the relay protocol.  Codes the
/// protocol does not define fall back to `Unknown`.
pub open spec fn spec_relay_status_of(code: u32) -> RelayStatus {
    if code == 1 {
        RelayStatus::Relayed
    } else if code == 2 {
        RelayStatus::PreflightError
    } else if code == 3 {
        RelayStatus::SimulationFailure
    } else if code == 4 {
        RelayStatus::PreflightFailure
    } else {
        RelayStatus::Unknown
    }
}

/// Maps a relay response's integer status code to its meaning.
pub fn relay_status_from_code(code: u32) -> (s: RelayStatus)
    ensures
        s == spec_relay_status_of(code),
{
    if code == 1 {
        RelayStatus::Relayed
    } else if code == 2 {
        RelayStatus::PreflightError
    } else if code == 3 {
        RelayStatus::SimulationFailure
    } else if code == 4 {
        RelayStatus::PreflightFailure
    } else {
        RelayStatus::Unknown
    }
}

/// The input for a relay request: a description of the contract write the
/// relay is asked to sign and broadcast.
pub struct RelayRequest {
    pub chain_id: u64,
    pub address: String,
    pub calldata: String,
    pub platform_request: bool,
}

/// The output for a relay request.  `status` is the raw integer code;
/// `transaction_hash` accompanies a successful relay and `message` a
/// rejection.
pub struct RelayResponse {
    pub transaction_hash: Option<String>,
    pub message: Option<String>,
    pub status: u32,
}

/// Everything that can go wrong in one operator iteration.  Per-iteration
/// errors are logged and retried on the next iteration; only
/// `ConfigurationError` is fatal, and only at startup.
#[derive(PartialEq, Eq, Debug)]
pub enum OracleError {
    /// The relay endpoint answered outside the protocol: a non-200 HTTP
    /// status.
    TransportError { http_status: u16 },
    /// A chain or relay response was malformed.
    DecodeError,
    /// The relay explicitly declined the request.
    RelayRejected { status: RelayStatus, message: Option<String> },
    /// The local signing path's broadcast was rejected by the node.
    BroadcastError,
    /// The local signing path gave up waiting for the transaction to be
    /// included.
    ConfirmationError,
    /// Required configuration is missing or invalid.
    ConfigurationError,
}

/// The operator's immutable configuration, assembled once at startup.
#[derive(Clone, Copy, PartialEq, Eq, Structural, Debug)]
pub struct OracleConfig {
    /// Identifier of the chain the contract lives on.
    pub chain_id: u64,
    /// Spacing of the interval grid: updates are committed for blocks that
    /// are multiples of it.
    pub block_interval: u64,
    /// How many blocks the target must stay behind the head to be safe from
    /// a chain reorganization.
    pub safety_margin: u64,
    /// How far behind the head the scanner may look for recorded history.
    pub max_lookback: u64,
}

impl OracleConfig {
    /// A usable configuration: a zero interval would make the grid of
    /// interval-aligned blocks meaningless.
    pub open spec fn wf(self) -> bool {
        self.block_interval > 0
    }

    /// Validates and assembles the configuration; a zero `block_interval`
    /// is rejected at startup.
    pub fn new(chain_id: u64, block_interval: u64, safety_margin: u64, max_lookback: u64) -> (r:
        Result<OracleConfig, OracleError>)
        ensures
            block_interval > 0 ==> r == Ok::<OracleConfig, OracleError>(
                OracleConfig { chain_id, block_interval, safety_margin, max_lookback },
            ),
            block_interval == 0 ==> r == Err::<OracleConfig, OracleError>(
                OracleError::ConfigurationError,
            ),
            r matches Ok(c) ==> c.wf(),
    {
        if block_interval == 0 {
            Err(OracleError::ConfigurationError)
        } else {
            Ok(OracleConfig { chain_id, block_interval, safety_margin, max_lookback })
        }
    }
}

} // verus!
