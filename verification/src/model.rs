//! The data model of the assembler: the draft transaction, the simulation
//! outcome it is assembled with, the fee policy, the logging hook and the
//! terminal errors.

use vstd::prelude::*;

verus! {

use crate::codec::ContractAuthorization;
use crate::codec::ResourceData;
use soroban_env_host::xdr::DiagnosticEvent;
use soroban_env_host::xdr::LedgerFootprint;
use soroban_env_host::xdr::Memo;
use soroban_env_host::xdr::MuxedAccount;
use soroban_env_host::xdr::Preconditions;

/// The network's fixed fee for a classic transaction, in fee units.
pub const DEFAULT_BASE_FEE: u32 = 100;

/// One contract call within an operation: its invocation arguments, opaque
/// to the assembler and copied through unchanged, and its authorization
/// records, populated from the simulation outcome.
#[derive(Debug)]
pub struct HostFunctionInvocation {
    pub args: soroban_env_host::xdr::HostFunction,
    pub auth: Vec<ContractAuthorization>,
}

/// The body of an invoke-host-function operation: its ordered contract
/// calls.
#[derive(Debug)]
pub struct InvokeHostFunctionOp {
    pub functions: Vec<HostFunctionInvocation>,
}

/// What an operation does. Only the invoke-host-function kind is assembled;
/// every other kind is rejected, so nothing of it needs to be modelled.
#[derive(Debug)]
pub enum OperationBody {
    InvokeHostFunction(InvokeHostFunctionOp),
    Other,
}

/// One action within a transaction.
#[derive(Debug)]
pub struct Operation {
    pub source_account: Option<MuxedAccount>,
    pub body: OperationBody,
}

/// The extension slot of a transaction: empty, or carrying the resource
/// metadata that the assembler decoded from the simulation outcome.
#[derive(Debug)]
pub enum TransactionExt {
    V0,
    V1(ResourceData),
}

/// A transaction, before or after assembly. Everything but the fee, the
/// operations and the extension slot is carried through unchanged.
#[derive(Debug)]
pub struct Transaction {
    pub source_account: MuxedAccount,
    pub fee: u32,
    pub seq_num: i64,
    pub cond: Preconditions,
    pub memo: Memo,
    pub operations: Vec<Operation>,
    pub ext: TransactionExt,
}

/// The simulation's cost figures, informational only.
#[derive(Debug)]
pub struct Cost {
    pub cpu_insns: String,
    pub mem_bytes: String,
}

/// The dry-run result for one host-function invocation: its base64-encoded
/// authorization entries and its base64-encoded return value.
#[derive(Debug)]
pub struct SimulateHostFunctionResult {
    pub auth: Vec<String>,
    pub xdr: String,
}

/// The outcome of a prior dry-run of the draft transaction against network
/// state.
#[derive(Debug)]
pub struct SimulateTransactionResponse {
    pub error: Option<String>,
    pub transaction_data: String,
    pub events: Vec<String>,
    pub min_resource_fee: u32,
    pub results: Vec<SimulateHostFunctionResult>,
    pub cost: Cost,
    pub latest_ledger: u32,
}

/// The fee policy collaborator: the network's fixed base fee.
#[derive(Debug, PartialEq, Eq, Structural, Clone, Copy)]
pub struct FeePolicy {
    pub base_fee: u32,
}

impl Default for FeePolicy {
    fn default() -> (r: Self)
        ensures
            r.base_fee == DEFAULT_BASE_FEE,
    {
        FeePolicy { base_fee: DEFAULT_BASE_FEE }
    }
}

/// Why an assembly call failed. Every error is terminal: no partial
/// transaction is ever returned.
#[derive(Debug)]
pub enum AssembleError {
    /// The draft does not hold exactly one operation.
    UnexpectedOperationCount { count: usize },
    /// The sole operation is not an invoke-host-function.
    UnsupportedOperationType,
    /// The simulation's result count does not match the draft's
    /// host-function count.
    UnexpectedSimulateTransactionResultSize { length: usize },
    /// The base fee plus the minimum resource fee does not fit the fee
    /// field.
    FeeOverflow,
    /// A base64-encoded payload of the simulation did not decode.
    Xdr(soroban_env_host::xdr::Error),
}

/// The caller-supplied observability hook: called exactly once after a
/// successful merge, with the decoded footprint, the merged authorization
/// sequences (one per host function) and an empty diagnostics slot. Its
/// behaviour never affects the returned transaction.
pub trait LogEvents {
    fn log(
        &self,
        footprint: &LedgerFootprint,
        auth: &Vec<Vec<ContractAuthorization>>,
        events: &Vec<DiagnosticEvent>,
    );
}

/// A hook that logs nothing.
#[derive(Debug, Clone, Copy)]
pub struct NoLog;

impl LogEvents for NoLog {
    fn log(
        &self,
        _footprint: &LedgerFootprint,
        _auth: &Vec<Vec<ContractAuthorization>>,
        _events: &Vec<DiagnosticEvent>,
    ) {
    }
}

} // verus!
