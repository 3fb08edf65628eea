//! Assembly of a draft Soroban transaction with the outcome of a prior
//! dry-run simulation: the final fee, the decoded resource metadata and the
//! per-invocation authorization entries are merged into a fresh, submittable
//! transaction, or the call fails with a terminal validation error.
#![verifier::loop_isolation(false)]

pub mod codec;
pub mod model;
pub mod assembler;

pub use assembler::assemble;
pub use codec::ContractAuthorization;
pub use codec::ResourceData;
pub use model::AssembleError;
pub use model::Cost;
pub use model::FeePolicy;
pub use model::HostFunctionInvocation;
pub use model::InvokeHostFunctionOp;
pub use model::LogEvents;
pub use model::NoLog;
pub use model::Operation;
pub use model::OperationBody;
pub use model::SimulateHostFunctionResult;
pub use model::SimulateTransactionResponse;
pub use model::Transaction;
pub use model::TransactionExt;
