//! The assembler itself: the validation steps, the fee computation, the
//! authorization merge, and the laws that hold of an assembled transaction.

use vstd::prelude::*;

verus! {

use crate::codec::auth_entry_decodable;
use crate::codec::decode_auth_entry;
use crate::codec::decode_diagnostic_event;
use crate::codec::decode_resource_data;
use crate::codec::event_decodable;
use crate::codec::resource_data_decodable;
use crate::codec::ContractAuthorization;
use crate::codec::ResourceData;
use crate::model::AssembleError;
use crate::model::FeePolicy;
use crate::model::HostFunctionInvocation;
use crate::model::InvokeHostFunctionOp;
use crate::model::LogEvents;
use crate::model::Operation;
use crate::model::OperationBody;
use crate::model::SimulateTransactionResponse;
use crate::model::Transaction;
use crate::model::TransactionExt;
use soroban_env_host::xdr::DiagnosticEvent;

/// The draft holds exactly one operation.
pub open spec fn op_count_ok(draft: Transaction) -> bool {
    draft.operations@.len() == 1
}

/// Every diagnostic event of the simulation decodes.
pub open spec fn events_decodable(sim: SimulateTransactionResponse) -> bool {
    forall|i: int|
        0 <= i < sim.events@.len() ==> event_decodable(#[trigger] sim.events@[i]@)
}

/// The base fee plus the minimum resource fee fits the fee field.
pub open spec fn fee_in_range(sim: SimulateTransactionResponse, policy: FeePolicy) -> bool {
    policy.base_fee + sim.min_resource_fee <= u32::MAX
}

/// The fee of the assembled transaction: the draft's fee, raised if needed
/// to the base fee plus the simulation's minimum resource fee.
pub open spec fn assembled_fee(
    draft: Transaction,
    sim: SimulateTransactionResponse,
    policy: FeePolicy,
) -> int {
    if draft.fee >= policy.base_fee + sim.min_resource_fee {
        draft.fee as int
    } else {
        policy.base_fee + sim.min_resource_fee
    }
}

/// The simulation's resource metadata decodes.
pub open spec fn resource_data_ok(sim: SimulateTransactionResponse) -> bool {
    resource_data_decodable(sim.transaction_data@)
}

/// The draft's sole operation is an invoke-host-function.
pub open spec fn sole_op_is_invoke(draft: Transaction) -> bool {
    draft.operations@[0].body is InvokeHostFunction
}

/// The host-function invocations of the draft's sole operation.
pub open spec fn draft_functions(draft: Transaction) -> Seq<HostFunctionInvocation> {
    draft.operations@[0].body->InvokeHostFunction_0.functions@
}

/// The simulation holds one result per host-function invocation.
pub open spec fn result_count_ok(
    draft: Transaction,
    sim: SimulateTransactionResponse,
) -> bool {
    sim.results@.len() == draft_functions(draft).len()
}

/// Every authorization entry of every simulation result decodes.
pub open spec fn auths_decodable(sim: SimulateTransactionResponse) -> bool {
    forall|i: int, j: int|
        0 <= i < sim.results@.len() && 0 <= j < sim.results@[i].auth@.len()
            ==> auth_entry_decodable(#[trigger] sim.results@[i].auth@[j]@)
}

/// All validation steps pass: assembly succeeds exactly here.
pub open spec fn assemble_accepts(
    draft: Transaction,
    sim: SimulateTransactionResponse,
    policy: FeePolicy,
) -> bool {
    &&& op_count_ok(draft)
    &&& events_decodable(sim)
    &&& fee_in_range(sim, policy)
    &&& resource_data_ok(sim)
    &&& sole_op_is_invoke(draft)
    &&& result_count_ok(draft, sim)
    &&& auths_decodable(sim)
}

/// The entries are, in order, the decoded forms of the encoded texts.
pub open spec fn auth_seq_matches(
    entries: Seq<ContractAuthorization>,
    encoded: Seq<String>,
) -> bool {
    &&& entries.len() == encoded.len()
    &&& forall|j: int|
        0 <= j < entries.len() ==> (#[trigger] entries[j]).source() == encoded[j]@
}

/// What the assembled transaction is, relative to the draft and the
/// simulation: fee raised to the computed value, authorization merged in
/// order, resource metadata in the extension slot, everything else carried
/// through unchanged.
pub open spec fn assembled_output(
    draft: Transaction,
    sim: SimulateTransactionResponse,
    policy: FeePolicy,
    out: Transaction,
) -> bool {
    &&& out.source_account == draft.source_account
    &&& out.fee == assembled_fee(draft, sim, policy)
    &&& out.seq_num == draft.seq_num
    &&& out.cond == draft.cond
    &&& out.memo == draft.memo
    &&& out.operations@.len() == 1
    &&& out.operations@[0].source_account == draft.operations@[0].source_account
    &&& out.operations@[0].body is InvokeHostFunction
    &&& {
        let fs = draft_functions(draft);
        let gs = draft_functions(out);
        &&& gs.len() == fs.len()
        &&& forall|i: int|
            0 <= i < fs.len() ==> (#[trigger] gs[i]).args == fs[i].args
        &&& forall|i: int|
            0 <= i < fs.len() ==> auth_seq_matches(
                (#[trigger] gs[i]).auth@,
                sim.results@[i].auth@,
            )
    }
    &&& out.ext matches TransactionExt::V1(rd) && rd.source() == sim.transaction_data@
}

/// Applies the outcome of a dry-run simulation onto a draft transaction,
/// producing the transaction to sign and submit: the fee is raised to cover
/// the simulated resource fee, the decoded resource metadata fills the
/// extension slot, and each host-function invocation receives the decoded
/// authorization entries of its simulation result, in order. Every
/// validation failure is terminal; no partial transaction is returned.
/// The output is not a valid input for a further assembly: its operation
/// already carries authorization and resource data.
pub fn assemble<L: LogEvents>(
    draft: Transaction,
    simulation: &SimulateTransactionResponse,
    policy: &FeePolicy,
    log_events: Option<&L>,
) -> (r: Result<Transaction, AssembleError>)
    ensures
        r is Ok <==> assemble_accepts(draft, *simulation, *policy),
        (r matches Ok(out) ==> assembled_output(draft, *simulation, *policy, out)),
        (!op_count_ok(draft) ==> r == Err::<Transaction, AssembleError>(
            (AssembleError::UnexpectedOperationCount {
                count: draft.operations@.len() as usize,
            }),
        )),
        (op_count_ok(draft) && !events_decodable(*simulation) ==> (r matches Err(e)
            && e is Xdr)),
        (op_count_ok(draft) && events_decodable(*simulation) && !fee_in_range(
            *simulation,
            *policy,
        ) ==> r == Err::<Transaction, AssembleError>(AssembleError::FeeOverflow)),
        (op_count_ok(draft) && events_decodable(*simulation) && fee_in_range(
            *simulation,
            *policy,
        ) && !resource_data_ok(*simulation) ==> (r matches Err(e) && e is Xdr)),
        (op_count_ok(draft) && events_decodable(*simulation) && fee_in_range(
            *simulation,
            *policy,
        ) && resource_data_ok(*simulation) && !sole_op_is_invoke(draft) ==> r
            == Err::<Transaction, AssembleError>(AssembleError::UnsupportedOperationType)),
        (op_count_ok(draft) && events_decodable(*simulation) && fee_in_range(
            *simulation,
            *policy,
        ) && resource_data_ok(*simulation) && sole_op_is_invoke(draft) && !result_count_ok(
            draft,
            *simulation,
        ) ==> r == Err::<Transaction, AssembleError>(
            (AssembleError::UnexpectedSimulateTransactionResultSize {
                length: simulation.results@.len() as usize,
            }),
        )),
        (op_count_ok(draft) && events_decodable(*simulation) && fee_in_range(
            *simulation,
            *policy,
        ) && resource_data_ok(*simulation) && sole_op_is_invoke(draft) && result_count_ok(
            draft,
            *simulation,
        ) && !auths_decodable(*simulation) ==> (r matches Err(e) && e is Xdr)),
{
    let Transaction { source_account, fee: draft_fee, seq_num, cond, memo, mut operations, ext: _ } =
        draft;

    if operations.len() != 1 {
        return Err(AssembleError::UnexpectedOperationCount { count: operations.len() });
    }

    let mut i: usize = 0;
    while i < simulation.events.len()
        invariant
            i <= simulation.events@.len(),
            forall|k: int| 0 <= k < i ==> event_decodable(#[trigger] simulation.events@[k]@),
        decreases simulation.events@.len() - i,
    {
        match decode_diagnostic_event(&simulation.events[i]) {
            Ok(_) => {},
            Err(e) => {
                return Err(AssembleError::Xdr(e));
            },
        }
        i += 1;
    }

    if policy.base_fee > u32::MAX - simulation.min_resource_fee {
        return Err(AssembleError::FeeOverflow);
    }
    let required_fee: u32 = policy.base_fee + simulation.min_resource_fee;
    let final_fee: u32 = if draft_fee >= required_fee {
        draft_fee
    } else {
        required_fee
    };

    let tx_data: ResourceData = match decode_resource_data(&simulation.transaction_data) {
        Ok(d) => d,
        Err(e) => {
            return Err(AssembleError::Xdr(e));
        },
    };

    let op = operations.pop().unwrap();
    let Operation { source_account: op_source, body } = op;
    let inv_op = match body {
        OperationBody::InvokeHostFunction(inv) => inv,
        OperationBody::Other => {
            return Err(AssembleError::UnsupportedOperationType);
        },
    };
    let mut functions = inv_op.functions;

    if simulation.results.len() != functions.len() {
        return Err(AssembleError::UnexpectedSimulateTransactionResultSize {
            length: simulation.results.len(),
        });
    }

    let mut auth_lists: Vec<Vec<ContractAuthorization>> = Vec::new();
    let mut i: usize = 0;
    while i < simulation.results.len()
        invariant
            i <= simulation.results@.len(),
            auth_lists@.len() == i,
            forall|k: int|
                0 <= k < i ==> #[trigger] auth_seq_matches(
                    auth_lists@[k]@,
                    simulation.results@[k].auth@,
                ),
            forall|k: int, l: int|
                0 <= k < i && 0 <= l < simulation.results@[k].auth@.len()
                    ==> auth_entry_decodable(#[trigger] simulation.results@[k].auth@[l]@),
        decreases simulation.results@.len() - i,
    {
        let res = &simulation.results[i];
        let mut entries: Vec<ContractAuthorization> = Vec::new();
        let mut j: usize = 0;
        while j < res.auth.len()
            invariant
                j <= res.auth@.len(),
                res == &simulation.results@[i as int],
                entries@.len() == j,
                forall|l: int|
                    0 <= l < j ==> (#[trigger] entries@[l]).source()
                        == simulation.results@[i as int].auth@[l]@,
                forall|l: int|
                    0 <= l < j ==> auth_entry_decodable(
                        #[trigger] simulation.results@[i as int].auth@[l]@,
                    ),
            decreases res.auth@.len() - j,
        {
            match decode_auth_entry(&res.auth[j]) {
                Ok(a) => entries.push(a),
                Err(e) => {
                    return Err(AssembleError::Xdr(e));
                },
            }
            j += 1;
        }
        auth_lists.push(entries);
        i += 1;
    }

    if let Some(log) = log_events {
        let no_events: Vec<DiagnosticEvent> = Vec::new();
        log.log(tx_data.footprint(), &auth_lists, &no_events);
    }

    let fn_count = functions.len();
    let ghost fs0 = functions@;
    let ghost al0 = auth_lists@;
    proof {
        assert(fs0.skip(0) =~= fs0);
        assert(al0.skip(0) =~= al0);
    }
    let mut new_functions: Vec<HostFunctionInvocation> = Vec::new();
    let mut k: usize = 0;
    while k < fn_count
        invariant
            k <= fn_count,
            functions@ == fs0.skip(k as int),
            auth_lists@ == al0.skip(k as int),
            new_functions@.len() == k,
            forall|m: int| 0 <= m < k ==> (#[trigger] new_functions@[m]).args == fs0[m].args,
            forall|m: int| 0 <= m < k ==> (#[trigger] new_functions@[m]).auth@ == al0[m]@,
        decreases fn_count - k,
    {
        let f = functions.remove(0);
        let a = auth_lists.remove(0);
        new_functions.push(HostFunctionInvocation { args: f.args, auth: a });
        k += 1;
        proof {
            assert(functions@ =~= fs0.skip(k as int));
            assert(auth_lists@ =~= al0.skip(k as int));
        }
    }

    let assembled_op = Operation {
        source_account: op_source,
        body: OperationBody::InvokeHostFunction(InvokeHostFunctionOp { functions: new_functions }),
    };
    let mut out_operations: Vec<Operation> = Vec::new();
    out_operations.push(assembled_op);
    Ok(
        Transaction {
            source_account,
            fee: final_fee,
            seq_num,
            cond,
            memo,
            operations: out_operations,
            ext: TransactionExt::V1(tx_data),
        },
    )
}

/// The fee never goes down: an assembled transaction's fee is at least the
/// draft's, and at least the base fee plus the simulated resource fee.
pub proof fn lemma_fee_monotone(
    draft: Transaction,
    sim: SimulateTransactionResponse,
    policy: FeePolicy,
    out: Transaction,
)
    requires
        assembled_output(draft, sim, policy, out),
    ensures
        out.fee >= draft.fee,
        out.fee >= policy.base_fee + sim.min_resource_fee,
{
}

/// An operation with no host functions, simulated to an empty result list,
/// passes assembly, and the assembled operation is unchanged: still the
/// sole operation, still an invoke-host-function with zero invocations,
/// with the same operation source.
pub proof fn lemma_zero_functions_unchanged(
    draft: Transaction,
    sim: SimulateTransactionResponse,
    policy: FeePolicy,
    out: Transaction,
)
    requires
        op_count_ok(draft),
        sole_op_is_invoke(draft),
        draft_functions(draft).len() == 0,
        sim.results@.len() == 0,
        events_decodable(sim),
        fee_in_range(sim, policy),
        resource_data_ok(sim),
        assembled_output(draft, sim, policy, out),
    ensures
        assemble_accepts(draft, sim, policy),
        out.operations@.len() == 1,
        out.operations@[0].source_account == draft.operations@[0].source_account,
        out.operations@[0].body is InvokeHostFunction,
        draft_functions(out) =~= draft_functions(draft),
{
}

/// For a draft whose sole operation holds exactly one host-function
/// invocation, and a matching simulation whose payloads all decode, with
/// the base fee plus the minimum resource fee in range, assembly succeeds,
/// and the assembled operation holds exactly one invocation: its arguments
/// are the draft's, unchanged, and its authorization entries are, in
/// order, the decoded forms of the sole simulation result's entries.
pub proof fn lemma_single_invocation_merge(
    draft: Transaction,
    sim: SimulateTransactionResponse,
    policy: FeePolicy,
    out: Transaction,
)
    requires
        op_count_ok(draft),
        sole_op_is_invoke(draft),
        draft_functions(draft).len() == 1,
        sim.results@.len() == 1,
        events_decodable(sim),
        fee_in_range(sim, policy),
        resource_data_ok(sim),
        auths_decodable(sim),
        assembled_output(draft, sim, policy, out),
    ensures
        assemble_accepts(draft, sim, policy),
        out.operations@.len() == 1,
        out.operations@[0].body is InvokeHostFunction,
        draft_functions(out).len() == 1,
        draft_functions(out)[0].args == draft_functions(draft)[0].args,
        auth_seq_matches(draft_functions(out)[0].auth@, sim.results@[0].auth@),
{
}

} // verus!
