//! The boundary to the wire-format codec: the XDR types that the assembler
//! carries through opaquely, and the base64 decode calls it relies on.

use vstd::prelude::*;

verus! {

use soroban_env_host::xdr::DiagnosticEvent;
use soroban_env_host::xdr::LedgerFootprint;
use soroban_env_host::xdr::Limits;
use soroban_env_host::xdr::Memo;
use soroban_env_host::xdr::MuxedAccount;
use soroban_env_host::xdr::Preconditions;
use soroban_env_host::xdr::ReadXdr;
use soroban_env_host::xdr::SorobanAuthorizationEntry;
use soroban_env_host::xdr::SorobanTransactionData;

#[verifier::external_type_specification]
#[verifier::external_body]
pub struct ExMuxedAccount(MuxedAccount);

#[verifier::external_type_specification]
#[verifier::external_body]
pub struct ExPreconditions(Preconditions);

#[verifier::external_type_specification]
#[verifier::external_body]
pub struct ExMemo(Memo);

#[verifier::external_type_specification]
#[verifier::external_body]
pub struct ExHostFunction(soroban_env_host::xdr::HostFunction);

#[verifier::external_type_specification]
#[verifier::external_body]
pub struct ExSorobanAuthorizationEntry(SorobanAuthorizationEntry);

#[verifier::external_type_specification]
#[verifier::external_body]
pub struct ExSorobanTransactionData(SorobanTransactionData);

#[verifier::external_type_specification]
#[verifier::external_body]
pub struct ExDiagnosticEvent(DiagnosticEvent);

#[verifier::external_type_specification]
#[verifier::external_body]
pub struct ExLedgerFootprint(LedgerFootprint);

#[verifier::external_type_specification]
#[verifier::external_body]
pub struct ExXdrError(soroban_env_host::xdr::Error);

/// The deepest nesting the decoder will follow: decoding past it returns
/// an error instead of exhausting the stack. The platform host decodes
/// with the same bound.
pub const DECODE_DEPTH_LIMIT: u32 = 500;

/// Whether the codec decodes this text as an authorization entry, within
/// the library's depth limit.
pub uninterp spec fn auth_entry_decodable(s: Seq<char>) -> bool;

/// Whether the codec decodes this text as resource metadata, within the
/// library's depth limit.
pub uninterp spec fn resource_data_decodable(s: Seq<char>) -> bool;

/// Whether the codec decodes this text as a diagnostic event, within the
/// library's depth limit.
pub uninterp spec fn event_decodable(s: Seq<char>) -> bool;

/// One authorization record, decoded from its base64-encoded XDR form.
/// The record itself is opaque to the assembler: it is relocated into the
/// transaction, never interpreted. The text it was decoded from is kept
/// beside it, so contracts can pin down where each record came from.
#[derive(Debug)]
pub struct ContractAuthorization {
    record: SorobanAuthorizationEntry,
    encoded: String,
}

impl ContractAuthorization {
    /// The base64 text this record was decoded from.
    pub closed spec fn source(&self) -> Seq<char> {
        self.encoded@
    }

    pub closed spec fn spec_record(&self) -> SorobanAuthorizationEntry {
        self.record
    }

    pub fn record(&self) -> (r: &SorobanAuthorizationEntry)
        ensures
            *r == self.spec_record(),
    {
        &self.record
    }

    pub fn encoded_form(&self) -> (r: &String)
        ensures
            r@ == self.source(),
    {
        &self.encoded
    }
}

/// The resource metadata of a simulation outcome, decoded from its
/// base64-encoded XDR form. Opaque but for the footprint handed to the
/// logging hook; the text it was decoded from is kept beside it.
#[derive(Debug)]
pub struct ResourceData {
    data: SorobanTransactionData,
    encoded: String,
}

impl ResourceData {
    /// The base64 text this metadata was decoded from.
    pub closed spec fn source(&self) -> Seq<char> {
        self.encoded@
    }

    pub closed spec fn spec_data(&self) -> SorobanTransactionData {
        self.data
    }

    pub fn data(&self) -> (r: &SorobanTransactionData)
        ensures
            *r == self.spec_data(),
    {
        &self.data
    }

    pub fn encoded_form(&self) -> (r: &String)
        ensures
            r@ == self.source(),
    {
        &self.encoded
    }

    /// Relies on the layout of SorobanTransactionData (stellar-xdr): hands
    /// out the ledger footprint held inside its resources field.
    #[verifier::external_body]
    pub(crate) fn footprint(&self) -> &LedgerFootprint {
        &self.data.resources.footprint
    }
}

/// Relies on SorobanAuthorizationEntry::from_xdr_base64 (stellar-xdr, via
/// soroban-env-host): a deterministic decode of base64-encoded XDR text
/// into an authorization entry; nesting beyond the depth limit is an
/// error, never an abort.
#[verifier::external_body]
pub(crate) fn decode_auth_entry(s: &String) -> (r: Result<
    ContractAuthorization,
    soroban_env_host::xdr::Error,
>)
    ensures
        r is Ok <==> auth_entry_decodable(s@),
        (r matches Ok(a) ==> a.source() == s@),
{
    let limits = Limits { depth: DECODE_DEPTH_LIMIT, len: usize::MAX };
    match SorobanAuthorizationEntry::from_xdr_base64(s, limits) {
        Ok(record) => Ok(ContractAuthorization { record, encoded: s.clone() }),
        Err(e) => Err(e),
    }
}

/// Relies on SorobanTransactionData::from_xdr_base64 (stellar-xdr, via
/// soroban-env-host): a deterministic decode of base64-encoded XDR text
/// into resource metadata; nesting beyond the depth limit is an error,
/// never an abort.
#[verifier::external_body]
pub(crate) fn decode_resource_data(s: &String) -> (r: Result<
    ResourceData,
    soroban_env_host::xdr::Error,
>)
    ensures
        r is Ok <==> resource_data_decodable(s@),
        (r matches Ok(d) ==> d.source() == s@),
{
    let limits = Limits { depth: DECODE_DEPTH_LIMIT, len: usize::MAX };
    match SorobanTransactionData::from_xdr_base64(s, limits) {
        Ok(data) => Ok(ResourceData { data, encoded: s.clone() }),
        Err(e) => Err(e),
    }
}

/// Relies on DiagnosticEvent::from_xdr_base64 (stellar-xdr, via
/// soroban-env-host): a deterministic decode of base64-encoded XDR text
/// into a diagnostic event; nesting beyond the depth limit is an error,
/// never an abort.
#[verifier::external_body]
pub(crate) fn decode_diagnostic_event(s: &String) -> (r: Result<
    DiagnosticEvent,
    soroban_env_host::xdr::Error,
>)
    ensures
        r is Ok <==> event_decodable(s@),
{
    DiagnosticEvent::from_xdr_base64(s, Limits { depth: DECODE_DEPTH_LIMIT, len: usize::MAX })
}

} // verus!
