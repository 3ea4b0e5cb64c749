//! Operations on ledger requests and replies.

use crate::api::args::{check_useful, check_useful_c_callback, check_useful_c_str, check_useful_opt, check_useful_opt_u32, check_useful_opt_u64, optional, optional_fault, spec_opt_u32, spec_opt_u64, text_fault, value_fault, Arg, Listing};
use crate::api::json::{is_json, spec_is_json, spec_u64_list, u64_list};
use crate::entry::{PoolHandle, WalletHandle};
use crate::error::ErrorCode;
use crate::registry::StateProofParser;
use crate::text::same_text;
use vstd::prelude::*;

verus! {

/// A command on ledger requests and replies, with its checked arguments.
#[derive(Debug)]
pub enum LedgerCommand {
    SignAndSubmitRequest {
        pool_handle: PoolHandle,
        wallet_handle: WalletHandle,
        submitter_did: String,
        request_json: String,
    },
    SubmitRequest { pool_handle: PoolHandle, request_json: String },
    SubmitAction {
        pool_handle: PoolHandle,
        request_json: String,
        nodes: Option<String>,
        timeout: Option<i32>,
    },
    SignRequest { wallet_handle: WalletHandle, submitter_did: String, request_json: String },
    MultiSignRequest { wallet_handle: WalletHandle, submitter_did: String, request_json: String },
    BuildGetDdoRequest { submitter_did: Option<String>, target_did: String },
    BuildNymRequest {
        submitter_did: String,
        target_did: String,
        verkey: Option<String>,
        alias: Option<String>,
        role: Option<String>,
    },
    BuildGetNymRequest { submitter_did: Option<String>, target_did: String },
    ParseGetNymResponse { get_nym_response: String },
    BuildGetAttribRequest {
        submitter_did: Option<String>,
        target_did: String,
        raw: Option<String>,
        hash: Option<String>,
        enc: Option<String>,
    },
    BuildSchemaRequest { submitter_did: String, data: String },
    BuildGetSchemaRequest { submitter_did: Option<String>, id: String },
    ParseGetSchemaResponse { get_schema_response: String },
    BuildCredDefRequest { submitter_did: String, data: String },
    BuildGetCredDefRequest { submitter_did: Option<String>, id: String },
    ParseGetCredDefResponse { get_cred_def_response: String },
    BuildNodeRequest { submitter_did: String, target_did: String, data: String },
    BuildGetValidatorInfoRequest { submitter_did: String },
    BuildGetTxnRequest { submitter_did: Option<String>, ledger_type: Option<String>, seq_no: i32 },
    BuildPoolConfigRequest { submitter_did: String, writes: bool, force: bool },
    BuildPoolRestartRequest { submitter_did: String, action: String, datetime: Option<String> },
    BuildPoolUpgradeRequest {
        submitter_did: String,
        name: String,
        version: String,
        action: String,
        sha256: String,
        timeout: Option<u32>,
        schedule: Option<String>,
        justification: Option<String>,
        reinstall: bool,
        force: bool,
        package: Option<String>,
    },
    BuildRevocRegDefRequest { submitter_did: String, data: String },
    BuildGetRevocRegDefRequest { submitter_did: Option<String>, id: String },
    ParseGetRevocRegDefResponse { get_revoc_reg_def_response: String },
    BuildRevocRegEntryRequest {
        submitter_did: String,
        revoc_reg_def_id: String,
        rev_def_type: String,
        value: String,
    },
    BuildGetRevocRegRequest {
        submitter_did: Option<String>,
        revoc_reg_def_id: String,
        timestamp: i64,
    },
    ParseGetRevocRegResponse { get_revoc_reg_response: String },
    BuildGetRevocRegDeltaRequest {
        submitter_did: Option<String>,
        revoc_reg_def_id: String,
        from: Option<i64>,
        to: i64,
    },
    ParseGetRevocRegDeltaResponse { get_revoc_reg_delta_response: String },
    GetResponseMetadata { response: String },
    BuildGetFrozenLedgersRequest { submitter_did: String },
    BuildAuthRuleRequest {
        submitter_did: String,
        txn_type: String,
        action: String,
        field: String,
        old_value: Option<String>,
        new_value: Option<String>,
        constraint: String,
    },
    BuildAuthRulesRequest { submitter_did: String, rules: Listing },
    BuildGetAuthRuleRequest {
        submitter_did: Option<String>,
        txn_type: Option<String>,
        action: Option<String>,
        field: Option<String>,
        old_value: Option<String>,
        new_value: Option<String>,
    },
    BuildTxnAuthorAgreementRequest {
        submitter_did: String,
        text: Option<String>,
        version: String,
        ratification_ts: Option<u64>,
        retirement_ts: Option<u64>,
    },
    BuildDisableAllTxnAuthorAgreementsRequest { submitter_did: String },
    BuildGetTxnAuthorAgreementRequest { submitter_did: Option<String>, data: Option<String> },
    BuildAcceptanceMechanismRequests {
        submitter_did: String,
        aml: String,
        version: String,
        aml_context: Option<String>,
    },
    BuildGetAcceptanceMechanismsRequest {
        submitter_did: Option<String>,
        timestamp: Option<u64>,
        version: Option<String>,
    },
    AppendTxnAuthorAgreementAcceptanceToRequest {
        request_json: String,
        text: Option<String>,
        version: Option<String>,
        taa_digest: Option<String>,
        mechanism: String,
        time: u64,
    },
    AppendRequestEndorser { request_json: String, endorser_did: String },
    BuildAttribRequest {
        submitter_did: String,
        target_did: String,
        hash: Option<String>,
        raw: Option<String>,
        enc: Option<String>,
    },
    BuildLedgersFreezeRequest { submitter_did: String, ledgers_ids: Vec<u64> },
}

/// The action that starts a restart or an upgrade.
pub open spec fn spec_start() -> Seq<char> {
    "start"@
}

/// The action that cancels a restart or an upgrade.
pub open spec fn spec_cancel() -> Seq<char> {
    "cancel"@
}

/// Whether an action is one of the two that a restart or an upgrade knows.
pub open spec fn is_start_or_cancel(action: Seq<char>) -> bool {
    action == spec_start() || action == spec_cancel()
}

fn is_start(action: &str) -> (yes: bool)
    ensures
        yes == (action@ == spec_start()),
{
    same_text(action, "start")
}

fn is_cancel(action: &str) -> (yes: bool)
    ensures
        yes == (action@ == spec_cancel()),
{
    same_text(action, "cancel")
}

/// Signs a request and submits it to the pool.
///
/// Vetted before the call: `submitter_did` as an identity.
pub fn indy_sign_and_submit_request(
    pool_handle: PoolHandle,
    wallet_handle: WalletHandle,
    submitter_did: Arg<String>,
    request_json: Arg<String>,
    cb: bool,
) -> (outcome: Result<LedgerCommand, ErrorCode>)
    ensures
        outcome == if text_fault(submitter_did) {
            Err::<LedgerCommand, ErrorCode>(ErrorCode::CommonInvalidParam3)
        } else if text_fault(request_json) {
            Err(ErrorCode::CommonInvalidParam4)
        } else if !cb {
            Err(ErrorCode::CommonInvalidParam5)
        } else {
            Ok(
                LedgerCommand::SignAndSubmitRequest {
                    pool_handle,
                    wallet_handle,
                    submitter_did: submitter_did->0,
                    request_json: request_json->0,
                },
            )
        },
{
    let submitter_did = check_useful_c_str(submitter_did, ErrorCode::CommonInvalidParam3)?;
    let request_json = check_useful_c_str(request_json, ErrorCode::CommonInvalidParam4)?;
    check_useful_c_callback(cb, ErrorCode::CommonInvalidParam5)?;
    Ok(
        LedgerCommand::SignAndSubmitRequest {
            pool_handle,
            wallet_handle,
            submitter_did,
            request_json,
        },
    )
}

/// Submits a request to the pool as it is.
pub fn indy_submit_request(
    pool_handle: PoolHandle,
    request_json: Arg<String>,
    cb: bool,
) -> (outcome: Result<LedgerCommand, ErrorCode>)
    ensures
        outcome == if text_fault(request_json) {
            Err::<LedgerCommand, ErrorCode>(ErrorCode::CommonInvalidParam3)
        } else if !cb {
            Err(ErrorCode::CommonInvalidParam4)
        } else {
            Ok(
                LedgerCommand::SubmitRequest {
                    pool_handle,
                    request_json: request_json->0,
                },
            )
        },
{
    let request_json = check_useful_c_str(request_json, ErrorCode::CommonInvalidParam3)?;
    check_useful_c_callback(cb, ErrorCode::CommonInvalidParam4)?;
    Ok(LedgerCommand::SubmitRequest { pool_handle, request_json })
}

/// Sends an action to chosen nodes of the pool. A timeout of `-1` stands for
/// the default.
pub fn indy_submit_action(
    pool_handle: PoolHandle,
    request_json: Arg<String>,
    nodes: Arg<String>,
    timeout: i32,
    cb: bool,
) -> (outcome: Result<LedgerCommand, ErrorCode>)
    ensures
        outcome == if text_fault(request_json) {
            Err::<LedgerCommand, ErrorCode>(ErrorCode::CommonInvalidParam3)
        } else if optional_fault(nodes) {
            Err(ErrorCode::CommonInvalidParam4)
        } else if !cb {
            Err(ErrorCode::CommonInvalidParam6)
        } else {
            Ok(
                LedgerCommand::SubmitAction {
                    pool_handle,
                    request_json: request_json->0,
                    nodes: optional(nodes),
                    timeout: if timeout == -1 { None } else { Some(timeout) },
                },
            )
        },
{
    let request_json = check_useful_c_str(request_json, ErrorCode::CommonInvalidParam3)?;
    let nodes = check_useful_opt(nodes, ErrorCode::CommonInvalidParam4)?;
    let timeout = if timeout != -1 { Some(timeout) } else { None };
    check_useful_c_callback(cb, ErrorCode::CommonInvalidParam6)?;
    Ok(LedgerCommand::SubmitAction { pool_handle, request_json, nodes, timeout })
}

/// Signs a request.
///
/// Vetted before the call: `submitter_did` as an identity.
pub fn indy_sign_request(
    wallet_handle: WalletHandle,
    submitter_did: Arg<String>,
    request_json: Arg<String>,
    cb: bool,
) -> (outcome: Result<LedgerCommand, ErrorCode>)
    ensures
        outcome == if text_fault(submitter_did) {
            Err::<LedgerCommand, ErrorCode>(ErrorCode::CommonInvalidParam2)
        } else if text_fault(request_json) {
            Err(ErrorCode::CommonInvalidParam3)
        } else if !cb {
            Err(ErrorCode::CommonInvalidParam4)
        } else {
            Ok(
                LedgerCommand::SignRequest {
                    wallet_handle,
                    submitter_did: submitter_did->0,
                    request_json: request_json->0,
                },
            )
        },
{
    let submitter_did = check_useful_c_str(submitter_did, ErrorCode::CommonInvalidParam2)?;
    let request_json = check_useful_c_str(request_json, ErrorCode::CommonInvalidParam3)?;
    check_useful_c_callback(cb, ErrorCode::CommonInvalidParam4)?;
    Ok(LedgerCommand::SignRequest { wallet_handle, submitter_did, request_json })
}

/// Adds a signature to a request that several parties sign.
///
/// Vetted before the call: `submitter_did` as an identity.
pub fn indy_multi_sign_request(
    wallet_handle: WalletHandle,
    submitter_did: Arg<String>,
    request_json: Arg<String>,
    cb: bool,
) -> (outcome: Result<LedgerCommand, ErrorCode>)
    ensures
        outcome == if text_fault(submitter_did) {
            Err::<LedgerCommand, ErrorCode>(ErrorCode::CommonInvalidParam2)
        } else if text_fault(request_json) {
            Err(ErrorCode::CommonInvalidParam3)
        } else if !cb {
            Err(ErrorCode::CommonInvalidParam4)
        } else {
            Ok(
                LedgerCommand::MultiSignRequest {
                    wallet_handle,
                    submitter_did: submitter_did->0,
                    request_json: request_json->0,
                },
            )
        },
{
    let submitter_did = check_useful_c_str(submitter_did, ErrorCode::CommonInvalidParam2)?;
    let request_json = check_useful_c_str(request_json, ErrorCode::CommonInvalidParam3)?;
    check_useful_c_callback(cb, ErrorCode::CommonInvalidParam4)?;
    Ok(LedgerCommand::MultiSignRequest { wallet_handle, submitter_did, request_json })
}

/// Builds a request for the document of an identity.
///
/// Vetted before the call: `submitter_did` as an identity and `target_did` as
/// an identity.
pub fn indy_build_get_ddo_request(
    submitter_did: Arg<String>,
    target_did: Arg<String>,
    cb: bool,
) -> (outcome: Result<LedgerCommand, ErrorCode>)
    ensures
        outcome == if optional_fault(submitter_did) {
            Err::<LedgerCommand, ErrorCode>(ErrorCode::CommonInvalidParam2)
        } else if text_fault(target_did) {
            Err(ErrorCode::CommonInvalidParam3)
        } else if !cb {
            Err(ErrorCode::CommonInvalidParam4)
        } else {
            Ok(
                LedgerCommand::BuildGetDdoRequest {
                    submitter_did: optional(submitter_did),
                    target_did: target_did->0,
                },
            )
        },
{
    let submitter_did = check_useful_opt(submitter_did, ErrorCode::CommonInvalidParam2)?;
    let target_did = check_useful_c_str(target_did, ErrorCode::CommonInvalidParam3)?;
    check_useful_c_callback(cb, ErrorCode::CommonInvalidParam4)?;
    Ok(LedgerCommand::BuildGetDdoRequest { submitter_did, target_did })
}

/// Builds a request that writes an identity to the ledger.
///
/// Vetted before the call: `submitter_did` as an identity and `target_did` as
/// an identity.
pub fn indy_build_nym_request(
    submitter_did: Arg<String>,
    target_did: Arg<String>,
    verkey: Arg<String>,
    alias: Arg<String>,
    role: Arg<String>,
    cb: bool,
) -> (outcome: Result<LedgerCommand, ErrorCode>)
    ensures
        outcome == if text_fault(submitter_did) {
            Err::<LedgerCommand, ErrorCode>(ErrorCode::CommonInvalidParam2)
        } else if text_fault(target_did) {
            Err(ErrorCode::CommonInvalidParam3)
        } else if optional_fault(verkey) {
            Err(ErrorCode::CommonInvalidParam4)
        } else if optional_fault(alias) {
            Err(ErrorCode::CommonInvalidParam5)
        } else if optional_fault(role) {
            Err(ErrorCode::CommonInvalidParam6)
        } else if !cb {
            Err(ErrorCode::CommonInvalidParam7)
        } else {
            Ok(
                LedgerCommand::BuildNymRequest {
                    submitter_did: submitter_did->0,
                    target_did: target_did->0,
                    verkey: optional(verkey),
                    alias: optional(alias),
                    role: optional(role),
                },
            )
        },
{
    let submitter_did = check_useful_c_str(submitter_did, ErrorCode::CommonInvalidParam2)?;
    let target_did = check_useful_c_str(target_did, ErrorCode::CommonInvalidParam3)?;
    let verkey = check_useful_opt(verkey, ErrorCode::CommonInvalidParam4)?;
    let alias = check_useful_opt(alias, ErrorCode::CommonInvalidParam5)?;
    let role = check_useful_opt(role, ErrorCode::CommonInvalidParam6)?;
    check_useful_c_callback(cb, ErrorCode::CommonInvalidParam7)?;
    Ok(LedgerCommand::BuildNymRequest { submitter_did, target_did, verkey, alias, role })
}

/// Builds a request that reads an identity from the ledger.
///
/// Vetted before the call: `submitter_did` as an identity and `target_did` as
/// an identity.
pub fn indy_build_get_nym_request(
    submitter_did: Arg<String>,
    target_did: Arg<String>,
    cb: bool,
) -> (outcome: Result<LedgerCommand, ErrorCode>)
    ensures
        outcome == if optional_fault(submitter_did) {
            Err::<LedgerCommand, ErrorCode>(ErrorCode::CommonInvalidParam2)
        } else if text_fault(target_did) {
            Err(ErrorCode::CommonInvalidParam3)
        } else if !cb {
            Err(ErrorCode::CommonInvalidParam4)
        } else {
            Ok(
                LedgerCommand::BuildGetNymRequest {
                    submitter_did: optional(submitter_did),
                    target_did: target_did->0,
                },
            )
        },
{
    let submitter_did = check_useful_opt(submitter_did, ErrorCode::CommonInvalidParam2)?;
    let target_did = check_useful_c_str(target_did, ErrorCode::CommonInvalidParam3)?;
    check_useful_c_callback(cb, ErrorCode::CommonInvalidParam4)?;
    Ok(LedgerCommand::BuildGetNymRequest { submitter_did, target_did })
}

/// Reads the identity out of the reply to a request for one.
pub fn indy_parse_get_nym_response(
    get_nym_response: Arg<String>,
    cb: bool,
) -> (outcome: Result<LedgerCommand, ErrorCode>)
    ensures
        outcome == if text_fault(get_nym_response) {
            Err::<LedgerCommand, ErrorCode>(ErrorCode::CommonInvalidParam2)
        } else if !cb {
            Err(ErrorCode::CommonInvalidParam3)
        } else {
            Ok(
                LedgerCommand::ParseGetNymResponse {
                    get_nym_response: get_nym_response->0,
                },
            )
        },
{
    let get_nym_response = check_useful_c_str(get_nym_response, ErrorCode::CommonInvalidParam2)?;
    check_useful_c_callback(cb, ErrorCode::CommonInvalidParam3)?;
    Ok(LedgerCommand::ParseGetNymResponse { get_nym_response })
}

/// Builds a request that reads an attribute of an identity. One of `raw`,
/// `hash` and `enc` must be given.
///
/// Vetted before the call: `submitter_did` as an identity and `target_did` as
/// an identity.
pub fn indy_build_get_attrib_request(
    submitter_did: Arg<String>,
    target_did: Arg<String>,
    raw: Arg<String>,
    hash: Arg<String>,
    enc: Arg<String>,
    cb: bool,
) -> (outcome: Result<LedgerCommand, ErrorCode>)
    ensures
        outcome == if optional_fault(submitter_did) {
            Err::<LedgerCommand, ErrorCode>(ErrorCode::CommonInvalidParam2)
        } else if text_fault(target_did) {
            Err(ErrorCode::CommonInvalidParam3)
        } else if optional_fault(raw) {
            Err(ErrorCode::CommonInvalidParam4)
        } else if optional_fault(hash) {
            Err(ErrorCode::CommonInvalidParam5)
        } else if optional_fault(enc) {
            Err(ErrorCode::CommonInvalidParam6)
        } else if !cb {
            Err(ErrorCode::CommonInvalidParam7)
        } else if optional(raw) is None && optional(hash) is None && optional(enc) is None {
            Err(ErrorCode::CommonInvalidStructure)
        } else {
            Ok(
                LedgerCommand::BuildGetAttribRequest {
                    submitter_did: optional(submitter_did),
                    target_did: target_did->0,
                    raw: optional(raw),
                    hash: optional(hash),
                    enc: optional(enc),
                },
            )
        },
{
    let submitter_did = check_useful_opt(submitter_did, ErrorCode::CommonInvalidParam2)?;
    let target_did = check_useful_c_str(target_did, ErrorCode::CommonInvalidParam3)?;
    let raw = check_useful_opt(raw, ErrorCode::CommonInvalidParam4)?;
    let hash = check_useful_opt(hash, ErrorCode::CommonInvalidParam5)?;
    let enc = check_useful_opt(enc, ErrorCode::CommonInvalidParam6)?;
    check_useful_c_callback(cb, ErrorCode::CommonInvalidParam7)?;
    if raw.is_none() && hash.is_none() && enc.is_none() {
        return Err(ErrorCode::CommonInvalidStructure);
    }
    Ok(LedgerCommand::BuildGetAttribRequest { submitter_did, target_did, raw, hash, enc })
}

/// Builds a request that writes a schema to the ledger.
///
/// Vetted before the call: `submitter_did` as an identity and `data` as a
/// schema.
pub fn indy_build_schema_request(
    submitter_did: Arg<String>,
    data: Arg<String>,
    cb: bool,
) -> (outcome: Result<LedgerCommand, ErrorCode>)
    ensures
        outcome == if text_fault(submitter_did) {
            Err::<LedgerCommand, ErrorCode>(ErrorCode::CommonInvalidParam2)
        } else if text_fault(data) {
            Err(ErrorCode::CommonInvalidParam3)
        } else if !cb {
            Err(ErrorCode::CommonInvalidParam4)
        } else {
            Ok(
                LedgerCommand::BuildSchemaRequest {
                    submitter_did: submitter_did->0,
                    data: data->0,
                },
            )
        },
{
    let submitter_did = check_useful_c_str(submitter_did, ErrorCode::CommonInvalidParam2)?;
    let data = check_useful_c_str(data, ErrorCode::CommonInvalidParam3)?;
    check_useful_c_callback(cb, ErrorCode::CommonInvalidParam4)?;
    Ok(LedgerCommand::BuildSchemaRequest { submitter_did, data })
}

/// Builds a request that reads a schema from the ledger.
///
/// Vetted before the call: `submitter_did` as an identity and `id` as the
/// identifier of a schema.
pub fn indy_build_get_schema_request(
    submitter_did: Arg<String>,
    id: Arg<String>,
    cb: bool,
) -> (outcome: Result<LedgerCommand, ErrorCode>)
    ensures
        outcome == if optional_fault(submitter_did) {
            Err::<LedgerCommand, ErrorCode>(ErrorCode::CommonInvalidParam2)
        } else if text_fault(id) {
            Err(ErrorCode::CommonInvalidParam3)
        } else if !cb {
            Err(ErrorCode::CommonInvalidParam4)
        } else {
            Ok(
                LedgerCommand::BuildGetSchemaRequest {
                    submitter_did: optional(submitter_did),
                    id: id->0,
                },
            )
        },
{
    let submitter_did = check_useful_opt(submitter_did, ErrorCode::CommonInvalidParam2)?;
    let id = check_useful_c_str(id, ErrorCode::CommonInvalidParam3)?;
    check_useful_c_callback(cb, ErrorCode::CommonInvalidParam4)?;
    Ok(LedgerCommand::BuildGetSchemaRequest { submitter_did, id })
}

/// Reads the schema out of the reply to a request for one.
pub fn indy_parse_get_schema_response(
    get_schema_response: Arg<String>,
    cb: bool,
) -> (outcome: Result<LedgerCommand, ErrorCode>)
    ensures
        outcome == if text_fault(get_schema_response) {
            Err::<LedgerCommand, ErrorCode>(ErrorCode::CommonInvalidParam2)
        } else if !cb {
            Err(ErrorCode::CommonInvalidParam3)
        } else {
            Ok(
                LedgerCommand::ParseGetSchemaResponse {
                    get_schema_response: get_schema_response->0,
                },
            )
        },
{
    let get_schema_response = check_useful_c_str(get_schema_response, ErrorCode::CommonInvalidParam2)?;
    check_useful_c_callback(cb, ErrorCode::CommonInvalidParam3)?;
    Ok(LedgerCommand::ParseGetSchemaResponse { get_schema_response })
}

/// Builds a request that writes a credential definition to the ledger.
///
/// Vetted before the call: `submitter_did` as an identity and `data` as a
/// credential definition.
pub fn indy_build_cred_def_request(
    submitter_did: Arg<String>,
    data: Arg<String>,
    cb: bool,
) -> (outcome: Result<LedgerCommand, ErrorCode>)
    ensures
        outcome == if text_fault(submitter_did) {
            Err::<LedgerCommand, ErrorCode>(ErrorCode::CommonInvalidParam2)
        } else if text_fault(data) {
            Err(ErrorCode::CommonInvalidParam3)
        } else if !cb {
            Err(ErrorCode::CommonInvalidParam4)
        } else {
            Ok(
                LedgerCommand::BuildCredDefRequest {
                    submitter_did: submitter_did->0,
                    data: data->0,
                },
            )
        },
{
    let submitter_did = check_useful_c_str(submitter_did, ErrorCode::CommonInvalidParam2)?;
    let data = check_useful_c_str(data, ErrorCode::CommonInvalidParam3)?;
    check_useful_c_callback(cb, ErrorCode::CommonInvalidParam4)?;
    Ok(LedgerCommand::BuildCredDefRequest { submitter_did, data })
}

/// Builds a request that reads a credential definition from the ledger.
///
/// Vetted before the call: `submitter_did` as an identity and `id` as the
/// identifier of a credential definition.
pub fn indy_build_get_cred_def_request(
    submitter_did: Arg<String>,
    id: Arg<String>,
    cb: bool,
) -> (outcome: Result<LedgerCommand, ErrorCode>)
    ensures
        outcome == if optional_fault(submitter_did) {
            Err::<LedgerCommand, ErrorCode>(ErrorCode::CommonInvalidParam2)
        } else if text_fault(id) {
            Err(ErrorCode::CommonInvalidParam3)
        } else if !cb {
            Err(ErrorCode::CommonInvalidParam4)
        } else {
            Ok(
                LedgerCommand::BuildGetCredDefRequest {
                    submitter_did: optional(submitter_did),
                    id: id->0,
                },
            )
        },
{
    let submitter_did = check_useful_opt(submitter_did, ErrorCode::CommonInvalidParam2)?;
    let id = check_useful_c_str(id, ErrorCode::CommonInvalidParam3)?;
    check_useful_c_callback(cb, ErrorCode::CommonInvalidParam4)?;
    Ok(LedgerCommand::BuildGetCredDefRequest { submitter_did, id })
}

/// Reads the credential definition out of the reply to a request for one.
pub fn indy_parse_get_cred_def_response(
    get_cred_def_response: Arg<String>,
    cb: bool,
) -> (outcome: Result<LedgerCommand, ErrorCode>)
    ensures
        outcome == if text_fault(get_cred_def_response) {
            Err::<LedgerCommand, ErrorCode>(ErrorCode::CommonInvalidParam2)
        } else if !cb {
            Err(ErrorCode::CommonInvalidParam3)
        } else {
            Ok(
                LedgerCommand::ParseGetCredDefResponse {
                    get_cred_def_response: get_cred_def_response->0,
                },
            )
        },
{
    let get_cred_def_response = check_useful_c_str(get_cred_def_response, ErrorCode::CommonInvalidParam2)?;
    check_useful_c_callback(cb, ErrorCode::CommonInvalidParam3)?;
    Ok(LedgerCommand::ParseGetCredDefResponse { get_cred_def_response })
}

/// Builds a request that adds a node to the pool or changes one.
///
/// Vetted before the call: `submitter_did` as an identity, `target_did` as an
/// identity and `data` as the description of a node.
pub fn indy_build_node_request(
    submitter_did: Arg<String>,
    target_did: Arg<String>,
    data: Arg<String>,
    cb: bool,
) -> (outcome: Result<LedgerCommand, ErrorCode>)
    ensures
        outcome == if text_fault(submitter_did) {
            Err::<LedgerCommand, ErrorCode>(ErrorCode::CommonInvalidParam2)
        } else if text_fault(target_did) {
            Err(ErrorCode::CommonInvalidParam3)
        } else if text_fault(data) {
            Err(ErrorCode::CommonInvalidParam4)
        } else if !cb {
            Err(ErrorCode::CommonInvalidParam5)
        } else {
            Ok(
                LedgerCommand::BuildNodeRequest {
                    submitter_did: submitter_did->0,
                    target_did: target_did->0,
                    data: data->0,
                },
            )
        },
{
    let submitter_did = check_useful_c_str(submitter_did, ErrorCode::CommonInvalidParam2)?;
    let target_did = check_useful_c_str(target_did, ErrorCode::CommonInvalidParam3)?;
    let data = check_useful_c_str(data, ErrorCode::CommonInvalidParam4)?;
    check_useful_c_callback(cb, ErrorCode::CommonInvalidParam5)?;
    Ok(LedgerCommand::BuildNodeRequest { submitter_did, target_did, data })
}

/// Builds a request for the state of the validators.
///
/// Vetted before the call: `submitter_did` as an identity.
pub fn indy_build_get_validator_info_request(
    submitter_did: Arg<String>,
    cb: bool,
) -> (outcome: Result<LedgerCommand, ErrorCode>)
    ensures
        outcome == if text_fault(submitter_did) {
            Err::<LedgerCommand, ErrorCode>(ErrorCode::CommonInvalidParam2)
        } else if !cb {
            Err(ErrorCode::CommonInvalidParam4)
        } else {
            Ok(
                LedgerCommand::BuildGetValidatorInfoRequest {
                    submitter_did: submitter_did->0,
                },
            )
        },
{
    let submitter_did = check_useful_c_str(submitter_did, ErrorCode::CommonInvalidParam2)?;
    check_useful_c_callback(cb, ErrorCode::CommonInvalidParam4)?;
    Ok(LedgerCommand::BuildGetValidatorInfoRequest { submitter_did })
}

/// Builds a request that reads a transaction by its sequence number.
///
/// Vetted before the call: `submitter_did` as an identity.
pub fn indy_build_get_txn_request(
    submitter_did: Arg<String>,
    ledger_type: Arg<String>,
    seq_no: i32,
    cb: bool,
) -> (outcome: Result<LedgerCommand, ErrorCode>)
    ensures
        outcome == if optional_fault(submitter_did) {
            Err::<LedgerCommand, ErrorCode>(ErrorCode::CommonInvalidParam2)
        } else if optional_fault(ledger_type) {
            Err(ErrorCode::CommonInvalidParam4)
        } else if !cb {
            Err(ErrorCode::CommonInvalidParam5)
        } else {
            Ok(
                LedgerCommand::BuildGetTxnRequest {
                    submitter_did: optional(submitter_did),
                    ledger_type: optional(ledger_type),
                    seq_no,
                },
            )
        },
{
    let submitter_did = check_useful_opt(submitter_did, ErrorCode::CommonInvalidParam2)?;
    let ledger_type = check_useful_opt(ledger_type, ErrorCode::CommonInvalidParam4)?;
    check_useful_c_callback(cb, ErrorCode::CommonInvalidParam5)?;
    Ok(LedgerCommand::BuildGetTxnRequest { submitter_did, ledger_type, seq_no })
}

/// Builds a request that changes the configuration of the pool.
///
/// Vetted before the call: `submitter_did` as an identity.
pub fn indy_build_pool_config_request(
    submitter_did: Arg<String>,
    writes: bool,
    force: bool,
    cb: bool,
) -> (outcome: Result<LedgerCommand, ErrorCode>)
    ensures
        outcome == if text_fault(submitter_did) {
            Err::<LedgerCommand, ErrorCode>(ErrorCode::CommonInvalidParam2)
        } else if !cb {
            Err(ErrorCode::CommonInvalidParam5)
        } else {
            Ok(
                LedgerCommand::BuildPoolConfigRequest {
                    submitter_did: submitter_did->0,
                    writes,
                    force,
                },
            )
        },
{
    let submitter_did = check_useful_c_str(submitter_did, ErrorCode::CommonInvalidParam2)?;
    check_useful_c_callback(cb, ErrorCode::CommonInvalidParam5)?;
    Ok(LedgerCommand::BuildPoolConfigRequest { submitter_did, writes, force })
}

/// Builds a request that restarts the pool. The action is `start` or `cancel`.
///
/// Vetted before the call: `submitter_did` as an identity.
pub fn indy_build_pool_restart_request(
    submitter_did: Arg<String>,
    action: Arg<String>,
    datetime: Arg<String>,
    cb: bool,
) -> (outcome: Result<LedgerCommand, ErrorCode>)
    ensures
        outcome == if text_fault(submitter_did) {
            Err::<LedgerCommand, ErrorCode>(ErrorCode::CommonInvalidParam2)
        } else if text_fault(action) {
            Err(ErrorCode::CommonInvalidParam3)
        } else if optional_fault(datetime) {
            Err(ErrorCode::CommonInvalidParam4)
        } else if !cb {
            Err(ErrorCode::CommonInvalidParam5)
        } else if !is_start_or_cancel(action->0@) {
            Err(ErrorCode::CommonInvalidStructure)
        } else {
            Ok(
                LedgerCommand::BuildPoolRestartRequest {
                    submitter_did: submitter_did->0,
                    action: action->0,
                    datetime: optional(datetime),
                },
            )
        },
{
    let submitter_did = check_useful_c_str(submitter_did, ErrorCode::CommonInvalidParam2)?;
    let action = check_useful_c_str(action, ErrorCode::CommonInvalidParam3)?;
    let datetime = check_useful_opt(datetime, ErrorCode::CommonInvalidParam4)?;
    check_useful_c_callback(cb, ErrorCode::CommonInvalidParam5)?;
    if !is_start(action.as_str()) && !is_cancel(action.as_str()) {
        return Err(ErrorCode::CommonInvalidStructure);
    }
    Ok(LedgerCommand::BuildPoolRestartRequest { submitter_did, action, datetime })
}

/// Builds a request that upgrades the pool or cancels an upgrade. The action is
/// `start` or `cancel`; a start needs a schedule. A timeout of `-1` stands for
/// the default.
///
/// Vetted before the call: `submitter_did` as an identity and `schedule` as an
/// upgrade schedule.
pub fn indy_build_pool_upgrade_request(
    submitter_did: Arg<String>,
    name: Arg<String>,
    version: Arg<String>,
    action: Arg<String>,
    sha256: Arg<String>,
    timeout: i32,
    schedule: Arg<String>,
    justification: Arg<String>,
    reinstall: bool,
    force: bool,
    package: Arg<String>,
    cb: bool,
) -> (outcome: Result<LedgerCommand, ErrorCode>)
    ensures
        outcome == if text_fault(submitter_did) {
            Err::<LedgerCommand, ErrorCode>(ErrorCode::CommonInvalidParam2)
        } else if text_fault(name) {
            Err(ErrorCode::CommonInvalidParam3)
        } else if text_fault(version) {
            Err(ErrorCode::CommonInvalidParam4)
        } else if text_fault(action) {
            Err(ErrorCode::CommonInvalidParam5)
        } else if text_fault(sha256) {
            Err(ErrorCode::CommonInvalidParam6)
        } else if optional_fault(schedule) {
            Err(ErrorCode::CommonInvalidParam8)
        } else if optional_fault(justification) {
            Err(ErrorCode::CommonInvalidParam9)
        } else if optional_fault(package) {
            Err(ErrorCode::CommonInvalidParam12)
        } else if !cb {
            Err(ErrorCode::CommonInvalidParam13)
        } else if !is_start_or_cancel(action->0@) {
            Err(ErrorCode::CommonInvalidStructure)
        } else if action->0@ == spec_start() && optional(schedule) is None {
            Err(ErrorCode::CommonInvalidStructure)
        } else {
            Ok(
                LedgerCommand::BuildPoolUpgradeRequest {
                    submitter_did: submitter_did->0,
                    name: name->0,
                    version: version->0,
                    action: action->0,
                    sha256: sha256->0,
                    timeout: spec_opt_u32(timeout),
                    schedule: optional(schedule),
                    justification: optional(justification),
                    reinstall,
                    force,
                    package: optional(package),
                },
            )
        },
{
    let submitter_did = check_useful_c_str(submitter_did, ErrorCode::CommonInvalidParam2)?;
    let name = check_useful_c_str(name, ErrorCode::CommonInvalidParam3)?;
    let version = check_useful_c_str(version, ErrorCode::CommonInvalidParam4)?;
    let action = check_useful_c_str(action, ErrorCode::CommonInvalidParam5)?;
    let sha256 = check_useful_c_str(sha256, ErrorCode::CommonInvalidParam6)?;
    let timeout = check_useful_opt_u32(timeout);
    let schedule = check_useful_opt(schedule, ErrorCode::CommonInvalidParam8)?;
    let justification = check_useful_opt(justification, ErrorCode::CommonInvalidParam9)?;
    let package = check_useful_opt(package, ErrorCode::CommonInvalidParam12)?;
    check_useful_c_callback(cb, ErrorCode::CommonInvalidParam13)?;
    if !is_start(action.as_str()) && !is_cancel(action.as_str()) {
        return Err(ErrorCode::CommonInvalidStructure);
    }
    if is_start(action.as_str()) && schedule.is_none() {
        return Err(ErrorCode::CommonInvalidStructure);
    }
    Ok(
        LedgerCommand::BuildPoolUpgradeRequest {
            submitter_did,
            name,
            version,
            action,
            sha256,
            timeout,
            schedule,
            justification,
            reinstall,
            force,
            package,
        },
    )
}

/// Builds a request that writes the definition of a revocation registry to the
/// ledger.
///
/// Vetted before the call: `submitter_did` as an identity and `data` as the
/// definition of a revocation registry.
pub fn indy_build_revoc_reg_def_request(
    submitter_did: Arg<String>,
    data: Arg<String>,
    cb: bool,
) -> (outcome: Result<LedgerCommand, ErrorCode>)
    ensures
        outcome == if text_fault(submitter_did) {
            Err::<LedgerCommand, ErrorCode>(ErrorCode::CommonInvalidParam2)
        } else if text_fault(data) {
            Err(ErrorCode::CommonInvalidParam3)
        } else if !cb {
            Err(ErrorCode::CommonInvalidParam4)
        } else {
            Ok(
                LedgerCommand::BuildRevocRegDefRequest {
                    submitter_did: submitter_did->0,
                    data: data->0,
                },
            )
        },
{
    let submitter_did = check_useful_c_str(submitter_did, ErrorCode::CommonInvalidParam2)?;
    let data = check_useful_c_str(data, ErrorCode::CommonInvalidParam3)?;
    check_useful_c_callback(cb, ErrorCode::CommonInvalidParam4)?;
    Ok(LedgerCommand::BuildRevocRegDefRequest { submitter_did, data })
}

/// Builds a request that reads the definition of a revocation registry.
///
/// Vetted before the call: `submitter_did` as an identity and `id` as the
/// identifier of a revocation registry.
pub fn indy_build_get_revoc_reg_def_request(
    submitter_did: Arg<String>,
    id: Arg<String>,
    cb: bool,
) -> (outcome: Result<LedgerCommand, ErrorCode>)
    ensures
        outcome == if optional_fault(submitter_did) {
            Err::<LedgerCommand, ErrorCode>(ErrorCode::CommonInvalidParam2)
        } else if text_fault(id) {
            Err(ErrorCode::CommonInvalidParam3)
        } else if !cb {
            Err(ErrorCode::CommonInvalidParam4)
        } else {
            Ok(
                LedgerCommand::BuildGetRevocRegDefRequest {
                    submitter_did: optional(submitter_did),
                    id: id->0,
                },
            )
        },
{
    let submitter_did = check_useful_opt(submitter_did, ErrorCode::CommonInvalidParam2)?;
    let id = check_useful_c_str(id, ErrorCode::CommonInvalidParam3)?;
    check_useful_c_callback(cb, ErrorCode::CommonInvalidParam4)?;
    Ok(LedgerCommand::BuildGetRevocRegDefRequest { submitter_did, id })
}

/// Reads the definition of a revocation registry out of the reply to a request
/// for one.
pub fn indy_parse_get_revoc_reg_def_response(
    get_revoc_reg_def_response: Arg<String>,
    cb: bool,
) -> (outcome: Result<LedgerCommand, ErrorCode>)
    ensures
        outcome == if text_fault(get_revoc_reg_def_response) {
            Err::<LedgerCommand, ErrorCode>(ErrorCode::CommonInvalidParam2)
        } else if !cb {
            Err(ErrorCode::CommonInvalidParam3)
        } else {
            Ok(
                LedgerCommand::ParseGetRevocRegDefResponse {
                    get_revoc_reg_def_response: get_revoc_reg_def_response->0,
                },
            )
        },
{
    let get_revoc_reg_def_response = check_useful_c_str(get_revoc_reg_def_response, ErrorCode::CommonInvalidParam2)?;
    check_useful_c_callback(cb, ErrorCode::CommonInvalidParam3)?;
    Ok(LedgerCommand::ParseGetRevocRegDefResponse { get_revoc_reg_def_response })
}

/// Builds a request that writes an entry of a revocation registry to the
/// ledger.
///
/// Vetted before the call: `submitter_did` as an identity, `revoc_reg_def_id`
/// as the identifier of a revocation registry and `value` as the delta of a
/// revocation registry.
pub fn indy_build_revoc_reg_entry_request(
    submitter_did: Arg<String>,
    revoc_reg_def_id: Arg<String>,
    rev_def_type: Arg<String>,
    value: Arg<String>,
    cb: bool,
) -> (outcome: Result<LedgerCommand, ErrorCode>)
    ensures
        outcome == if text_fault(submitter_did) {
            Err::<LedgerCommand, ErrorCode>(ErrorCode::CommonInvalidParam2)
        } else if text_fault(revoc_reg_def_id) {
            Err(ErrorCode::CommonInvalidParam3)
        } else if text_fault(rev_def_type) {
            Err(ErrorCode::CommonInvalidParam4)
        } else if text_fault(value) {
            Err(ErrorCode::CommonInvalidParam5)
        } else if !cb {
            Err(ErrorCode::CommonInvalidParam6)
        } else {
            Ok(
                LedgerCommand::BuildRevocRegEntryRequest {
                    submitter_did: submitter_did->0,
                    revoc_reg_def_id: revoc_reg_def_id->0,
                    rev_def_type: rev_def_type->0,
                    value: value->0,
                },
            )
        },
{
    let submitter_did = check_useful_c_str(submitter_did, ErrorCode::CommonInvalidParam2)?;
    let revoc_reg_def_id = check_useful_c_str(revoc_reg_def_id, ErrorCode::CommonInvalidParam3)?;
    let rev_def_type = check_useful_c_str(rev_def_type, ErrorCode::CommonInvalidParam4)?;
    let value = check_useful_c_str(value, ErrorCode::CommonInvalidParam5)?;
    check_useful_c_callback(cb, ErrorCode::CommonInvalidParam6)?;
    Ok(
        LedgerCommand::BuildRevocRegEntryRequest {
            submitter_did,
            revoc_reg_def_id,
            rev_def_type,
            value,
        },
    )
}

/// Builds a request that reads the state of a revocation registry at a time.
///
/// Vetted before the call: `submitter_did` as an identity and
/// `revoc_reg_def_id` as the identifier of a revocation registry.
pub fn indy_build_get_revoc_reg_request(
    submitter_did: Arg<String>,
    revoc_reg_def_id: Arg<String>,
    timestamp: i64,
    cb: bool,
) -> (outcome: Result<LedgerCommand, ErrorCode>)
    ensures
        outcome == if optional_fault(submitter_did) {
            Err::<LedgerCommand, ErrorCode>(ErrorCode::CommonInvalidParam2)
        } else if text_fault(revoc_reg_def_id) {
            Err(ErrorCode::CommonInvalidParam3)
        } else if !cb {
            Err(ErrorCode::CommonInvalidParam5)
        } else {
            Ok(
                LedgerCommand::BuildGetRevocRegRequest {
                    submitter_did: optional(submitter_did),
                    revoc_reg_def_id: revoc_reg_def_id->0,
                    timestamp,
                },
            )
        },
{
    let submitter_did = check_useful_opt(submitter_did, ErrorCode::CommonInvalidParam2)?;
    let revoc_reg_def_id = check_useful_c_str(revoc_reg_def_id, ErrorCode::CommonInvalidParam3)?;
    check_useful_c_callback(cb, ErrorCode::CommonInvalidParam5)?;
    Ok(LedgerCommand::BuildGetRevocRegRequest { submitter_did, revoc_reg_def_id, timestamp })
}

/// Reads the state of a revocation registry out of the reply to a request for
/// it.
pub fn indy_parse_get_revoc_reg_response(
    get_revoc_reg_response: Arg<String>,
    cb: bool,
) -> (outcome: Result<LedgerCommand, ErrorCode>)
    ensures
        outcome == if text_fault(get_revoc_reg_response) {
            Err::<LedgerCommand, ErrorCode>(ErrorCode::CommonInvalidParam2)
        } else if !cb {
            Err(ErrorCode::CommonInvalidParam3)
        } else {
            Ok(
                LedgerCommand::ParseGetRevocRegResponse {
                    get_revoc_reg_response: get_revoc_reg_response->0,
                },
            )
        },
{
    let get_revoc_reg_response = check_useful_c_str(get_revoc_reg_response, ErrorCode::CommonInvalidParam2)?;
    check_useful_c_callback(cb, ErrorCode::CommonInvalidParam3)?;
    Ok(LedgerCommand::ParseGetRevocRegResponse { get_revoc_reg_response })
}

/// Builds a request that reads what changed in a revocation registry between
/// two times. A start of `-1` stands for the beginning.
///
/// Vetted before the call: `submitter_did` as an identity and
/// `revoc_reg_def_id` as the identifier of a revocation registry.
pub fn indy_build_get_revoc_reg_delta_request(
    submitter_did: Arg<String>,
    revoc_reg_def_id: Arg<String>,
    from: i64,
    to: i64,
    cb: bool,
) -> (outcome: Result<LedgerCommand, ErrorCode>)
    ensures
        outcome == if optional_fault(submitter_did) {
            Err::<LedgerCommand, ErrorCode>(ErrorCode::CommonInvalidParam2)
        } else if text_fault(revoc_reg_def_id) {
            Err(ErrorCode::CommonInvalidParam3)
        } else if !cb {
            Err(ErrorCode::CommonInvalidParam5)
        } else {
            Ok(
                LedgerCommand::BuildGetRevocRegDeltaRequest {
                    submitter_did: optional(submitter_did),
                    revoc_reg_def_id: revoc_reg_def_id->0,
                    from: if from == -1 { None } else { Some(from) },
                    to,
                },
            )
        },
{
    let submitter_did = check_useful_opt(submitter_did, ErrorCode::CommonInvalidParam2)?;
    let revoc_reg_def_id = check_useful_c_str(revoc_reg_def_id, ErrorCode::CommonInvalidParam3)?;
    let from = if from != -1 { Some(from) } else { None };
    check_useful_c_callback(cb, ErrorCode::CommonInvalidParam5)?;
    Ok(LedgerCommand::BuildGetRevocRegDeltaRequest { submitter_did, revoc_reg_def_id, from, to })
}

/// Reads the changes of a revocation registry out of the reply to a request for
/// them.
pub fn indy_parse_get_revoc_reg_delta_response(
    get_revoc_reg_delta_response: Arg<String>,
    cb: bool,
) -> (outcome: Result<LedgerCommand, ErrorCode>)
    ensures
        outcome == if text_fault(get_revoc_reg_delta_response) {
            Err::<LedgerCommand, ErrorCode>(ErrorCode::CommonInvalidParam2)
        } else if !cb {
            Err(ErrorCode::CommonInvalidParam3)
        } else {
            Ok(
                LedgerCommand::ParseGetRevocRegDeltaResponse {
                    get_revoc_reg_delta_response: get_revoc_reg_delta_response->0,
                },
            )
        },
{
    let get_revoc_reg_delta_response = check_useful_c_str(get_revoc_reg_delta_response, ErrorCode::CommonInvalidParam2)?;
    check_useful_c_callback(cb, ErrorCode::CommonInvalidParam3)?;
    Ok(LedgerCommand::ParseGetRevocRegDeltaResponse { get_revoc_reg_delta_response })
}

/// Reads the freshness facts out of a reply.
pub fn indy_get_response_metadata(
    response: Arg<String>,
    cb: bool,
) -> (outcome: Result<LedgerCommand, ErrorCode>)
    ensures
        outcome == if text_fault(response) {
            Err::<LedgerCommand, ErrorCode>(ErrorCode::CommonInvalidParam2)
        } else if !cb {
            Err(ErrorCode::CommonInvalidParam3)
        } else {
            Ok(
                LedgerCommand::GetResponseMetadata {
                    response: response->0,
                },
            )
        },
{
    let response = check_useful_c_str(response, ErrorCode::CommonInvalidParam2)?;
    check_useful_c_callback(cb, ErrorCode::CommonInvalidParam3)?;
    Ok(LedgerCommand::GetResponseMetadata { response })
}

/// Builds a request for the list of frozen ledgers.
///
/// Vetted before the call: `submitter_did` as an identity.
pub fn indy_build_get_frozen_ledgers_request(
    submitter_did: Arg<String>,
    cb: bool,
) -> (outcome: Result<LedgerCommand, ErrorCode>)
    ensures
        outcome == if text_fault(submitter_did) {
            Err::<LedgerCommand, ErrorCode>(ErrorCode::CommonInvalidParam2)
        } else if !cb {
            Err(ErrorCode::CommonInvalidParam3)
        } else {
            Ok(
                LedgerCommand::BuildGetFrozenLedgersRequest {
                    submitter_did: submitter_did->0,
                },
            )
        },
{
    let submitter_did = check_useful_c_str(submitter_did, ErrorCode::CommonInvalidParam2)?;
    check_useful_c_callback(cb, ErrorCode::CommonInvalidParam3)?;
    Ok(LedgerCommand::BuildGetFrozenLedgersRequest { submitter_did })
}

/// Builds a request that changes the rule for one kind of transaction.
///
/// Vetted before the call: `submitter_did` as an identity and `constraint` as
/// the constraint of a rule.
pub fn indy_build_auth_rule_request(
    submitter_did: Arg<String>,
    txn_type: Arg<String>,
    action: Arg<String>,
    field: Arg<String>,
    old_value: Arg<String>,
    new_value: Arg<String>,
    constraint: Arg<String>,
    cb: bool,
) -> (outcome: Result<LedgerCommand, ErrorCode>)
    ensures
        outcome == if text_fault(submitter_did) {
            Err::<LedgerCommand, ErrorCode>(ErrorCode::CommonInvalidParam2)
        } else if text_fault(txn_type) {
            Err(ErrorCode::CommonInvalidParam3)
        } else if text_fault(action) {
            Err(ErrorCode::CommonInvalidParam4)
        } else if text_fault(field) {
            Err(ErrorCode::CommonInvalidParam5)
        } else if optional_fault(old_value) {
            Err(ErrorCode::CommonInvalidParam6)
        } else if optional_fault(new_value) {
            Err(ErrorCode::CommonInvalidParam7)
        } else if text_fault(constraint) {
            Err(ErrorCode::CommonInvalidParam8)
        } else if !cb {
            Err(ErrorCode::CommonInvalidParam9)
        } else {
            Ok(
                LedgerCommand::BuildAuthRuleRequest {
                    submitter_did: submitter_did->0,
                    txn_type: txn_type->0,
                    action: action->0,
                    field: field->0,
                    old_value: optional(old_value),
                    new_value: optional(new_value),
                    constraint: constraint->0,
                },
            )
        },
{
    let submitter_did = check_useful_c_str(submitter_did, ErrorCode::CommonInvalidParam2)?;
    let txn_type = check_useful_c_str(txn_type, ErrorCode::CommonInvalidParam3)?;
    let action = check_useful_c_str(action, ErrorCode::CommonInvalidParam4)?;
    let field = check_useful_c_str(field, ErrorCode::CommonInvalidParam5)?;
    let old_value = check_useful_opt(old_value, ErrorCode::CommonInvalidParam6)?;
    let new_value = check_useful_opt(new_value, ErrorCode::CommonInvalidParam7)?;
    let constraint = check_useful_c_str(constraint, ErrorCode::CommonInvalidParam8)?;
    check_useful_c_callback(cb, ErrorCode::CommonInvalidParam9)?;
    Ok(
        LedgerCommand::BuildAuthRuleRequest {
            submitter_did,
            txn_type,
            action,
            field,
            old_value,
            new_value,
            constraint,
        },
    )
}

/// Builds a request that changes several rules at once. The list of rules must
/// not be empty.
///
/// Vetted before the call: `submitter_did` as an identity and `rules` as a list
/// of rules.
pub fn indy_build_auth_rules_request(
    submitter_did: Arg<String>,
    rules: Arg<Listing>,
    cb: bool,
) -> (outcome: Result<LedgerCommand, ErrorCode>)
    ensures
        outcome == if text_fault(submitter_did) {
            Err::<LedgerCommand, ErrorCode>(ErrorCode::CommonInvalidParam2)
        } else if value_fault(rules) {
            Err(ErrorCode::CommonInvalidParam3)
        } else if !cb {
            Err(ErrorCode::CommonInvalidParam4)
        } else if rules->0.len == 0 {
            Err(ErrorCode::CommonInvalidStructure)
        } else {
            Ok(
                LedgerCommand::BuildAuthRulesRequest {
                    submitter_did: submitter_did->0,
                    rules: rules->0,
                },
            )
        },
{
    let submitter_did = check_useful_c_str(submitter_did, ErrorCode::CommonInvalidParam2)?;
    let rules = check_useful(rules, ErrorCode::CommonInvalidParam3)?;
    check_useful_c_callback(cb, ErrorCode::CommonInvalidParam4)?;
    if rules.len == 0 {
        return Err(ErrorCode::CommonInvalidStructure);
    }
    Ok(LedgerCommand::BuildAuthRulesRequest { submitter_did, rules })
}

/// Builds a request that reads the rule for one kind of transaction, or all
/// rules.
///
/// Vetted before the call: `submitter_did` as an identity.
pub fn indy_build_get_auth_rule_request(
    submitter_did: Arg<String>,
    txn_type: Arg<String>,
    action: Arg<String>,
    field: Arg<String>,
    old_value: Arg<String>,
    new_value: Arg<String>,
    cb: bool,
) -> (outcome: Result<LedgerCommand, ErrorCode>)
    ensures
        outcome == if optional_fault(submitter_did) {
            Err::<LedgerCommand, ErrorCode>(ErrorCode::CommonInvalidParam2)
        } else if optional_fault(txn_type) {
            Err(ErrorCode::CommonInvalidParam3)
        } else if optional_fault(action) {
            Err(ErrorCode::CommonInvalidParam4)
        } else if optional_fault(field) {
            Err(ErrorCode::CommonInvalidParam5)
        } else if optional_fault(old_value) {
            Err(ErrorCode::CommonInvalidParam6)
        } else if optional_fault(new_value) {
            Err(ErrorCode::CommonInvalidParam7)
        } else if !cb {
            Err(ErrorCode::CommonInvalidParam8)
        } else {
            Ok(
                LedgerCommand::BuildGetAuthRuleRequest {
                    submitter_did: optional(submitter_did),
                    txn_type: optional(txn_type),
                    action: optional(action),
                    field: optional(field),
                    old_value: optional(old_value),
                    new_value: optional(new_value),
                },
            )
        },
{
    let submitter_did = check_useful_opt(submitter_did, ErrorCode::CommonInvalidParam2)?;
    let txn_type = check_useful_opt(txn_type, ErrorCode::CommonInvalidParam3)?;
    let action = check_useful_opt(action, ErrorCode::CommonInvalidParam4)?;
    let field = check_useful_opt(field, ErrorCode::CommonInvalidParam5)?;
    let old_value = check_useful_opt(old_value, ErrorCode::CommonInvalidParam6)?;
    let new_value = check_useful_opt(new_value, ErrorCode::CommonInvalidParam7)?;
    check_useful_c_callback(cb, ErrorCode::CommonInvalidParam8)?;
    Ok(
        LedgerCommand::BuildGetAuthRuleRequest {
            submitter_did,
            txn_type,
            action,
            field,
            old_value,
            new_value,
        },
    )
}

/// Builds a request that writes an author agreement to the ledger. A time of
/// `-1` stands for none.
///
/// Vetted before the call: `submitter_did` as an identity.
pub fn indy_build_txn_author_agreement_request(
    submitter_did: Arg<String>,
    text: Arg<String>,
    version: Arg<String>,
    ratification_ts: i64,
    retirement_ts: i64,
    cb: bool,
) -> (outcome: Result<LedgerCommand, ErrorCode>)
    ensures
        outcome == if text_fault(submitter_did) {
            Err::<LedgerCommand, ErrorCode>(ErrorCode::CommonInvalidParam2)
        } else if optional_fault(text) {
            Err(ErrorCode::CommonInvalidParam3)
        } else if text_fault(version) {
            Err(ErrorCode::CommonInvalidParam4)
        } else if !cb {
            Err(ErrorCode::CommonInvalidParam7)
        } else {
            Ok(
                LedgerCommand::BuildTxnAuthorAgreementRequest {
                    submitter_did: submitter_did->0,
                    text: optional(text),
                    version: version->0,
                    ratification_ts: spec_opt_u64(ratification_ts),
                    retirement_ts: spec_opt_u64(retirement_ts),
                },
            )
        },
{
    let submitter_did = check_useful_c_str(submitter_did, ErrorCode::CommonInvalidParam2)?;
    let text = check_useful_opt(text, ErrorCode::CommonInvalidParam3)?;
    let version = check_useful_c_str(version, ErrorCode::CommonInvalidParam4)?;
    let ratification_ts = check_useful_opt_u64(ratification_ts);
    let retirement_ts = check_useful_opt_u64(retirement_ts);
    check_useful_c_callback(cb, ErrorCode::CommonInvalidParam7)?;
    Ok(
        LedgerCommand::BuildTxnAuthorAgreementRequest {
            submitter_did,
            text,
            version,
            ratification_ts,
            retirement_ts,
        },
    )
}

/// Builds a request that disables every author agreement on the ledger.
///
/// Vetted before the call: `submitter_did` as an identity.
pub fn indy_build_disable_all_txn_author_agreements_request(
    submitter_did: Arg<String>,
    cb: bool,
) -> (outcome: Result<LedgerCommand, ErrorCode>)
    ensures
        outcome == if text_fault(submitter_did) {
            Err::<LedgerCommand, ErrorCode>(ErrorCode::CommonInvalidParam2)
        } else if !cb {
            Err(ErrorCode::CommonInvalidParam7)
        } else {
            Ok(
                LedgerCommand::BuildDisableAllTxnAuthorAgreementsRequest {
                    submitter_did: submitter_did->0,
                },
            )
        },
{
    let submitter_did = check_useful_c_str(submitter_did, ErrorCode::CommonInvalidParam2)?;
    check_useful_c_callback(cb, ErrorCode::CommonInvalidParam7)?;
    Ok(LedgerCommand::BuildDisableAllTxnAuthorAgreementsRequest { submitter_did })
}

/// Builds a request that reads an author agreement from the ledger.
///
/// Vetted before the call: `submitter_did` as an identity and `data` as the
/// selection of an author agreement.
pub fn indy_build_get_txn_author_agreement_request(
    submitter_did: Arg<String>,
    data: Arg<String>,
    cb: bool,
) -> (outcome: Result<LedgerCommand, ErrorCode>)
    ensures
        outcome == if optional_fault(submitter_did) {
            Err::<LedgerCommand, ErrorCode>(ErrorCode::CommonInvalidParam2)
        } else if optional_fault(data) {
            Err(ErrorCode::CommonInvalidParam3)
        } else if !cb {
            Err(ErrorCode::CommonInvalidParam4)
        } else {
            Ok(
                LedgerCommand::BuildGetTxnAuthorAgreementRequest {
                    submitter_did: optional(submitter_did),
                    data: optional(data),
                },
            )
        },
{
    let submitter_did = check_useful_opt(submitter_did, ErrorCode::CommonInvalidParam2)?;
    let data = check_useful_opt(data, ErrorCode::CommonInvalidParam3)?;
    check_useful_c_callback(cb, ErrorCode::CommonInvalidParam4)?;
    Ok(LedgerCommand::BuildGetTxnAuthorAgreementRequest { submitter_did, data })
}

/// Builds a request that writes a list of acceptance mechanisms to the ledger.
///
/// Vetted before the call: `submitter_did` as an identity and `aml` as a list
/// of acceptance mechanisms.
pub fn indy_build_acceptance_mechanisms_request(
    submitter_did: Arg<String>,
    aml: Arg<String>,
    version: Arg<String>,
    aml_context: Arg<String>,
    cb: bool,
) -> (outcome: Result<LedgerCommand, ErrorCode>)
    ensures
        outcome == if text_fault(submitter_did) {
            Err::<LedgerCommand, ErrorCode>(ErrorCode::CommonInvalidParam2)
        } else if text_fault(aml) {
            Err(ErrorCode::CommonInvalidParam3)
        } else if text_fault(version) {
            Err(ErrorCode::CommonInvalidParam4)
        } else if optional_fault(aml_context) {
            Err(ErrorCode::CommonInvalidParam5)
        } else if !cb {
            Err(ErrorCode::CommonInvalidParam6)
        } else {
            Ok(
                LedgerCommand::BuildAcceptanceMechanismRequests {
                    submitter_did: submitter_did->0,
                    aml: aml->0,
                    version: version->0,
                    aml_context: optional(aml_context),
                },
            )
        },
{
    let submitter_did = check_useful_c_str(submitter_did, ErrorCode::CommonInvalidParam2)?;
    let aml = check_useful_c_str(aml, ErrorCode::CommonInvalidParam3)?;
    let version = check_useful_c_str(version, ErrorCode::CommonInvalidParam4)?;
    let aml_context = check_useful_opt(aml_context, ErrorCode::CommonInvalidParam5)?;
    check_useful_c_callback(cb, ErrorCode::CommonInvalidParam6)?;
    Ok(LedgerCommand::BuildAcceptanceMechanismRequests { submitter_did, aml, version, aml_context })
}

/// Builds a request that reads a list of acceptance mechanisms from the ledger.
/// A time of `-1` stands for none.
///
/// Vetted before the call: `submitter_did` as an identity.
pub fn indy_build_get_acceptance_mechanisms_request(
    submitter_did: Arg<String>,
    timestamp: i64,
    version: Arg<String>,
    cb: bool,
) -> (outcome: Result<LedgerCommand, ErrorCode>)
    ensures
        outcome == if optional_fault(submitter_did) {
            Err::<LedgerCommand, ErrorCode>(ErrorCode::CommonInvalidParam2)
        } else if optional_fault(version) {
            Err(ErrorCode::CommonInvalidParam4)
        } else if !cb {
            Err(ErrorCode::CommonInvalidParam5)
        } else {
            Ok(
                LedgerCommand::BuildGetAcceptanceMechanismsRequest {
                    submitter_did: optional(submitter_did),
                    timestamp: spec_opt_u64(timestamp),
                    version: optional(version),
                },
            )
        },
{
    let submitter_did = check_useful_opt(submitter_did, ErrorCode::CommonInvalidParam2)?;
    let timestamp = check_useful_opt_u64(timestamp);
    let version = check_useful_opt(version, ErrorCode::CommonInvalidParam4)?;
    check_useful_c_callback(cb, ErrorCode::CommonInvalidParam5)?;
    Ok(LedgerCommand::BuildGetAcceptanceMechanismsRequest { submitter_did, timestamp, version })
}

/// Adds the acceptance of an author agreement to a request.
pub fn indy_append_txn_author_agreement_acceptance_to_request(
    request_json: Arg<String>,
    text: Arg<String>,
    version: Arg<String>,
    taa_digest: Arg<String>,
    mechanism: Arg<String>,
    time: u64,
    cb: bool,
) -> (outcome: Result<LedgerCommand, ErrorCode>)
    ensures
        outcome == if text_fault(request_json) {
            Err::<LedgerCommand, ErrorCode>(ErrorCode::CommonInvalidParam2)
        } else if optional_fault(text) {
            Err(ErrorCode::CommonInvalidParam3)
        } else if optional_fault(version) {
            Err(ErrorCode::CommonInvalidParam4)
        } else if optional_fault(taa_digest) {
            Err(ErrorCode::CommonInvalidParam5)
        } else if text_fault(mechanism) {
            Err(ErrorCode::CommonInvalidParam6)
        } else if !cb {
            Err(ErrorCode::CommonInvalidParam8)
        } else {
            Ok(
                LedgerCommand::AppendTxnAuthorAgreementAcceptanceToRequest {
                    request_json: request_json->0,
                    text: optional(text),
                    version: optional(version),
                    taa_digest: optional(taa_digest),
                    mechanism: mechanism->0,
                    time,
                },
            )
        },
{
    let request_json = check_useful_c_str(request_json, ErrorCode::CommonInvalidParam2)?;
    let text = check_useful_opt(text, ErrorCode::CommonInvalidParam3)?;
    let version = check_useful_opt(version, ErrorCode::CommonInvalidParam4)?;
    let taa_digest = check_useful_opt(taa_digest, ErrorCode::CommonInvalidParam5)?;
    let mechanism = check_useful_c_str(mechanism, ErrorCode::CommonInvalidParam6)?;
    check_useful_c_callback(cb, ErrorCode::CommonInvalidParam8)?;
    Ok(
        LedgerCommand::AppendTxnAuthorAgreementAcceptanceToRequest {
            request_json,
            text,
            version,
            taa_digest,
            mechanism,
            time,
        },
    )
}

/// Names the endorser of a request in the request.
///
/// Vetted before the call: `endorser_did` as an identity.
pub fn indy_append_request_endorser(
    request_json: Arg<String>,
    endorser_did: Arg<String>,
    cb: bool,
) -> (outcome: Result<LedgerCommand, ErrorCode>)
    ensures
        outcome == if text_fault(request_json) {
            Err::<LedgerCommand, ErrorCode>(ErrorCode::CommonInvalidParam2)
        } else if text_fault(endorser_did) {
            Err(ErrorCode::CommonInvalidParam3)
        } else if !cb {
            Err(ErrorCode::CommonInvalidParam4)
        } else {
            Ok(
                LedgerCommand::AppendRequestEndorser {
                    request_json: request_json->0,
                    endorser_did: endorser_did->0,
                },
            )
        },
{
    let request_json = check_useful_c_str(request_json, ErrorCode::CommonInvalidParam2)?;
    let endorser_did = check_useful_c_str(endorser_did, ErrorCode::CommonInvalidParam3)?;
    check_useful_c_callback(cb, ErrorCode::CommonInvalidParam4)?;
    Ok(LedgerCommand::AppendRequestEndorser { request_json, endorser_did })
}

/// What `attrib_request` returns. The raw attribute counts as unusable if it
/// was passed and is no JSON document.
pub open spec fn spec_attrib_request(
    submitter_did: Arg<String>,
    target_did: Arg<String>,
    hash: Arg<String>,
    raw: Arg<String>,
    raw_is_json: bool,
    enc: Arg<String>,
    cb: bool,
) -> Result<LedgerCommand, ErrorCode> {
    if text_fault(submitter_did) {
        Err(ErrorCode::CommonInvalidParam2)
    } else if text_fault(target_did) {
        Err(ErrorCode::CommonInvalidParam3)
    } else if optional_fault(hash) {
        Err(ErrorCode::CommonInvalidParam4)
    } else if optional_fault(raw) || (raw is Given && !raw_is_json) {
        Err(ErrorCode::CommonInvalidParam5)
    } else if optional_fault(enc) {
        Err(ErrorCode::CommonInvalidParam6)
    } else if !cb {
        Err(ErrorCode::CommonInvalidParam7)
    } else if optional(raw) is None && optional(hash) is None && optional(enc) is None {
        Err(ErrorCode::CommonInvalidStructure)
    } else {
        Ok(
            LedgerCommand::BuildAttribRequest {
                submitter_did: submitter_did->0,
                target_did: target_did->0,
                hash: optional(hash),
                raw: optional(raw),
                enc: optional(enc),
            },
        )
    }
}

/// Builds a request that writes an attribute of an identity to the ledger,
/// given whether the raw attribute is a JSON document. One of `raw`, `hash`
/// and `enc` must be given.
pub fn attrib_request(
    submitter_did: Arg<String>,
    target_did: Arg<String>,
    hash: Arg<String>,
    raw: Arg<String>,
    raw_is_json: bool,
    enc: Arg<String>,
    cb: bool,
) -> (outcome: Result<LedgerCommand, ErrorCode>)
    ensures
        outcome == spec_attrib_request(submitter_did, target_did, hash, raw, raw_is_json, enc, cb),
{
    let submitter_did = check_useful_c_str(submitter_did, ErrorCode::CommonInvalidParam2)?;
    let target_did = check_useful_c_str(target_did, ErrorCode::CommonInvalidParam3)?;
    let hash = check_useful_opt(hash, ErrorCode::CommonInvalidParam4)?;
    let raw = check_useful_opt(raw, ErrorCode::CommonInvalidParam5)?;
    if raw.is_some() && !raw_is_json {
        return Err(ErrorCode::CommonInvalidParam5);
    }
    let enc = check_useful_opt(enc, ErrorCode::CommonInvalidParam6)?;
    check_useful_c_callback(cb, ErrorCode::CommonInvalidParam7)?;
    if raw.is_none() && hash.is_none() && enc.is_none() {
        return Err(ErrorCode::CommonInvalidStructure);
    }
    Ok(LedgerCommand::BuildAttribRequest { submitter_did, target_did, hash, raw, enc })
}

/// Builds a request that writes an attribute of an identity to the ledger.
/// The raw attribute, if it is passed, must be a JSON document. One of `raw`,
/// `hash` and `enc` must be given.
///
/// Vetted before the call: `submitter_did` as an identity and `target_did` as
/// an identity.
pub fn indy_build_attrib_request(
    submitter_did: Arg<String>,
    target_did: Arg<String>,
    hash: Arg<String>,
    raw: Arg<String>,
    enc: Arg<String>,
    cb: bool,
) -> (outcome: Result<LedgerCommand, ErrorCode>)
    ensures
        outcome == spec_attrib_request(
            submitter_did,
            target_did,
            hash,
            raw,
            raw is Given && spec_is_json(raw->0@),
            enc,
            cb,
        ),
{
    let raw_is_json = match &raw {
        Arg::Given(text) => is_json(text.as_str()),
        _ => false,
    };
    attrib_request(submitter_did, target_did, hash, raw, raw_is_json, enc, cb)
}

/// What `ledgers_freeze_request` returns. The list counts as unusable if its
/// text did not parse.
pub open spec fn spec_ledgers_freeze_request(
    submitter_did: Arg<String>,
    ledgers_ids: Arg<String>,
    parsed: Option<Vec<u64>>,
    cb: bool,
) -> Result<LedgerCommand, ErrorCode> {
    if text_fault(submitter_did) {
        Err(ErrorCode::CommonInvalidParam2)
    } else if text_fault(ledgers_ids) || parsed is None {
        Err(ErrorCode::CommonInvalidParam3)
    } else if !cb {
        Err(ErrorCode::CommonInvalidParam4)
    } else {
        Ok(
            LedgerCommand::BuildLedgersFreezeRequest {
                submitter_did: submitter_did->0,
                ledgers_ids: parsed->0,
            },
        )
    }
}

/// Builds a request that freezes ledgers, given the list that the text of
/// `ledgers_ids` parsed to, if it parsed.
pub fn ledgers_freeze_request(
    submitter_did: Arg<String>,
    ledgers_ids: Arg<String>,
    parsed: Option<Vec<u64>>,
    cb: bool,
) -> (outcome: Result<LedgerCommand, ErrorCode>)
    ensures
        outcome == spec_ledgers_freeze_request(submitter_did, ledgers_ids, parsed, cb),
{
    let submitter_did = check_useful_c_str(submitter_did, ErrorCode::CommonInvalidParam2)?;
    let _ = check_useful_c_str(ledgers_ids, ErrorCode::CommonInvalidParam3)?;
    let ledgers_ids = match parsed {
        Some(numbers) => numbers,
        None => {
            return Err(ErrorCode::CommonInvalidParam3);
        },
    };
    check_useful_c_callback(cb, ErrorCode::CommonInvalidParam4)?;
    Ok(LedgerCommand::BuildLedgersFreezeRequest { submitter_did, ledgers_ids })
}

/// Builds a request that freezes ledgers. `ledgers_ids` is a JSON list of
/// unsigned numbers.
///
/// Vetted before the call: `submitter_did` as an identity.
pub fn indy_build_ledgers_freeze_request(
    submitter_did: Arg<String>,
    ledgers_ids: Arg<String>,
    cb: bool,
) -> (outcome: Result<LedgerCommand, ErrorCode>)
    ensures
        match outcome {
            Ok(command) => {
                &&& !text_fault(submitter_did)
                &&& !text_fault(ledgers_ids)
                &&& cb
                &&& command matches LedgerCommand::BuildLedgersFreezeRequest {
                    submitter_did: did,
                    ledgers_ids: numbers,
                }
                &&& did == submitter_did->0
                &&& spec_u64_list(ledgers_ids->0@) == Some(numbers@)
            },
            Err(code) => code == if text_fault(submitter_did) {
                ErrorCode::CommonInvalidParam2
            } else if text_fault(ledgers_ids) || spec_u64_list(ledgers_ids->0@) is None {
                ErrorCode::CommonInvalidParam3
            } else {
                ErrorCode::CommonInvalidParam4
            } && (text_fault(submitter_did) || text_fault(ledgers_ids) || spec_u64_list(
                ledgers_ids->0@,
            ) is None || !cb),
        },
{
    let parsed = match &ledgers_ids {
        Arg::Given(text) => u64_list(text.as_str()),
        _ => None,
    };
    ledgers_freeze_request(submitter_did, ledgers_ids, parsed, cb)
}

/// Takes the routines that verify the replies of one transaction type: the
/// parser and the routine that releases what the parser allocated. Both must
/// be passed. What is returned is ready for the registry.
pub fn indy_register_transaction_parser_for_sp<P, R>(
    txn_type: Arg<String>,
    parser: Option<P>,
    free: Option<R>,
    cb: bool,
) -> (outcome: Result<StateProofParser<P, R>, ErrorCode>)
    ensures
        outcome == if text_fault(txn_type) {
            Err::<StateProofParser<P, R>, ErrorCode>(ErrorCode::CommonInvalidParam2)
        } else if parser is None {
            Err(ErrorCode::CommonInvalidParam3)
        } else if free is None {
            Err(ErrorCode::CommonInvalidParam4)
        } else if !cb {
            Err(ErrorCode::CommonInvalidParam5)
        } else {
            Ok(StateProofParser { txn_type: txn_type->0, parse: parser->0, release: free->0 })
        },
{
    let txn_type = check_useful_c_str(txn_type, ErrorCode::CommonInvalidParam2)?;
    let parse = match parser {
        Some(routine) => routine,
        None => {
            return Err(ErrorCode::CommonInvalidParam3);
        },
    };
    let release = match free {
        Some(routine) => routine,
        None => {
            return Err(ErrorCode::CommonInvalidParam4);
        },
    };
    check_useful_c_callback(cb, ErrorCode::CommonInvalidParam5)?;
    Ok(StateProofParser { txn_type, parse, release })
}

} // verus!
