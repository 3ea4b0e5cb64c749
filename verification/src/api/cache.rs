//! Operations on the cache of ledger artifacts.

use crate::api::args::{check_useful, check_useful_c_callback, check_useful_c_str, text_fault, value_fault, Arg};
use crate::coordinator::{CredDefCall, PurgeCall, SchemaCall};
use crate::entry::{PoolHandle, WalletHandle};
use crate::error::ErrorCode;
use crate::freshness::{CredDefOptions, FetchOptions, PurgeOptions};
use vstd::prelude::*;

verus! {

/// A command on the cache, with its checked arguments.
#[derive(Debug)]
pub enum CacheCommand {
    GetCredDef(CredDefCall),
    GetSchema(SchemaCall),
    PurgeCredDefCache(PurgeCall),
    PurgeSchemaCache(PurgeCall),
}

/// Gets a credential definition: from the cache if it is there, else from the
/// ledger, which is then stored for later calls.
///
/// Vetted before the call: `submitter_did` as an identity and `id` as the
/// identifier of a credential definition. `options` is parsed before the call.
pub fn indy_get_cred_def(
    pool_handle: PoolHandle,
    wallet_handle: WalletHandle,
    submitter_did: Arg<String>,
    id: Arg<String>,
    options: Arg<CredDefOptions>,
    cb: bool,
) -> (outcome: Result<CacheCommand, ErrorCode>)
    ensures
        outcome == if text_fault(submitter_did) {
            Err::<CacheCommand, ErrorCode>(ErrorCode::CommonInvalidParam4)
        } else if text_fault(id) {
            Err(ErrorCode::CommonInvalidParam5)
        } else if value_fault(options) {
            Err(ErrorCode::CommonInvalidParam6)
        } else if !cb {
            Err(ErrorCode::CommonInvalidParam7)
        } else {
            Ok(
                CacheCommand::GetCredDef(
                    CredDefCall {
                        pool: pool_handle,
                        wallet: wallet_handle,
                        submitter_did: submitter_did->0,
                        id: id->0,
                        options: options->0,
                    },
                ),
            )
        },
{
    let submitter_did = check_useful_c_str(submitter_did, ErrorCode::CommonInvalidParam4)?;
    let id = check_useful_c_str(id, ErrorCode::CommonInvalidParam5)?;
    let options = check_useful(options, ErrorCode::CommonInvalidParam6)?;
    check_useful_c_callback(cb, ErrorCode::CommonInvalidParam7)?;
    Ok(
        CacheCommand::GetCredDef(
            CredDefCall { pool: pool_handle, wallet: wallet_handle, submitter_did, id, options },
        ),
    )
}

/// Gets a schema: from the cache if an entry is there and fresh enough, else
/// from the ledger, which is then stored for later calls unless the options
/// forbid it.
///
/// Vetted before the call: `submitter_did` as an identity and `id` as the
/// identifier of a schema. `options` is parsed before the call.
pub fn indy_get_schema(
    pool_handle: PoolHandle,
    wallet_handle: WalletHandle,
    submitter_did: Arg<String>,
    id: Arg<String>,
    options: Arg<FetchOptions>,
    cb: bool,
) -> (outcome: Result<CacheCommand, ErrorCode>)
    ensures
        outcome == if text_fault(submitter_did) {
            Err::<CacheCommand, ErrorCode>(ErrorCode::CommonInvalidParam4)
        } else if text_fault(id) {
            Err(ErrorCode::CommonInvalidParam5)
        } else if value_fault(options) {
            Err(ErrorCode::CommonInvalidParam6)
        } else if !cb {
            Err(ErrorCode::CommonInvalidParam7)
        } else {
            Ok(
                CacheCommand::GetSchema(
                    SchemaCall {
                        pool: pool_handle,
                        wallet: wallet_handle,
                        submitter_did: submitter_did->0,
                        id: id->0,
                        options: options->0,
                    },
                ),
            )
        },
{
    let submitter_did = check_useful_c_str(submitter_did, ErrorCode::CommonInvalidParam4)?;
    let id = check_useful_c_str(id, ErrorCode::CommonInvalidParam5)?;
    let options = check_useful(options, ErrorCode::CommonInvalidParam6)?;
    check_useful_c_callback(cb, ErrorCode::CommonInvalidParam7)?;
    Ok(
        CacheCommand::GetSchema(
            SchemaCall { pool: pool_handle, wallet: wallet_handle, submitter_did, id, options },
        ),
    )
}

/// Purges the cache of credential definitions of a wallet.
pub fn indy_purge_cred_def_cache(
    wallet_handle: WalletHandle,
    options: Arg<PurgeOptions>,
    cb: bool,
) -> (outcome: Result<CacheCommand, ErrorCode>)
    ensures
        outcome == if value_fault(options) {
            Err::<CacheCommand, ErrorCode>(ErrorCode::CommonInvalidParam3)
        } else if !cb {
            Err(ErrorCode::CommonInvalidParam4)
        } else {
            Ok(
                CacheCommand::PurgeCredDefCache(
                    PurgeCall { wallet: wallet_handle, options: options->0 },
                ),
            )
        },
{
    let options = check_useful(options, ErrorCode::CommonInvalidParam3)?;
    check_useful_c_callback(cb, ErrorCode::CommonInvalidParam4)?;
    Ok(CacheCommand::PurgeCredDefCache(PurgeCall { wallet: wallet_handle, options }))
}

/// Purges the cache of schemas of a wallet.
pub fn indy_purge_schema_cache(
    wallet_handle: WalletHandle,
    options: Arg<PurgeOptions>,
    cb: bool,
) -> (outcome: Result<CacheCommand, ErrorCode>)
    ensures
        outcome == if value_fault(options) {
            Err::<CacheCommand, ErrorCode>(ErrorCode::CommonInvalidParam3)
        } else if !cb {
            Err(ErrorCode::CommonInvalidParam4)
        } else {
            Ok(
                CacheCommand::PurgeSchemaCache(
                    PurgeCall { wallet: wallet_handle, options: options->0 },
                ),
            )
        },
{
    let options = check_useful(options, ErrorCode::CommonInvalidParam3)?;
    check_useful_c_callback(cb, ErrorCode::CommonInvalidParam4)?;
    Ok(CacheCommand::PurgeSchemaCache(PurgeCall { wallet: wallet_handle, options }))
}

} // verus!
