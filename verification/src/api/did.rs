//! Operations on identities and their keys.

use crate::api::args::{check_useful_c_callback, check_useful_c_str, check_useful_c_str_empty_accepted, text_fault, value_fault, Arg};
use crate::entry::{PoolHandle, WalletHandle};
use crate::error::ErrorCode;
use vstd::prelude::*;

verus! {

/// Where an identity can be reached: its address and the key of its transport.
#[derive(Debug)]
pub struct Endpoint {
    pub ha: String,
    pub verkey: Option<String>,
}

/// A command on identities, with its checked arguments.
#[derive(Debug)]
pub enum DidCommand {
    CreateAndStoreMyDid { wallet_handle: WalletHandle, did_info: String },
    ReplaceKeysStart { wallet_handle: WalletHandle, key_info: String, did: String },
    ReplaceKeysApply { wallet_handle: WalletHandle, did: String },
    StoreTheirDid { wallet_handle: WalletHandle, identity_json: String },
    KeyForDid { pool_handle: PoolHandle, wallet_handle: WalletHandle, did: String },
    KeyForLocalDid { wallet_handle: WalletHandle, did: String },
    SetEndpointForDid { wallet_handle: WalletHandle, did: String, endpoint: Endpoint },
    GetEndpointForDid { wallet_handle: WalletHandle, pool_handle: PoolHandle, did: String },
    SetDidMetadata { wallet_handle: WalletHandle, did: String, metadata: String },
    GetDidMetadata { wallet_handle: WalletHandle, did: String },
    GetMyDidWithMeta { wallet_handle: WalletHandle, my_did: String },
    ListMyDidsWithMeta { wallet_handle: WalletHandle },
    AbbreviateVerkey { did: String, full_verkey: String },
    QualifyDid { wallet_handle: WalletHandle, did: String, method: String },
}

/// Creates keys for a new identity and stores them in the wallet.
///
/// Vetted before the call: `did_info` as the description of a new identity.
pub fn indy_create_and_store_my_did(
    wallet_handle: WalletHandle,
    did_info: Arg<String>,
    cb: bool,
) -> (outcome: Result<DidCommand, ErrorCode>)
    ensures
        outcome == if text_fault(did_info) {
            Err::<DidCommand, ErrorCode>(ErrorCode::CommonInvalidParam3)
        } else if !cb {
            Err(ErrorCode::CommonInvalidParam4)
        } else {
            Ok(
                DidCommand::CreateAndStoreMyDid {
                    wallet_handle,
                    did_info: did_info->0,
                },
            )
        },
{
    let did_info = check_useful_c_str(did_info, ErrorCode::CommonInvalidParam3)?;
    check_useful_c_callback(cb, ErrorCode::CommonInvalidParam4)?;
    Ok(DidCommand::CreateAndStoreMyDid { wallet_handle, did_info })
}

/// Generates new keys for an identity that the caller owns, to be applied
/// later.
///
/// Vetted before the call: `did` as an identity and `key_info` as a description
/// of keys.
pub fn indy_replace_keys_start(
    wallet_handle: WalletHandle,
    did: Arg<String>,
    key_info: Arg<String>,
    cb: bool,
) -> (outcome: Result<DidCommand, ErrorCode>)
    ensures
        outcome == if text_fault(did) {
            Err::<DidCommand, ErrorCode>(ErrorCode::CommonInvalidParam3)
        } else if text_fault(key_info) {
            Err(ErrorCode::CommonInvalidParam4)
        } else if !cb {
            Err(ErrorCode::CommonInvalidParam5)
        } else {
            Ok(
                DidCommand::ReplaceKeysStart {
                    wallet_handle,
                    key_info: key_info->0,
                    did: did->0,
                },
            )
        },
{
    let did = check_useful_c_str(did, ErrorCode::CommonInvalidParam3)?;
    let key_info = check_useful_c_str(key_info, ErrorCode::CommonInvalidParam4)?;
    check_useful_c_callback(cb, ErrorCode::CommonInvalidParam5)?;
    Ok(DidCommand::ReplaceKeysStart { wallet_handle, key_info, did })
}

/// Applies the keys that were generated for an identity.
///
/// Vetted before the call: `did` as an identity.
pub fn indy_replace_keys_apply(
    wallet_handle: WalletHandle,
    did: Arg<String>,
    cb: bool,
) -> (outcome: Result<DidCommand, ErrorCode>)
    ensures
        outcome == if text_fault(did) {
            Err::<DidCommand, ErrorCode>(ErrorCode::CommonInvalidParam3)
        } else if !cb {
            Err(ErrorCode::CommonInvalidParam4)
        } else {
            Ok(
                DidCommand::ReplaceKeysApply {
                    wallet_handle,
                    did: did->0,
                },
            )
        },
{
    let did = check_useful_c_str(did, ErrorCode::CommonInvalidParam3)?;
    check_useful_c_callback(cb, ErrorCode::CommonInvalidParam4)?;
    Ok(DidCommand::ReplaceKeysApply { wallet_handle, did })
}

/// Stores the identity of another party in the wallet.
///
/// Vetted before the call: `identity_json` as the description of another
/// party's identity.
pub fn indy_store_their_did(
    wallet_handle: WalletHandle,
    identity_json: Arg<String>,
    cb: bool,
) -> (outcome: Result<DidCommand, ErrorCode>)
    ensures
        outcome == if text_fault(identity_json) {
            Err::<DidCommand, ErrorCode>(ErrorCode::CommonInvalidParam3)
        } else if !cb {
            Err(ErrorCode::CommonInvalidParam4)
        } else {
            Ok(
                DidCommand::StoreTheirDid {
                    wallet_handle,
                    identity_json: identity_json->0,
                },
            )
        },
{
    let identity_json = check_useful_c_str(identity_json, ErrorCode::CommonInvalidParam3)?;
    check_useful_c_callback(cb, ErrorCode::CommonInvalidParam4)?;
    Ok(DidCommand::StoreTheirDid { wallet_handle, identity_json })
}

/// Resolves the verification key of an identity, from the wallet or from the
/// ledger.
///
/// Vetted before the call: `did` as an identity.
pub fn indy_key_for_did(
    pool_handle: PoolHandle,
    wallet_handle: WalletHandle,
    did: Arg<String>,
    cb: bool,
) -> (outcome: Result<DidCommand, ErrorCode>)
    ensures
        outcome == if text_fault(did) {
            Err::<DidCommand, ErrorCode>(ErrorCode::CommonInvalidParam4)
        } else if !cb {
            Err(ErrorCode::CommonInvalidParam5)
        } else {
            Ok(
                DidCommand::KeyForDid {
                    pool_handle,
                    wallet_handle,
                    did: did->0,
                },
            )
        },
{
    let did = check_useful_c_str(did, ErrorCode::CommonInvalidParam4)?;
    check_useful_c_callback(cb, ErrorCode::CommonInvalidParam5)?;
    Ok(DidCommand::KeyForDid { pool_handle, wallet_handle, did })
}

/// Resolves the verification key of an identity from the wallet alone.
///
/// Vetted before the call: `did` as an identity.
pub fn indy_key_for_local_did(
    wallet_handle: WalletHandle,
    did: Arg<String>,
    cb: bool,
) -> (outcome: Result<DidCommand, ErrorCode>)
    ensures
        outcome == if text_fault(did) {
            Err::<DidCommand, ErrorCode>(ErrorCode::CommonInvalidParam3)
        } else if !cb {
            Err(ErrorCode::CommonInvalidParam4)
        } else {
            Ok(
                DidCommand::KeyForLocalDid {
                    wallet_handle,
                    did: did->0,
                },
            )
        },
{
    let did = check_useful_c_str(did, ErrorCode::CommonInvalidParam3)?;
    check_useful_c_callback(cb, ErrorCode::CommonInvalidParam4)?;
    Ok(DidCommand::KeyForLocalDid { wallet_handle, did })
}

/// Sets the endpoint of an identity: its address and its transport key.
///
/// Vetted before the call: `did` as an identity.
pub fn indy_set_endpoint_for_did(
    wallet_handle: WalletHandle,
    did: Arg<String>,
    address: Arg<String>,
    transport_key: Arg<String>,
    cb: bool,
) -> (outcome: Result<DidCommand, ErrorCode>)
    ensures
        outcome == if text_fault(did) {
            Err::<DidCommand, ErrorCode>(ErrorCode::CommonInvalidParam3)
        } else if text_fault(address) {
            Err(ErrorCode::CommonInvalidParam4)
        } else if text_fault(transport_key) {
            Err(ErrorCode::CommonInvalidParam5)
        } else if !cb {
            Err(ErrorCode::CommonInvalidParam6)
        } else {
            Ok(
                DidCommand::SetEndpointForDid {
                    wallet_handle,
                    did: did->0,
                    endpoint: Endpoint { ha: address->0, verkey: Some(transport_key->0) },
                },
            )
        },
{
    let did = check_useful_c_str(did, ErrorCode::CommonInvalidParam3)?;
    let address = check_useful_c_str(address, ErrorCode::CommonInvalidParam4)?;
    let transport_key = check_useful_c_str(transport_key, ErrorCode::CommonInvalidParam5)?;
    check_useful_c_callback(cb, ErrorCode::CommonInvalidParam6)?;
    Ok(
        DidCommand::SetEndpointForDid {
            wallet_handle,
            did,
            endpoint: Endpoint { ha: address, verkey: Some(transport_key) },
        },
    )
}

/// Resolves the endpoint of an identity.
///
/// Vetted before the call: `did` as an identity.
pub fn indy_get_endpoint_for_did(
    wallet_handle: WalletHandle,
    pool_handle: PoolHandle,
    did: Arg<String>,
    cb: bool,
) -> (outcome: Result<DidCommand, ErrorCode>)
    ensures
        outcome == if text_fault(did) {
            Err::<DidCommand, ErrorCode>(ErrorCode::CommonInvalidParam3)
        } else if !cb {
            Err(ErrorCode::CommonInvalidParam4)
        } else {
            Ok(
                DidCommand::GetEndpointForDid {
                    wallet_handle,
                    pool_handle,
                    did: did->0,
                },
            )
        },
{
    let did = check_useful_c_str(did, ErrorCode::CommonInvalidParam3)?;
    check_useful_c_callback(cb, ErrorCode::CommonInvalidParam4)?;
    Ok(DidCommand::GetEndpointForDid { wallet_handle, pool_handle, did })
}

/// Attaches metadata to an identity in the wallet. The metadata may be empty.
///
/// Vetted before the call: `did` as an identity.
pub fn indy_set_did_metadata(
    wallet_handle: WalletHandle,
    did: Arg<String>,
    metadata: Arg<String>,
    cb: bool,
) -> (outcome: Result<DidCommand, ErrorCode>)
    ensures
        outcome == if text_fault(did) {
            Err::<DidCommand, ErrorCode>(ErrorCode::CommonInvalidParam3)
        } else if value_fault(metadata) {
            Err(ErrorCode::CommonInvalidParam4)
        } else if !cb {
            Err(ErrorCode::CommonInvalidParam5)
        } else {
            Ok(
                DidCommand::SetDidMetadata {
                    wallet_handle,
                    did: did->0,
                    metadata: metadata->0,
                },
            )
        },
{
    let did = check_useful_c_str(did, ErrorCode::CommonInvalidParam3)?;
    let metadata = check_useful_c_str_empty_accepted(metadata, ErrorCode::CommonInvalidParam4)?;
    check_useful_c_callback(cb, ErrorCode::CommonInvalidParam5)?;
    Ok(DidCommand::SetDidMetadata { wallet_handle, did, metadata })
}

/// Reads the metadata of an identity in the wallet.
///
/// Vetted before the call: `did` as an identity.
pub fn indy_get_did_metadata(
    wallet_handle: WalletHandle,
    did: Arg<String>,
    cb: bool,
) -> (outcome: Result<DidCommand, ErrorCode>)
    ensures
        outcome == if text_fault(did) {
            Err::<DidCommand, ErrorCode>(ErrorCode::CommonInvalidParam3)
        } else if !cb {
            Err(ErrorCode::CommonInvalidParam4)
        } else {
            Ok(
                DidCommand::GetDidMetadata {
                    wallet_handle,
                    did: did->0,
                },
            )
        },
{
    let did = check_useful_c_str(did, ErrorCode::CommonInvalidParam3)?;
    check_useful_c_callback(cb, ErrorCode::CommonInvalidParam4)?;
    Ok(DidCommand::GetDidMetadata { wallet_handle, did })
}

/// Reads an identity that the caller owns, with its metadata.
///
/// Vetted before the call: `my_did` as an identity.
pub fn indy_get_my_did_with_meta(
    wallet_handle: WalletHandle,
    my_did: Arg<String>,
    cb: bool,
) -> (outcome: Result<DidCommand, ErrorCode>)
    ensures
        outcome == if text_fault(my_did) {
            Err::<DidCommand, ErrorCode>(ErrorCode::CommonInvalidParam3)
        } else if !cb {
            Err(ErrorCode::CommonInvalidParam4)
        } else {
            Ok(
                DidCommand::GetMyDidWithMeta {
                    wallet_handle,
                    my_did: my_did->0,
                },
            )
        },
{
    let my_did = check_useful_c_str(my_did, ErrorCode::CommonInvalidParam3)?;
    check_useful_c_callback(cb, ErrorCode::CommonInvalidParam4)?;
    Ok(DidCommand::GetMyDidWithMeta { wallet_handle, my_did })
}

/// Lists the identities that the caller owns, with their metadata.
pub fn indy_list_my_dids_with_meta(
    wallet_handle: WalletHandle,
    cb: bool,
) -> (outcome: Result<DidCommand, ErrorCode>)
    ensures
        outcome == if !cb {
            Err::<DidCommand, ErrorCode>(ErrorCode::CommonInvalidParam3)
        } else {
            Ok(
                DidCommand::ListMyDidsWithMeta {
                    wallet_handle,
                },
            )
        },
{
    check_useful_c_callback(cb, ErrorCode::CommonInvalidParam3)?;
    Ok(DidCommand::ListMyDidsWithMeta { wallet_handle })
}

/// Shortens a verification key, where the identity allows it.
///
/// Vetted before the call: `did` as an identity.
pub fn indy_abbreviate_verkey(
    did: Arg<String>,
    full_verkey: Arg<String>,
    cb: bool,
) -> (outcome: Result<DidCommand, ErrorCode>)
    ensures
        outcome == if text_fault(did) {
            Err::<DidCommand, ErrorCode>(ErrorCode::CommonInvalidParam3)
        } else if text_fault(full_verkey) {
            Err(ErrorCode::CommonInvalidParam4)
        } else if !cb {
            Err(ErrorCode::CommonInvalidParam5)
        } else {
            Ok(
                DidCommand::AbbreviateVerkey {
                    did: did->0,
                    full_verkey: full_verkey->0,
                },
            )
        },
{
    let did = check_useful_c_str(did, ErrorCode::CommonInvalidParam3)?;
    let full_verkey = check_useful_c_str(full_verkey, ErrorCode::CommonInvalidParam4)?;
    check_useful_c_callback(cb, ErrorCode::CommonInvalidParam5)?;
    Ok(DidCommand::AbbreviateVerkey { did, full_verkey })
}

/// Rewrites an identity in the wallet to its fully qualified form for a method.
///
/// Vetted before the call: `did` as an identity and `method` as a method of
/// identities.
pub fn indy_qualify_did(
    wallet_handle: WalletHandle,
    did: Arg<String>,
    method: Arg<String>,
    cb: bool,
) -> (outcome: Result<DidCommand, ErrorCode>)
    ensures
        outcome == if text_fault(did) {
            Err::<DidCommand, ErrorCode>(ErrorCode::CommonInvalidParam3)
        } else if text_fault(method) {
            Err(ErrorCode::CommonInvalidParam4)
        } else if !cb {
            Err(ErrorCode::CommonInvalidParam5)
        } else {
            Ok(
                DidCommand::QualifyDid {
                    wallet_handle,
                    did: did->0,
                    method: method->0,
                },
            )
        },
{
    let did = check_useful_c_str(did, ErrorCode::CommonInvalidParam3)?;
    let method = check_useful_c_str(method, ErrorCode::CommonInvalidParam4)?;
    check_useful_c_callback(cb, ErrorCode::CommonInvalidParam5)?;
    Ok(DidCommand::QualifyDid { wallet_handle, did, method })
}

} // verus!
