//! The service's request handlers: from a request and the store to a
//! response, or to the failure that tells the caller that a key is absent.

use crate::shard::Shard;
use crate::store::{lookup, ShardedKeyValueStore};
use vstd::prelude::*;

verus! {

/// Asks to store `value` under `key`.
#[derive(Debug, PartialEq, Eq)]
pub struct SetRequest {
    pub key: String,
    pub value: String,
}

/// Acknowledges a stored entry.
#[derive(Debug, PartialEq, Eq)]
pub struct SetResponse {
    pub success: bool,
}

/// Asks for the value stored under `key`.
#[derive(Debug, PartialEq, Eq)]
pub struct GetRequest {
    pub key: String,
}

/// Carries the value that was found.
#[derive(Debug, PartialEq, Eq)]
pub struct GetResponse {
    pub value: String,
}

/// Asks to remove the entry of `key`.
#[derive(Debug, PartialEq, Eq)]
pub struct DeleteRequest {
    pub key: String,
}

/// Acknowledges a removed entry.
#[derive(Debug, PartialEq, Eq)]
pub struct DeleteResponse {
    pub success: bool,
}

/// Why a request failed.
#[derive(Clone, Copy, Debug, PartialEq, Eq, Structural)]
pub enum ServiceError {
    /// The key has no entry.
    NotFound,
}

impl ServiceError {
    /// The text that goes to the caller with this failure.
    pub fn message(&self) -> (text: String)
        ensures
            text@ == "Key not found"@,
    {
        "Key not found".to_owned()
    }
}

/// The answer to a get, given what the lookup found: the value, or the
/// failure `NotFound`, never a response without a value.
pub fn get_reply(found: Option<String>) -> (reply: Result<GetResponse, ServiceError>)
    ensures
        match found {
            Some(v) => reply == Ok::<GetResponse, ServiceError>((GetResponse { value: v })),
            None => reply == Err::<GetResponse, ServiceError>(ServiceError::NotFound),
        },
{
    match found {
        Some(value) => Ok(GetResponse { value }),
        None => Err(ServiceError::NotFound),
    }
}

/// The answer to a delete, given whether an entry was removed: success, or
/// the failure `NotFound`.
pub fn delete_reply(removed: bool) -> (reply: Result<DeleteResponse, ServiceError>)
    ensures
        removed ==> reply == Ok::<DeleteResponse, ServiceError>((DeleteResponse { success: true })),
        !removed ==> reply == Err::<DeleteResponse, ServiceError>(ServiceError::NotFound),
{
    if removed {
        Ok(DeleteResponse { success: true })
    } else {
        Err(ServiceError::NotFound)
    }
}

/// Serves a set on the shard that owns the request's key: stores the entry
/// and reports success.
pub fn set_on_shard(shard: &mut Shard, request: SetRequest) -> (response: SetResponse)
    ensures
        response.success,
        final(shard)@ == old(shard)@.insert(request.key@, request.value@),
{
    shard.set(request.key, request.value);
    SetResponse { success: true }
}

/// Serves a get on the shard that owns the request's key.
pub fn get_on_shard(shard: &Shard, request: GetRequest) -> (reply: Result<
    GetResponse,
    ServiceError,
>)
    ensures
        reply matches Ok(r) ==> lookup(shard@, request.key@) == Some(r.value@),
        reply matches Err(e) ==> e == ServiceError::NotFound && lookup(shard@, request.key@) is None,
{
    get_reply(shard.get(request.key.as_str()))
}

/// Serves a delete on the shard that owns the request's key.
pub fn delete_on_shard(shard: &mut Shard, request: DeleteRequest) -> (reply: Result<
    DeleteResponse,
    ServiceError,
>)
    ensures
        final(shard)@ == old(shard)@.remove(request.key@),
        reply matches Ok(r) ==> r.success && old(shard)@.contains_key(request.key@),
        reply matches Err(e) ==> e == ServiceError::NotFound && !old(shard)@.contains_key(
            request.key@,
        ),
{
    delete_reply(shard.delete(request.key.as_str()))
}

/// Serves a set on the store: stores the entry and reports success. There is
/// no failure.
pub fn handle_set(store: &mut ShardedKeyValueStore, request: SetRequest) -> (response: SetResponse)
    requires
        old(store).wf(),
    ensures
        response.success,
        final(store).wf(),
        final(store).shard_count() == old(store).shard_count(),
        final(store)@ == old(store)@.insert(request.key@, request.value@),
{
    store.set(request.key, request.value);
    SetResponse { success: true }
}

/// Serves a get on the store: the stored value, or `NotFound` where the key
/// has no entry.
pub fn handle_get(store: &ShardedKeyValueStore, request: GetRequest) -> (reply: Result<
    GetResponse,
    ServiceError,
>)
    requires
        store.wf(),
    ensures
        reply matches Ok(r) ==> lookup(store@, request.key@) == Some(r.value@),
        reply matches Err(e) ==> e == ServiceError::NotFound && lookup(store@, request.key@) is None,
{
    get_reply(store.get(request.key))
}

/// Serves a delete on the store: success where an entry was removed,
/// `NotFound` where the key had none. Either way the key is absent afterwards.
pub fn handle_delete(store: &mut ShardedKeyValueStore, request: DeleteRequest) -> (reply: Result<
    DeleteResponse,
    ServiceError,
>)
    requires
        old(store).wf(),
    ensures
        final(store).wf(),
        final(store).shard_count() == old(store).shard_count(),
        final(store)@ == old(store)@.remove(request.key@),
        reply matches Ok(r) ==> r.success && old(store)@.contains_key(request.key@),
        reply matches Err(e) ==> e == ServiceError::NotFound && !old(store)@.contains_key(
            request.key@,
        ),
{
    delete_reply(store.delete(request.key))
}

} // verus!
