//! Credential vault adapter.
//!
//! A stateless facade over the platform secret store, keyed by a fixed
//! service identifier and a caller-supplied key name. Every operation opens
//! a fresh store entry; all state lives in the platform store. The store
//! transactions are platform calls that may fail; the mapping of every
//! outcome to the command surface's reply is verified.

use vstd::prelude::*;

verus! {

use vstd::string::StringExecFns;

#[verifier::external_type_specification]
#[verifier::external_body]
pub struct ExEntry(keyring::Entry);

/// The fixed service identifier under which all of this application's
/// credentials are grouped in the platform store.
pub open spec fn service_name() -> Seq<char> {
    "money-machine"@
}

/// Reply confirming that the secret for `key` was written.
pub open spec fn stored_message(key: Seq<char>) -> Seq<char> {
    "Key '"@ + key + "' stored securely"@
}

/// Reply confirming that the secret for `key` was removed.
pub open spec fn deleted_message(key: Seq<char>) -> Seq<char> {
    "Key '"@ + key + "' deleted"@
}

/// Error reply when the store entry cannot be opened, wrapping the store's
/// own description.
pub open spec fn open_failure_message(cause: Seq<char>) -> Seq<char> {
    "Keyring error: "@ + cause
}

/// Error reply when the store rejects a write.
pub open spec fn store_failure_message(cause: Seq<char>) -> Seq<char> {
    "Failed to store key: "@ + cause
}

/// Error reply when the stored secret cannot be read.
pub open spec fn get_failure_message(cause: Seq<char>) -> Seq<char> {
    "Failed to retrieve key: "@ + cause
}

/// Error reply when the stored secret cannot be removed.
pub open spec fn delete_failure_message(cause: Seq<char>) -> Seq<char> {
    "Failed to delete key: "@ + cause
}

/// Relies on keyring::Entry::new: opens the platform store entry for the
/// given service and key names; fails with the store's description when it
/// rejects the names.
#[verifier::external_body]
fn open_entry(service: &str, key_name: &str) -> (r: Result<keyring::Entry, String>) {
    keyring::Entry::new(service, key_name).map_err(|e| e.to_string())
}

/// Relies on keyring::Entry::set_password: writes `value` as this entry's
/// secret, replacing any prior one; fails with the store's description when
/// the write is rejected.
#[verifier::external_body]
fn entry_set_password(entry: &keyring::Entry, value: &str) -> (r: Result<(), String>) {
    entry.set_password(value).map_err(|e| e.to_string())
}

/// Relies on keyring::Entry::get_password: reads this entry's stored secret;
/// fails with the store's description when none exists or the store cannot
/// be read.
#[verifier::external_body]
fn entry_get_password(entry: &keyring::Entry) -> (r: Result<String, String>) {
    entry.get_password().map_err(|e| e.to_string())
}

/// Relies on keyring::Entry::delete_credential: removes this entry's stored
/// secret; fails with the store's description when none exists or removal is
/// rejected.
#[verifier::external_body]
fn entry_delete_credential(entry: &keyring::Entry) -> (r: Result<(), String>) {
    entry.delete_credential().map_err(|e| e.to_string())
}

/// Maps a write outcome to the adapter's reply: success is confirmed by
/// naming the key, a rejection is wrapped in the write-failure prefix.
pub fn store_outcome(key_name: &str, written: Result<(), String>) -> (r: Result<String, String>)
    ensures
        r is Ok <==> written is Ok,
        written is Ok ==> (r matches Ok(m) && m@ == stored_message(key_name@)),
        written matches Err(c) ==> (r matches Err(f) && f@ == store_failure_message(c@)),
{
    match written {
        Ok(()) => Ok("Key '".to_owned().concat(key_name).concat("' stored securely")),
        Err(c) => Err("Failed to store key: ".to_owned().concat(c.as_str())),
    }
}

/// Maps a read outcome to the adapter's reply: a fetched secret is returned
/// verbatim, a failure is wrapped in the read-failure prefix.
pub fn get_outcome(fetched: Result<String, String>) -> (r: Result<String, String>)
    ensures
        r is Ok <==> fetched is Ok,
        fetched matches Ok(v) ==> (r matches Ok(m) && m@ == v@),
        fetched matches Err(c) ==> (r matches Err(f) && f@ == get_failure_message(c@)),
{
    match fetched {
        Ok(v) => Ok(v),
        Err(c) => Err("Failed to retrieve key: ".to_owned().concat(c.as_str())),
    }
}

/// Maps a removal outcome to the adapter's reply: success is confirmed by
/// naming the key, a rejection is wrapped in the delete-failure prefix.
pub fn delete_outcome(key_name: &str, removed: Result<(), String>) -> (r: Result<String, String>)
    ensures
        r is Ok <==> removed is Ok,
        removed is Ok ==> (r matches Ok(m) && m@ == deleted_message(key_name@)),
        removed matches Err(c) ==> (r matches Err(f) && f@ == delete_failure_message(c@)),
{
    match removed {
        Ok(()) => Ok("Key '".to_owned().concat(key_name).concat("' deleted")),
        Err(c) => Err("Failed to delete key: ".to_owned().concat(c.as_str())),
    }
}

/// Writes `key_value` as the secret of the already-opened `entry`, reporting
/// the result for `key_name`. A success reply always names the key; an error
/// always carries the write-failure prefix around the store's description.
pub fn store_in_entry(entry: &keyring::Entry, key_name: &str, key_value: &str) -> (r: Result<
    String,
    String,
>)
    ensures
        r matches Ok(m) ==> m@ == stored_message(key_name@),
        r matches Err(f) ==> exists|c: Seq<char>| f@ == store_failure_message(c),
{
    let written = entry_set_password(entry, key_value);
    let ghost cause: Seq<char> = if written is Err {
        written->Err_0@
    } else {
        Seq::empty()
    };
    let r = store_outcome(key_name, written);
    proof {
        if r is Err {
            assert(r->Err_0@ == store_failure_message(cause));
        }
    }
    r
}

/// Reads the secret of the already-opened `entry`. A success reply is the
/// stored secret verbatim; an error always carries the read-failure prefix
/// around the store's description.
pub fn get_from_entry(entry: &keyring::Entry) -> (r: Result<String, String>)
    ensures
        r matches Err(f) ==> exists|c: Seq<char>| f@ == get_failure_message(c),
{
    let fetched = entry_get_password(entry);
    let ghost cause: Seq<char> = if fetched is Err {
        fetched->Err_0@
    } else {
        Seq::empty()
    };
    let r = get_outcome(fetched);
    proof {
        if r is Err {
            assert(r->Err_0@ == get_failure_message(cause));
        }
    }
    r
}

/// Removes the secret of the already-opened `entry`, reporting the result
/// for `key_name`. A success reply always names the key; an error always
/// carries the delete-failure prefix around the store's description — a
/// removal with nothing to remove is never a silent success.
pub fn delete_from_entry(entry: &keyring::Entry, key_name: &str) -> (r: Result<String, String>)
    ensures
        r matches Ok(m) ==> m@ == deleted_message(key_name@),
        r matches Err(f) ==> exists|c: Seq<char>| f@ == delete_failure_message(c),
{
    let removed = entry_delete_credential(entry);
    let ghost cause: Seq<char> = if removed is Err {
        removed->Err_0@
    } else {
        Seq::empty()
    };
    let r = delete_outcome(key_name, removed);
    proof {
        if r is Err {
            assert(r->Err_0@ == delete_failure_message(cause));
        }
    }
    r
}

/// Opens the store entry for `key_name` under the fixed service identifier.
/// An error always carries the open-failure prefix around the store's
/// description.
fn open_api_entry(key_name: &str) -> (r: Result<keyring::Entry, String>)
    ensures
        r matches Err(f) ==> exists|c: Seq<char>| f@ == open_failure_message(c),
{
    match open_entry("money-machine", key_name) {
        Ok(entry) => Ok(entry),
        Err(c) => {
            let f = "Keyring error: ".to_owned().concat(c.as_str());
            proof {
                assert(f@ == open_failure_message(c@));
            }
            Err(f)
        },
    }
}

/// Stores `key_value` as the secret for `key_name` in a fresh store
/// transaction, overwriting any prior value for the same key. A success
/// reply always names the key; an error is either an open failure or a
/// write failure, each under its own prefix.
pub fn store_api_key(key_name: &str, key_value: &str) -> (r: Result<String, String>)
    ensures
        r matches Ok(m) ==> m@ == stored_message(key_name@),
        r matches Err(f) ==> (exists|c: Seq<char>| f@ == open_failure_message(c)) || (exists|
            c: Seq<char>,
        | f@ == store_failure_message(c)),
{
    match open_api_entry(key_name) {
        Ok(entry) => store_in_entry(&entry, key_name, key_value),
        Err(f) => Err(f),
    }
}

/// Reads the secret stored for `key_name` in a fresh store transaction. A
/// success reply is the stored secret verbatim; an error is either an open
/// failure or a read failure — a key with no stored secret is reported as
/// the latter.
pub fn get_api_key(key_name: &str) -> (r: Result<String, String>)
    ensures
        r matches Err(f) ==> (exists|c: Seq<char>| f@ == open_failure_message(c)) || (exists|
            c: Seq<char>,
        | f@ == get_failure_message(c)),
{
    match open_api_entry(key_name) {
        Ok(entry) => get_from_entry(&entry),
        Err(f) => Err(f),
    }
}

/// Removes the secret stored for `key_name` in a fresh store transaction. A
/// success reply always names the key; an error is either an open failure or
/// a removal failure — deleting a key with no stored secret is an error,
/// never a silent success.
pub fn delete_api_key(key_name: &str) -> (r: Result<String, String>)
    ensures
        r matches Ok(m) ==> m@ == deleted_message(key_name@),
        r matches Err(f) ==> (exists|c: Seq<char>| f@ == open_failure_message(c)) || (exists|
            c: Seq<char>,
        | f@ == delete_failure_message(c)),
{
    match open_api_entry(key_name) {
        Ok(entry) => delete_from_entry(&entry, key_name),
        Err(f) => Err(f),
    }
}

} // verus!
