use money_machine::vault::{
    delete_api_key, delete_from_entry, delete_outcome, get_api_key, get_from_entry, get_outcome,
    store_api_key, store_in_entry, store_outcome,
};

#[test]
fn credential_round_trip_returns_stored_value() {
    keyring::set_default_credential_builder(keyring::mock::default_credential_builder());
    let entry = keyring::Entry::new("money-machine", "k").unwrap();
    assert_eq!(
        store_in_entry(&entry, "k", "v"),
        Ok("Key 'k' stored securely".to_string())
    );
    assert_eq!(get_from_entry(&entry), Ok("v".to_string()));
    assert_eq!(
        store_in_entry(&entry, "k", "v2"),
        Ok("Key 'k' stored securely".to_string())
    );
    assert_eq!(get_from_entry(&entry), Ok("v2".to_string()));
    assert_eq!(
        delete_from_entry(&entry, "k"),
        Ok("Key 'k' deleted".to_string())
    );
    assert_eq!(
        get_from_entry(&entry),
        Err("Failed to retrieve key: No matching entry found in secure storage".to_string())
    );
}

#[test]
fn delete_missing_key_is_an_error() {
    keyring::set_default_credential_builder(keyring::mock::default_credential_builder());
    let entry = keyring::Entry::new("money-machine", "nonexistent").unwrap();
    assert_eq!(
        delete_from_entry(&entry, "nonexistent"),
        Err("Failed to delete key: No matching entry found in secure storage".to_string())
    );
}

#[test]
fn independent_keys_do_not_interfere() {
    keyring::set_default_credential_builder(keyring::mock::default_credential_builder());
    let a = keyring::Entry::new("money-machine", "a").unwrap();
    let b = keyring::Entry::new("money-machine", "b").unwrap();
    assert_eq!(
        store_in_entry(&a, "a", "1"),
        Ok("Key 'a' stored securely".to_string())
    );
    assert_eq!(
        store_in_entry(&b, "b", "2"),
        Ok("Key 'b' stored securely".to_string())
    );
    assert_eq!(get_from_entry(&a), Ok("1".to_string()));
    assert_eq!(get_from_entry(&b), Ok("2".to_string()));
}

#[test]
fn store_api_key_names_the_key() {
    keyring::set_default_credential_builder(keyring::mock::default_credential_builder());
    assert_eq!(
        store_api_key("alpha", "secret"),
        Ok("Key 'alpha' stored securely".to_string())
    );
}

#[test]
fn get_api_key_without_stored_secret_is_an_error() {
    keyring::set_default_credential_builder(keyring::mock::default_credential_builder());
    assert_eq!(
        get_api_key("missing"),
        Err("Failed to retrieve key: No matching entry found in secure storage".to_string())
    );
}

#[test]
fn delete_api_key_without_stored_secret_is_an_error() {
    keyring::set_default_credential_builder(keyring::mock::default_credential_builder());
    assert_eq!(
        delete_api_key("missing"),
        Err("Failed to delete key: No matching entry found in secure storage".to_string())
    );
}

#[test]
fn store_outcome_formats_both_replies_exactly() {
    assert_eq!(
        store_outcome("k", Ok(())),
        Ok("Key 'k' stored securely".to_string())
    );
    assert_eq!(
        store_outcome("", Ok(())),
        Ok("Key '' stored securely".to_string())
    );
    assert_eq!(
        store_outcome("k", Err("denied".to_string())),
        Err("Failed to store key: denied".to_string())
    );
}

#[test]
fn get_outcome_returns_the_secret_verbatim() {
    assert_eq!(get_outcome(Ok("v".to_string())), Ok("v".to_string()));
    assert_eq!(get_outcome(Ok("".to_string())), Ok("".to_string()));
    assert_eq!(
        get_outcome(Err("gone".to_string())),
        Err("Failed to retrieve key: gone".to_string())
    );
}

#[test]
fn delete_outcome_formats_both_replies_exactly() {
    assert_eq!(
        delete_outcome("k", Ok(())),
        Ok("Key 'k' deleted".to_string())
    );
    assert_eq!(
        delete_outcome("k", Err("gone".to_string())),
        Err("Failed to delete key: gone".to_string())
    );
}
