use std::collections::HashMap;

use vaultier::error::ClientFault;
use vaultier::error::VaultierError;
use vaultier::SecretClient;
use vaultier::WriteSecretOptions;

fn client() -> SecretClient {
    SecretClient::new(
        "http://127.0.0.1:8200",
        String::from("secret"),
        String::from("base"),
        "token",
    )
    .unwrap()
}

#[test]
fn construction_keeps_mount_and_base_path() {
    let c = client();
    assert_eq!(c.mount().as_str(), "secret");
    assert_eq!(c.base_path().as_str(), "base");
}

#[test]
fn malformed_address_is_settings_error() {
    let r = SecretClient::new("not an address", String::from("m"), String::from("b"), "t");
    assert!(matches!(r, Err(VaultierError::VaultClientSettings { .. })));
}

#[test]
fn unsupported_scheme_is_settings_error() {
    let r = SecretClient::new("ftp://127.0.0.1:8200", String::from("m"), String::from("b"), "t");
    assert!(matches!(r, Err(VaultierError::VaultClientSettings { .. })));
}

#[test]
fn missing_token_file_fails_construction_with_io_error() {
    let r = SecretClient::new_with_token_file(
        "http://127.0.0.1:8200",
        String::from("m"),
        String::from("b"),
        None,
        Err(String::from("No such file or directory")),
    );
    match r {
        Err(VaultierError::IO { message }) => {
            assert_eq!(message, "No such file or directory");
        }
        _ => panic!("expected the IO error"),
    }
}

#[test]
fn explicit_token_constructs_despite_unreadable_file() {
    let c = SecretClient::new_with_token_file(
        "http://127.0.0.1:8200",
        String::from("secret"),
        String::from("base"),
        Some(String::from("token")),
        Err(String::from("unreadable")),
    )
    .unwrap();
    assert_eq!(c.mount().as_str(), "secret");
    assert_eq!(c.base_path().as_str(), "base");
}

#[test]
fn token_file_contents_construct_without_explicit_token() {
    let c = SecretClient::new_with_token_file(
        "http://127.0.0.1:8200",
        String::from("secret"),
        String::from("base"),
        None,
        Ok(String::from("from-file")),
    )
    .unwrap();
    assert_eq!(c.mount().as_str(), "secret");
}

#[test]
fn read_plan_without_sub_reads_base_path() {
    let p = client().plan_read(None, None);
    assert_eq!(p.mount, "secret");
    assert_eq!(p.path, "base");
    assert_eq!(p.version, None);
}

#[test]
fn read_plan_with_sub_joins_path() {
    let p = client().plan_read(Some("my-secrets"), Some(3));
    assert_eq!(p.path, "base/my-secrets");
    assert_eq!(p.version, Some(3));
}

#[test]
fn write_plan_carries_cas() {
    let p = client().plan_write(Some("creds"), Some(7));
    assert_eq!(p.mount, "secret");
    assert_eq!(p.path, "base/creds");
    assert_eq!(p.cas, Some(7));
}

#[test]
fn write_plan_with_options_uses_version_as_cas() {
    let options = WriteSecretOptions {
        data: 5u32,
        path: Some(String::from("creds")),
        version: Some(2),
    };
    let p = client().plan_write_with_options(&options);
    assert_eq!(p.path, "base/creds");
    assert_eq!(p.cas, Some(2));
}

#[test]
fn write_plan_without_options_path_uses_base() {
    let options: WriteSecretOptions<u32> = WriteSecretOptions {
        data: 5,
        path: None,
        version: None,
    };
    let p = client().plan_write_with_options(&options);
    assert_eq!(p.path, "base");
    assert_eq!(p.cas, None);
}

#[test]
fn round_trip_write_then_read() {
    let c = client();
    let mut store: HashMap<String, Vec<(String, String)>> = HashMap::new();
    let value = vec![
        (String::from("username"), String::from("user")),
        (String::from("password"), String::from("passphrase")),
    ];

    let write = c.plan_write(Some("creds"), None);
    store.insert(write.path, value.clone());

    let read = c.plan_read(Some("creds"), None);
    assert_eq!(store.get(&read.path), Some(&value));
}

#[test]
fn not_found_translation_carries_data_path() {
    let e = client().translate_read_error(
        "base/creds",
        ClientFault::Api { code: 404, message: String::new() },
    );
    assert_eq!(e, VaultierError::PathNotFound { path: String::from("secret/data/base/creds") });
}

#[test]
fn other_api_fault_stays_client_error() {
    let e = client().translate_read_error(
        "base/creds",
        ClientFault::Api { code: 500, message: String::from("boom") },
    );
    assert_eq!(e, VaultierError::VaultClient { message: String::from("boom") });
}

#[test]
fn transport_fault_stays_client_error() {
    let e = client().translate_read_error(
        "base/creds",
        ClientFault::Other { message: String::from("connection refused") },
    );
    assert_eq!(e, VaultierError::VaultClient { message: String::from("connection refused") });
}

#[test]
fn versioned_read_follows_metadata() {
    let meta = vaultier::SecretMetadata {
        cas_required: false,
        created_time: String::from("2024-01-01T00:00:00Z"),
        current_version: 4,
        delete_version_after: String::from("0s"),
        max_versions: 0,
        oldest_version: 1,
        updated_time: String::from("2024-02-01T00:00:00Z"),
        custom_metadata: None,
        versions: Vec::new(),
    };
    let p = client().plan_versioned_read(Some("creds"), &meta);
    assert_eq!(p.path, "base/creds");
    assert_eq!(p.version, Some(4));
}
