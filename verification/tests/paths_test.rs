use vaultier::paths::data_path;
use vaultier::paths::join_path;
use vaultier::paths::resolve_path;

#[test]
fn joins_with_single_separator() {
    assert_eq!(join_path("base", "sub"), "base/sub");
}

#[test]
fn joins_nested_sub_path() {
    assert_eq!(join_path("team/service", "my-secrets"), "team/service/my-secrets");
}

#[test]
fn joins_empty_segments() {
    assert_eq!(join_path("", ""), "/");
}

#[test]
fn resolve_without_sub_is_base() {
    assert_eq!(resolve_path("base", None), "base");
}

#[test]
fn resolve_with_sub_joins() {
    assert_eq!(resolve_path("base", Some("my-secrets")), "base/my-secrets");
}

#[test]
fn data_path_has_data_segment() {
    assert_eq!(data_path("secret", "base/creds"), "secret/data/base/creds");
}
