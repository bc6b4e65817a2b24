use ktra_config::{Config, ConfigError, ConfigField, CrateFilesConfig, DbConfig, GitConfig,
    OpenIdConfig, ServerConfig};

fn load(doc: &str) -> Config {
    Config::load_str(doc).expect("document should load")
}

#[test]
fn empty_document_loads_all_defaults() {
    let c = load("");
    assert_eq!(c, Config::default());
}

#[test]
fn default_values_are_the_fixed_literals() {
    let c = load("");
    assert_eq!(c.root_dir_path, "ktra_root");
    assert_eq!(c.crate_files_config.dl_path, vec!["dl".to_string()]);
    assert_eq!(c.db_config.login_prefix, "ktra-secure-auth:");
    assert_eq!(c.db_config.redis_url, "redis://localhost");
    assert_eq!(c.db_config.mongodb_url, "mongodb://localhost:27017");
    assert_eq!(c.git_config.backup_remote_url, "");
    assert_eq!(c.git_config.backup_branch, "main");
    assert_eq!(c.git_config.index_branch, "main");
    assert_eq!(c.git_config.name, "ktra-driver");
    assert_eq!(c.git_config.email, None);
    assert_eq!(c.server_config.address, [0, 0, 0, 0]);
    assert_eq!(c.server_config.port, 8000);
    assert_eq!(c.openid_config.issuer_url, "");
    assert_eq!(c.openid_config.additional_scopes, Vec::<String>::new());
    assert_eq!(c.openid_config.gitlab_authorized_groups, None);
}

#[test]
fn missing_backup_remote_url_is_a_schema_error() {
    let doc = "[git_config]\nindex_remote_url = \"https://example/b.git\"\n";
    assert_eq!(
        Config::load_str(doc),
        Err(ConfigError::MissingField(ConfigField::GitBackupRemoteUrl))
    );
}

#[test]
fn missing_index_remote_url_is_a_schema_error() {
    let doc = "[git_config]\nbackup_remote_url = \"https://example/a.git\"\n";
    assert_eq!(
        Config::load_str(doc),
        Err(ConfigError::MissingField(ConfigField::GitIndexRemoteUrl))
    );
}

#[test]
fn derived_paths_join_the_root() {
    let c = load("root_dir_path = \"data\"\n");
    assert_eq!(c.index_path(), "data/index");
    assert_eq!(c.dl_dir_path(), "data/crates");
    assert_eq!(c.cache_dir_path(), "data/crates_io_caches");
    assert_eq!(c.db_dir_path(), "data/db");
}

#[test]
fn derived_paths_do_not_double_a_separator() {
    let c = load("root_dir_path = \"data/\"\n");
    assert_eq!(c.index_path(), "data/index");
    let c = load("root_dir_path = \"\"\n");
    assert_eq!(c.index_path(), "index");
}

#[test]
fn default_config_round_trips_through_its_serialized_form() {
    let c = Config::default();
    let v = c.to_value();
    let c2 = Config::from_value(&v).expect("serialized default should resolve");
    assert_eq!(c, c2);
}

#[test]
fn fully_populated_config_round_trips_through_its_serialized_form() {
    let doc = "root_dir_path = \"srv\"
[crate_files_config]
dl_path = [\"api\", \"v1\", \"dl\"]
[db_config]
login_prefix = \"p:\"
redis_url = \"redis://db\"
mongodb_url = \"mongodb://db\"
[git_config]
backup_remote_url = \"https://example/a.git\"
backup_branch = \"b\"
index_remote_url = \"https://example/b.git\"
index_branch = \"i\"
https_username = \"u\"
https_password = \"SECRET-REDACTED\"
ssh_username = \"git\"
ssh_pubkey_path = \"/k.pub\"
ssh_privkey_path = \"/k\"
ssh_key_passphrase = \"SECRET-REDACTED\"
name = \"robot\"
email = \"robot@example.com\"
[server_config]
address = [127, 0, 0, 1]
port = 8100
[openid_config]
issuer_url = \"https://idp\"
redirect_url = \"https://app/cb\"
client_id = \"id\"
client_secret = \"SECRET-REDACTED\"
additional_scopes = [\"email\"]
gitlab_authorized_groups = [\"g\"]
gitlab_authorized_users = [\"u\"]
";
    let c = load(doc);
    let v = c.to_value();
    let c2 = Config::from_value(&v).expect("serialized value should resolve");
    assert_eq!(c, c2);
}

#[test]
fn branch_and_name_and_prefix_default_when_absent() {
    let doc = "[git_config]
backup_remote_url = \"https://example/a.git\"
index_remote_url = \"https://example/b.git\"
";
    let c = load(doc);
    assert_eq!(c.git_config.backup_branch, "main");
    assert_eq!(c.git_config.index_branch, "main");
    assert_eq!(c.git_config.name, "ktra-driver");
    assert_eq!(c.db_config.login_prefix, "ktra-secure-auth:");
}

#[test]
fn urls_only_document_gets_server_and_db_defaults() {
    let doc = "[git_config]
backup_remote_url = \"https://example/a.git\"
index_remote_url = \"https://example/b.git\"
";
    let c = load(doc);
    assert_eq!(c.git_config.backup_remote_url, "https://example/a.git");
    assert_eq!(c.git_config.index_remote_url, "https://example/b.git");
    assert_eq!(c.server_config.port, 8000);
    assert_eq!(c.server_config.address, [0, 0, 0, 0]);
    assert_eq!(c.db_config.login_prefix, "ktra-secure-auth:");
}

#[test]
fn dl_path_is_taken_exactly_as_written() {
    let doc = "[crate_files_config]\ndl_path = [\"v1\", \"dl\"]\n";
    let c = load(doc);
    assert_eq!(c.crate_files_config.dl_path, vec!["v1".to_string(), "dl".to_string()]);
}

#[test]
fn malformed_document_is_a_syntax_error() {
    assert_eq!(Config::load_str("not = = toml"), Err(ConfigError::Syntax));
    assert_eq!(Config::load_str("[unclosed\n"), Err(ConfigError::Syntax));
}

#[test]
fn ill_typed_root_dir_path_is_a_type_error() {
    assert_eq!(
        Config::load_str("root_dir_path = 3\n"),
        Err(ConfigError::WrongType(ConfigField::RootDirPath))
    );
}

#[test]
fn ill_typed_git_section_is_a_type_error() {
    assert_eq!(
        Config::load_str("git_config = \"x\"\n"),
        Err(ConfigError::WrongType(ConfigField::GitSection))
    );
}

#[test]
fn out_of_range_port_is_a_type_error() {
    assert_eq!(
        Config::load_str("[server_config]\nport = 70000\n"),
        Err(ConfigError::WrongType(ConfigField::ServerPort))
    );
    assert_eq!(
        Config::load_str("[server_config]\nport = \"x\"\n"),
        Err(ConfigError::WrongType(ConfigField::ServerPort))
    );
}

#[test]
fn bad_address_arrays_are_type_errors() {
    assert_eq!(
        Config::load_str("[server_config]\naddress = [1, 2, 3]\n"),
        Err(ConfigError::WrongType(ConfigField::ServerAddress))
    );
    assert_eq!(
        Config::load_str("[server_config]\naddress = [1, 2, 3, 400]\n"),
        Err(ConfigError::WrongType(ConfigField::ServerAddress))
    );
    assert_eq!(
        Config::load_str("[server_config]\naddress = [1, 2, 3, \"x\"]\n"),
        Err(ConfigError::WrongType(ConfigField::ServerAddress))
    );
}

#[test]
fn ill_typed_dl_path_is_a_type_error() {
    assert_eq!(
        Config::load_str("[crate_files_config]\ndl_path = [1]\n"),
        Err(ConfigError::WrongType(ConfigField::CrateFilesDlPath))
    );
    assert_eq!(
        Config::load_str("[crate_files_config]\ndl_path = \"dl\"\n"),
        Err(ConfigError::WrongType(ConfigField::CrateFilesDlPath))
    );
}

#[test]
fn openid_section_requires_its_credential_fields() {
    let doc = "[openid_config]
issuer_url = \"https://idp\"
redirect_url = \"https://app/cb\"
client_id = \"id\"
";
    assert_eq!(
        Config::load_str(doc),
        Err(ConfigError::MissingField(ConfigField::OpenIdClientSecret))
    );
}

#[test]
fn openid_scopes_default_to_empty_and_allow_lists_stay_optional() {
    let doc = "[openid_config]
issuer_url = \"https://idp\"
redirect_url = \"https://app/cb\"
client_id = \"id\"
client_secret = \"SECRET-REDACTED\"
";
    let c = load(doc);
    assert_eq!(c.openid_config.issuer_url, "https://idp");
    assert_eq!(c.openid_config.additional_scopes, Vec::<String>::new());
    assert_eq!(c.openid_config.gitlab_authorized_groups, None);
    assert_eq!(c.openid_config.gitlab_authorized_users, None);
}

#[test]
fn relative_path_constants() {
    assert_eq!(GitConfig::index_path_relative(), "index");
    assert_eq!(CrateFilesConfig::dl_dir_path_relative(), "crates");
    assert_eq!(CrateFilesConfig::cache_dir_path_relative(), "crates_io_caches");
    assert_eq!(CrateFilesConfig::dl_path_default(), vec!["dl".to_string()]);
    assert_eq!(DbConfig::db_dir_path_relative(), "db");
    assert_eq!(DbConfig::login_prefix_default(), "ktra-secure-auth:");
    assert_eq!(DbConfig::redis_url_default(), "redis://localhost");
    assert_eq!(DbConfig::mongodb_url_default(), "mongodb://localhost:27017");
    assert_eq!(GitConfig::branch_default(), "main");
    assert_eq!(GitConfig::name_default(), "ktra-driver");
    assert_eq!(ServerConfig::address_default(), [0, 0, 0, 0]);
    assert_eq!(ServerConfig::port_default(), 8000);
}

#[test]
fn sub_config_defaults_match_the_loaded_defaults() {
    let c = load("");
    assert_eq!(c.git_config, GitConfig::default());
    assert_eq!(c.crate_files_config, CrateFilesConfig::default());
    assert_eq!(c.db_config, DbConfig::default());
    assert_eq!(c.server_config, ServerConfig::default());
    assert_eq!(*c.openid_config, OpenIdConfig::default());
}

#[test]
fn a_populated_git_section_is_read_back_exactly() {
    let doc = "[git_config]
backup_remote_url = \"https://example/a.git\"
backup_branch = \"stable\"
index_remote_url = \"https://example/b.git\"
index_branch = \"work\"
https_username = \"user\"
name = \"bot\"
email = \"bot@example.com\"
";
    let c = load(doc);
    assert_eq!(c.git_config.backup_branch, "stable");
    assert_eq!(c.git_config.index_branch, "work");
    assert_eq!(c.git_config.https_username, Some("user".to_string()));
    assert_eq!(c.git_config.https_password, None);
    assert_eq!(c.git_config.name, "bot");
    assert_eq!(c.git_config.email, Some("bot@example.com".to_string()));
}

#[test]
fn reloading_a_serialized_default_document_text_equals_the_default() {
    let doc = "root_dir_path = \"ktra_root\"
[crate_files_config]
dl_path = [\"dl\"]
[db_config]
login_prefix = \"ktra-secure-auth:\"
redis_url = \"redis://localhost\"
mongodb_url = \"mongodb://localhost:27017\"
[git_config]
backup_remote_url = \"\"
backup_branch = \"main\"
index_remote_url = \"\"
index_branch = \"main\"
name = \"ktra-driver\"
[server_config]
address = [0, 0, 0, 0]
port = 8000
[openid_config]
issuer_url = \"\"
redirect_url = \"\"
client_id = \"\"
client_secret = \"\"
additional_scopes = []
";
    let c = load(doc);
    assert_eq!(c, Config::default());
}

#[test]
fn float_and_boolean_values_are_type_errors() {
    assert_eq!(
        Config::load_str("[server_config]\nport = 1.5\n"),
        Err(ConfigError::WrongType(ConfigField::ServerPort))
    );
    assert_eq!(
        Config::load_str("root_dir_path = true\n"),
        Err(ConfigError::WrongType(ConfigField::RootDirPath))
    );
}

#[test]
fn unknown_keys_are_ignored() {
    let c = load("unknown_key = 1\n[git_config]\nbackup_remote_url = \"a\"\nindex_remote_url = \"b\"\nextra = 2\n");
    assert_eq!(c.git_config.backup_remote_url, "a");
    assert_eq!(c.root_dir_path, "ktra_root");
}
