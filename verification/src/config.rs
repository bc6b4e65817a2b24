//! The aggregate root: a root directory path plus one instance of each
//! sub-configuration. Every derived path joins the root with a fixed or
//! configured relative fragment; the root is the sole basis of every
//! derived path. Loading parses a document text and resolves it section by
//! section; nothing is returned unless the whole document resolves.

use std::sync::Arc;

use vstd::prelude::*;
use vstd::string::*;

use crate::crate_files::{CrateFilesConfig, CrateFilesConfigV, spec_resolve_crate_files};
use crate::db::{DbConfig, DbConfigV, spec_resolve_db};
use crate::error::{ConfigError, ConfigField};
use crate::git::{GitConfig, GitConfigV, spec_resolve_git};
use crate::openid::{OpenIdConfig, OpenIdConfigV, spec_resolve_openid};
use crate::parse::{parse_document, toml_doc};
use crate::server::{ServerConfig, ServerConfigV, spec_resolve_server};
use crate::value::{DocValue, get_text, lookup, lookup_spec, spec_get_text, resolves_to};

verus! {

/// What joining a directory path and a relative fragment yields: the two
/// with a single separator between them, none where the directory is empty
/// or already ends in one.
pub open spec fn spec_join(root: Seq<char>, seg: Seq<char>) -> Seq<char> {
    if root.len() == 0 {
        seg
    } else if root.last() == '/' {
        root + seg
    } else {
        root + seq!['/'] + seg
    }
}

/// Joins a directory path and a relative fragment.
pub fn join_path(root: &String, seg: &str) -> (r: String)
    ensures
        r@ == spec_join(root@, seg@),
{
    let n = root.as_str().unicode_len();
    if n == 0 {
        return seg.to_owned();
    }
    let last = root.as_str().get_char(n - 1);
    let mut p = root.clone();
    if last != '/' {
        p.append("/");
        proof {
            reveal_strlit("/");
            assert(("/")@ =~= seq!['/']);
        }
    }
    p.append(seg);
    p
}

/// Mathematical model of a resolved [`Config`].
pub ghost struct ConfigV {
    pub root_dir_path: Seq<char>,
    pub crate_files_config: CrateFilesConfigV,
    pub db_config: DbConfigV,
    pub git_config: GitConfigV,
    pub server_config: ServerConfigV,
    pub openid_config: OpenIdConfigV,
}

/// The aggregate root. It owns each sub-configuration by value, except the
/// identity-provider settings, which it holds behind a shared read-only
/// handle because many concurrent request handlers read them without
/// synchronization once loading is done.
#[derive(Debug, Clone, PartialEq)]
pub struct Config {
    pub root_dir_path: String,
    pub crate_files_config: CrateFilesConfig,
    pub db_config: DbConfig,
    pub git_config: GitConfig,
    pub server_config: ServerConfig,
    pub openid_config: Arc<OpenIdConfig>,
}

impl View for Config {
    type V = ConfigV;

    open spec fn view(&self) -> ConfigV {
        ConfigV {
            root_dir_path: self.root_dir_path@,
            crate_files_config: self.crate_files_config@,
            db_config: self.db_config@,
            git_config: self.git_config@,
            server_config: self.server_config@,
            openid_config: self.openid_config@,
        }
    }
}

/// The all-defaults value: the fixed root directory and each section's
/// all-defaults value.
pub open spec fn spec_default_config() -> ConfigV {
    ConfigV {
        root_dir_path: "ktra_root"@,
        crate_files_config: crate::crate_files::spec_default_crate_files(),
        db_config: crate::db::spec_default_db(),
        git_config: crate::git::spec_default_git(),
        server_config: crate::server::spec_default_server(),
        openid_config: crate::openid::spec_default_openid(),
    }
}

/// Resolution of the document's top-level entry list: the root path key,
/// then each section in a fixed order; the first failing key or section
/// decides the error. A section that is entirely absent resolves to its
/// all-defaults value.
pub open spec fn spec_config_from(es: Seq<(String, DocValue)>) -> Result<ConfigV, ConfigError> {
    let rd = spec_get_text(es, "root_dir_path"@, ConfigField::RootDirPath);
    let cf = spec_resolve_crate_files(lookup_spec(es, "crate_files_config"@));
    let db = spec_resolve_db(lookup_spec(es, "db_config"@));
    let gt = spec_resolve_git(lookup_spec(es, "git_config"@));
    let sv = spec_resolve_server(lookup_spec(es, "server_config"@));
    let oi = spec_resolve_openid(lookup_spec(es, "openid_config"@));
    if rd is Err {
        Err(rd->Err_0)
    } else if cf is Err {
        Err(cf->Err_0)
    } else if db is Err {
        Err(db->Err_0)
    } else if gt is Err {
        Err(gt->Err_0)
    } else if sv is Err {
        Err(sv->Err_0)
    } else if oi is Err {
        Err(oi->Err_0)
    } else {
        Ok(ConfigV {
            root_dir_path: match rd->Ok_0 {
                Some(s) => s,
                None => "ktra_root"@,
            },
            crate_files_config: cf->Ok_0,
            db_config: db->Ok_0,
            git_config: gt->Ok_0,
            server_config: sv->Ok_0,
            openid_config: oi->Ok_0,
        })
    }
}

/// Resolution of a whole document value: the top level must be a table.
pub open spec fn spec_resolve_config(t: DocValue) -> Result<ConfigV, ConfigError> {
    match t {
        DocValue::Table(es) => spec_config_from(es@),
        _ => Err(ConfigError::Syntax),
    }
}

impl Default for Config {
    /// The aggregate of every field-level default.
    fn default() -> (r: Config)
        ensures
            r@ == spec_default_config(),
    {
        Config {
            root_dir_path: Config::root_dir_path_default(),
            crate_files_config: CrateFilesConfig::default(),
            db_config: DbConfig::default(),
            git_config: GitConfig::default(),
            server_config: ServerConfig::default(),
            openid_config: Arc::new(OpenIdConfig::default()),
        }
    }
}

impl Config {
    /// Default root directory path.
    fn root_dir_path_default() -> (r: String)
        ensures
            r@ == "ktra_root"@,
    {
        "ktra_root".to_owned()
    }

    /// Resolves the document's top-level entry list.
    pub fn from_entries(es: &Vec<(String, DocValue)>) -> (r: Result<Config, ConfigError>)
        ensures
            resolves_to(r, spec_config_from(es@)),
    {
        let rd = match get_text(es, "root_dir_path", ConfigField::RootDirPath) {
            Ok(Some(s)) => s,
            Ok(None) => Config::root_dir_path_default(),
            Err(e) => {
                return Err(e);
            },
        };
        let cf = match CrateFilesConfig::from_section(lookup(es, "crate_files_config")) {
            Ok(c) => c,
            Err(e) => {
                return Err(e);
            },
        };
        let db = match DbConfig::from_section(lookup(es, "db_config")) {
            Ok(c) => c,
            Err(e) => {
                return Err(e);
            },
        };
        let gt = match GitConfig::from_section(lookup(es, "git_config")) {
            Ok(c) => c,
            Err(e) => {
                return Err(e);
            },
        };
        let sv = match ServerConfig::from_section(lookup(es, "server_config")) {
            Ok(c) => c,
            Err(e) => {
                return Err(e);
            },
        };
        let oi = match OpenIdConfig::from_section(lookup(es, "openid_config")) {
            Ok(c) => c,
            Err(e) => {
                return Err(e);
            },
        };
        Ok(Config {
            root_dir_path: rd,
            crate_files_config: cf,
            db_config: db,
            git_config: gt,
            server_config: sv,
            openid_config: Arc::new(oi),
        })
    }

    /// Resolves a whole document value.
    pub fn from_value(v: &DocValue) -> (r: Result<Config, ConfigError>)
        ensures
            resolves_to(r, spec_resolve_config(*v)),
    {
        match v {
            DocValue::Table(es) => Config::from_entries(es),
            _ => Err(ConfigError::Syntax),
        }
    }

    /// Loads a configuration from a document text: parse, then resolve.
    /// All-or-nothing: ill-formed text is a syntax error, and the first
    /// missing mandatory field or ill-typed value is a schema error.
    pub fn load_str(s: &str) -> (r: Result<Config, ConfigError>)
        ensures
            toml_doc(s@) is None ==> r == Result::<Config, ConfigError>::Err(ConfigError::Syntax),
            toml_doc(s@) matches Some(t) ==> resolves_to(r, spec_resolve_config(t)),
    {
        match parse_document(s) {
            None => Err(ConfigError::Syntax),
            Some(v) => Config::from_value(&v),
        }
    }

    /// Serialized form of this configuration: a document value that
    /// resolves back to this very value. Reloading what this yields is the
    /// identity — the round-trip law.
    #[verifier::rlimit(60)]
    pub fn to_value(&self) -> (r: DocValue)
        ensures
            spec_resolve_config(r) == Ok::<ConfigV, ConfigError>(self@),
    {
        let mut es: Vec<(String, DocValue)> = Vec::new();
        crate::value::push_text(&mut es, "root_dir_path", &self.root_dir_path);
        crate::value::push_value(
            &mut es,
            "crate_files_config",
            DocValue::Table(self.crate_files_config.to_entries()),
        );
        crate::value::push_value(&mut es, "db_config", DocValue::Table(self.db_config.to_entries()));
        crate::value::push_value(&mut es, "git_config", DocValue::Table(self.git_config.to_entries()));
        crate::value::push_value(
            &mut es,
            "server_config",
            DocValue::Table(self.server_config.to_entries()),
        );
        crate::value::push_value(
            &mut es,
            "openid_config",
            DocValue::Table(self.openid_config.to_entries()),
        );
        proof {
            reveal_strlit("root_dir_path");
            reveal_strlit("crate_files_config");
            reveal_strlit("db_config");
            reveal_strlit("git_config");
            reveal_strlit("server_config");
            reveal_strlit("openid_config");
            assert(("root_dir_path")@.len() == 13);
            assert(("crate_files_config")@.len() == 18);
            assert(("db_config")@.len() == 9);
            assert(("git_config")@.len() == 10);
            assert(("server_config")@.len() == 13);
            assert(("openid_config")@.len() == 13);
            assert(("root_dir_path")@[0] == 'r');
            assert(("server_config")@[0] == 's');
            assert(("openid_config")@[0] == 'o');
        }
        DocValue::Table(es)
    }

    /// Absolute path of the index repository checkout.
    pub fn index_path(&self) -> (r: String)
        ensures
            r@ == spec_join(self.root_dir_path@, "index"@),
    {
        let rel = GitConfig::index_path_relative();
        join_path(&self.root_dir_path, rel.as_str())
    }

    /// Absolute path of the uploaded crate files directory.
    pub fn dl_dir_path(&self) -> (r: String)
        ensures
            r@ == spec_join(self.root_dir_path@, "crates"@),
    {
        let rel = CrateFilesConfig::dl_dir_path_relative();
        join_path(&self.root_dir_path, rel.as_str())
    }

    /// Absolute path of the mirror cache directory; meaningful only when
    /// the mirroring variant is active.
    pub fn cache_dir_path(&self) -> (r: String)
        ensures
            r@ == spec_join(self.root_dir_path@, "crates_io_caches"@),
    {
        let rel = CrateFilesConfig::cache_dir_path_relative();
        join_path(&self.root_dir_path, rel.as_str())
    }

    /// Absolute path of the embedded store directory; meaningful only when
    /// the embedded-store backend variant is active.
    pub fn db_dir_path(&self) -> (r: String)
        ensures
            r@ == spec_join(self.root_dir_path@, "db"@),
    {
        let rel = DbConfig::db_dir_path_relative();
        join_path(&self.root_dir_path, rel.as_str())
    }
}

/// The idempotent-default law: a document that sets nothing at all — an
/// empty top-level table — resolves to the all-defaults configuration.
pub proof fn lemma_empty_document_defaults(es: Seq<(String, DocValue)>)
    requires
        es.len() == 0,
    ensures
        spec_config_from(es) == Ok::<ConfigV, ConfigError>(spec_default_config()),
{
}

/// A document whose git section is present but omits either mandatory
/// remote URL never loads, and what it fails with is a schema error, never
/// a syntax error.
pub proof fn lemma_missing_remote_url_fails(es: Seq<(String, DocValue)>)
    requires
        lookup_spec(es, "git_config"@) matches Some(v),
        lookup_spec(es, "git_config"@)->Some_0 matches DocValue::Table(gs) && (lookup_spec(
            gs@,
            "backup_remote_url"@,
        ) is None || lookup_spec(gs@, "index_remote_url"@) is None),
    ensures
        spec_config_from(es) is Err,
        !(spec_config_from(es)->Err_0 is Syntax),
{
}

/// The field-default law: wherever a loaded configuration's git section
/// omitted the branch and commit-name keys, the branches are `"main"` and
/// the name is the fixed product identity; wherever its database section
/// omitted the login-prefix key, the prefix is the fixed literal. A wholly
/// absent section counts as omitting its keys.
pub proof fn lemma_field_defaults(es: Seq<(String, DocValue)>, c: ConfigV)
    requires
        spec_config_from(es) == Ok::<ConfigV, ConfigError>(c),
        match lookup_spec(es, "git_config"@) {
            None => true,
            Some(v) => v matches DocValue::Table(gs) && lookup_spec(gs@, "backup_branch"@) is None
                && lookup_spec(gs@, "index_branch"@) is None && lookup_spec(gs@, "name"@) is None,
        },
        match lookup_spec(es, "db_config"@) {
            None => true,
            Some(v) => v matches DocValue::Table(ds) && lookup_spec(ds@, "login_prefix"@) is None,
        },
    ensures
        c.git_config.backup_branch == "main"@,
        c.git_config.index_branch == "main"@,
        c.git_config.name == "ktra-driver"@,
        c.db_config.login_prefix == "ktra-secure-auth:"@,
{
}

} // verus!
