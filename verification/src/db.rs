//! Backend selection data for the persistent store. A deployment enables
//! exactly one backend variant — embedded file store, remote cache-style
//! store, or document store — and only the fields of the enabled variant are
//! read downstream. Every field carries a usable default pointing at a
//! conventional local endpoint, so an unconfigured deployment still yields a
//! working local-development configuration.

use vstd::prelude::*;

use crate::error::{ConfigError, ConfigField};
use crate::value::{DocValue, get_text, spec_get_text, resolves_to};

verus! {

/// Mathematical model of a resolved [`DbConfig`].
pub ghost struct DbConfigV {
    pub login_prefix: Seq<char>,
    pub redis_url: Seq<char>,
    pub mongodb_url: Seq<char>,
}

/// Backend connection data: the login-key namespace prefix common to all
/// backends, and one connection URL per URL-backed variant.
#[derive(Debug, Clone, PartialEq)]
pub struct DbConfig {
    pub login_prefix: String,
    pub redis_url: String,
    pub mongodb_url: String,
}

impl View for DbConfig {
    type V = DbConfigV;

    open spec fn view(&self) -> DbConfigV {
        DbConfigV {
            login_prefix: self.login_prefix@,
            redis_url: self.redis_url@,
            mongodb_url: self.mongodb_url@,
        }
    }
}

/// The all-defaults value: the fixed login prefix and the local endpoints.
pub open spec fn spec_default_db() -> DbConfigV {
    DbConfigV {
        login_prefix: "ktra-secure-auth:"@,
        redis_url: "redis://localhost"@,
        mongodb_url: "mongodb://localhost:27017"@,
    }
}

/// Resolution of the section's entry list, key by key in a fixed order:
/// every key is a string with a default.
pub open spec fn spec_db_from(es: Seq<(String, DocValue)>) -> Result<DbConfigV, ConfigError> {
    let lp = spec_get_text(es, "login_prefix"@, ConfigField::DbLoginPrefix);
    let ru = spec_get_text(es, "redis_url"@, ConfigField::DbRedisUrl);
    let mu = spec_get_text(es, "mongodb_url"@, ConfigField::DbMongodbUrl);
    if lp is Err {
        Err(lp->Err_0)
    } else if ru is Err {
        Err(ru->Err_0)
    } else if mu is Err {
        Err(mu->Err_0)
    } else {
        Ok(DbConfigV {
            login_prefix: match lp->Ok_0 {
                Some(s) => s,
                None => "ktra-secure-auth:"@,
            },
            redis_url: match ru->Ok_0 {
                Some(s) => s,
                None => "redis://localhost"@,
            },
            mongodb_url: match mu->Ok_0 {
                Some(s) => s,
                None => "mongodb://localhost:27017"@,
            },
        })
    }
}

/// Resolution of the section value: absent resolves to the all-defaults
/// value; a present non-table is a type error.
pub open spec fn spec_resolve_db(sv: Option<DocValue>) -> Result<DbConfigV, ConfigError> {
    match sv {
        None => Ok(spec_default_db()),
        Some(v) => match v {
            DocValue::Table(es) => spec_db_from(es@),
            _ => Err(ConfigError::WrongType(ConfigField::DbSection)),
        },
    }
}

impl Default for DbConfig {
    /// The aggregate of every field-level default.
    fn default() -> (r: DbConfig)
        ensures
            r@ == spec_default_db(),
    {
        DbConfig {
            login_prefix: DbConfig::login_prefix_default(),
            redis_url: DbConfig::redis_url_default(),
            mongodb_url: DbConfig::mongodb_url_default(),
        }
    }
}

impl DbConfig {
    /// Default namespace prefix for authentication keys.
    pub fn login_prefix_default() -> (r: String)
        ensures
            r@ == "ktra-secure-auth:"@,
    {
        "ktra-secure-auth:".to_owned()
    }

    /// Relative directory, under the root, of the embedded file store; a
    /// fixed constant, meaningful only when that backend variant is active.
    pub fn db_dir_path_relative() -> (r: String)
        ensures
            r@ == "db"@,
    {
        "db".to_owned()
    }

    /// Default endpoint of the remote cache-style store.
    pub fn redis_url_default() -> (r: String)
        ensures
            r@ == "redis://localhost"@,
    {
        "redis://localhost".to_owned()
    }

    /// Default endpoint of the document-store backend.
    pub fn mongodb_url_default() -> (r: String)
        ensures
            r@ == "mongodb://localhost:27017"@,
    {
        "mongodb://localhost:27017".to_owned()
    }

    /// Resolves the section's entry list.
    pub fn from_entries(es: &Vec<(String, DocValue)>) -> (r: Result<DbConfig, ConfigError>)
        ensures
            resolves_to(r, spec_db_from(es@)),
    {
        let lp = match get_text(es, "login_prefix", ConfigField::DbLoginPrefix) {
            Ok(Some(s)) => s,
            Ok(None) => DbConfig::login_prefix_default(),
            Err(e) => {
                return Err(e);
            },
        };
        let ru = match get_text(es, "redis_url", ConfigField::DbRedisUrl) {
            Ok(Some(s)) => s,
            Ok(None) => DbConfig::redis_url_default(),
            Err(e) => {
                return Err(e);
            },
        };
        let mu = match get_text(es, "mongodb_url", ConfigField::DbMongodbUrl) {
            Ok(Some(s)) => s,
            Ok(None) => DbConfig::mongodb_url_default(),
            Err(e) => {
                return Err(e);
            },
        };
        Ok(DbConfig { login_prefix: lp, redis_url: ru, mongodb_url: mu })
    }

    /// Serialized form of this value: an entry list that resolves back to
    /// this very value.
    pub fn to_entries(&self) -> (r: Vec<(String, DocValue)>)
        ensures
            spec_db_from(r@) == Ok::<DbConfigV, ConfigError>(self@),
    {
        let mut es: Vec<(String, DocValue)> = Vec::new();
        crate::value::push_text(&mut es, "login_prefix", &self.login_prefix);
        crate::value::push_text(&mut es, "redis_url", &self.redis_url);
        crate::value::push_text(&mut es, "mongodb_url", &self.mongodb_url);
        proof {
            reveal_strlit("login_prefix");
            reveal_strlit("redis_url");
            reveal_strlit("mongodb_url");
            assert(("login_prefix")@.len() == 12);
            assert(("redis_url")@.len() == 9);
            assert(("mongodb_url")@.len() == 11);
        }
        es
    }

    /// Resolves the section value, absent or present.
    pub fn from_section(sv: Option<&DocValue>) -> (r: Result<DbConfig, ConfigError>)
        ensures
            resolves_to(r, spec_resolve_db(crate::value::opt_value(sv))),
    {
        match sv {
            None => Ok(DbConfig::default()),
            Some(v) => match v {
                DocValue::Table(es) => DbConfig::from_entries(es),
                _ => Err(ConfigError::WrongType(ConfigField::DbSection)),
            },
        }
    }
}

} // verus!
