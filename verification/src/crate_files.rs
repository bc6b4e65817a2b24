//! Layout of where uploaded crate archive files live: a list of relative
//! path segments used to build the download-route prefix, and the fixed
//! relative directory for files cached from an upstream registry when
//! mirroring is enabled.

use vstd::prelude::*;

use crate::error::{ConfigError, ConfigField};
use crate::value::{DocValue, get_texts, spec_get_texts, resolves_to};

verus! {

/// Mathematical model of a resolved [`CrateFilesConfig`].
pub ghost struct CrateFilesConfigV {
    pub dl_path: Seq<Seq<char>>,
}

/// Where uploaded crate archive files live.
#[derive(Debug, Clone, PartialEq)]
pub struct CrateFilesConfig {
    pub dl_path: Vec<String>,
}

impl View for CrateFilesConfig {
    type V = CrateFilesConfigV;

    open spec fn view(&self) -> CrateFilesConfigV {
        CrateFilesConfigV { dl_path: self.dl_path.deep_view() }
    }
}

/// The all-defaults value: the single segment `"dl"`.
pub open spec fn spec_default_crate_files() -> CrateFilesConfigV {
    CrateFilesConfigV { dl_path: seq!["dl"@] }
}

/// Resolution of the section's entry list: `dl_path` must be an array of
/// strings when present, and defaults to `["dl"]` when absent.
pub open spec fn spec_crate_files_from(es: Seq<(String, DocValue)>) -> Result<
    CrateFilesConfigV,
    ConfigError,
> {
    let dl = spec_get_texts(es, "dl_path"@, ConfigField::CrateFilesDlPath);
    if dl is Err {
        Err(dl->Err_0)
    } else {
        Ok(CrateFilesConfigV {
            dl_path: match dl->Ok_0 {
                Some(ss) => ss,
                None => seq!["dl"@],
            },
        })
    }
}

/// Resolution of the section value: absent resolves to the all-defaults
/// value; a present non-table is a type error.
pub open spec fn spec_resolve_crate_files(sv: Option<DocValue>) -> Result<
    CrateFilesConfigV,
    ConfigError,
> {
    match sv {
        None => Ok(spec_default_crate_files()),
        Some(v) => match v {
            DocValue::Table(es) => spec_crate_files_from(es@),
            _ => Err(ConfigError::WrongType(ConfigField::CrateFilesSection)),
        },
    }
}

impl Default for CrateFilesConfig {
    /// The aggregate of every field-level default.
    fn default() -> (r: CrateFilesConfig)
        ensures
            r@ == spec_default_crate_files(),
    {
        CrateFilesConfig { dl_path: CrateFilesConfig::dl_path_default() }
    }
}

impl CrateFilesConfig {
    /// Relative directory, under the root, of the uploaded crate files.
    pub fn dl_dir_path_relative() -> (r: String)
        ensures
            r@ == "crates"@,
    {
        "crates".to_owned()
    }

    /// Relative directory, under the root, of the mirror cache; a fixed
    /// constant, meaningful only when the mirroring variant is active.
    pub fn cache_dir_path_relative() -> (r: String)
        ensures
            r@ == "crates_io_caches"@,
    {
        "crates_io_caches".to_owned()
    }

    /// Default download-route prefix: the single segment `"dl"`.
    pub fn dl_path_default() -> (r: Vec<String>)
        ensures
            r.deep_view() == seq!["dl"@],
    {
        let mut v: Vec<String> = Vec::new();
        v.push("dl".to_owned());
        proof {
            assert(v.deep_view() =~= seq!["dl"@]);
        }
        v
    }

    /// Resolves the section's entry list.
    pub fn from_entries(es: &Vec<(String, DocValue)>) -> (r: Result<CrateFilesConfig, ConfigError>)
        ensures
            resolves_to(r, spec_crate_files_from(es@)),
    {
        let dl = match get_texts(es, "dl_path", ConfigField::CrateFilesDlPath) {
            Ok(Some(ss)) => ss,
            Ok(None) => CrateFilesConfig::dl_path_default(),
            Err(e) => {
                return Err(e);
            },
        };
        Ok(CrateFilesConfig { dl_path: dl })
    }

    /// Serialized form of this value: an entry list that resolves back to
    /// this very value.
    pub fn to_entries(&self) -> (r: Vec<(String, DocValue)>)
        ensures
            spec_crate_files_from(r@) == Ok::<CrateFilesConfigV, ConfigError>(self@),
    {
        let mut es: Vec<(String, DocValue)> = Vec::new();
        crate::value::push_texts(&mut es, "dl_path", &self.dl_path);
        proof {
            reveal_strlit("dl_path");
            assert(("dl_path")@.len() == 7);
        }
        es
    }

    /// Resolves the section value, absent or present.
    pub fn from_section(sv: Option<&DocValue>) -> (r: Result<CrateFilesConfig, ConfigError>)
        ensures
            resolves_to(r, spec_resolve_crate_files(crate::value::opt_value(sv))),
    {
        match sv {
            None => Ok(CrateFilesConfig::default()),
            Some(v) => match v {
                DocValue::Table(es) => CrateFilesConfig::from_entries(es),
                _ => Err(ConfigError::WrongType(ConfigField::CrateFilesSection)),
            },
        }
    }
}

} // verus!
