//! Remote-repository connection parameters for the two git-backed stores:
//! a backup store and an index store. The two remote URLs are mandatory when
//! the section is present; branches and the commit name have fixed defaults;
//! credentials and the commit email are optional.

use vstd::prelude::*;

use crate::error::{ConfigError, ConfigField};
use crate::value::{DocValue, get_text, lookup_spec, spec_get_text, resolves_to};

verus! {

/// Mathematical model of a resolved [`GitConfig`].
pub ghost struct GitConfigV {
    pub backup_remote_url: Seq<char>,
    pub backup_branch: Seq<char>,
    pub index_remote_url: Seq<char>,
    pub index_branch: Seq<char>,
    pub https_username: Option<Seq<char>>,
    pub https_password: Option<Seq<char>>,
    pub ssh_username: Option<Seq<char>>,
    pub ssh_pubkey_path: Option<Seq<char>>,
    pub ssh_privkey_path: Option<Seq<char>>,
    pub ssh_key_passphrase: Option<Seq<char>>,
    pub name: Seq<char>,
    pub email: Option<Seq<char>>,
}

/// Connection parameters for the backup and index remotes, credential
/// material, and the commit identity.
#[derive(Debug, Clone, PartialEq)]
pub struct GitConfig {
    pub backup_remote_url: String,
    pub backup_branch: String,
    pub index_remote_url: String,
    pub index_branch: String,
    pub https_username: Option<String>,
    pub https_password: Option<String>,
    pub ssh_username: Option<String>,
    pub ssh_pubkey_path: Option<String>,
    pub ssh_privkey_path: Option<String>,
    pub ssh_key_passphrase: Option<String>,
    pub name: String,
    pub email: Option<String>,
}

impl View for GitConfig {
    type V = GitConfigV;

    open spec fn view(&self) -> GitConfigV {
        GitConfigV {
            backup_remote_url: self.backup_remote_url@,
            backup_branch: self.backup_branch@,
            index_remote_url: self.index_remote_url@,
            index_branch: self.index_branch@,
            https_username: self.https_username.deep_view(),
            https_password: self.https_password.deep_view(),
            ssh_username: self.ssh_username.deep_view(),
            ssh_pubkey_path: self.ssh_pubkey_path.deep_view(),
            ssh_privkey_path: self.ssh_privkey_path.deep_view(),
            ssh_key_passphrase: self.ssh_key_passphrase.deep_view(),
            name: self.name@,
            email: self.email.deep_view(),
        }
    }
}

/// The all-defaults value: empty remote URLs, `"main"` branches, the fixed
/// commit name, and no credentials.
pub open spec fn spec_default_git() -> GitConfigV {
    GitConfigV {
        backup_remote_url: Seq::empty(),
        backup_branch: "main"@,
        index_remote_url: Seq::empty(),
        index_branch: "main"@,
        https_username: None,
        https_password: None,
        ssh_username: None,
        ssh_pubkey_path: None,
        ssh_privkey_path: None,
        ssh_key_passphrase: None,
        name: "ktra-driver"@,
        email: None,
    }
}

/// Resolution of the section's entry list, key by key in a fixed order:
/// the first failing key decides the error; otherwise each absent key takes
/// its default (`None` for the optional ones), and the two remote URLs,
/// which have none, must be present.
pub open spec fn spec_git_from(es: Seq<(String, DocValue)>) -> Result<GitConfigV, ConfigError> {
    let bru = spec_get_text(es, "backup_remote_url"@, ConfigField::GitBackupRemoteUrl);
    let bb = spec_get_text(es, "backup_branch"@, ConfigField::GitBackupBranch);
    let iru = spec_get_text(es, "index_remote_url"@, ConfigField::GitIndexRemoteUrl);
    let ib = spec_get_text(es, "index_branch"@, ConfigField::GitIndexBranch);
    let hu = spec_get_text(es, "https_username"@, ConfigField::GitHttpsUsername);
    let hp = spec_get_text(es, "https_password"@, ConfigField::GitHttpsPassword);
    let su = spec_get_text(es, "ssh_username"@, ConfigField::GitSshUsername);
    let spk = spec_get_text(es, "ssh_pubkey_path"@, ConfigField::GitSshPubkeyPath);
    let svk = spec_get_text(es, "ssh_privkey_path"@, ConfigField::GitSshPrivkeyPath);
    let skp = spec_get_text(es, "ssh_key_passphrase"@, ConfigField::GitSshKeyPassphrase);
    let nm = spec_get_text(es, "name"@, ConfigField::GitName);
    let em = spec_get_text(es, "email"@, ConfigField::GitEmail);
    if bru is Err {
        Err(bru->Err_0)
    } else if bru->Ok_0 is None {
        Err(ConfigError::MissingField(ConfigField::GitBackupRemoteUrl))
    } else if bb is Err {
        Err(bb->Err_0)
    } else if iru is Err {
        Err(iru->Err_0)
    } else if iru->Ok_0 is None {
        Err(ConfigError::MissingField(ConfigField::GitIndexRemoteUrl))
    } else if ib is Err {
        Err(ib->Err_0)
    } else if hu is Err {
        Err(hu->Err_0)
    } else if hp is Err {
        Err(hp->Err_0)
    } else if su is Err {
        Err(su->Err_0)
    } else if spk is Err {
        Err(spk->Err_0)
    } else if svk is Err {
        Err(svk->Err_0)
    } else if skp is Err {
        Err(skp->Err_0)
    } else if nm is Err {
        Err(nm->Err_0)
    } else if em is Err {
        Err(em->Err_0)
    } else {
        Ok(GitConfigV {
            backup_remote_url: bru->Ok_0->Some_0,
            backup_branch: match bb->Ok_0 {
                Some(s) => s,
                None => "main"@,
            },
            index_remote_url: iru->Ok_0->Some_0,
            index_branch: match ib->Ok_0 {
                Some(s) => s,
                None => "main"@,
            },
            https_username: hu->Ok_0,
            https_password: hp->Ok_0,
            ssh_username: su->Ok_0,
            ssh_pubkey_path: spk->Ok_0,
            ssh_privkey_path: svk->Ok_0,
            ssh_key_passphrase: skp->Ok_0,
            name: match nm->Ok_0 {
                Some(s) => s,
                None => "ktra-driver"@,
            },
            email: em->Ok_0,
        })
    }
}

/// Resolution of the section value: absent resolves to the all-defaults
/// value; a present non-table is a type error.
pub open spec fn spec_resolve_git(sv: Option<DocValue>) -> Result<GitConfigV, ConfigError> {
    match sv {
        None => Ok(spec_default_git()),
        Some(v) => match v {
            DocValue::Table(es) => spec_git_from(es@),
            _ => Err(ConfigError::WrongType(ConfigField::GitSection)),
        },
    }
}

impl Default for GitConfig {
    /// The aggregate of every field-level default.
    fn default() -> (r: GitConfig)
        ensures
            r@ == spec_default_git(),
    {
        GitConfig {
            backup_remote_url: String::new(),
            backup_branch: GitConfig::branch_default(),
            index_remote_url: String::new(),
            index_branch: GitConfig::branch_default(),
            https_username: None,
            https_password: None,
            ssh_username: None,
            ssh_pubkey_path: None,
            ssh_privkey_path: None,
            ssh_key_passphrase: None,
            name: GitConfig::name_default(),
            email: None,
        }
    }
}

impl GitConfig {
    /// Relative directory, under the root, of the index repository checkout.
    pub fn index_path_relative() -> (r: String)
        ensures
            r@ == "index"@,
    {
        "index".to_owned()
    }

    /// Default branch name for both remotes.
    pub fn branch_default() -> (r: String)
        ensures
            r@ == "main"@,
    {
        "main".to_owned()
    }

    /// Default commit-identity name.
    pub fn name_default() -> (r: String)
        ensures
            r@ == "ktra-driver"@,
    {
        "ktra-driver".to_owned()
    }

    /// Resolves the section's entry list.
    pub fn from_entries(es: &Vec<(String, DocValue)>) -> (r: Result<GitConfig, ConfigError>)
        ensures
            resolves_to(r, spec_git_from(es@)),
    {
        let bru = match get_text(es, "backup_remote_url", ConfigField::GitBackupRemoteUrl) {
            Ok(Some(s)) => s,
            Ok(None) => {
                return Err(ConfigError::MissingField(ConfigField::GitBackupRemoteUrl));
            },
            Err(e) => {
                return Err(e);
            },
        };
        let bb = match get_text(es, "backup_branch", ConfigField::GitBackupBranch) {
            Ok(Some(s)) => s,
            Ok(None) => GitConfig::branch_default(),
            Err(e) => {
                return Err(e);
            },
        };
        let iru = match get_text(es, "index_remote_url", ConfigField::GitIndexRemoteUrl) {
            Ok(Some(s)) => s,
            Ok(None) => {
                return Err(ConfigError::MissingField(ConfigField::GitIndexRemoteUrl));
            },
            Err(e) => {
                return Err(e);
            },
        };
        let ib = match get_text(es, "index_branch", ConfigField::GitIndexBranch) {
            Ok(Some(s)) => s,
            Ok(None) => GitConfig::branch_default(),
            Err(e) => {
                return Err(e);
            },
        };
        let hu = match get_text(es, "https_username", ConfigField::GitHttpsUsername) {
            Ok(o) => o,
            Err(e) => {
                return Err(e);
            },
        };
        let hp = match get_text(es, "https_password", ConfigField::GitHttpsPassword) {
            Ok(o) => o,
            Err(e) => {
                return Err(e);
            },
        };
        let su = match get_text(es, "ssh_username", ConfigField::GitSshUsername) {
            Ok(o) => o,
            Err(e) => {
                return Err(e);
            },
        };
        let spk = match get_text(es, "ssh_pubkey_path", ConfigField::GitSshPubkeyPath) {
            Ok(o) => o,
            Err(e) => {
                return Err(e);
            },
        };
        let svk = match get_text(es, "ssh_privkey_path", ConfigField::GitSshPrivkeyPath) {
            Ok(o) => o,
            Err(e) => {
                return Err(e);
            },
        };
        let skp = match get_text(es, "ssh_key_passphrase", ConfigField::GitSshKeyPassphrase) {
            Ok(o) => o,
            Err(e) => {
                return Err(e);
            },
        };
        let nm = match get_text(es, "name", ConfigField::GitName) {
            Ok(Some(s)) => s,
            Ok(None) => GitConfig::name_default(),
            Err(e) => {
                return Err(e);
            },
        };
        let em = match get_text(es, "email", ConfigField::GitEmail) {
            Ok(o) => o,
            Err(e) => {
                return Err(e);
            },
        };
        Ok(GitConfig {
            backup_remote_url: bru,
            backup_branch: bb,
            index_remote_url: iru,
            index_branch: ib,
            https_username: hu,
            https_password: hp,
            ssh_username: su,
            ssh_pubkey_path: spk,
            ssh_privkey_path: svk,
            ssh_key_passphrase: skp,
            name: nm,
            email: em,
        })
    }

    /// Serialized form of this value: an entry list that resolves back to
    /// this very value. Optional fields appear exactly when set.
    #[verifier::rlimit(60)]
    pub fn to_entries(&self) -> (r: Vec<(String, DocValue)>)
        ensures
            spec_git_from(r@) == Ok::<GitConfigV, ConfigError>(self@),
    {
        let mut es: Vec<(String, DocValue)> = Vec::new();
        crate::value::push_text(&mut es, "backup_remote_url", &self.backup_remote_url);
        crate::value::push_text(&mut es, "backup_branch", &self.backup_branch);
        crate::value::push_text(&mut es, "index_remote_url", &self.index_remote_url);
        crate::value::push_text(&mut es, "index_branch", &self.index_branch);
        crate::value::push_text(&mut es, "name", &self.name);
        crate::value::push_opt_text(&mut es, "https_username", &self.https_username);
        crate::value::push_opt_text(&mut es, "https_password", &self.https_password);
        crate::value::push_opt_text(&mut es, "ssh_username", &self.ssh_username);
        crate::value::push_opt_text(&mut es, "ssh_pubkey_path", &self.ssh_pubkey_path);
        crate::value::push_opt_text(&mut es, "ssh_privkey_path", &self.ssh_privkey_path);
        crate::value::push_opt_text(&mut es, "ssh_key_passphrase", &self.ssh_key_passphrase);
        crate::value::push_opt_text(&mut es, "email", &self.email);
        proof {
            reveal_strlit("backup_remote_url");
            reveal_strlit("backup_branch");
            reveal_strlit("index_remote_url");
            reveal_strlit("index_branch");
            reveal_strlit("name");
            reveal_strlit("https_username");
            reveal_strlit("https_password");
            reveal_strlit("ssh_username");
            reveal_strlit("ssh_pubkey_path");
            reveal_strlit("ssh_privkey_path");
            reveal_strlit("ssh_key_passphrase");
            reveal_strlit("email");
            assert(("backup_remote_url")@.len() == 17);
            assert(("backup_branch")@.len() == 13);
            assert(("index_remote_url")@.len() == 16);
            assert(("index_branch")@.len() == 12);
            assert(("name")@.len() == 4);
            assert(("https_username")@.len() == 14);
            assert(("https_password")@.len() == 14);
            assert(("ssh_username")@.len() == 12);
            assert(("ssh_pubkey_path")@.len() == 15);
            assert(("ssh_privkey_path")@.len() == 16);
            assert(("ssh_key_passphrase")@.len() == 18);
            assert(("email")@.len() == 5);
            assert(("https_username")@[6] == 'u');
            assert(("https_password")@[6] == 'p');
            assert(("index_branch")@[0] == 'i');
            assert(("ssh_username")@[0] == 's');
            assert(("index_remote_url")@[0] == 'i');
            assert(("ssh_privkey_path")@[0] == 's');
        }
        es
    }

    /// Resolves the section value, absent or present.
    pub fn from_section(sv: Option<&DocValue>) -> (r: Result<GitConfig, ConfigError>)
        ensures
            resolves_to(r, spec_resolve_git(crate::value::opt_value(sv))),
    {
        match sv {
            None => Ok(GitConfig::default()),
            Some(v) => match v {
                DocValue::Table(es) => GitConfig::from_entries(es),
                _ => Err(ConfigError::WrongType(ConfigField::GitSection)),
            },
        }
    }
}

} // verus!
