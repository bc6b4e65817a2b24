//! External identity-provider settings. The issuer, redirect URL and client
//! credentials are mandatory when the section is present; the scope list
//! defaults to empty; the two authorization allow-lists are optional. The
//! all-defaults form only applies when the integration is not configured.

use vstd::prelude::*;

use crate::error::{ConfigError, ConfigField};
use crate::value::{DocValue, get_text, get_texts, spec_get_text, spec_get_texts, resolves_to};

verus! {

/// Mathematical model of a resolved [`OpenIdConfig`].
pub ghost struct OpenIdConfigV {
    pub issuer_url: Seq<char>,
    pub redirect_url: Seq<char>,
    pub client_id: Seq<char>,
    pub client_secret: Seq<char>,
    pub additional_scopes: Seq<Seq<char>>,
    pub gitlab_authorized_groups: Option<Seq<Seq<char>>>,
    pub gitlab_authorized_users: Option<Seq<Seq<char>>>,
}

/// Identity-provider settings, shared read-only across request handlers
/// once loaded.
#[derive(Debug, Clone, PartialEq)]
pub struct OpenIdConfig {
    pub issuer_url: String,
    pub redirect_url: String,
    pub client_id: String,
    pub client_secret: String,
    pub additional_scopes: Vec<String>,
    pub gitlab_authorized_groups: Option<Vec<String>>,
    pub gitlab_authorized_users: Option<Vec<String>>,
}

impl View for OpenIdConfig {
    type V = OpenIdConfigV;

    open spec fn view(&self) -> OpenIdConfigV {
        OpenIdConfigV {
            issuer_url: self.issuer_url@,
            redirect_url: self.redirect_url@,
            client_id: self.client_id@,
            client_secret: self.client_secret@,
            additional_scopes: self.additional_scopes.deep_view(),
            gitlab_authorized_groups: self.gitlab_authorized_groups.deep_view(),
            gitlab_authorized_users: self.gitlab_authorized_users.deep_view(),
        }
    }
}

/// The all-defaults value: empty mandatory fields, no scopes, no allow-lists.
pub open spec fn spec_default_openid() -> OpenIdConfigV {
    OpenIdConfigV {
        issuer_url: Seq::empty(),
        redirect_url: Seq::empty(),
        client_id: Seq::empty(),
        client_secret: Seq::empty(),
        additional_scopes: Seq::empty(),
        gitlab_authorized_groups: None,
        gitlab_authorized_users: None,
    }
}

/// Resolution of the section's entry list, key by key in a fixed order:
/// the four credential fields are mandatory, the scope list defaults to
/// empty, and the allow-lists stay optional.
pub open spec fn spec_openid_from(es: Seq<(String, DocValue)>) -> Result<OpenIdConfigV, ConfigError> {
    let iu = spec_get_text(es, "issuer_url"@, ConfigField::OpenIdIssuerUrl);
    let ru = spec_get_text(es, "redirect_url"@, ConfigField::OpenIdRedirectUrl);
    let ci = spec_get_text(es, "client_id"@, ConfigField::OpenIdClientId);
    let cs = spec_get_text(es, "client_secret"@, ConfigField::OpenIdClientSecret);
    let sc = spec_get_texts(es, "additional_scopes"@, ConfigField::OpenIdAdditionalScopes);
    let ag = spec_get_texts(es, "gitlab_authorized_groups"@, ConfigField::OpenIdAuthorizedGroups);
    let au = spec_get_texts(es, "gitlab_authorized_users"@, ConfigField::OpenIdAuthorizedUsers);
    if iu is Err {
        Err(iu->Err_0)
    } else if iu->Ok_0 is None {
        Err(ConfigError::MissingField(ConfigField::OpenIdIssuerUrl))
    } else if ru is Err {
        Err(ru->Err_0)
    } else if ru->Ok_0 is None {
        Err(ConfigError::MissingField(ConfigField::OpenIdRedirectUrl))
    } else if ci is Err {
        Err(ci->Err_0)
    } else if ci->Ok_0 is None {
        Err(ConfigError::MissingField(ConfigField::OpenIdClientId))
    } else if cs is Err {
        Err(cs->Err_0)
    } else if cs->Ok_0 is None {
        Err(ConfigError::MissingField(ConfigField::OpenIdClientSecret))
    } else if sc is Err {
        Err(sc->Err_0)
    } else if ag is Err {
        Err(ag->Err_0)
    } else if au is Err {
        Err(au->Err_0)
    } else {
        Ok(OpenIdConfigV {
            issuer_url: iu->Ok_0->Some_0,
            redirect_url: ru->Ok_0->Some_0,
            client_id: ci->Ok_0->Some_0,
            client_secret: cs->Ok_0->Some_0,
            additional_scopes: match sc->Ok_0 {
                Some(ss) => ss,
                None => Seq::empty(),
            },
            gitlab_authorized_groups: ag->Ok_0,
            gitlab_authorized_users: au->Ok_0,
        })
    }
}

/// Resolution of the section value: absent resolves to the all-defaults
/// value; a present non-table is a type error.
pub open spec fn spec_resolve_openid(sv: Option<DocValue>) -> Result<OpenIdConfigV, ConfigError> {
    match sv {
        None => Ok(spec_default_openid()),
        Some(v) => match v {
            DocValue::Table(es) => spec_openid_from(es@),
            _ => Err(ConfigError::WrongType(ConfigField::OpenIdSection)),
        },
    }
}

impl Default for OpenIdConfig {
    /// The not-configured form of the integration.
    fn default() -> (r: OpenIdConfig)
        ensures
            r@ == spec_default_openid(),
    {
        let r = OpenIdConfig {
            issuer_url: String::new(),
            redirect_url: String::new(),
            client_id: String::new(),
            client_secret: String::new(),
            additional_scopes: Vec::new(),
            gitlab_authorized_groups: None,
            gitlab_authorized_users: None,
        };
        proof {
            assert(r.additional_scopes.deep_view() =~= Seq::<Seq<char>>::empty());
        }
        r
    }
}

impl OpenIdConfig {
    /// Resolves the section's entry list.
    pub fn from_entries(es: &Vec<(String, DocValue)>) -> (r: Result<OpenIdConfig, ConfigError>)
        ensures
            resolves_to(r, spec_openid_from(es@)),
    {
        let iu = match get_text(es, "issuer_url", ConfigField::OpenIdIssuerUrl) {
            Ok(Some(s)) => s,
            Ok(None) => {
                return Err(ConfigError::MissingField(ConfigField::OpenIdIssuerUrl));
            },
            Err(e) => {
                return Err(e);
            },
        };
        let ru = match get_text(es, "redirect_url", ConfigField::OpenIdRedirectUrl) {
            Ok(Some(s)) => s,
            Ok(None) => {
                return Err(ConfigError::MissingField(ConfigField::OpenIdRedirectUrl));
            },
            Err(e) => {
                return Err(e);
            },
        };
        let ci = match get_text(es, "client_id", ConfigField::OpenIdClientId) {
            Ok(Some(s)) => s,
            Ok(None) => {
                return Err(ConfigError::MissingField(ConfigField::OpenIdClientId));
            },
            Err(e) => {
                return Err(e);
            },
        };
        let cs = match get_text(es, "client_secret", ConfigField::OpenIdClientSecret) {
            Ok(Some(s)) => s,
            Ok(None) => {
                return Err(ConfigError::MissingField(ConfigField::OpenIdClientSecret));
            },
            Err(e) => {
                return Err(e);
            },
        };
        let sc = match get_texts(es, "additional_scopes", ConfigField::OpenIdAdditionalScopes) {
            Ok(Some(ss)) => ss,
            Ok(None) => {
                let empty: Vec<String> = Vec::new();
                proof {
                    assert(empty.deep_view() =~= Seq::<Seq<char>>::empty());
                }
                empty
            },
            Err(e) => {
                return Err(e);
            },
        };
        let ag = match get_texts(es, "gitlab_authorized_groups", ConfigField::OpenIdAuthorizedGroups) {
            Ok(o) => o,
            Err(e) => {
                return Err(e);
            },
        };
        let au = match get_texts(es, "gitlab_authorized_users", ConfigField::OpenIdAuthorizedUsers) {
            Ok(o) => o,
            Err(e) => {
                return Err(e);
            },
        };
        Ok(OpenIdConfig {
            issuer_url: iu,
            redirect_url: ru,
            client_id: ci,
            client_secret: cs,
            additional_scopes: sc,
            gitlab_authorized_groups: ag,
            gitlab_authorized_users: au,
        })
    }

    /// Serialized form of this value: an entry list that resolves back to
    /// this very value. Optional fields appear exactly when set.
    #[verifier::rlimit(60)]
    pub fn to_entries(&self) -> (r: Vec<(String, DocValue)>)
        ensures
            spec_openid_from(r@) == Ok::<OpenIdConfigV, ConfigError>(self@),
    {
        let mut es: Vec<(String, DocValue)> = Vec::new();
        crate::value::push_text(&mut es, "issuer_url", &self.issuer_url);
        crate::value::push_text(&mut es, "redirect_url", &self.redirect_url);
        crate::value::push_text(&mut es, "client_id", &self.client_id);
        crate::value::push_text(&mut es, "client_secret", &self.client_secret);
        crate::value::push_texts(&mut es, "additional_scopes", &self.additional_scopes);
        crate::value::push_opt_texts(&mut es, "gitlab_authorized_groups", &self.gitlab_authorized_groups);
        crate::value::push_opt_texts(&mut es, "gitlab_authorized_users", &self.gitlab_authorized_users);
        proof {
            reveal_strlit("issuer_url");
            reveal_strlit("redirect_url");
            reveal_strlit("client_id");
            reveal_strlit("client_secret");
            reveal_strlit("additional_scopes");
            reveal_strlit("gitlab_authorized_groups");
            reveal_strlit("gitlab_authorized_users");
            assert(("issuer_url")@.len() == 10);
            assert(("redirect_url")@.len() == 12);
            assert(("client_id")@.len() == 9);
            assert(("client_secret")@.len() == 13);
            assert(("additional_scopes")@.len() == 17);
            assert(("gitlab_authorized_groups")@.len() == 24);
            assert(("gitlab_authorized_users")@.len() == 23);
        }
        es
    }

    /// Resolves the section value, absent or present.
    pub fn from_section(sv: Option<&DocValue>) -> (r: Result<OpenIdConfig, ConfigError>)
        ensures
            resolves_to(r, spec_resolve_openid(crate::value::opt_value(sv))),
    {
        match sv {
            None => Ok(OpenIdConfig::default()),
            Some(v) => match v {
                DocValue::Table(es) => OpenIdConfig::from_entries(es),
                _ => Err(ConfigError::WrongType(ConfigField::OpenIdSection)),
            },
        }
    }
}

} // verus!
