//! Load-time errors. A failed load names the key or section that failed, so
//! an operator can correct the document.

use vstd::prelude::*;

verus! {

/// Identifies a top-level key, a section, or a key inside a section of the
/// configuration document.
#[derive(Clone, Copy, Debug, PartialEq, Eq, Structural)]
pub enum ConfigField {
    RootDirPath,
    CrateFilesSection,
    CrateFilesDlPath,
    DbSection,
    DbLoginPrefix,
    DbRedisUrl,
    DbMongodbUrl,
    GitSection,
    GitBackupRemoteUrl,
    GitBackupBranch,
    GitIndexRemoteUrl,
    GitIndexBranch,
    GitHttpsUsername,
    GitHttpsPassword,
    GitSshUsername,
    GitSshPubkeyPath,
    GitSshPrivkeyPath,
    GitSshKeyPassphrase,
    GitName,
    GitEmail,
    ServerSection,
    ServerAddress,
    ServerPort,
    OpenIdSection,
    OpenIdIssuerUrl,
    OpenIdRedirectUrl,
    OpenIdClientId,
    OpenIdClientSecret,
    OpenIdAdditionalScopes,
    OpenIdAuthorizedGroups,
    OpenIdAuthorizedUsers,
}

/// Why a load failed. `Syntax` means the document text is not well formed;
/// the other two are schema errors naming the offending field.
#[derive(Clone, Copy, Debug, PartialEq, Eq, Structural)]
pub enum ConfigError {
    /// The document is not well-formed in the expected text format.
    Syntax,
    /// A mandatory field (one with no default) is absent.
    MissingField(ConfigField),
    /// A present value cannot be converted to the field's declared type.
    WrongType(ConfigField),
}

} // verus!
