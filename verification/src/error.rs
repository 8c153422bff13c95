//! Why loading a configuration failed.

use vstd::prelude::*;

verus! {

/// The semantic precondition that a parsed configuration failed.
#[derive(Clone, Copy, Debug, PartialEq, Eq, Structural)]
pub enum InvalidConfig {
    /// The public key file could not be opened for reading.
    PublicKeyUnreadable,
    /// The private key file could not be opened for reading.
    PrivateKeyUnreadable,
    /// The server URL is not an absolute URL that names a host.
    MalformedUrl,
}

/// A failed load. Every variant is fatal to startup.
#[derive(Debug)]
pub enum ConfigError {
    /// The named source could not be opened; carries the name.
    SourceUnavailable(String),
    /// The source's contents do not match the schema; carries the parser's
    /// diagnostic.
    MalformedConfig(String),
    /// The document was parsed but failed validation.
    InvalidConfig(InvalidConfig),
}

/// Mathematical value of a [`ConfigError`].
pub enum ConfigErrorView {
    SourceUnavailable(Seq<char>),
    MalformedConfig(Seq<char>),
    InvalidConfig(InvalidConfig),
}

impl View for ConfigError {
    type V = ConfigErrorView;

    open spec fn view(&self) -> ConfigErrorView {
        match self {
            ConfigError::SourceUnavailable(source) => ConfigErrorView::SourceUnavailable(source@),
            ConfigError::MalformedConfig(detail) => ConfigErrorView::MalformedConfig(detail@),
            ConfigError::InvalidConfig(reason) => ConfigErrorView::InvalidConfig(*reason),
        }
    }
}

impl InvalidConfig {
    /// The sentence that names the failed check.
    pub open spec fn message_text(self) -> Seq<char> {
        match self {
            InvalidConfig::PublicKeyUnreadable => "Couldn't open public key file"@,
            InvalidConfig::PrivateKeyUnreadable => "Couldn't open private key file"@,
            InvalidConfig::MalformedUrl => "Couldn't parse Patchwork URL"@,
        }
    }

    /// Human-readable reason.
    pub fn message(&self) -> (text: &'static str)
        ensures
            text@ == self.message_text(),
    {
        match self {
            InvalidConfig::PublicKeyUnreadable => "Couldn't open public key file",
            InvalidConfig::PrivateKeyUnreadable => "Couldn't open private key file",
            InvalidConfig::MalformedUrl => "Couldn't parse Patchwork URL",
        }
    }
}

impl ConfigErrorView {
    /// The sentence that reports the failure: a fixed phrase per variant,
    /// followed by the source's name or the parser's diagnostic where the
    /// variant carries one.
    pub open spec fn message_text(self) -> Seq<char> {
        match self {
            ConfigErrorView::SourceUnavailable(source) => "Failed to open config file at "@
                + source,
            ConfigErrorView::MalformedConfig(detail) => "Failed to parse config file: "@ + detail,
            ConfigErrorView::InvalidConfig(reason) => reason.message_text(),
        }
    }
}

impl ConfigError {
    /// Human-readable reason, with the context the error carries.
    pub fn message(&self) -> (text: String)
        ensures
            text@ == self@.message_text(),
    {
        match self {
            ConfigError::SourceUnavailable(source) => String::from_str(
                "Failed to open config file at ",
            ).concat(source.as_str()),
            ConfigError::MalformedConfig(detail) => String::from_str(
                "Failed to parse config file: ",
            ).concat(detail.as_str()),
            ConfigError::InvalidConfig(reason) => String::from_str(reason.message()),
        }
    }
}

impl PartialEq for ConfigError {
    fn eq(&self, other: &ConfigError) -> (same: bool) {
        match self {
            ConfigError::SourceUnavailable(mine) => match other {
                ConfigError::SourceUnavailable(theirs) => *mine == *theirs,
                _ => false,
            },
            ConfigError::MalformedConfig(mine) => match other {
                ConfigError::MalformedConfig(theirs) => *mine == *theirs,
                _ => false,
            },
            ConfigError::InvalidConfig(mine) => match other {
                ConfigError::InvalidConfig(theirs) => *mine == *theirs,
                _ => false,
            },
        }
    }
}

impl vstd::std_specs::cmp::PartialEqSpecImpl for ConfigError {
    open spec fn obeys_eq_spec() -> bool {
        true
    }

    open spec fn eq_spec(&self, other: &ConfigError) -> bool {
        self@ == other@
    }
}

} // verus!
