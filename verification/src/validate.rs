//! Semantic validation of a parsed configuration: both credential files must
//! be readable and the server URL must be an absolute URL that names a host.

use crate::config::Config;
use crate::error::{ConfigError, InvalidConfig};
use crate::url_check::{is_server_url, parse_url_host, url_names_a_server};
use vstd::prelude::*;

verus! {

/// What probing the two credential files found: `true` where the file was
/// opened for reading, `false` where it could not be opened or, an earlier
/// check having failed, was not tried.
#[derive(Clone, Copy, Debug, PartialEq, Eq, Structural)]
pub struct KeyAccess {
    pub public_key: bool,
    pub private_key: bool,
}

/// The first check that fails, in the order public key, private key, URL;
/// `None` where all three pass. Later checks do not matter once one failed.
pub open spec fn first_failure(keys: KeyAccess, url_well_formed: bool) -> Option<InvalidConfig> {
    if !keys.public_key {
        Some(InvalidConfig::PublicKeyUnreadable)
    } else if !keys.private_key {
        Some(InvalidConfig::PrivateKeyUnreadable)
    } else if !url_well_formed {
        Some(InvalidConfig::MalformedUrl)
    } else {
        None
    }
}

/// The result of validation, given the first failed check if there is one.
pub open spec fn validation_outcome(failure: Option<InvalidConfig>) -> Result<(), ConfigError> {
    match failure {
        Some(reason) => Err(ConfigError::InvalidConfig(reason)),
        None => Ok(()),
    }
}

/// Decides validation from the outcome of the three checks.
pub fn validation_verdict(keys: KeyAccess, url_well_formed: bool) -> (verdict: Result<
    (),
    ConfigError,
>)
    ensures
        verdict == validation_outcome(first_failure(keys, url_well_formed)),
{
    if !keys.public_key {
        Err(ConfigError::InvalidConfig(InvalidConfig::PublicKeyUnreadable))
    } else if !keys.private_key {
        Err(ConfigError::InvalidConfig(InvalidConfig::PrivateKeyUnreadable))
    } else if !url_well_formed {
        Err(ConfigError::InvalidConfig(InvalidConfig::MalformedUrl))
    } else {
        Ok(())
    }
}

/// Validates `config`, given what probing its credential files found.
///
/// Succeeds exactly when both files are readable and the server URL parses
/// as an absolute URL with a host; otherwise reports the first failed check.
pub fn validate_config(config: &Config, keys: KeyAccess) -> (verdict: Result<(), ConfigError>)
    ensures
        verdict == validation_outcome(
            first_failure(keys, is_server_url(config@.patchwork.url)),
        ),
{
    let host = parse_url_host(config.patchwork().url());
    validation_verdict(keys, url_names_a_server(host))
}

} // verus!
