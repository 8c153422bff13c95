//! Loading: from what reading the source produced to a validated
//! configuration or the reason there is none.

use crate::config::{Config, ConfigView};
use crate::error::{ConfigError, ConfigErrorView, InvalidConfig};
use crate::url_check::{is_server_url, parsed_url_host};
use crate::validate::{first_failure, validate_config, KeyAccess};
use vstd::prelude::*;

verus! {

/// What reading the configuration source produced.
pub enum Source {
    /// The source could not be opened.
    Unavailable,
    /// The source was read, but its contents do not match the schema; carries
    /// the parser's diagnostic.
    Malformed(String),
    /// The source held a configuration document; carries the parsed document
    /// and what probing its credential files found.
    Document(Config, KeyAccess),
}

/// Mathematical value of a [`Source`].
pub enum SourceView {
    Unavailable,
    Malformed(Seq<char>),
    Document(ConfigView, KeyAccess),
}

impl View for Source {
    type V = SourceView;

    open spec fn view(&self) -> SourceView {
        match self {
            Source::Unavailable => SourceView::Unavailable,
            Source::Malformed(detail) => SourceView::Malformed(detail@),
            Source::Document(config, keys) => SourceView::Document(config@, *keys),
        }
    }
}

/// Mathematical value of a load's result.
pub open spec fn loaded_view(loaded: Result<Config, ConfigError>) -> Result<
    ConfigView,
    ConfigErrorView,
> {
    match loaded {
        Ok(config) => Ok(config@),
        Err(error) => Err(error@),
    }
}

/// What loading from the source named `filename` yields.
///
/// A source that could not be opened fails with its name; contents that do
/// not match the schema fail with the parser's diagnostic; a document fails
/// with its first failed check, and is otherwise returned as it was parsed.
pub open spec fn load_outcome(filename: Seq<char>, source: SourceView) -> Result<
    ConfigView,
    ConfigErrorView,
> {
    match source {
        SourceView::Unavailable => Err(ConfigErrorView::SourceUnavailable(filename)),
        SourceView::Malformed(detail) => Err(ConfigErrorView::MalformedConfig(detail)),
        SourceView::Document(config, keys) => match first_failure(
            keys,
            is_server_url(config.patchwork.url),
        ) {
            Some(reason) => Err(ConfigErrorView::InvalidConfig(reason)),
            None => Ok(config),
        },
    }
}

/// Produces the validated configuration of the source named `filename`, or
/// the reason why there is none.
pub fn parse_config(filename: &str, source: Source) -> (loaded: Result<Config, ConfigError>)
    ensures
        loaded_view(loaded) == load_outcome(filename@, source@),
{
    match source {
        Source::Unavailable => Err(ConfigError::SourceUnavailable(String::from_str(filename))),
        Source::Malformed(detail) => Err(ConfigError::MalformedConfig(detail)),
        Source::Document(config, keys) => match validate_config(&config, keys) {
            Ok(()) => Ok(config),
            Err(error) => Err(error),
        },
    }
}

/// Loading succeeds on exactly one kind of input: a document whose two
/// credential files are readable and whose server URL is well formed.
pub proof fn load_succeeds_exactly_when_valid(filename: Seq<char>, source: SourceView)
    ensures
        load_outcome(filename, source) is Ok <==> (source matches SourceView::Document(
            config,
            keys,
        ) && keys.public_key && keys.private_key && is_server_url(config.patchwork.url)),
{
}

/// A document whose credential files are readable and whose server URL is
/// well formed loads, and the loaded configuration has the document's values
/// field by field; the port resolves to 443 where the document names none.
pub proof fn valid_document_loads_unchanged(
    filename: Seq<char>,
    config: ConfigView,
    keys: KeyAccess,
)
    requires
        keys.public_key,
        keys.private_key,
    ensures
        is_server_url(config.patchwork.url) ==> load_outcome(
            filename,
            SourceView::Document(config, keys),
        ) == Ok::<ConfigView, ConfigErrorView>(config),
        config.patchwork.port is None ==> config.patchwork.resolved_port() == 443,
        config.patchwork.port matches Some(port) ==> config.patchwork.resolved_port() == port,
{
}

/// Contents that do not match the schema yield no configuration: the load
/// fails as malformed and hands back the parser's diagnostic.
pub proof fn malformed_source_is_rejected(filename: Seq<char>, detail: Seq<char>)
    ensures
        load_outcome(filename, SourceView::Malformed(detail)) == Err::<
            ConfigView,
            ConfigErrorView,
        >(ConfigErrorView::MalformedConfig(detail)),
{
}

/// A source that cannot be opened fails the load with the source's name.
pub proof fn unavailable_source_is_rejected(filename: Seq<char>)
    ensures
        load_outcome(filename, SourceView::Unavailable) == Err::<ConfigView, ConfigErrorView>(
            ConfigErrorView::SourceUnavailable(filename),
        ),
{
}

/// An unreadable public key fails the load whatever else the document holds;
/// an unreadable private key does so once the public key was readable.
pub proof fn unreadable_key_is_rejected(filename: Seq<char>, config: ConfigView, keys: KeyAccess)
    ensures
        !keys.public_key ==> load_outcome(filename, SourceView::Document(config, keys)) == Err::<
            ConfigView,
            ConfigErrorView,
        >(ConfigErrorView::InvalidConfig(InvalidConfig::PublicKeyUnreadable)),
        keys.public_key && !keys.private_key ==> load_outcome(
            filename,
            SourceView::Document(config, keys),
        ) == Err::<ConfigView, ConfigErrorView>(
            ConfigErrorView::InvalidConfig(InvalidConfig::PrivateKeyUnreadable),
        ),
{
}

/// A server URL that does not parse as an absolute URL, or parses but names
/// no host, fails the load, once both credential files were readable.
pub proof fn malformed_url_is_rejected(filename: Seq<char>, config: ConfigView, keys: KeyAccess)
    requires
        keys.public_key,
        keys.private_key,
    ensures
        parsed_url_host(config.patchwork.url) != Some(true) ==> load_outcome(
            filename,
            SourceView::Document(config, keys),
        ) == Err::<ConfigView, ConfigErrorView>(
            ConfigErrorView::InvalidConfig(InvalidConfig::MalformedUrl),
        ),
{
}

/// Loading twice from an unchanged source gives the same result: where the
/// two readings of the source agree, so do the two loads, field by field.
pub proof fn load_is_repeatable(
    filename: &str,
    first_source: Source,
    second_source: Source,
    first: Result<Config, ConfigError>,
    second: Result<Config, ConfigError>,
)
    requires
        first_source@ == second_source@,
        loaded_view(first) == load_outcome(filename@, first_source@),
        loaded_view(second) == load_outcome(filename@, second_source@),
    ensures
        loaded_view(first) == loaded_view(second),
        first matches Ok(config) ==> second matches Ok(again) && again@ == config@,
{
}

} // verus!
