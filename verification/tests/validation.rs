use snowpatch_config::{
    url_names_a_server, validate_config, validation_verdict, Config, ConfigError, Git,
    InvalidConfig, KeyAccess, Patchwork,
};

fn with_url(url: &str) -> Config {
    Config::new(
        "builder".to_string(),
        Git::new("git".to_string(), "id.pub".to_string(), "id".to_string()),
        Patchwork::new(url.to_string(), Some(443), None),
    )
}

fn keys(public_key: bool, private_key: bool) -> KeyAccess {
    KeyAccess { public_key, private_key }
}

#[test]
fn verdict_reports_the_first_failed_check() {
    let public = Err(ConfigError::InvalidConfig(InvalidConfig::PublicKeyUnreadable));
    let private = Err(ConfigError::InvalidConfig(InvalidConfig::PrivateKeyUnreadable));
    let url = Err(ConfigError::InvalidConfig(InvalidConfig::MalformedUrl));
    assert!(validation_verdict(keys(false, false), false) == public);
    assert!(validation_verdict(keys(false, false), true) == public);
    assert!(validation_verdict(keys(false, true), false) == public);
    assert!(validation_verdict(keys(false, true), true) == public);
    assert!(validation_verdict(keys(true, false), false) == private);
    assert!(validation_verdict(keys(true, false), true) == private);
    assert!(validation_verdict(keys(true, true), false) == url);
    assert!(validation_verdict(keys(true, true), true) == Ok(()));
}

#[test]
fn url_is_fit_for_a_server_only_if_it_parsed_with_a_host() {
    assert!(url_names_a_server(Some(true)));
    assert!(!url_names_a_server(Some(false)));
    assert!(!url_names_a_server(None));
}

#[test]
fn validation_rejects_url_that_names_no_host() {
    for url in ["htp:/bad", "unix:/run/agent.socket", "urn:patchwork:1"] {
        let verdict = validate_config(&with_url(url), keys(true, true));
        assert!(
            verdict == Err(ConfigError::InvalidConfig(InvalidConfig::MalformedUrl)),
            "{}",
            url
        );
    }
}

#[test]
fn validation_accepts_readable_keys_and_absolute_url() {
    let config = with_url("https://patchwork.example.org");
    assert!(validate_config(&config, keys(true, true)) == Ok(()));
}

#[test]
fn validation_accepts_urls_with_port_path_and_query() {
    for url in [
        "http://localhost:8000/api/1.2/?project=linuxppc-dev",
        "https://user@patchwork.example.org/",
        "https://[::1]/",
        "https://127.0.0.1",
    ] {
        assert!(validate_config(&with_url(url), keys(true, true)) == Ok(()), "{}", url);
    }
}

#[test]
fn validation_rejects_relative_url() {
    let config = with_url("patchwork/api");
    let verdict = validate_config(&config, keys(true, true));
    assert!(verdict == Err(ConfigError::InvalidConfig(InvalidConfig::MalformedUrl)));
}

#[test]
fn validation_rejects_url_with_bad_port_or_host() {
    for url in ["https://example.org:99999/", "https://exa mple.org/", "https://[::1/"] {
        let verdict = validate_config(&with_url(url), keys(true, true));
        assert!(
            verdict == Err(ConfigError::InvalidConfig(InvalidConfig::MalformedUrl)),
            "{}",
            url
        );
    }
}

#[test]
fn validation_checks_keys_before_url() {
    let good = with_url("https://patchwork.example.org");
    let bad = with_url("::");
    for config in [&good, &bad] {
        assert!(
            validate_config(config, keys(false, true))
                == Err(ConfigError::InvalidConfig(InvalidConfig::PublicKeyUnreadable))
        );
        assert!(
            validate_config(config, keys(true, false))
                == Err(ConfigError::InvalidConfig(InvalidConfig::PrivateKeyUnreadable))
        );
    }
}

#[test]
fn validation_leaves_the_configuration_untouched() {
    let config = with_url("https://patchwork.example.org");
    let _ = validate_config(&config, keys(true, true));
    assert!(config == with_url("https://patchwork.example.org"));
}
