//! The configuration's data model: three nested records, read-only once built.

use vstd::prelude::*;

verus! {

/// The port the patch-tracking server is reached at when the configuration
/// names none.
pub const DEFAULT_PORT: u16 = 443;

/// Mathematical value of a [`Git`] record.
pub struct GitView {
    pub user: Seq<char>,
    pub public_key: Seq<char>,
    pub private_key: Seq<char>,
}

/// Mathematical value of a [`Patchwork`] record.
pub struct PatchworkView {
    pub url: Seq<char>,
    pub port: Option<u16>,
    pub token: Option<Seq<char>>,
}

/// Mathematical value of a [`Config`] record.
pub struct ConfigView {
    pub name: Seq<char>,
    pub git: GitView,
    pub patchwork: PatchworkView,
}

impl PatchworkView {
    /// The port to connect to: the configured one, or the default.
    pub open spec fn resolved_port(self) -> u16 {
        match self.port {
            Some(port) => port,
            None => DEFAULT_PORT,
        }
    }
}

/// How to authenticate to the git remote over SSH.
pub struct Git {
    user: String,
    public_key: String,
    private_key: String,
}

impl View for Git {
    type V = GitView;

    closed spec fn view(&self) -> GitView {
        GitView { user: self.user@, public_key: self.public_key@, private_key: self.private_key@ }
    }
}

impl Git {
    /// The credentials with the given login name and key file paths.
    pub fn new(user: String, public_key: String, private_key: String) -> (git: Git)
        ensures
            git@ == (GitView { user: user@, public_key: public_key@, private_key: private_key@ }),
    {
        Git { user, public_key, private_key }
    }

    /// Login name on the remote, conventionally `git`.
    pub fn user(&self) -> (user: &str)
        ensures
            user@ == self@.user,
    {
        self.user.as_str()
    }

    /// Path of the public key file.
    pub fn public_key(&self) -> (path: &str)
        ensures
            path@ == self@.public_key,
    {
        self.public_key.as_str()
    }

    /// Path of the private key file.
    pub fn private_key(&self) -> (path: &str)
        ensures
            path@ == self@.private_key,
    {
        self.private_key.as_str()
    }
}

impl PartialEq for Git {
    fn eq(&self, other: &Git) -> (same: bool) {
        self.user == other.user && self.public_key == other.public_key && self.private_key
            == other.private_key
    }
}

impl vstd::std_specs::cmp::PartialEqSpecImpl for Git {
    open spec fn obeys_eq_spec() -> bool {
        true
    }

    open spec fn eq_spec(&self, other: &Git) -> bool {
        self@ == other@
    }
}

/// The patch-tracking server to work with.
///
/// There is no `Debug` rendering of this record or of [`Config`]: it would
/// print the token. [`Config::diagnostic`] gives a dump without it.
pub struct Patchwork {
    url: String,
    port: Option<u16>,
    token: Option<String>,
}

impl View for Patchwork {
    type V = PatchworkView;

    closed spec fn view(&self) -> PatchworkView {
        PatchworkView {
            url: self.url@,
            port: self.port,
            token: match self.token {
                Some(token) => Some(token@),
                None => None,
            },
        }
    }
}

impl Patchwork {
    /// The connection to the server at `url`, with the port and token the
    /// document names, if any.
    pub fn new(url: String, port: Option<u16>, token: Option<String>) -> (patchwork: Patchwork)
        ensures
            patchwork@.url == url@,
            patchwork@.port == port,
            patchwork@.token == match token {
                Some(text) => Some(text@),
                None => None,
            },
    {
        Patchwork { url, port, token }
    }

    /// Base URL of the server.
    pub fn url(&self) -> (url: &str)
        ensures
            url@ == self@.url,
    {
        self.url.as_str()
    }

    /// The port as configured, absent where the document names none.
    pub fn configured_port(&self) -> (port: Option<u16>)
        ensures
            port == self@.port,
    {
        self.port
    }

    /// The port to connect to: the configured one, or [`DEFAULT_PORT`].
    pub fn port(&self) -> (port: u16)
        ensures
            port == self@.resolved_port(),
    {
        match self.port {
            Some(port) => port,
            None => DEFAULT_PORT,
        }
    }

    /// The API token, absent where the connection is for reading only.
    pub fn token(&self) -> (token: Option<&str>)
        ensures
            match token {
                Some(text) => self@.token == Some(text@),
                None => self@.token is None,
            },
    {
        match &self.token {
            Some(token) => Some(token.as_str()),
            None => None,
        }
    }

    /// Whether an API token is configured.
    pub fn has_token(&self) -> (present: bool)
        ensures
            present == (self@.token is Some),
    {
        self.token.is_some()
    }
}

impl PartialEq for Patchwork {
    fn eq(&self, other: &Patchwork) -> (same: bool) {
        let same_port = match self.port {
            Some(mine) => match other.port {
                Some(theirs) => mine == theirs,
                None => false,
            },
            None => other.port.is_none(),
        };
        let same_token = match &self.token {
            Some(mine) => match &other.token {
                Some(theirs) => *mine == *theirs,
                None => false,
            },
            None => other.token.is_none(),
        };
        self.url == other.url && same_port && same_token
    }
}

impl vstd::std_specs::cmp::PartialEqSpecImpl for Patchwork {
    open spec fn obeys_eq_spec() -> bool {
        true
    }

    open spec fn eq_spec(&self, other: &Patchwork) -> bool {
        self@ == other@
    }
}

/// Everything the agent needs before it can do anything useful.
pub struct Config {
    name: String,
    git: Git,
    patchwork: Patchwork,
}

impl View for Config {
    type V = ConfigView;

    closed spec fn view(&self) -> ConfigView {
        ConfigView { name: self.name@, git: self.git@, patchwork: self.patchwork@ }
    }
}

impl Config {
    /// The configuration of the agent `name` with the given credentials and
    /// server connection.
    pub fn new(name: String, git: Git, patchwork: Patchwork) -> (config: Config)
        ensures
            config@ == (ConfigView { name: name@, git: git@, patchwork: patchwork@ }),
    {
        Config { name, git, patchwork }
    }

    /// Free-form name of this agent instance.
    pub fn name(&self) -> (name: &str)
        ensures
            name@ == self@.name,
    {
        self.name.as_str()
    }

    /// Credentials for the git remote.
    pub fn git(&self) -> (git: &Git)
        ensures
            git@ == self@.git,
    {
        &self.git
    }

    /// Connection to the patch-tracking server.
    pub fn patchwork(&self) -> (patchwork: &Patchwork)
        ensures
            patchwork@ == self@.patchwork,
    {
        &self.patchwork
    }
}

impl PartialEq for Config {
    fn eq(&self, other: &Config) -> (same: bool) {
        self.name == other.name && self.git == other.git && self.patchwork == other.patchwork
    }
}

impl vstd::std_specs::cmp::PartialEqSpecImpl for Config {
    open spec fn obeys_eq_spec() -> bool {
        true
    }

    open spec fn eq_spec(&self, other: &Config) -> bool {
        self@ == other@
    }
}

} // verus!
