//! The persisted configuration record and its JSON document.

use vstd::prelude::*;
use crate::json::{document_strings, pretty_text, parse_document, string_member, empty_object, put_string, render_pretty};

verus! {

/// The four values of a configuration, as plain text.
pub struct ConfigModel {
    pub identity: Seq<char>,
    pub listen_address: Seq<char>,
    pub cert_path: Seq<char>,
    pub cert_passphrase: Seq<char>,
}

/// The configuration of the bridge: the daemon account it serves, the
/// address its server listens on, and the certificate it presents.
#[derive(Clone, Debug, PartialEq, Eq)]
pub struct ConfigFile {
    identity: String,
    listen_address: String,
    cert_path: String,
    cert_passphrase: String,
}

/// Why no configuration could be read.
#[derive(Clone, Copy, Debug, PartialEq, Eq, Structural)]
pub enum ConfigError {
    /// There is no configuration file.
    Missing,
    /// The file is no JSON document that holds the four values as strings.
    Parse,
}

pub open spec fn key_identity() -> Seq<char> {
    "identity"@
}

pub open spec fn key_listen_address() -> Seq<char> {
    "listenAddress"@
}

pub open spec fn key_cert_path() -> Seq<char> {
    "certPath"@
}

pub open spec fn key_cert_passphrase() -> Seq<char> {
    "certPassphrase"@
}

/// The members of the document that holds `config`.
pub open spec fn members_of(config: ConfigModel) -> Map<Seq<char>, Seq<char>> {
    Map::<Seq<char>, Seq<char>>::empty().insert(key_identity(), config.identity).insert(
        key_listen_address(),
        config.listen_address,
    ).insert(key_cert_path(), config.cert_path).insert(
        key_cert_passphrase(),
        config.cert_passphrase,
    )
}

/// The value found under `key`, if there is one.
pub open spec fn lookup(members: Map<Seq<char>, Seq<char>>, key: Seq<char>) -> Option<Seq<char>> {
    if members.contains_key(key) {
        Some(members[key])
    } else {
        None
    }
}

/// The configuration made of four values that were looked up: it exists
/// when all four were found, and holds them unchanged.
pub open spec fn config_of_fields(
    identity: Option<Seq<char>>,
    listen_address: Option<Seq<char>>,
    cert_path: Option<Seq<char>>,
    cert_passphrase: Option<Seq<char>>,
) -> Option<ConfigModel> {
    if identity is Some && listen_address is Some && cert_path is Some && cert_passphrase is Some {
        Some(
            ConfigModel {
                identity: identity->0,
                listen_address: listen_address->0,
                cert_path: cert_path->0,
                cert_passphrase: cert_passphrase->0,
            },
        )
    } else {
        None
    }
}

/// The configuration that a document's string members hold, if they hold
/// all four values. Other members are ignored.
pub open spec fn config_of_members(members: Map<Seq<char>, Seq<char>>) -> Option<ConfigModel> {
    config_of_fields(
        lookup(members, key_identity()),
        lookup(members, key_listen_address()),
        lookup(members, key_cert_path()),
        lookup(members, key_cert_passphrase()),
    )
}

/// What loading yields for the contents of the configuration file, `None`
/// standing for a file that does not exist.
pub open spec fn loaded(contents: Option<Seq<char>>) -> Result<ConfigModel, ConfigError> {
    match contents {
        None => Err(ConfigError::Missing),
        Some(text) => match document_strings(text) {
            None => Err(ConfigError::Parse),
            Some(members) => match config_of_members(members) {
                Some(config) => Ok(config),
                None => Err(ConfigError::Parse),
            },
        },
    }
}

/// Whether `outcome` is the result `expected`, the configuration taken by
/// its values.
pub open spec fn yields(
    outcome: Result<ConfigFile, ConfigError>,
    expected: Result<ConfigModel, ConfigError>,
) -> bool {
    match outcome {
        Ok(config) => expected == Ok::<ConfigModel, ConfigError>(config@),
        Err(e) => expected == Err::<ConfigModel, ConfigError>(e),
    }
}

impl View for ConfigFile {
    type V = ConfigModel;

    closed spec fn view(&self) -> ConfigModel {
        ConfigModel {
            identity: self.identity@,
            listen_address: self.listen_address@,
            cert_path: self.cert_path@,
            cert_passphrase: self.cert_passphrase@,
        }
    }
}

impl ConfigFile {
    /// A configuration of the four given values, none of them changed.
    pub fn new(
        identity: String,
        listen_address: String,
        cert_path: String,
        cert_passphrase: String,
    ) -> (config: ConfigFile)
        ensures
            config@ == (ConfigModel {
                identity: identity@,
                listen_address: listen_address@,
                cert_path: cert_path@,
                cert_passphrase: cert_passphrase@,
            }),
    {
        ConfigFile { identity, listen_address, cert_path, cert_passphrase }
    }

    /// The daemon account that the bridge serves.
    pub fn identity(&self) -> (value: &str)
        ensures
            value@ == self@.identity,
    {
        self.identity.as_str()
    }

    /// The host and port that the server listens on.
    pub fn listen_address(&self) -> (value: &str)
        ensures
            value@ == self@.listen_address,
    {
        self.listen_address.as_str()
    }

    /// Where the certificate lies.
    pub fn cert_path(&self) -> (value: &str)
        ensures
            value@ == self@.cert_path,
    {
        self.cert_path.as_str()
    }

    /// The passphrase of the certificate.
    pub fn cert_passphrase(&self) -> (value: &str)
        ensures
            value@ == self@.cert_passphrase,
    {
        self.cert_passphrase.as_str()
    }

    /// Builds a configuration from the four values as they were looked up in
    /// a document; one that was not found makes the document unusable.
    pub fn from_fields(
        identity: Option<String>,
        listen_address: Option<String>,
        cert_path: Option<String>,
        cert_passphrase: Option<String>,
    ) -> (built: Result<ConfigFile, ConfigError>)
        ensures
            match config_of_fields(
                text_of(identity),
                text_of(listen_address),
                text_of(cert_path),
                text_of(cert_passphrase),
            ) {
                Some(config) => built is Ok && built->Ok_0@ == config,
                None => built == Err::<ConfigFile, ConfigError>(ConfigError::Parse),
            },
    {
        match (identity, listen_address, cert_path, cert_passphrase) {
            (Some(identity), Some(listen_address), Some(cert_path), Some(cert_passphrase)) => Ok(
                ConfigFile::new(identity, listen_address, cert_path, cert_passphrase),
            ),
            _ => Err(ConfigError::Parse),
        }
    }

    /// Reads a configuration from the text of a JSON document.
    pub fn from_json(text: &str) -> (read: Result<ConfigFile, ConfigError>)
        ensures
            yields(read, loaded(Some(text@))),
    {
        match parse_document(text) {
            Err(_) => Err(ConfigError::Parse),
            Ok(document) => {
                let identity = string_member(&document, "identity");
                let listen_address = string_member(&document, "listenAddress");
                let cert_path = string_member(&document, "certPath");
                let cert_passphrase = string_member(&document, "certPassphrase");
                ConfigFile::from_fields(identity, listen_address, cert_path, cert_passphrase)
            },
        }
    }

    /// Loads the configuration from the contents of its file, `None` standing
    /// for a file that does not exist.
    pub fn load(contents: Option<&str>) -> (read: Result<ConfigFile, ConfigError>)
        ensures
            yields(read, loaded(text_of_str(contents))),
    {
        match contents {
            None => Err(ConfigError::Missing),
            Some(text) => ConfigFile::from_json(text),
        }
    }

    /// Writes the configuration as a pretty-printed JSON document.
    pub fn to_json_pretty(&self) -> (text: String)
        ensures
            text@ == pretty_text(members_of(self@)),
    {
        let mut object = empty_object();
        put_string(&mut object, "identity", self.identity.as_str());
        put_string(&mut object, "listenAddress", self.listen_address.as_str());
        put_string(&mut object, "certPath", self.cert_path.as_str());
        put_string(&mut object, "certPassphrase", self.cert_passphrase.as_str());
        render_pretty(&object)
    }
}

/// The text of a string that may be absent.
pub open spec fn text_of(value: Option<String>) -> Option<Seq<char>> {
    match value {
        Some(s) => Some(s@),
        None => None,
    }
}

/// The text of a string slice that may be absent.
pub open spec fn text_of_str(value: Option<&str>) -> Option<Seq<char>> {
    match value {
        Some(s) => Some(s@),
        None => None,
    }
}

/// The four keys of a configuration document differ from one another.
pub proof fn keys_differ()
    ensures
        key_identity() != key_listen_address(),
        key_identity() != key_cert_path(),
        key_identity() != key_cert_passphrase(),
        key_listen_address() != key_cert_path(),
        key_listen_address() != key_cert_passphrase(),
        key_cert_path() != key_cert_passphrase(),
{
    reveal_strlit("identity");
    reveal_strlit("listenAddress");
    reveal_strlit("certPath");
    reveal_strlit("certPassphrase");
    assert(key_identity().len() == 8 && key_identity()[0] == 'i');
    assert(key_listen_address().len() == 13);
    assert(key_cert_passphrase().len() == 14);
    assert(key_cert_path().len() == 8 && key_cert_path()[0] == 'c');
}

/// A configuration is read back unchanged from the members of the document
/// that holds it, whatever other members the document has besides.
pub proof fn members_round_trip(config: ConfigModel)
    ensures
        config_of_members(members_of(config)) == Some(config),
{
    keys_differ();
}

/// Where `serde_json` reads back from a written document the members that
/// it wrote, loading that document gives the configuration that was
/// written, value for value.
pub proof fn written_document_loads(config: ConfigModel)
    ensures
        document_strings(pretty_text(members_of(config))) == Some(members_of(config)) ==> loaded(
            Some(pretty_text(members_of(config))),
        ) == Ok::<ConfigModel, ConfigError>(config),
{
    members_round_trip(config);
}

/// The document that holds a configuration has exactly the four members,
/// each with the configuration's value, unchanged.
pub proof fn written_members_are_the_four(config: ConfigModel)
    ensures
        members_of(config).dom() =~= set![
            key_identity(),
            key_listen_address(),
            key_cert_path(),
            key_cert_passphrase(),
        ],
        members_of(config)[key_identity()] == config.identity,
        members_of(config)[key_listen_address()] == config.listen_address,
        members_of(config)[key_cert_path()] == config.cert_path,
        members_of(config)[key_cert_passphrase()] == config.cert_passphrase,
{
    keys_differ();
}

} // verus!
