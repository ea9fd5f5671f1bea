//! The options that are common to all components that use TLS for
//! transport security and, possibly, for authentication. Not every option
//! is always needed: without client authentication, for one, no keystore is
//! necessary.

use crate::builder::Configurable;
use crate::resolved::ResolvedConfig;
use crate::schema::{ConfigOption, Configuration, Schema};
use vstd::prelude::*;

verus! {

pub const KEYSTORE_LOCATION_NAME: &'static str = "tls-keystore-location";

pub const KEYSTORE_LOCATION_HELP: &'static str =
    "The location of the keystore to use when connecting to the orchestrator, keystore \
        should be in PKCS12 format.";

pub const KEYSTORE_LOCATION_DOC: &'static str =
    "Specify a file in PKCS12 format that should be used to obtain keys\
        used for encryption.\
        The keystore can contain additional keys beside the needed one, in that case the first \
        suitable key that is found will be used.";

pub const KEYSTORE_PASSWORD_NAME: &'static str = "tls-keystore-password";

pub const KEYSTORE_PASSWORD_HELP: &'static str =
    "The password that is necessary to access the keystore, if one is required.";

pub const TRUSTSTORE_LOCATION_NAME: &'static str = "tls-truststore-location";

pub const TRUSTSTORE_LOCATION_HELP: &'static str =
    "The location of the truststore to use when connecting to the orchestrator.";

pub const TRUSTSTORE_LOCATION_DOC: &'static str =
    "Specify a file in PKCS12 format that should be used to check if certificates\
        are signed by a trusted authority. \
        Any certificate that was signed with the private key belonging to one of the public keys\
        in this truststore will be accepted as a valid certificte by this client.";

pub const TRUSTSTORE_PASSWORD_NAME: &'static str = "tls-truststore-password";

pub const TRUSTSTORE_PASSWORD_HELP: &'static str =
    "The password that is necessary to access the truststore, if one is required.";

pub const ENABLED_CIPHERS_NAME: &'static str = "tls-enabled-ciphers";

pub const ENABLED_CIPHERS_HELP: &'static str =
    "Cipher suites that are accepted when negotiating an encryption mode.";

pub const ENABLED_CIPHERS_DOC: &'static str =
    "This parameter allows whitelisting the cipher suites that are acceptable \
        when initiating a secured connection.\
        If left blank the default list of supported ciphers provided by rust-tls will be used.\
        For a list of possible values please refer to https://docs.rs/rustls/0.18.1/rustls/enum.CipherSuite.html";

pub const ENABLED_PROTOCOLS_NAME: &'static str = "tls-enabled-protocols";

pub const ENABLED_PROTOCOLS_HELP: &'static str = "A list of acceptable protocol versions to use.";

pub const ENABLED_PROTOCOLS_DOC: &'static str =
    "This defines the protocol versions that may be used. Any client trying to \
        connect or server that we are trying to connect to which does not support one of the versions\
        listed here will be rejected and no connection be possible.";

pub const APPLICATION_NAME: &'static str = "Stackable-TLS Options";

pub const APPLICATION_VERSION: &'static str = "0.1";

pub const APPLICATION_ABOUT: &'static str =
    "Not intended for direct use in a command line tool, library of TLS options to be\
            added to other config.";

/// The default of every option here: the empty text.
pub const NO_VALUE: &'static str = "";

/// An option of this set: it takes a value, does not have to be given, may
/// be given once, and defaults to the empty text.
pub open spec fn tls_option(
    name: &'static str,
    help: &'static str,
    documentation: &'static str,
) -> ConfigOption {
    ConfigOption {
        name,
        default: Some(NO_VALUE),
        required: false,
        takes_argument: true,
        help,
        documentation,
        list: false,
    }
}

/// The options of this set, in order.
pub open spec fn tls_options() -> Seq<ConfigOption> {
    seq![
        tls_option(KEYSTORE_LOCATION_NAME, KEYSTORE_LOCATION_HELP, KEYSTORE_LOCATION_DOC),
        tls_option(KEYSTORE_PASSWORD_NAME, KEYSTORE_PASSWORD_HELP, KEYSTORE_PASSWORD_HELP),
        tls_option(TRUSTSTORE_LOCATION_NAME, TRUSTSTORE_LOCATION_HELP, TRUSTSTORE_LOCATION_DOC),
        tls_option(TRUSTSTORE_PASSWORD_NAME, TRUSTSTORE_PASSWORD_HELP, TRUSTSTORE_PASSWORD_HELP),
        tls_option(ENABLED_CIPHERS_NAME, ENABLED_CIPHERS_HELP, ENABLED_CIPHERS_DOC),
        tls_option(ENABLED_PROTOCOLS_NAME, ENABLED_PROTOCOLS_HELP, ENABLED_PROTOCOLS_DOC),
    ]
}

pub struct TlsConfig {}

impl TlsConfig {
    fn option(name: &'static str, help: &'static str, documentation: &'static str) -> (made:
        ConfigOption)
        ensures
            made == tls_option(name, help, documentation),
    {
        ConfigOption {
            name,
            default: Some(NO_VALUE),
            required: false,
            takes_argument: true,
            help,
            documentation,
            list: false,
        }
    }

    /// The path of the file to use as keystore.
    pub fn keystore_location() -> (made: ConfigOption)
        ensures
            made == tls_options()[0],
    {
        Self::option(KEYSTORE_LOCATION_NAME, KEYSTORE_LOCATION_HELP, KEYSTORE_LOCATION_DOC)
    }

    /// The password that opens the keystore.
    pub fn keystore_password() -> (made: ConfigOption)
        ensures
            made == tls_options()[1],
    {
        Self::option(KEYSTORE_PASSWORD_NAME, KEYSTORE_PASSWORD_HELP, KEYSTORE_PASSWORD_HELP)
    }

    /// The path of the file to use as truststore.
    pub fn truststore_location() -> (made: ConfigOption)
        ensures
            made == tls_options()[2],
    {
        Self::option(TRUSTSTORE_LOCATION_NAME, TRUSTSTORE_LOCATION_HELP, TRUSTSTORE_LOCATION_DOC)
    }

    /// The password that opens the truststore.
    pub fn truststore_password() -> (made: ConfigOption)
        ensures
            made == tls_options()[3],
    {
        Self::option(TRUSTSTORE_PASSWORD_NAME, TRUSTSTORE_PASSWORD_HELP, TRUSTSTORE_PASSWORD_HELP)
    }

    /// The cipher suites that are accepted.
    pub fn enabled_ciphers() -> (made: ConfigOption)
        ensures
            made == tls_options()[4],
    {
        Self::option(ENABLED_CIPHERS_NAME, ENABLED_CIPHERS_HELP, ENABLED_CIPHERS_DOC)
    }

    /// The protocol versions that are accepted.
    pub fn enabled_protocols() -> (made: ConfigOption)
        ensures
            made == tls_options()[5],
    {
        Self::option(ENABLED_PROTOCOLS_NAME, ENABLED_PROTOCOLS_HELP, ENABLED_PROTOCOLS_DOC)
    }

    /// All the options of this set, in order.
    pub fn get_options() -> (options: Vec<ConfigOption>)
        ensures
            options@ == tls_options(),
    {
        let mut options: Vec<ConfigOption> = Vec::new();
        options.push(TlsConfig::keystore_location());
        options.push(TlsConfig::keystore_password());
        options.push(TlsConfig::truststore_location());
        options.push(TlsConfig::truststore_password());
        options.push(TlsConfig::enabled_ciphers());
        options.push(TlsConfig::enabled_protocols());
        options
    }

    /// The description of this set of options.
    pub fn get_config(&self) -> (config: Configuration)
        ensures
            config.name == APPLICATION_NAME,
            config.version == APPLICATION_VERSION,
            config.about == APPLICATION_ABOUT,
            config.options@ == tls_options(),
            config.wf(),
    {
        let config = Configuration {
            name: APPLICATION_NAME,
            version: APPLICATION_VERSION,
            about: APPLICATION_ABOUT,
            options: TlsConfig::get_options(),
        };
        proof {
            lemma_tls_names(config@);
        }
        config
    }
}

/// The names of the options of this set do not begin with a dash and differ
/// from one another.
pub proof fn lemma_tls_names(schema: Schema)
    requires
        schema.options == crate::schema::option_specs(tls_options()),
    ensures
        schema.wf(),
{
    reveal_strlit("tls-keystore-location");
    reveal_strlit("tls-keystore-password");
    reveal_strlit("tls-truststore-location");
    reveal_strlit("tls-truststore-password");
    reveal_strlit("tls-enabled-ciphers");
    reveal_strlit("tls-enabled-protocols");
    let names = Seq::new(6, |i: int| schema.options[i].name);
    assert(names[0][13] != names[1][13]);
    assert(names[2][15] != names[3][15]);
    assert forall|i: int, j: int| 0 <= i < j < schema.options.len() implies (
    #[trigger] schema.options[i]).name != (#[trigger] schema.options[j]).name by {
        assert(schema.options[j].name == names[j]);
    }
}

impl Configurable for TlsConfig {
    open spec fn description() -> Schema {
        Schema {
            name: APPLICATION_NAME@,
            version: APPLICATION_VERSION@,
            about: APPLICATION_ABOUT@,
            options: crate::schema::option_specs(tls_options()),
        }
    }

    /// The set of options has no state of its own: any values make it.
    open spec fn materializes(values: Map<Seq<char>, Option<Seq<Seq<char>>>>, made: Self) -> bool {
        true
    }

    fn get_config_description() -> (description: Configuration) {
        (TlsConfig {  }).get_config()
    }

    fn parse_values(parsed_values: ResolvedConfig) -> (made: Self) {
        TlsConfig {  }
    }
}

} // verus!
