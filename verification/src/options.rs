//! The options of a connection profile that the driver reads, and how each may
//! be spelled.

use vstd::prelude::*;

verus! {

/// An option of a connection profile.
///
/// The API key and the password are options apart: the desktop form labels the
/// password field "API key / token", so a key typed there arrives as the
/// password, and it must not shadow a key that was set explicitly.
#[derive(Clone, Copy)]
pub enum ProfileOption {
    Url,
    Host,
    Port,
    Tls,
    ApiKey,
    Password,
    BearerToken,
    RootCert,
    ClientCert,
    ClientKey,
    Insecure,
    Collection,
}

impl ProfileOption {
    /// The spellings under which the option is looked up, the first one first.
    pub open spec fn spellings(self) -> Seq<Seq<char>> {
        match self {
            ProfileOption::Url => seq!["connectionString"@, "url"@, "dsn"@],
            ProfileOption::Host => seq!["host"@, "endpoint"@],
            ProfileOption::Port => seq!["port"@],
            ProfileOption::Tls => seq!["tls"@, "ssl"@],
            ProfileOption::ApiKey => seq!["apiKey"@, "api_key"@],
            ProfileOption::Password => seq!["password"@],
            ProfileOption::BearerToken => seq!["token"@, "bearerToken"@, "accessToken"@],
            ProfileOption::RootCert => seq![
                "sslRootCert"@,
                "sslrootcert"@,
                "ssl-ca"@,
                "caCert"@,
            ],
            ProfileOption::ClientCert => seq!["sslCert"@, "sslcert"@, "ssl-cert"@, "clientCert"@],
            ProfileOption::ClientKey => seq!["sslKey"@, "sslkey"@, "ssl-key"@, "clientKey"@],
            ProfileOption::Insecure => seq!["sslInsecure"@, "tlsInsecure"@],
            ProfileOption::Collection => seq!["collection"@, "collectionName"@],
        }
    }

    /// The spellings under which the option is looked up, the first one first.
    pub fn names(self) -> (names: Vec<&'static str>)
        ensures
            names@.map_values(|name: &'static str| name@) == self.spellings(),
    {
        let names: Vec<&'static str> = match self {
            ProfileOption::Url => vec!["connectionString", "url", "dsn"],
            ProfileOption::Host => vec!["host", "endpoint"],
            ProfileOption::Port => vec!["port"],
            ProfileOption::Tls => vec!["tls", "ssl"],
            ProfileOption::ApiKey => vec!["apiKey", "api_key"],
            ProfileOption::Password => vec!["password"],
            ProfileOption::BearerToken => vec!["token", "bearerToken", "accessToken"],
            ProfileOption::RootCert => vec!["sslRootCert", "sslrootcert", "ssl-ca", "caCert"],
            ProfileOption::ClientCert => vec!["sslCert", "sslcert", "ssl-cert", "clientCert"],
            ProfileOption::ClientKey => vec!["sslKey", "sslkey", "ssl-key", "clientKey"],
            ProfileOption::Insecure => vec!["sslInsecure", "tlsInsecure"],
            ProfileOption::Collection => vec!["collection", "collectionName"],
        };
        assert(names@.map_values(|name: &'static str| name@) =~= self.spellings());
        names
    }
}

/// What a connection profile says for each option: the value that was found
/// under one of its spellings, if there is one.
pub struct ProfileOptions {
    pub url: Option<String>,
    pub host: Option<String>,
    pub port: Option<String>,
    pub tls: Option<bool>,
    pub api_key: Option<String>,
    pub password: Option<String>,
    pub bearer_token: Option<String>,
    pub root_cert: Option<String>,
    pub client_cert: Option<String>,
    pub client_key: Option<String>,
    pub insecure: Option<String>,
}

impl Default for ProfileOptions {
    /// A profile that sets no option.
    fn default() -> (options: ProfileOptions)
        ensures
            options.url is None,
            options.host is None,
            options.port is None,
            options.tls is None,
            options.api_key is None,
            options.password is None,
            options.bearer_token is None,
            options.root_cert is None,
            options.client_cert is None,
            options.client_key is None,
            options.insecure is None,
    {
        ProfileOptions {
            url: None,
            host: None,
            port: None,
            tls: None,
            api_key: None,
            password: None,
            bearer_token: None,
            root_cert: None,
            client_cert: None,
            client_key: None,
            insecure: None,
        }
    }
}

}
