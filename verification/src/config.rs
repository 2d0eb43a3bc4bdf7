//! How to reach and talk to one Qdrant server, and what must not show in a
//! message about it.

use vstd::prelude::*;

use crate::options::ProfileOptions;
use crate::text;
use crate::tls;
use crate::tls::{TlsConfig, TlsView};

verus! {

/// How to reach a server and talk to it.
#[derive(Debug, PartialEq, Eq)]
pub struct QdrantConfig {
    pub base_url: String,
    pub api_key: Option<String>,
    pub bearer_token: Option<String>,
    pub tls: TlsConfig,
    pub redaction_values: Vec<String>,
}

/// The content of a [`QdrantConfig`].
#[verifier::ext_equal]
pub struct ConfigView {
    pub base_url: Seq<char>,
    pub api_key: Option<Seq<char>>,
    pub bearer_token: Option<Seq<char>>,
    pub tls: TlsView,
    pub redaction_values: Seq<Seq<char>>,
}

/// The contents of a sequence of texts.
pub open spec fn texts(values: Seq<String>) -> Seq<Seq<char>> {
    values.map_values(|value: String| value@)
}

/// `message` with every secret masked, one secret after the other. Empty secrets
/// are passed over.
pub open spec fn masked(message: Seq<char>, secrets: Seq<Seq<char>>) -> Seq<char>
    decreases secrets.len(),
{
    if secrets.len() == 0 {
        message
    } else {
        let so_far = masked(message, secrets.drop_last());
        if secrets.last().len() == 0 {
            so_far
        } else {
            text::replaced(so_far, secrets.last(), "****"@)
        }
    }
}

impl ConfigView {
    /// `message` with the server's address and every secret masked.
    pub open spec fn redacted(self, message: Seq<char>) -> Seq<char> {
        masked(text::replaced(message, self.base_url, "<qdrant-url>"@), self.redaction_values)
    }
}

/// The address made of a profile's host, port and TLS switch.
pub open spec fn address(
    host: Option<Seq<char>>,
    port: Option<Seq<char>>,
    tls: Option<bool>,
) -> Seq<char> {
    let scheme = if tls == Some(true) {
        "https"@
    } else {
        "http"@
    };
    let host = match host {
        Some(host) => host,
        None => "127.0.0.1"@,
    };
    let port = match port {
        Some(port) => port,
        None => "6333"@,
    };
    scheme + "://"@ + host + ":"@ + port
}

/// The address made of a profile's host, port and TLS switch.
pub fn build_url(options: &ProfileOptions) -> (url: String)
    ensures
        url@ == address(text::optional(options.host), text::optional(options.port), options.tls),
{
    let secure: bool = match options.tls {
        Some(secure) => secure,
        None => false,
    };
    let mut url = if secure {
        "https".to_owned()
    } else {
        "http".to_owned()
    };
    url.append("://");
    match &options.host {
        Some(host) => url.append(host.as_str()),
        None => url.append("127.0.0.1"),
    }
    url.append(":");
    match &options.port {
        Some(port) => url.append(port.as_str()),
        None => url.append("6333"),
    }
    url
}

impl ProfileOptions {
    /// The address as the profile gives it: the URL if it has one, else one made
    /// of its parts.
    pub open spec fn given_url(&self) -> Seq<char> {
        match self.url {
            Some(url) => url@,
            None => address(text::optional(self.host), text::optional(self.port), self.tls),
        }
    }

    /// The key to send: the explicit one, else the password.
    pub open spec fn key(&self) -> Option<Seq<char>> {
        match self.api_key {
            Some(key) => Some(key@),
            None => text::optional(self.password),
        }
    }

    /// The values to keep out of messages, of those that the profile sets: the
    /// key to send and the bearer token.
    pub open spec fn sensitive_values(&self) -> Seq<Option<Seq<char>>> {
        seq![self.key(), text::optional(self.bearer_token)]
    }

    /// The values to keep out of messages, in the order in which they are
    /// gathered: the key to send, then the bearer token.
    pub fn sensitive(&self) -> (values: Vec<Option<String>>)
        ensures
            values@.map_values(|value: Option<String>| text::optional(value))
                == self.sensitive_values(),
    {
        let mut values: Vec<Option<String>> = Vec::new();
        values.push(self.resolved_key());
        values.push(text::copy_of(&self.bearer_token));
        assert(values@.map_values(|value: Option<String>| text::optional(value))
            =~= self.sensitive_values());
        values
    }

    /// The address as the profile gives it.
    pub fn base_url(&self) -> (url: String)
        ensures
            url@ == self.given_url(),
    {
        match &self.url {
            Some(url) => url.clone(),
            None => build_url(self),
        }
    }

    /// The key to send: the explicit one, else the password.
    pub fn resolved_key(&self) -> (key: Option<String>)
        ensures
            text::optional(key) == self.key(),
    {
        match &self.api_key {
            Some(key) => Some(key.clone()),
            None => text::copy_of(&self.password),
        }
    }
}

/// The configuration that a profile's options set, with the secrets that were
/// gathered from them.
pub open spec fn configured(options: &ProfileOptions, secrets: Seq<Seq<char>>) -> ConfigView {
    ConfigView {
        base_url: text::without_trailing(options.given_url(), '/'),
        api_key: options.key(),
        bearer_token: text::optional(options.bearer_token),
        tls: tls::transport(options),
        redaction_values: secrets,
    }
}

impl Clone for QdrantConfig {
    fn clone(&self) -> (copy: QdrantConfig)
        ensures
            copy@ == self@,
    {
        let mut values: Vec<String> = Vec::new();
        let mut i: usize = 0;
        while i < self.redaction_values.len()
            invariant
                i <= self.redaction_values@.len(),
                values@ == self.redaction_values@.take(i as int),
            decreases self.redaction_values@.len() - i,
        {
            values.push(self.redaction_values[i].clone());
            i += 1;
            assert(values@ =~= self.redaction_values@.take(i as int));
        }
        assert(values@ =~= self.redaction_values@);
        QdrantConfig {
            base_url: self.base_url.clone(),
            api_key: text::copy_of(&self.api_key),
            bearer_token: text::copy_of(&self.bearer_token),
            tls: self.tls.clone(),
            redaction_values: values,
        }
    }
}

impl QdrantConfig {
    /// The content of this configuration.
    pub open spec fn view(&self) -> ConfigView {
        ConfigView {
            base_url: self.base_url@,
            api_key: text::optional(self.api_key),
            bearer_token: text::optional(self.bearer_token),
            tls: self.tls@,
            redaction_values: texts(self.redaction_values@),
        }
    }

    /// The configuration that a profile's options set.
    ///
    /// `redaction_values` are the secrets gathered from the key, the bearer token
    /// and the address. An explicit API key wins over the password; the address
    /// is kept without the slashes it ends with.
    pub fn from_request(options: &ProfileOptions, redaction_values: Vec<String>) -> (result: Result<
        QdrantConfig,
        String,
    >)
        ensures
            result matches Ok(config) && config@ == configured(options, texts(redaction_values@)),
    {
        let base_url = options.base_url();
        Ok(
            QdrantConfig {
                base_url: text::trim_end(base_url.as_str(), '/').to_owned(),
                api_key: options.resolved_key(),
                bearer_token: text::copy_of(&options.bearer_token),
                tls: TlsConfig::from_request(options),
                redaction_values,
            },
        )
    }

    /// `message` with the server's address and every secret masked.
    pub fn redact(&self, message: &str) -> (result: String)
        ensures
            result@ == self@.redacted(message@),
    {
        let mut result = text::replace_all(message, self.base_url.as_str(), "<qdrant-url>");
        let ghost plain = result@;
        let mut i: usize = 0;
        while i < self.redaction_values.len()
            invariant
                i <= self.redaction_values@.len(),
                result@ == masked(plain, texts(self.redaction_values@).take(i as int)),
            decreases self.redaction_values@.len() - i,
        {
            let secret = self.redaction_values[i].as_str();
            let ghost secrets = texts(self.redaction_values@);
            assert(secrets.take(i + 1).drop_last() =~= secrets.take(i as int));
            assert(secrets.take(i + 1).last() == secret@);
            if !secret.is_empty() {
                result = text::replace_all(result.as_str(), secret, "****");
            }
            i += 1;
        }
        assert(texts(self.redaction_values@).take(i as int) =~= texts(self.redaction_values@));
        result
    }
}

/// The configured address does not end with a slash, so that a path appended to
/// it is separated by exactly one.
pub proof fn address_has_no_trailing_slash(options: &ProfileOptions, secrets: Seq<Seq<char>>)
    ensures
        configured(options, secrets).base_url.len() > 0 ==> configured(
            options,
            secrets,
        ).base_url.last() != '/',
{
    text::trailing_is_gone(options.given_url(), '/');
}

/// An explicit API key is used whatever the password is, and the password is
/// used where there is no explicit key.
pub proof fn explicit_key_wins(options: &ProfileOptions, secrets: Seq<Seq<char>>)
    ensures
        options.api_key matches Some(key) ==> configured(options, secrets).api_key == Some(key@),
        options.api_key is None ==> configured(options, secrets).api_key == text::optional(
            options.password,
        ),
{
}

/// Whether the mask cannot spell `secret`, in whole or at one of its ends: it
/// neither starts nor ends with an asterisk, and does not hold four in a row.
pub open spec fn maskable(secret: Seq<char>) -> bool {
    &&& secret.len() > 0
    &&& secret[0] != '*'
    &&& secret.last() != '*'
    &&& !text::occurs("****"@, secret)
}

proof fn lemma_clear_of_mask(needle: Seq<char>)
    requires
        maskable(needle),
    ensures
        "****"@.len() > 0,
        text::clear_of(needle, "****"@),
{
    reveal_strlit("****");
    let mask = "****"@;
    assert forall|d: int| -needle.len() < d < mask.len() implies !#[trigger] text::fits(
        needle,
        mask,
        d,
    ) by {
        if text::fits(needle, mask, d) {
            if d >= 0 {
                assert(needle[0] == mask[d]);
            } else if d + needle.len() <= mask.len() {
                assert(needle[needle.len() - 1] == mask[d + needle.len() - 1]);
            } else {
                assert(needle.subrange(-d, -d + mask.len()) =~= mask) by {
                    assert forall|j: int| 0 <= j < mask.len() implies needle[-d + j]
                        == mask[j] by {
                        assert(needle[-d + j] == mask[d + (-d + j)]);
                    }
                }
                assert(text::occurs_at(mask, needle, -d));
            }
        }
    }
}

proof fn lemma_masking_hides(message: Seq<char>, secrets: Seq<Seq<char>>, needle: Seq<char>)
    requires
        maskable(needle),
        secrets.contains(needle) || !text::occurs(needle, message),
    ensures
        !text::occurs(needle, masked(message, secrets)),
    decreases secrets.len(),
{
    if secrets.len() > 0 {
        let front = secrets.drop_last();
        let last = secrets.last();
        let so_far = masked(message, front);
        lemma_clear_of_mask(needle);
        if needle != last {
            if secrets.contains(needle) {
                let k = choose|k: int| 0 <= k < secrets.len() && secrets[k] == needle;
                assert(front[k] == needle);
            }
            lemma_masking_hides(message, front, needle);
        }
        if last.len() > 0 {
            text::replacement_hides(so_far, last, "****"@, needle);
        }
    }
}

/// A gathered secret never shows in a redacted message, whatever the message.
///
/// A secret that the mask of four asterisks can spell itself is left out.
pub proof fn secret_is_hidden(config: ConfigView, message: Seq<char>, secret: Seq<char>)
    requires
        config.redaction_values.contains(secret),
        maskable(secret),
    ensures
        !text::occurs(secret, config.redacted(message)),
{
    lemma_masking_hides(
        text::replaced(message, config.base_url, "<qdrant-url>"@),
        config.redaction_values,
        secret,
    );
}

/// Whether `secrets` holds every value that a profile has to be kept out of
/// messages, empty ones aside.
pub open spec fn gathers(options: &ProfileOptions, secrets: Seq<Seq<char>>) -> bool {
    forall|i: int|
        0 <= i < options.sensitive_values().len() ==> (#[trigger] options.sensitive_values()[i]
            matches Some(value) ==> value.len() > 0 ==> secrets.contains(value))
}

/// Where the sensitive values were gathered, every credential that will be sent
/// is listed for redaction, empty ones aside.
pub proof fn sent_credential_is_listed(options: &ProfileOptions, secrets: Seq<Seq<char>>)
    requires
        gathers(options, secrets),
    ensures
        configured(options, secrets).api_key matches Some(key) ==> key.len() > 0 ==> configured(
            options,
            secrets,
        ).redaction_values.contains(key),
        configured(options, secrets).bearer_token matches Some(token) ==> token.len() > 0
            ==> configured(options, secrets).redaction_values.contains(token),
{
    assert(options.sensitive_values()[0] == options.key());
    assert(options.sensitive_values()[1] == text::optional(options.bearer_token));
}

/// A credential that will be sent and was gathered never shows in a redacted
/// message, whatever the message.
///
/// A credential that the mask of four asterisks can spell itself is left out.
pub proof fn sent_credential_is_hidden(
    options: &ProfileOptions,
    secrets: Seq<Seq<char>>,
    message: Seq<char>,
)
    ensures
        configured(options, secrets).api_key matches Some(key) ==> secrets.contains(key)
            && maskable(key) ==> !text::occurs(key, configured(options, secrets).redacted(message)),
        configured(options, secrets).bearer_token matches Some(token) ==> secrets.contains(token)
            && maskable(token) ==> !text::occurs(
            token,
            configured(options, secrets).redacted(message),
        ),
{
    let config = configured(options, secrets);
    if let Some(key) = config.api_key {
        if secrets.contains(key) && maskable(key) {
            secret_is_hidden(config, message, key);
        }
    }
    if let Some(token) = config.bearer_token {
        if secrets.contains(token) && maskable(token) {
            secret_is_hidden(config, message, token);
        }
    }
}

/// The placeholder cannot spell a URL, in whole or at one of its ends, if the
/// URL has a colon and no angle bracket.
pub proof fn url_is_clear_of_placeholder(url: Seq<char>)
    requires
        url.contains(':'),
        !url.contains('<'),
        !url.contains('>'),
    ensures
        text::clear_of(url, "<qdrant-url>"@),
{
    reveal_strlit("<qdrant-url>");
    let token = "<qdrant-url>"@;
    let k = choose|k: int| 0 <= k < url.len() && url[k] == ':';
    assert forall|i: int| !text::occurs_at(url, token, i) by {
        if text::occurs_at(url, token, i) {
            assert(token.subrange(i, i + url.len())[k] == token[i + k]);
        }
    }
    text::clear_without_ends(url, token);
}

/// The server's address never shows in a redacted message, whatever the message.
///
/// An address that the placeholder or the mask can spell, in whole or at one of
/// their ends, is left out.
pub proof fn address_is_hidden(config: ConfigView, message: Seq<char>)
    requires
        text::clear_of(config.base_url, "<qdrant-url>"@),
        maskable(config.base_url),
    ensures
        !text::occurs(config.base_url, config.redacted(message)),
{
    reveal_strlit("<qdrant-url>");
    text::replacement_hides(message, config.base_url, "<qdrant-url>"@, config.base_url);
    lemma_masking_hides(
        text::replaced(message, config.base_url, "<qdrant-url>"@),
        config.redaction_values,
        config.base_url,
    );
}

proof fn lemma_masking_keeps(message: Seq<char>, secrets: Seq<Seq<char>>)
    requires
        forall|i: int|
            0 <= i < secrets.len() && (#[trigger] secrets[i]).len() > 0 ==> !text::occurs(
                secrets[i],
                message,
            ),
    ensures
        masked(message, secrets) == message,
    decreases secrets.len(),
{
    if secrets.len() > 0 {
        let front = secrets.drop_last();
        assert forall|i: int| 0 <= i < front.len() && (#[trigger] front[i]).len() > 0 implies
            !text::occurs(front[i], message) by {
            assert(front[i] == secrets[i]);
        }
        lemma_masking_keeps(message, front);
        if secrets.last().len() > 0 {
            assert(secrets[secrets.len() - 1] == secrets.last());
            text::replacement_keeps(message, secrets.last(), "****"@);
        }
    }
}

/// A message without the address and without a secret stays as it is.
pub proof fn harmless_message_is_kept(config: ConfigView, message: Seq<char>)
    requires
        config.base_url.len() > 0,
        !text::occurs(config.base_url, message),
        forall|i: int|
            0 <= i < config.redaction_values.len() && (#[trigger] config.redaction_values[i]).len()
                > 0 ==> !text::occurs(config.redaction_values[i], message),
    ensures
        config.redacted(message) == message,
{
    text::replacement_keeps(message, config.base_url, "<qdrant-url>"@);
    lemma_masking_keeps(message, config.redaction_values);
}

/// Redacting a redacted message changes nothing.
///
/// Addresses and secrets that the placeholder or the mask can spell are left
/// out.
pub proof fn redacting_twice_changes_nothing(config: ConfigView, message: Seq<char>)
    requires
        text::clear_of(config.base_url, "<qdrant-url>"@),
        maskable(config.base_url),
        forall|i: int|
            0 <= i < config.redaction_values.len() && (#[trigger] config.redaction_values[i]).len()
                > 0 ==> maskable(config.redaction_values[i]),
    ensures
        config.redacted(config.redacted(message)) == config.redacted(message),
{
    let once = config.redacted(message);
    address_is_hidden(config, message);
    assert forall|i: int|
        0 <= i < config.redaction_values.len() && (#[trigger] config.redaction_values[i]).len()
            > 0 implies !text::occurs(config.redaction_values[i], once) by {
        secret_is_hidden(config, message, config.redaction_values[i]);
    }
    harmless_message_is_kept(config, once);
}

/// Whether `text` is what an optional text says, or `usual` where it says nothing.
pub open spec fn says(value: Option<String>, usual: Seq<char>, text: Seq<char>) -> bool {
    match value {
        Some(value) => value@ == text,
        None => usual == text,
    }
}

/// The address made of a profile's parts is the scheme, the host and the port:
/// the host is the local one and the port 6333 where the profile names none,
/// whatever the other parts are, and the scheme is `https` exactly if TLS is
/// switched on.
pub proof fn address_is_made_of_its_parts(
    options: &ProfileOptions,
    url: String,
    host: Seq<char>,
    port: Seq<char>,
)
    requires
        call_ensures(build_url, (options,), url),
        says(options.host, "127.0.0.1"@, host),
        says(options.port, "6333"@, port),
    ensures
        options.tls == Some(true) ==> url@ == "https"@ + "://"@ + host + ":"@ + port,
        options.tls != Some(true) ==> url@ == "http"@ + "://"@ + host + ":"@ + port,
{
}

/// Switching TLS on or off changes the scheme of the address and nothing else.
pub proof fn tls_switch_sets_the_scheme_alone(
    left: &ProfileOptions,
    right: &ProfileOptions,
    left_url: String,
    right_url: String,
)
    requires
        call_ensures(build_url, (left,), left_url),
        call_ensures(build_url, (right,), right_url),
        text::optional(left.host) == text::optional(right.host),
        text::optional(left.port) == text::optional(right.port),
    ensures
        left.tls == Some(true) && right.tls == Some(true) ==> left_url@ == right_url@,
        left.tls != Some(true) && right.tls != Some(true) ==> left_url@ == right_url@,
        left.tls == Some(true) && right.tls != Some(true) ==> left_url@.skip(5)
            == right_url@.skip(4),
{
    reveal_strlit("https");
    reveal_strlit("http");
    let host = match left.host {
        Some(host) => host@,
        None => "127.0.0.1"@,
    };
    let port = match left.port {
        Some(port) => port@,
        None => "6333"@,
    };
    address_is_made_of_its_parts(left, left_url, host, port);
    address_is_made_of_its_parts(right, right_url, host, port);
    let rest = "://"@ + host + ":"@ + port;
    if left.tls == Some(true) && right.tls != Some(true) {
        assert(left_url@ =~= "https"@ + rest);
        assert(right_url@ =~= "http"@ + rest);
        assert(left_url@.skip(5) =~= rest);
        assert(right_url@.skip(4) =~= rest);
    }
}

/// Without a port the address ends with the usual one, whatever host and TLS
/// switch are.
pub proof fn address_without_port_ends_with_the_usual_one(options: &ProfileOptions, url: String)
    requires
        call_ensures(build_url, (options,), url),
        options.port is None,
    ensures
        url@.len() >= 5,
        url@.skip(url@.len() - 5) == seq![':', '6', '3', '3', '3'],
{
    reveal_strlit(":");
    reveal_strlit("6333");
    let host = match options.host {
        Some(host) => host@,
        None => "127.0.0.1"@,
    };
    address_is_made_of_its_parts(options, url, host, "6333"@);
    assert(url@.skip(url@.len() - 5) =~= seq![':', '6', '3', '3', '3']);
}

/// A URL in the profile is the address, and only without one is the address made
/// of the parts.
pub proof fn url_wins_over_its_parts(options: &ProfileOptions, given: String, made: String)
    requires
        call_ensures(ProfileOptions::base_url, (options,), given),
        call_ensures(build_url, (options,), made),
    ensures
        options.url matches Some(url) ==> given@ == url@,
        options.url is None ==> given@ == made@,
{
}

/// The key to send is the explicit one, whatever it is, and the password where
/// there is no explicit one.
pub proof fn key_is_the_explicit_one(options: &ProfileOptions, key: Option<String>)
    requires
        call_ensures(ProfileOptions::resolved_key, (options,), key),
    ensures
        options.api_key matches Some(explicit) ==> (key matches Some(sent) && sent@ == explicit@),
        options.api_key is None ==> (options.password matches Some(password) ==> (
        key matches Some(sent) && sent@ == password@)),
        options.api_key is None && options.password is None ==> key is None,
{
}

/// The values to keep out of messages are the key to send and the bearer token,
/// in this order, each where it is there.
pub proof fn sensitive_values_are_the_credentials(
    options: &ProfileOptions,
    values: Vec<Option<String>>,
    key: Option<String>,
)
    requires
        call_ensures(ProfileOptions::sensitive, (options,), values),
        call_ensures(ProfileOptions::resolved_key, (options,), key),
    ensures
        values@.len() == 2,
        key is Some <==> values@[0] is Some,
        key matches Some(sent) ==> values@[0]->0@ == sent@,
        options.bearer_token is Some <==> values@[1] is Some,
        options.bearer_token matches Some(token) ==> values@[1]->0@ == token@,
{
    let views = values@.map_values(|value: Option<String>| text::optional(value));
    assert(views.len() == values@.len());
    assert(views[0] == text::optional(values@[0]) && views[1] == text::optional(values@[1]));
}

/// The configuration takes the given address without the slashes it ends with,
/// the key to send, the bearer token and the gathered secrets, each as it is and
/// whatever the others are.
pub proof fn configuration_takes_each_option(
    options: &ProfileOptions,
    secrets: Vec<String>,
    result: Result<QdrantConfig, String>,
    given: String,
    key: Option<String>,
    core: Seq<char>,
    slashes: Seq<char>,
)
    requires
        call_ensures(QdrantConfig::from_request, (options, secrets), result),
        call_ensures(ProfileOptions::base_url, (options,), given),
        call_ensures(ProfileOptions::resolved_key, (options,), key),
        given@ == core + slashes,
        forall|i: int| 0 <= i < slashes.len() ==> #[trigger] slashes[i] == '/',
        core.len() > 0 ==> core.last() != '/',
    ensures
        result matches Ok(config) && {
            &&& config.base_url@ == core
            &&& config.api_key is Some <==> key is Some
            &&& key matches Some(key) ==> config.api_key->0@ == key@
            &&& config.bearer_token is Some <==> options.bearer_token is Some
            &&& options.bearer_token matches Some(token) ==> config.bearer_token->0@ == token@
            &&& config.redaction_values@.len() == secrets@.len()
            &&& forall|i: int|
                0 <= i < secrets@.len() ==> (#[trigger] config.redaction_values@[i])@
                    == secrets@[i]@
        },
{
    text::trailing_characters_are_taken_off(core, slashes, '/');
    let config = result->Ok_0;
    assert(config@.redaction_values == texts(secrets@));
    assert(texts(config.redaction_values@).len() == texts(secrets@).len());
    assert forall|i: int| 0 <= i < secrets@.len() implies (
    #[trigger] config.redaction_values@[i])@ == secrets@[i]@ by {
        assert(texts(config.redaction_values@)[i] == texts(secrets@)[i]);
    }
}

/// The configuration's transport security is the one that the same options set.
pub proof fn configuration_takes_transport(
    options: &ProfileOptions,
    secrets: Vec<String>,
    result: Result<QdrantConfig, String>,
    transport: TlsConfig,
)
    requires
        call_ensures(QdrantConfig::from_request, (options, secrets), result),
        call_ensures(TlsConfig::from_request, (options,), transport),
    ensures
        result matches Ok(config) && config.tls@ == transport@,
{
}

/// Without secrets, redacting keeps what stands before the first mention of the
/// address, puts the placeholder in its place, and goes on behind it as a call on
/// what is left does.
pub proof fn address_is_masked_mention_by_mention(
    config: &QdrantConfig,
    message: &str,
    rest: &str,
    whole: String,
    tail: String,
    before: Seq<char>,
)
    requires
        call_ensures(QdrantConfig::redact, (config, message), whole),
        call_ensures(QdrantConfig::redact, (config, rest), tail),
        config.redaction_values@.len() == 0,
        config.base_url@.len() > 0,
        message@ == before + config.base_url@ + rest@,
        text::starts_nowhere_before(config.base_url@, message@, before.len() as int),
    ensures
        whole@ == before + "<qdrant-url>"@ + tail@,
{
    text::first_match_is_replaced(before, config.base_url@, rest@, "<qdrant-url>"@);
    assert(texts(config.redaction_values@).len() == 0);
}

/// Without secrets, a message that does not mention the address stays as it is.
pub proof fn message_without_address_is_kept(config: &QdrantConfig, message: &str, result: String)
    requires
        call_ensures(QdrantConfig::redact, (config, message), result),
        config.redaction_values@.len() == 0,
        config.base_url@.len() > 0,
        text::starts_nowhere_before(config.base_url@, message@, message@.len() as int),
    ensures
        result@ == message@,
{
    assert(texts(config.redaction_values@).len() == 0);
    assert forall|i: int| !text::occurs_at(config.base_url@, message@, i) by {
        if text::occurs_at(config.base_url@, message@, i) {
            assert(message@.subrange(i, i + config.base_url@.len()) == config.base_url@);
        }
    }
    text::replacement_keeps(message@, config.base_url@, "<qdrant-url>"@);
}

/// One secret more masks that secret in what was redacted without it: what is
/// handed to a replacement of the secret by four asterisks comes out, and an
/// empty secret masks nothing.
pub proof fn each_secret_is_masked_in_turn(
    config: &QdrantConfig,
    longer: &QdrantConfig,
    message: &str,
    result: String,
    longer_result: String,
    so_far: &str,
    secret: &str,
    mask: &str,
    expected: String,
)
    requires
        call_ensures(QdrantConfig::redact, (config, message), result),
        call_ensures(QdrantConfig::redact, (longer, message), longer_result),
        longer.base_url@ == config.base_url@,
        longer.redaction_values@.len() == config.redaction_values@.len() + 1,
        longer.redaction_values@.last()@ == secret@,
        forall|i: int|
            0 <= i < config.redaction_values@.len() ==> (#[trigger] longer.redaction_values@[i])@
                == config.redaction_values@[i]@,
        so_far@ == result@,
        mask@ == seq!['*', '*', '*', '*'],
        call_ensures(text::replace_all, (so_far, secret, mask), expected),
    ensures
        secret@.len() > 0 ==> longer_result@ == expected@,
        secret@.len() == 0 ==> longer_result@ == result@,
{
    reveal_strlit("****");
    assert("****"@ =~= seq!['*', '*', '*', '*']);
    let secrets = texts(longer.redaction_values@);
    assert(secrets.drop_last() =~= texts(config.redaction_values@));
    assert(secrets.last() == secret@);
}

/// Without secrets, redacting is the replacement of the address by its
/// placeholder, also where the address is empty.
pub proof fn address_is_masked_as_replaced(
    config: &QdrantConfig,
    message: &str,
    result: String,
    address: &str,
    placeholder: &str,
    expected: String,
)
    requires
        call_ensures(QdrantConfig::redact, (config, message), result),
        config.redaction_values@.len() == 0,
        address@ == config.base_url@,
        placeholder@ == seq!['<', 'q', 'd', 'r', 'a', 'n', 't', '-', 'u', 'r', 'l', '>'],
        call_ensures(text::replace_all, (message, address, placeholder), expected),
    ensures
        result@ == expected@,
{
    reveal_strlit("<qdrant-url>");
    assert("<qdrant-url>"@ =~= placeholder@);
    assert(texts(config.redaction_values@).len() == 0);
}

/// The content of a configuration is what its fields say, each by itself.
pub proof fn configuration_says_what_its_fields_say(config: QdrantConfig)
    ensures
        config@.base_url == config.base_url@,
        config.api_key is Some <==> config@.api_key is Some,
        config.api_key matches Some(key) ==> config@.api_key == Some(key@),
        config.bearer_token is Some <==> config@.bearer_token is Some,
        config.bearer_token matches Some(token) ==> config@.bearer_token == Some(token@),
        config@.tls == config.tls@,
        config@.redaction_values.len() == config.redaction_values@.len(),
        forall|i: int|
            0 <= i < config.redaction_values@.len() ==> #[trigger] config@.redaction_values[i]
                == config.redaction_values@[i]@,
{
}

}
