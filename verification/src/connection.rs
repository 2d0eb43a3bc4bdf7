//! An open connection, and the HTTP requests it makes.

use vstd::prelude::*;

use crate::config::{ConfigView, QdrantConfig};
use crate::json::{Json, JsonView};
use crate::percent;
use crate::query::{QdrantQuery, QueryView};
use crate::tls;
use crate::tls::TlsSettings;

verus! {

/// `<reqwest::Client as Clone>::clone`: another handle to the same client, and so
/// with the same settings.
pub assume_specification[ <reqwest::Client as Clone>::clone ](
    client: &reqwest::Client,
) -> (copy: reqwest::Client)
    ensures
        tls::client_tls(copy) == tls::client_tls(*client),
;

/// A client and the configuration it talks by.
pub struct QdrantConnection {
    pub client: reqwest::Client,
    pub config: QdrantConfig,
}

/// The content of a [`QdrantConnection`].
#[verifier::ext_equal]
pub struct ConnectionView {
    pub settings: TlsSettings,
    pub config: ConfigView,
}

/// How a request identifies itself.
pub enum Auth {
    /// With a header of its own.
    Header { name: String, value: String },
    /// With a bearer token.
    Bearer(String),
    /// Not at all.
    Anonymous,
}

/// The content of an [`Auth`].
pub enum AuthView {
    Header { name: Seq<char>, value: Seq<char> },
    Bearer(Seq<char>),
    Anonymous,
}

/// The HTTP method of a request.
pub enum Method {
    Get,
    Post,
}

/// A request to be sent.
pub struct HttpRequest {
    pub method: Method,
    pub url: String,
    pub auth: Auth,
    pub body: Option<Json>,
}

/// The content of an [`HttpRequest`].
#[verifier::ext_equal]
pub struct RequestView {
    pub method: Method,
    pub url: Seq<char>,
    pub auth: AuthView,
    pub body: Option<JsonView>,
}

impl Auth {
    /// The content of this value.
    pub open spec fn view(&self) -> AuthView {
        match self {
            Auth::Header { name, value } => AuthView::Header { name: name@, value: value@ },
            Auth::Bearer(token) => AuthView::Bearer(token@),
            Auth::Anonymous => AuthView::Anonymous,
        }
    }
}

impl HttpRequest {
    /// The content of this request.
    pub open spec fn view(&self) -> RequestView {
        RequestView {
            method: self.method,
            url: self.url@,
            auth: self.auth@,
            body: match self.body {
                Some(body) => Some(body@),
                None => None,
            },
        }
    }
}

impl ConfigView {
    /// How requests identify themselves: by the API key if there is one, else by
    /// the bearer token if there is one.
    pub open spec fn auth(self) -> AuthView {
        match (self.api_key, self.bearer_token) {
            (Some(key), _) => AuthView::Header { name: "api-key"@, value: key },
            (None, Some(token)) => AuthView::Bearer(token),
            (None, None) => AuthView::Anonymous,
        }
    }

    /// A request for what stands at a path of the server.
    pub open spec fn get(self, path: Seq<char>) -> RequestView {
        RequestView {
            method: Method::Get,
            url: self.base_url + path,
            auth: self.auth(),
            body: None,
        }
    }

    /// The request for the server's version.
    pub open spec fn version_request(self) -> RequestView {
        self.get(Seq::empty())
    }

    /// The request for the list of collections.
    pub open spec fn collections_request(self) -> RequestView {
        self.get("/collections"@)
    }

    /// The request for the details of one collection.
    pub open spec fn detail_request(self, name: Seq<char>) -> RequestView {
        self.get("/collections/"@ + percent::segment(name))
    }

    /// The request for a collection's points.
    pub open spec fn scroll_request(self, query: QueryView) -> RequestView {
        RequestView {
            method: Method::Post,
            url: self.base_url + "/collections/"@ + percent::segment(query.collection)
                + "/points/scroll"@,
            auth: self.auth(),
            body: Some(query.body),
        }
    }
}

impl Clone for QdrantConnection {
    fn clone(&self) -> (copy: QdrantConnection)
        ensures
            copy@ == self@,
    {
        QdrantConnection { client: self.client.clone(), config: self.config.clone() }
    }
}

impl QdrantConnection {
    /// The content of this connection.
    pub open spec fn view(&self) -> ConnectionView {
        ConnectionView { settings: tls::client_tls(self.client), config: self.config@ }
    }

    /// How requests identify themselves.
    pub fn auth(&self) -> (auth: Auth)
        ensures
            auth@ == self.config@.auth(),
    {
        if let Some(key) = &self.config.api_key {
            Auth::Header { name: "api-key".to_owned(), value: key.clone() }
        } else if let Some(token) = &self.config.bearer_token {
            Auth::Bearer(token.clone())
        } else {
            Auth::Anonymous
        }
    }

    fn get(&self, path: &str) -> (request: HttpRequest)
        ensures
            request@ == self.config@.get(path@),
    {
        let mut url = self.config.base_url.clone();
        url.append(path);
        HttpRequest { method: Method::Get, url, auth: self.auth(), body: None }
    }

    /// The request for the server's version.
    pub fn version_request(&self) -> (request: HttpRequest)
        ensures
            request@ == self.config@.version_request(),
    {
        proof {
            reveal_strlit("");
            assert(""@ =~= Seq::empty());
        }
        self.get("")
    }

    /// The request for the list of collections.
    pub fn collections_request(&self) -> (request: HttpRequest)
        ensures
            request@ == self.config@.collections_request(),
    {
        self.get("/collections")
    }

    /// The request for the details of one collection.
    pub fn detail_request(&self, name: &str) -> (request: HttpRequest)
        ensures
            request@ == self.config@.detail_request(name@),
    {
        let mut path = "/collections/".to_owned();
        path.append(percent::url_component(name).as_str());
        self.get(path.as_str())
    }

    /// The request for a collection's points.
    pub fn scroll_request(&self, query: QdrantQuery) -> (request: HttpRequest)
        ensures
            request@ == self.config@.scroll_request(query@),
    {
        let mut url = self.config.base_url.clone();
        url.append("/collections/");
        url.append(percent::url_component(query.collection.as_str()).as_str());
        url.append("/points/scroll");
        HttpRequest { method: Method::Post, url, auth: self.auth(), body: Some(query.body) }
    }
}

/// Every request goes to the configured server and identifies itself in the same
/// way: by the API key if there is one, and by the bearer token only without it.
pub proof fn requests_share_server_and_auth(config: ConfigView, name: Seq<char>, query: QueryView)
    ensures
        ({
            let requests = seq![
                config.version_request(),
                config.collections_request(),
                config.detail_request(name),
                config.scroll_request(query),
            ];
            forall|i: int|
                0 <= i < requests.len() ==> {
                    let request = #[trigger] requests[i];
                    &&& request.url.len() >= config.base_url.len()
                    &&& request.url.take(config.base_url.len() as int) == config.base_url
                    &&& match request.auth {
                        AuthView::Header { name, value } => name == "api-key"@ && config.api_key
                            == Some(value),
                        AuthView::Bearer(token) => config.api_key is None && config.bearer_token
                            == Some(token),
                        AuthView::Anonymous => config.api_key is None && config.bearer_token
                            is None,
                    }
                }
        }),
{
    let requests = seq![
        config.version_request(),
        config.collections_request(),
        config.detail_request(name),
        config.scroll_request(query),
    ];
    assert forall|i: int| 0 <= i < requests.len() implies {
        let request = #[trigger] requests[i];
        &&& request.url.len() >= config.base_url.len()
        &&& request.url.take(config.base_url.len() as int) == config.base_url
    } by {
        assert(requests[i].url.take(config.base_url.len() as int) =~= config.base_url);
    }
}

/// Two collections of one server never share a scroll address.
pub proof fn scroll_addresses_differ(config: ConfigView, left: QueryView, right: QueryView)
    requires
        left.collection != right.collection,
    ensures
        config.scroll_request(left).url != config.scroll_request(right).url,
{
    let l = percent::segment(left.collection);
    let r = percent::segment(right.collection);
    let prefix = config.base_url + "/collections/"@;
    let suffix = "/points/scroll"@;
    if config.scroll_request(left).url == config.scroll_request(right).url {
        let url = config.scroll_request(left).url;
        assert(l =~= url.subrange(prefix.len() as int, url.len() - suffix.len()));
        assert(r =~= url.subrange(prefix.len() as int, url.len() - suffix.len()));
        percent::segment_is_injective(left.collection, right.collection);
    }
}

/// A name adds no path separator, query or fragment to the address of its
/// collection's details.
pub proof fn detail_address_is_one_segment(config: ConfigView, name: Seq<char>)
    ensures
        ({
            let request = config.detail_request(name);
            let prefix = config.base_url + "/collections/"@;
            &&& request.url.len() >= prefix.len()
            &&& request.url.take(prefix.len() as int) == prefix
            &&& forall|i: int|
                prefix.len() <= i < request.url.len() ==> percent::segment_char(
                    #[trigger] request.url[i],
                )
        }),
{
    percent::segment_is_plain(name);
    let url = config.detail_request(name).url;
    let prefix = config.base_url + "/collections/"@;
    let segment = percent::segment(name);
    assert(url =~= prefix + segment);
    assert(url.take(prefix.len() as int) =~= prefix);
    assert forall|i: int| prefix.len() <= i < url.len() implies percent::segment_char(
        #[trigger] url[i],
    ) by {
        assert(url[i] == segment[i - prefix.len()]);
    }
}

/// Requests identify themselves by the API key where there is one, whatever it
/// is, by the bearer token only where there is no key, and not at all where there
/// is neither.
pub proof fn key_comes_before_token(connection: &QdrantConnection, auth: Auth)
    requires
        call_ensures(QdrantConnection::auth, (connection,), auth),
    ensures
        connection.config.api_key matches Some(key) ==> (auth matches Auth::Header { name, value }
            && name@ == "api-key"@ && value@ == key@),
        connection.config.api_key is None ==> (connection.config.bearer_token matches Some(token)
            ==> (auth matches Auth::Bearer(sent) && sent@ == token@)),
        connection.config.api_key is None && connection.config.bearer_token is None
            ==> auth is Anonymous,
{
}

/// Whether two requests identify themselves alike.
pub open spec fn same_auth(left: Auth, right: Auth) -> bool {
    match (left, right) {
        (
            Auth::Header { name, value },
            Auth::Header { name: other_name, value: other },
        ) => name@ == other_name@ && value@ == other@,
        (Auth::Bearer(token), Auth::Bearer(other)) => token@ == other@,
        (Auth::Anonymous, Auth::Anonymous) => true,
        _ => false,
    }
}

/// The reads of a connection go to the server's address, to its collections, and
/// to a collection below them under its name as one path segment; none has a
/// body, and all identify themselves as the connection does.
pub proof fn reads_are_addressed_below_each_other(
    connection: &QdrantConnection,
    name: &str,
    version: HttpRequest,
    collections: HttpRequest,
    detail: HttpRequest,
    component: String,
    auth: Auth,
)
    requires
        call_ensures(QdrantConnection::version_request, (connection,), version),
        call_ensures(QdrantConnection::collections_request, (connection,), collections),
        call_ensures(QdrantConnection::detail_request, (connection, name), detail),
        call_ensures(percent::url_component, (name,), component),
        call_ensures(QdrantConnection::auth, (connection,), auth),
    ensures
        version.url@ == connection.config.base_url@,
        collections.url@ == version.url@ + "/collections"@,
        detail.url@ == collections.url@ + seq!['/'] + component@,
        version.method is Get && collections.method is Get && detail.method is Get,
        version.body is None && collections.body is None && detail.body is None,
        same_auth(version.auth, auth),
        same_auth(collections.auth, auth),
        same_auth(detail.auth, auth),
{
    reveal_strlit("/collections/");
    reveal_strlit("/collections");
    assert("/collections/"@ =~= "/collections"@ + seq!['/']);
    assert(version.url@ =~= connection.config.base_url@);
    assert(detail.url@ =~= collections.url@ + seq!['/'] + component@);
}

/// The points of a collection are asked for below the address of its details, by
/// posting the body that was planned, as it is.
pub proof fn scroll_posts_below_the_collection(
    connection: &QdrantConnection,
    query: QdrantQuery,
    scroll: HttpRequest,
    name: &str,
    detail: HttpRequest,
)
    requires
        call_ensures(QdrantConnection::scroll_request, (connection, query), scroll),
        call_ensures(QdrantConnection::detail_request, (connection, name), detail),
        name@ == query.collection@,
    ensures
        scroll.url@ == detail.url@ + "/points/scroll"@,
        scroll.method is Post,
        scroll.body matches Some(body) && body@ == query.body@,
        same_auth(scroll.auth, detail.auth),
{
    assert(scroll.url@ =~= detail.url@ + "/points/scroll"@);
}

}
