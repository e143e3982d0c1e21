//! The client: the keys, the endpoint of the account, and the HTTP client
//! that carries the credentials.

use crate::error::ClientError;
use http_auth_basic::Credentials;
use reqwest::header::{HeaderMap, HeaderValue, InvalidHeaderValue, AUTHORIZATION};
use reqwest::{Client, ClientBuilder};
use vstd::prelude::*;
use vstd::string::*;

verus! {

/// Where the service lists, describes and deletes files.
pub const FILES_ENDPOINT: &'static str = "https://api.imagekit.io/v1/files";

/// `reqwest::Client`, carried as it is: nothing is known of what it holds.
#[verifier::external_type_specification]
#[verifier::external_body]
pub struct ExClient(reqwest::Client);

/// `reqwest::header::HeaderValue`, carried as it is from where it is
/// parsed to where the client is built.
#[verifier::external_type_specification]
#[verifier::external_body]
pub struct ExHeaderValue(reqwest::header::HeaderValue);

/// The value of a Basic `Authorization` header for a user and a password,
/// as `http_auth_basic` writes it.
pub uninterp spec fn basic_authorization(user_id: Seq<char>, password: Seq<char>) -> Seq<char>;

/// A text that can stand as the value of a header: no control character
/// but the tab.
pub open spec fn is_header_text(text: Seq<char>) -> bool {
    forall|i: int|
        0 <= i < text.len() ==> {
            let code = #[trigger] text[i] as u32;
            (code >= 32 && code != 127) || code == 9
        }
}

/// `http_auth_basic::Credentials::new` followed by `as_http_header`: the
/// result depends on the two texts alone.
#[verifier::external_body]
fn basic_authorization_header(user_id: &str, password: &str) -> (header: String)
    ensures
        header@ == basic_authorization(user_id@, password@),
{
    Credentials::new(user_id, password).as_http_header()
}

/// `reqwest::header::HeaderValue::from_str`: it accepts a text exactly when
/// none of its bytes is a control character other than the tab.
#[verifier::external_body]
fn header_value(text: &str) -> (result: Result<HeaderValue, InvalidHeaderValue>)
    ensures
        result is Ok <==> is_header_text(text@),
{
    HeaderValue::from_str(text)
}

/// `reqwest::ClientBuilder::build`, for a client that sends `authorization`
/// with every request. Whether the client can be set up depends on the
/// machine: nothing is claimed of the result.
#[verifier::external_body]
fn client_with_authorization(authorization: HeaderValue) -> (result: Result<
    Client,
    reqwest::Error,
>) {
    let mut headers = HeaderMap::new();
    headers.insert(AUTHORIZATION, authorization);
    ClientBuilder::new().default_headers(headers).build()
}

/// A client of the service.
pub struct ImageKit {
    pub(crate) public_key: String,
    pub(crate) private_key: String,
    pub(crate) url_endpoint: String,
    pub(crate) client: Client,
}

/// The texts that an [`ImageKit`] holds.
pub struct ImageKitView {
    pub public_key: Seq<char>,
    pub private_key: Seq<char>,
    pub url_endpoint: Seq<char>,
}

impl View for ImageKit {
    type V = ImageKitView;

    closed spec fn view(&self) -> ImageKitView {
        ImageKitView {
            public_key: self.public_key@,
            private_key: self.private_key@,
            url_endpoint: self.url_endpoint@,
        }
    }
}

impl ImageKit {
    /// The HTTP client that the requests go through.
    pub closed spec fn http(&self) -> Client {
        self.client
    }

    /// A client for the account with these keys and this URL endpoint.
    /// The private key is the user of the Basic credentials that every
    /// request carries; the password is empty.
    pub fn new(public_key: &str, private_key: &str, url_endpoint: &str) -> (result: Result<
        Self,
        ClientError,
    >)
        ensures
            result matches Ok(kit) ==> kit@ == (ImageKitView {
                public_key: public_key@,
                private_key: private_key@,
                url_endpoint: url_endpoint@,
            }),
            result matches Err(error) ==> error is Header || error is Http,
            result matches Err(error) ==> (error is Header <==> !is_header_text(
                basic_authorization(private_key@, ""@),
            )),
    {
        let credentials = basic_authorization_header(private_key, "");
        let authorization = match header_value(credentials.as_str()) {
            Ok(authorization) => authorization,
            Err(error) => {
                return Err(ClientError::Header(error));
            },
        };
        match client_with_authorization(authorization) {
            Ok(client) => Ok(Self::with_client(public_key, private_key, url_endpoint, client)),
            Err(error) => Err(ClientError::Http(error)),
        }
    }

    /// A client for the account with these keys and this URL endpoint,
    /// around an HTTP client that the caller has set up.
    pub fn with_client(public_key: &str, private_key: &str, url_endpoint: &str, client: Client) -> (kit:
        Self)
        ensures
            kit@ == (ImageKitView {
                public_key: public_key@,
                private_key: private_key@,
                url_endpoint: url_endpoint@,
            }),
            kit.http() == client,
    {
        ImageKit {
            public_key: String::from_str(public_key),
            private_key: String::from_str(private_key),
            url_endpoint: String::from_str(url_endpoint),
            client,
        }
    }

    /// The value of the `Authorization` header for this client's private
    /// key.
    pub fn authorization(&self) -> (header: String)
        ensures
            header@ == basic_authorization(self@.private_key, ""@),
    {
        basic_authorization_header(self.private_key.as_str(), "")
    }

    /// The URL endpoint of the account.
    pub fn url_endpoint(&self) -> (endpoint: &str)
        ensures
            endpoint@ == self@.url_endpoint,
    {
        self.url_endpoint.as_str()
    }

    /// The HTTP client that the requests go through.
    pub fn client(&self) -> (client: &Client)
        ensures
            *client == self.http(),
    {
        &self.client
    }
}

} // verus!
