//! The client's side of the remote service: its errors, the requests it
//! builds and how it reads a response's status.

use crate::api::models::{CreateSessionRequest, SendMessageRequest};
use crate::commands::show::{mask_token, maskable, masked};
use crate::text::{decimal, equal, join, to_decimal};
use vstd::prelude::*;

verus! {

/// Why a call to the remote service failed.
#[derive(Debug, PartialEq, Eq)]
pub enum ApiError {
    /// The service could not be reached.
    ConnectionError(String),
    /// The service answered with a status that is no success.
    RequestError(String),
    /// The service answered with a body that could not be read.
    ParseError(String),
}

impl ApiError {
    /// The text that describes this error to the user.
    pub open spec fn text(self) -> Seq<char> {
        match self {
            ApiError::ConnectionError(detail) => "Failed to connect to API: "@ + detail@,
            ApiError::RequestError(detail) => "API request failed: "@ + detail@,
            ApiError::ParseError(detail) => "Failed to parse API response: "@ + detail@,
        }
    }

    /// The text that describes this error to the user.
    pub fn message(&self) -> (message: String)
        ensures
            message@ == self.text(),
    {
        match self {
            ApiError::ConnectionError(detail) => join(
                "Failed to connect to API: ",
                detail.as_str(),
            ),
            ApiError::RequestError(detail) => join("API request failed: ", detail.as_str()),
            ApiError::ParseError(detail) => join(
                "Failed to parse API response: ",
                detail.as_str(),
            ),
        }
    }
}

/// Where the service is reached unless another address is given.
pub const DEFAULT_API_URL: &'static str = "https://api.devin.ai";

/// How many sessions are asked for when no limit is given.
pub const DEFAULT_LIMIT: u32 = 100;

/// The value of the `Content-Type` header that announces JSON.
pub const CONTENT_TYPE_JSON: &'static str = "application/json";

/// What `reqwest::StatusCode` displays for the status with the given code:
/// the code and, after a space, the phrase that names the status.
pub uninterp spec fn status_text(code: u16) -> Seq<char>;

/// The status of a response: a code of three digits.
#[derive(Clone, Copy, Debug, PartialEq, Eq)]
pub struct HttpStatus {
    code: u16,
}

impl View for HttpStatus {
    type V = u16;

    closed spec fn view(&self) -> u16 {
        self.code
    }
}

impl HttpStatus {
    #[verifier::type_invariant]
    spec fn in_range(self) -> bool {
        100 <= self.code <= 999
    }

    /// The status with the given code, if it is one: a number from 100 to
    /// 999.
    pub fn new(code: u16) -> (status: Option<HttpStatus>)
        ensures
            100 <= code <= 999 <==> status is Some,
            status is Some ==> status->0@ == code,
    {
        if 100 <= code && code <= 999 {
            Some(HttpStatus { code })
        } else {
            None
        }
    }

    /// The code.
    pub fn code(&self) -> (code: u16)
        ensures
            code == self@,
            100 <= code <= 999,
    {
        proof {
            use_type_invariant(self);
        }
        self.code
    }

    /// Whether the status reports success: a code from 200 to 299.
    pub fn is_success(&self) -> (success: bool)
        ensures
            success == (200 <= self@ <= 299),
    {
        200 <= self.code && self.code <= 299
    }

    /// The status as it is shown.
    pub fn text(&self) -> (text: String)
        ensures
            text@ == status_text(self@),
    {
        proof {
            use_type_invariant(self);
        }
        display_status(self.code)
    }
}

/// Displays the status that `reqwest::StatusCode::from_u16` gives for
/// `code`, as `Display for StatusCode` writes it. `from_u16` gives a status
/// for every code from 100 to 999. Not proved: that what is displayed is
/// `status_text(code)`, which is to say that it depends on the code alone.
#[verifier::external_body]
fn display_status(code: u16) -> (text: String)
    requires
        100 <= code <= 999,
    ensures
        text@ == status_text(code),
{
    match reqwest::StatusCode::from_u16(code) {
        Ok(status) => status.to_string(),
        Err(invalid) => invalid.to_string(),
    }
}

/// The error for a request that did not reach the service, for the reason
/// `detail`.
pub fn connection_failed(detail: &str) -> (error: ApiError)
    ensures
        error matches ApiError::ConnectionError(text) && text@ == detail@,
{
    ApiError::ConnectionError(String::from_str(detail))
}

/// The error for a response whose body could not be read, for the reason
/// `detail`.
pub fn response_unreadable(detail: &str) -> (error: ApiError)
    ensures
        error matches ApiError::ParseError(text) && text@ == detail@,
{
    ApiError::ParseError(String::from_str(detail))
}

/// The error for a response whose status, shown as `status`, is no success.
pub fn rejected(status: &str) -> (error: ApiError)
    ensures
        error matches ApiError::RequestError(detail) && detail@ == "API returned status: "@
            + status@,
{
    ApiError::RequestError(join("API returned status: ", status))
}

/// Reads the status of a response: a success lets the response through,
/// any other status is the error that names it.
pub fn check_status(status: HttpStatus) -> (checked: Result<(), ApiError>)
    ensures
        200 <= status@ <= 299 <==> checked is Ok,
        checked matches Err(error) ==> error matches ApiError::RequestError(detail) && detail@
            == "API returned status: "@ + status_text(status@),
{
    if status.is_success() {
        Ok(())
    } else {
        Err(rejected(status.text().as_str()))
    }
}

/// How a request is made.
#[derive(Clone, Copy, Debug, PartialEq, Eq, Structural)]
pub enum Method {
    Get,
    Post,
}

/// What a request carries.
#[derive(Debug, PartialEq, Eq)]
pub enum Body {
    Empty,
    CreateSession(CreateSessionRequest),
    SendMessage(SendMessageRequest),
}

/// The mathematical value of a `Body`.
pub enum BodyView {
    Empty,
    CreateSession { prompt: Seq<char> },
    SendMessage { message: Seq<char> },
}

impl View for Body {
    type V = BodyView;

    open spec fn view(&self) -> BodyView {
        match self {
            Body::Empty => BodyView::Empty,
            Body::CreateSession(request) => BodyView::CreateSession { prompt: request.prompt@ },
            Body::SendMessage(request) => BodyView::SendMessage { message: request.message@ },
        }
    }
}

/// A request to the service, ready to be sent.
#[derive(Debug, PartialEq, Eq)]
pub struct ApiRequest {
    pub method: Method,
    pub url: String,
    /// The value of the `Authorization` header.
    pub authorization: String,
    /// Whether the `Content-Type` header is sent, with `CONTENT_TYPE_JSON`.
    pub json: bool,
    pub body: Body,
}

/// The mathematical value of an `ApiRequest`.
pub struct ApiRequestView {
    pub method: Method,
    pub url: Seq<char>,
    pub authorization: Seq<char>,
    pub json: bool,
    pub body: BodyView,
}

impl View for ApiRequest {
    type V = ApiRequestView;

    open spec fn view(&self) -> ApiRequestView {
        ApiRequestView {
            method: self.method,
            url: self.url@,
            authorization: self.authorization@,
            json: self.json,
            body: self.body@,
        }
    }
}

/// The value of the `Authorization` header for a token.
pub open spec fn bearer(token: Seq<char>) -> Seq<char> {
    "Bearer "@ + token
}

/// The address of the sessions.
pub open spec fn sessions_url(base: Seq<char>) -> Seq<char> {
    base + "/v1/sessions"@
}

/// The address of the sessions, at most `limit` of them.
pub open spec fn sessions_page_url(base: Seq<char>, limit: u32) -> Seq<char> {
    base + "/v1/sessions?limit="@ + decimal(limit as nat)
}

/// The address of one session.
pub open spec fn session_url(base: Seq<char>, session_id: Seq<char>) -> Seq<char> {
    base + "/v1/sessions/"@ + session_id
}

/// The address of the messages of one session.
pub open spec fn messages_url(base: Seq<char>, session_id: Seq<char>) -> Seq<char> {
    base + "/v1/sessions/"@ + session_id + "/messages"@
}

/// The limit that is asked for where `limit` is given or not.
pub open spec fn limit_or_default(limit: Option<u32>) -> u32 {
    match limit {
        Some(n) => n,
        None => DEFAULT_LIMIT,
    }
}

/// The client of the service: the token it presents and the address it
/// reaches the service at.
#[derive(Debug, PartialEq, Eq)]
pub struct ApiClient {
    api_token: String,
    api_url: String,
}

/// The mathematical value of an `ApiClient`.
pub struct ApiClientView {
    pub token: Seq<char>,
    pub url: Seq<char>,
}

impl View for ApiClient {
    type V = ApiClientView;

    closed spec fn view(&self) -> ApiClientView {
        ApiClientView { token: self.api_token@, url: self.api_url@ }
    }
}

impl ApiClient {
    /// A client for the service at its usual address.
    pub fn new(token: &str) -> (client: ApiClient)
        ensures
            client@ == (ApiClientView { token: token@, url: DEFAULT_API_URL@ }),
    {
        ApiClient::new_with_url(token, DEFAULT_API_URL)
    }

    /// A client for the service at another address.
    pub fn new_with_url(token: &str, url: &str) -> (client: ApiClient)
        ensures
            client@ == (ApiClientView { token: token@, url: url@ }),
    {
        ApiClient { api_token: String::from_str(token), api_url: String::from_str(url) }
    }

    /// Whether the client is fit to reach the service: it is unless its
    /// token is empty.
    pub fn check_connection(&self) -> (checked: Result<(), ApiError>)
        ensures
            self@.token.len() > 0 <==> checked is Ok,
            checked matches Err(error) ==> error matches ApiError::ConnectionError(detail)
                && detail@ == "API token is empty"@,
    {
        if self.api_token.as_str().is_empty() {
            return Err(ApiError::ConnectionError(String::from_str("API token is empty")));
        }
        Ok(())
    }

    /// What a request to `endpoint` would answer, without making it.
    pub fn make_request(&self, endpoint: &str) -> (answer: Result<String, ApiError>)
        ensures
            match answer {
                Ok(text) => self@.token.len() > 0 && endpoint@ != "/error"@ && text@
                    == "Response from "@ + self@.url + endpoint@,
                Err(ApiError::ConnectionError(detail)) => self@.token.len() == 0 && detail@
                    == "API token is empty"@,
                Err(ApiError::RequestError(detail)) => self@.token.len() > 0 && endpoint@
                    == "/error"@ && detail@ == "Endpoint returned an error"@,
                Err(ApiError::ParseError(_)) => false,
            },
    {
        if self.api_token.as_str().is_empty() {
            return Err(ApiError::ConnectionError(String::from_str("API token is empty")));
        }
        if equal(endpoint, "/error") {
            return Err(ApiError::RequestError(String::from_str("Endpoint returned an error")));
        }
        Ok(join("Response from ", self.api_url.as_str()).concat(endpoint))
    }

    /// The address the service is reached at.
    pub fn get_api_url(&self) -> (url: &str)
        ensures
            url@ == self@.url,
    {
        self.api_url.as_str()
    }

    /// The token the client presents.
    pub fn api_token(&self) -> (token: &str)
        ensures
            token@ == self@.token,
    {
        self.api_token.as_str()
    }

    /// The token, masked for display.
    pub fn get_masked_token(&self) -> (shown: String)
        requires
            maskable(self@.token),
        ensures
            shown@ == masked(self@.token),
    {
        mask_token(self.api_token.as_str())
    }

    /// The value of the `Authorization` header.
    pub fn authorization(&self) -> (value: String)
        ensures
            value@ == bearer(self@.token),
    {
        join("Bearer ", self.api_token.as_str())
    }

    /// The request that creates a session with `message` as its prompt.
    pub fn create_session_request(&self, message: &str) -> (request: ApiRequest)
        ensures
            request@ == (ApiRequestView {
                method: Method::Post,
                url: sessions_url(self@.url),
                authorization: bearer(self@.token),
                json: true,
                body: BodyView::CreateSession { prompt: message@ },
            }),
    {
        ApiRequest {
            method: Method::Post,
            url: join(self.api_url.as_str(), "/v1/sessions"),
            authorization: self.authorization(),
            json: true,
            body: Body::CreateSession(CreateSessionRequest { prompt: String::from_str(message) }),
        }
    }

    /// The request that sends `message` to a session.
    pub fn send_message_request(&self, session_id: &str, message: &str) -> (request: ApiRequest)
        ensures
            request@ == (ApiRequestView {
                method: Method::Post,
                url: messages_url(self@.url, session_id@),
                authorization: bearer(self@.token),
                json: true,
                body: BodyView::SendMessage { message: message@ },
            }),
    {
        ApiRequest {
            method: Method::Post,
            url: join(self.api_url.as_str(), "/v1/sessions/").concat(session_id).concat(
                "/messages",
            ),
            authorization: self.authorization(),
            json: true,
            body: Body::SendMessage(SendMessageRequest { message: String::from_str(message) }),
        }
    }

    /// The request that lists the sessions: at most `limit` of them, or at
    /// most `DEFAULT_LIMIT` where no limit is given.
    pub fn list_sessions_request(&self, limit: Option<u32>) -> (request: ApiRequest)
        ensures
            request@ == (ApiRequestView {
                method: Method::Get,
                url: sessions_page_url(self@.url, limit_or_default(limit)),
                authorization: bearer(self@.token),
                json: true,
                body: BodyView::Empty,
            }),
    {
        let limit = match limit {
            Some(n) => n,
            None => DEFAULT_LIMIT,
        };
        ApiRequest {
            method: Method::Get,
            url: join(self.api_url.as_str(), "/v1/sessions?limit=").concat(
                to_decimal(limit).as_str(),
            ),
            authorization: self.authorization(),
            json: true,
            body: Body::Empty,
        }
    }

    /// The request that gets the details of a session.
    pub fn get_session_details_request(&self, session_id: &str) -> (request: ApiRequest)
        ensures
            request@ == (ApiRequestView {
                method: Method::Get,
                url: session_url(self@.url, session_id@),
                authorization: bearer(self@.token),
                json: false,
                body: BodyView::Empty,
            }),
    {
        ApiRequest {
            method: Method::Get,
            url: join(self.api_url.as_str(), "/v1/sessions/").concat(session_id),
            authorization: self.authorization(),
            json: false,
            body: Body::Empty,
        }
    }
}

} // verus!
