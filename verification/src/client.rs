//! Datto RMM API Client implementation.
//!
//! The client here is the part of an API client that decides: whether the
//! token it holds may be used, what the request for a new one looks like, and
//! what an answer of the token endpoint does to it. Sending the request and
//! reading the clock is left to the caller, who hands both results in.

use crate::error::{auth_failure_message, Error};
use crate::platforms::Platform;
use crate::status::StatusCode;
use crate::token::{after_refresh, expiry, usable_token, TokenState, TokenStateView};
use crate::trusted::{base64_encode, base64_standard};
use vstd::prelude::*;
use vstd::utf8::encode_utf8;

verus! {

/// The timeout, in seconds, that the HTTP transport puts on every request,
/// token requests included.
pub const REQUEST_TIMEOUT_SECS: u64 = 30;

/// OAuth 2.0 credentials for the Datto RMM API.
#[derive(Debug)]
pub struct Credentials {
    /// API Key (client ID)
    pub api_key: String,
    /// API Secret (client secret)
    pub api_secret: String,
}

impl Clone for Credentials {
    fn clone(&self) -> (copy: Self)
        ensures
            copy == *self,
    {
        Credentials { api_key: self.api_key.clone(), api_secret: self.api_secret.clone() }
    }
}

/// The credential of HTTP Basic authentication for a key and a secret: the
/// base64 encoding of the key, a colon and the secret.
pub open spec fn basic_credential(api_key: Seq<char>, api_secret: Seq<char>) -> Seq<char> {
    base64_standard(encode_utf8(api_key + ":"@ + api_secret))
}

/// The value of an `Authorization` header that carries the given credential.
pub open spec fn basic_authorization_spec(credential: Seq<char>) -> Seq<char> {
    "Basic "@ + credential
}

/// The value of an `Authorization` header for HTTP Basic authentication with
/// a credential that is already encoded.
pub fn basic_authorization(credential: &str) -> (value: String)
    ensures
        value@ == basic_authorization_spec(credential@),
{
    String::from_str("Basic ").concat(credential)
}

impl Credentials {
    /// The value of the `Authorization` header that presents these
    /// credentials to the token endpoint.
    pub fn authorization(&self) -> (value: String)
        ensures
            value@ == basic_authorization_spec(basic_credential(self.api_key@, self.api_secret@)),
    {
        let mut plain = self.api_key.clone();
        plain.append(":");
        plain.append(self.api_secret.as_str());
        let credential = base64_encode(plain.as_str().as_bytes());
        basic_authorization(credential.as_str())
    }
}

/// A request for a new access token, to be sent with the method POST.
pub struct TokenRequest {
    /// Where the request goes: the platform's token endpoint.
    pub url: String,
    /// The value of the `Content-Type` header.
    pub content_type: String,
    /// The value of the `Authorization` header.
    pub authorization: String,
    /// The body.
    pub body: String,
}

impl TokenRequest {
    /// Whether this is the client-credentials grant request that a client of
    /// `platform` with the given key and secret sends.
    pub open spec fn is_for(
        self,
        platform: Platform,
        api_key: Seq<char>,
        api_secret: Seq<char>,
    ) -> bool {
        &&& self.url@ == platform.token_endpoint_spec()
        &&& self.content_type@ == "application/x-www-form-urlencoded"@
        &&& self.authorization@ == basic_authorization_spec(basic_credential(api_key, api_secret))
        &&& self.body@ == "grant_type=client_credentials"@
    }

    /// The request by which a client of `platform` asks for a new token.
    pub fn new(platform: Platform, credentials: &Credentials) -> (request: TokenRequest)
        ensures
            request.is_for(platform, credentials.api_key@, credentials.api_secret@),
    {
        TokenRequest {
            url: platform.token_endpoint(),
            content_type: String::from_str("application/x-www-form-urlencoded"),
            authorization: credentials.authorization(),
            body: String::from_str("grant_type=client_credentials"),
        }
    }
}

/// What came of one token request.
///
/// The caller sends the request and reads the answer's status first. With a
/// status that is a success (see [`StatusCode::is_success`]) it decodes the
/// body as a token grant, with any other it reads the body as text.
pub enum FetchOutcome {
    /// The transport failed: the request could not be sent, or the answer not
    /// be read or decoded. The variant holds the transport's description.
    Failed(String),
    /// The endpoint answered with a status other than success. The body is
    /// what could be read of it, and empty if nothing could.
    Rejected {
        /// The status of the answer.
        status: StatusCode,
        /// The text of the answer.
        body: String,
    },
    /// The endpoint answered with success and a token.
    Issued {
        /// The token.
        access_token: String,
        /// The token's lifetime in seconds.
        expires_in: u64,
    },
}

impl FetchOutcome {
    /// The token state that this outcome brings when it arrives at `now`, if
    /// it brings one.
    pub open spec fn granted(self, now: u64) -> Option<TokenStateView> {
        match self {
            FetchOutcome::Issued { access_token, expires_in } => Some(
                TokenStateView { access_token: access_token@, expires_at: expiry(now, expires_in) },
            ),
            _ => None,
        }
    }

    /// What the caller of a refresh gets for this outcome: the token, or the
    /// error that says why there is none.
    pub open spec fn answers(self, result: Result<String, Error>) -> bool {
        match self {
            FetchOutcome::Failed(failure) => result matches Err(Error::HttpClient(text)) && text@
                == failure@,
            FetchOutcome::Rejected { status, body } => result matches Err(Error::Auth(message))
                && message@ == auth_failure_message(status.code(), body@),
            FetchOutcome::Issued { access_token, expires_in } => result matches Ok(token) && token@
                == access_token@,
        }
    }
}

/// What a client says when asked for a token.
pub enum TokenCheck {
    /// The token that the client holds may be used: here it is.
    Cached(String),
    /// The client holds no token that may be used. This request fetches one.
    Refresh(TokenRequest),
}

/// What a client holds.
pub ghost struct ClientView {
    pub platform: Platform,
    pub api_key: Seq<char>,
    pub api_secret: Seq<char>,
    pub token: Option<TokenStateView>,
}

/// Datto RMM API client.
///
/// This client handles authentication: it keeps the access token and says
/// when a new one is due.
pub struct DattoClient {
    credentials: Credentials,
    platform: Platform,
    token_state: Option<TokenState>,
}

impl View for DattoClient {
    type V = ClientView;

    closed spec fn view(&self) -> ClientView {
        ClientView {
            platform: self.platform,
            api_key: self.credentials.api_key@,
            api_secret: self.credentials.api_secret@,
            token: match self.token_state {
                Some(state) => Some(state@),
                None => None,
            },
        }
    }
}

impl DattoClient {
    /// Create a new Datto RMM API client from the outcome of its first token
    /// request, which is the one that `TokenRequest::new` describes.
    ///
    /// There is a client only if that request brought a token.
    pub fn new(
        platform: Platform,
        credentials: Credentials,
        outcome: FetchOutcome,
        now: u64,
    ) -> (created: Result<DattoClient, Error>)
        ensures
            created is Ok <==> outcome is Issued,
            created matches Ok(client) ==> client@ == (ClientView {
                platform,
                api_key: credentials.api_key@,
                api_secret: credentials.api_secret@,
                token: outcome.granted(now),
            }),
            created matches Err(error) ==> outcome.answers(Err(error)),
    {
        let mut client = DattoClient { credentials, platform, token_state: None };
        match client.refresh_token(outcome, now) {
            Ok(_) => Ok(client),
            Err(error) => Err(error),
        }
    }

    /// Get the platform this client is connected to.
    pub fn platform(&self) -> (platform: Platform)
        ensures
            platform == self@.platform,
    {
        self.platform
    }

    /// Get the base URL for API requests.
    pub fn base_url(&self) -> (url: &'static str)
        ensures
            url@ == self@.platform.base_url_spec(),
    {
        self.platform.base_url()
    }

    /// The token state that the client holds, if it holds one.
    pub fn token_state(&self) -> (held: Option<&TokenState>)
        ensures
            match held {
                Some(state) => self@.token == Some(state@),
                None => self@.token is None,
            },
    {
        self.token_state.as_ref()
    }

    /// Ensure we have a valid access token.
    ///
    /// Returns the token that is held if it expires later than five minutes
    /// from `now`. Otherwise returns the request that fetches a new one; its
    /// outcome goes to `refresh_token`.
    pub fn ensure_token(&self, now: u64) -> (check: TokenCheck)
        ensures
            match check {
                TokenCheck::Cached(token) => usable_token(self@.token, now) == Some(token@),
                TokenCheck::Refresh(request) => usable_token(self@.token, now) is None
                    && request.is_for(self@.platform, self@.api_key, self@.api_secret),
            },
    {
        if let Some(state) = &self.token_state {
            if state.is_fresh(now) {
                return TokenCheck::Cached(String::from_str(state.access_token()));
            }
        }
        TokenCheck::Refresh(TokenRequest::new(self.platform, &self.credentials))
    }

    /// Take in the outcome of a token request that arrived at `now`.
    ///
    /// A token replaces whatever was held, as a whole, and is returned. A
    /// failure is returned as the error that describes it and leaves what was
    /// held as it was.
    pub fn refresh_token(&mut self, outcome: FetchOutcome, now: u64) -> (result: Result<String, Error>)
        ensures
            outcome.answers(result),
            final(self)@ == (ClientView {
                token: after_refresh(old(self)@.token, outcome.granted(now)),
                ..old(self)@
            }),
    {
        match outcome {
            FetchOutcome::Failed(failure) => Err(Error::HttpClient(failure)),
            FetchOutcome::Rejected { status, body } => Err(
                Error::auth_failure(status, body.as_str()),
            ),
            FetchOutcome::Issued { access_token, expires_in } => {
                let token = access_token.clone();
                self.token_state = Some(TokenState::issued(access_token, expires_in, now));
                Ok(token)
            },
        }
    }
}

} // verus!
