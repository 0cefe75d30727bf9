use base64::Engine;
use vstd::prelude::*;
use vstd::string::StringSliceAdditionalSpecFns;

verus! {

/// Seconds taken off a token's announced lifetime, so that it is renewed
/// before Spotify stops accepting it.
pub const TOKEN_EXPIRY_BUFFER_SECS: u64 = 120;

/// The lifetime assumed when the token answer does not give one.
pub const DEFAULT_TOKEN_LIFETIME_SECS: u64 = 3600;

/// Why no bearer token could be had.
#[derive(Debug, Clone, Copy, PartialEq, Eq, Structural)]
pub enum TokenError {
    /// The client id is not configured.
    MissingClientId,
    /// The client secret is not configured.
    MissingClientSecret,
    /// The token answer holds no access token.
    MissingAccessToken,
}

/// The character of a 6-bit value in the standard base64 alphabet
/// `A-Z a-z 0-9 + /`.
pub open spec fn base64_char(v: int) -> char {
    if v < 26 {
        ((65 + v) as u8) as char
    } else if v < 52 {
        ((71 + v) as u8) as char
    } else if v < 62 {
        ((v - 4) as u8) as char
    } else if v == 62 {
        '+'
    } else {
        '/'
    }
}

/// The standard base64 encoding, with padding, of `bytes`: each group of
/// three bytes becomes four characters, and a last group of one or two bytes
/// becomes two or three characters and `=` up to four.
pub open spec fn base64_standard(bytes: Seq<u8>) -> Seq<char>
    decreases bytes.len(),
{
    if bytes.len() == 0 {
        Seq::empty()
    } else if bytes.len() == 1 {
        let n = bytes[0] as int;
        seq![base64_char(n / 4), base64_char((n % 4) * 16), '=', '=']
    } else if bytes.len() == 2 {
        let n = bytes[0] as int * 256 + bytes[1] as int;
        seq![base64_char(n / 1024), base64_char((n / 16) % 64), base64_char((n % 16) * 4), '=']
    } else {
        let n = bytes[0] as int * 65536 + bytes[1] as int * 256 + bytes[2] as int;
        seq![
            base64_char(n / 262144),
            base64_char((n / 4096) % 64),
            base64_char((n / 64) % 64),
            base64_char(n % 64),
        ] + base64_standard(bytes.subrange(3, bytes.len() as int))
    }
}

/// Relies on `base64::engine::general_purpose::STANDARD.encode`: the standard
/// alphabet, with padding.
#[verifier::external_body]
fn base64_encode(bytes: &[u8]) -> (r: String)
    ensures
        r@ == base64_standard(bytes@),
{
    base64::engine::general_purpose::STANDARD.encode(bytes)
}

/// The `Authorization` value for already encoded client credentials.
pub fn basic_auth_value(encoded_credentials: &str) -> (r: String)
    ensures
        r@ == "Basic "@ + encoded_credentials@,
{
    let mut value = "Basic ".to_owned();
    value.append(encoded_credentials);
    value
}

/// The `Authorization` value that presents a bearer token.
pub fn bearer_auth_value(token: &str) -> (r: String)
    ensures
        r@ == "Bearer "@ + token@,
{
    let mut value = "Bearer ".to_owned();
    value.append(token);
    value
}

/// The `Authorization` value of the client-credentials exchange.
pub open spec fn basic_auth_spec(client_id: Seq<char>, client_secret: Seq<char>) -> Seq<char> {
    "Basic "@ + base64_standard(vstd::utf8::encode_utf8(client_id + ":"@ + client_secret))
}

/// Builds the `Authorization` value of the client-credentials exchange from
/// the configured client id and secret; a missing one is a configuration
/// error, the id being checked first.
pub fn basic_auth_header(client_id: Option<String>, client_secret: Option<String>) -> (r: Result<
    String,
    TokenError,
>)
    ensures
        client_id is None ==> r == Err::<String, TokenError>(TokenError::MissingClientId),
        client_id is Some && client_secret is None ==> r == Err::<String, TokenError>(
            TokenError::MissingClientSecret,
        ),
        client_id is Some && client_secret is Some ==> r is Ok && r->Ok_0@ == basic_auth_spec(
            client_id->0@,
            client_secret->0@,
        ),
{
    let id = match client_id {
        Some(id) => id,
        None => return Err(TokenError::MissingClientId),
    };
    let secret = match client_secret {
        Some(secret) => secret,
        None => return Err(TokenError::MissingClientSecret),
    };
    let mut credentials = id;
    credentials.append(":");
    credentials.append(secret.as_str());
    let encoded = base64_encode(credentials.as_str().as_bytes());
    Ok(basic_auth_value(encoded.as_str()))
}

/// The Spotify bearer token of the process, with the instant, in
/// milliseconds on the caller's monotonic clock, from which it is no longer used.
#[derive(Debug)]
pub struct SpotifyClient {
    pub token: Option<String>,
    pub token_expires_at: Option<u64>,
}

/// The token a cache hands out at `now_ms` without a refresh: the stored one,
/// while `now_ms` is before its expiry.
pub open spec fn cached_token(c: SpotifyClient, now_ms: u64) -> Option<Seq<char>> {
    match (c.token, c.token_expires_at) {
        (Some(t), Some(e)) if now_ms < e => Some(t@),
        _ => None,
    }
}

/// The lifetime, in seconds, that a token answer stands for.
pub open spec fn token_lifetime(expires_in: Option<u64>) -> u64 {
    match expires_in {
        Some(s) => s,
        None => DEFAULT_TOKEN_LIFETIME_SECS,
    }
}

/// The expiry stored for a token received at `now_ms` with a lifetime of
/// `lifetime_secs`: the lifetime less the buffer, never before `now_ms`, and
/// held at the clock's end where the sum would pass it.
pub open spec fn token_expiry(now_ms: u64, lifetime_secs: u64) -> u64 {
    if lifetime_secs <= TOKEN_EXPIRY_BUFFER_SECS {
        now_ms
    } else {
        let e = now_ms + (lifetime_secs - TOKEN_EXPIRY_BUFFER_SECS) * 1000;
        if e > u64::MAX {
            u64::MAX
        } else {
            e as u64
        }
    }
}

impl SpotifyClient {
    /// An empty cache.
    pub fn new() -> (r: SpotifyClient)
        ensures
            r.token is None,
            r.token_expires_at is None,
    {
        SpotifyClient { token: None, token_expires_at: None }
    }

    /// The cached token, while it is still valid at `now_ms`; `None` when a
    /// refresh is due.
    pub fn get_token(&self, now_ms: u64) -> (r: Option<String>)
        ensures
            match r {
                Some(t) => cached_token(*self, now_ms) == Some(t@),
                None => cached_token(*self, now_ms) is None,
            },
    {
        match (&self.token, &self.token_expires_at) {
            (Some(t), Some(e)) => if now_ms < *e {
                Some(t.clone())
            } else {
                None
            },
            _ => None,
        }
    }

    /// Stores the answer of a token refresh made at `now_ms`: its access token
    /// and its lifetime in seconds (3600 where absent), less the buffer. An
    /// answer without an access token leaves the cache as it was.
    pub fn store_token(&mut self, access_token: Option<String>, expires_in: Option<u64>, now_ms: u64) -> (r:
        Result<String, TokenError>)
        ensures
            access_token is None ==> r == Err::<String, TokenError>(TokenError::MissingAccessToken)
                && *final(self) == *old(self),
            access_token is Some ==> r is Ok && r->Ok_0@ == access_token->0@ && final(self).token
                == access_token && final(self).token_expires_at == Some(
                token_expiry(now_ms, token_lifetime(expires_in)),
            ),
    {
        let token = match access_token {
            Some(t) => t,
            None => return Err(TokenError::MissingAccessToken),
        };
        let lifetime: u64 = match expires_in {
            Some(s) => s,
            None => DEFAULT_TOKEN_LIFETIME_SECS,
        };
        let expiry: u64 = if lifetime <= TOKEN_EXPIRY_BUFFER_SECS {
            now_ms
        } else {
            let span = lifetime - TOKEN_EXPIRY_BUFFER_SECS;
            if span > (u64::MAX - now_ms) / 1000 {
                u64::MAX
            } else {
                now_ms + span * 1000
            }
        };
        let out = token.clone();
        self.token = Some(token);
        self.token_expires_at = Some(expiry);
        Ok(out)
    }
}

/// Within the validity window of the stored token, every read hands out that
/// same token without a refresh, whenever it is made.
pub proof fn lemma_token_reused_while_valid(c: SpotifyClient, first_ms: u64, second_ms: u64)
    requires
        c.token is Some,
        c.token_expires_at is Some,
        first_ms < c.token_expires_at->0,
        second_ms < c.token_expires_at->0,
    ensures
        cached_token(c, first_ms) == Some(c.token->0@),
        cached_token(c, second_ms) == cached_token(c, first_ms),
{
}

/// Once the stored expiry has passed, the next read asks for a refresh; the
/// refreshed cache then serves its new token without another refresh.
pub proof fn lemma_refresh_once_after_expiry(
    c: SpotifyClient,
    refreshed: SpotifyClient,
    token: String,
    expires_in: Option<u64>,
    now_ms: u64,
)
    requires
        c.token_expires_at is Some,
        c.token_expires_at->0 <= now_ms,
        token_lifetime(expires_in) > TOKEN_EXPIRY_BUFFER_SECS,
        refreshed.token == Some(token),
        refreshed.token_expires_at == Some(token_expiry(now_ms, token_lifetime(expires_in))),
        now_ms < u64::MAX,
    ensures
        cached_token(c, now_ms) is None,
        cached_token(refreshed, now_ms) == Some(token@),
{
}

} // verus!
