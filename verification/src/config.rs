//! Settings, read once at start from the values of the environment.

use vstd::prelude::*;
use vstd::string::StringExecFns;
use vstd::utf8::encode_utf8;

verus! {

/// The error of `base64::decode`, carried through unread.
#[verifier::external_type_specification]
#[verifier::external_body]
pub struct ExDecodeError(base64::DecodeError);

/// The bytes that `base64::decode` gives for `text`, or `None` where it
/// rejects the text.
pub uninterp spec fn base64_decoding(text: Seq<char>) -> Option<Seq<u8>>;

/// Whether a text is short enough for the decoder, which reckons with four
/// times its length in bytes.
pub open spec fn fits_decoder(text: Seq<char>) -> bool {
    encode_utf8(text).len() <= usize::MAX / 4
}

/// Calls `base64::decode`. Trusted: whether the text is accepted, and the
/// bytes that come out, depend on the text alone. The crate multiplies the
/// length of its input by four to size its buffer, so longer texts are kept
/// from it.
#[verifier::external_body]
fn base64_decode(text: &str) -> (decoded: Result<Vec<u8>, base64::DecodeError>)
    requires
        fits_decoder(text@),
    ensures
        match decoded {
            Ok(bytes) => base64_decoding(text@) == Some(bytes@),
            Err(_) => base64_decoding(text@).is_none(),
        },
{
    base64::decode(text)
}

/// Why the settings could not be read.
#[derive(Clone, Copy, Debug, PartialEq, Eq, Structural)]
pub enum ConfigError {
    /// No cookie secret was given.
    MissingCookieSecret,
    /// The cookie secret is not base64, or is too long to be decoded.
    InvalidCookieSecret,
    /// No credential for the approval service was given.
    MissingApprovalKey,
}

impl ConfigError {
    /// The error in words.
    pub fn message(&self) -> (text: String)
        ensures
            text@ == match *self {
                ConfigError::MissingCookieSecret => "Missing env cookie secret key."@,
                ConfigError::InvalidCookieSecret => "Cookie secret key is not valid base64."@,
                ConfigError::MissingApprovalKey => "Missing env ApproveAPI Test API Key"@,
            },
    {
        match self {
            ConfigError::MissingCookieSecret => String::from_str("Missing env cookie secret key."),
            ConfigError::InvalidCookieSecret => String::from_str("Cookie secret key is not valid base64."),
            ConfigError::MissingApprovalKey => String::from_str("Missing env ApproveAPI Test API Key"),
        }
    }
}

/// What the server is started with.
#[derive(Clone, Debug, PartialEq, Eq)]
pub struct Config {
    /// The key that seals the session cookie.
    pub cookie_key: Vec<u8>,
    /// The credential for the approval service.
    pub approval_key: String,
    /// The origin under which approval links lead back.
    pub web_url: String,
    /// Whether the session cookie is sent over secure transport only.
    pub secure_cookies: bool,
}

/// The settings, with their texts and bytes as sequences.
pub struct ConfigView {
    pub cookie_key: Seq<u8>,
    pub approval_key: Seq<char>,
    pub web_url: Seq<char>,
    pub secure_cookies: bool,
}

impl View for Config {
    type V = ConfigView;

    open spec fn view(&self) -> ConfigView {
        ConfigView {
            cookie_key: self.cookie_key@,
            approval_key: self.approval_key@,
            web_url: self.web_url@,
            secure_cookies: self.secure_cookies,
        }
    }
}

/// The origin that is used where none is given.
pub open spec fn default_web_url() -> Seq<char> {
    "http://localhost:5000"@
}

/// The cookie key behind a cookie secret: its base64 decoding. A secret
/// that is absent gives one error; one that is not base64, or is too long
/// for the decoder, gives the other.
pub open spec fn cookie_key_of(secret: Option<Seq<char>>) -> Result<Seq<u8>, ConfigError> {
    match secret {
        None => Err(ConfigError::MissingCookieSecret),
        Some(text) => if fits_decoder(text) {
            match base64_decoding(text) {
                Some(bytes) => Ok(bytes),
                None => Err(ConfigError::InvalidCookieSecret),
            }
        } else {
            Err(ConfigError::InvalidCookieSecret)
        },
    }
}

/// The settings that a cookie key, a credential, an origin and the
/// production mark give. An error of the cookie key comes first, then a
/// missing credential; a missing origin is the default one.
pub open spec fn settings(
    cookie_key: Result<Seq<u8>, ConfigError>,
    approval_key: Option<Seq<char>>,
    web_url: Option<Seq<char>>,
    production: bool,
) -> Result<ConfigView, ConfigError> {
    match cookie_key {
        Err(e) => Err(e),
        Ok(key) => match approval_key {
            None => Err(ConfigError::MissingApprovalKey),
            Some(credential) => Ok(
                ConfigView {
                    cookie_key: key,
                    approval_key: credential,
                    web_url: match web_url {
                        Some(origin) => origin,
                        None => default_web_url(),
                    },
                    secure_cookies: production,
                },
            ),
        },
    }
}

/// A cookie key or its error, with the key as a sequence of bytes.
pub open spec fn key_view(key: Result<Vec<u8>, ConfigError>) -> Result<Seq<u8>, ConfigError> {
    match key {
        Ok(bytes) => Ok(bytes@),
        Err(e) => Err(e),
    }
}

/// Settings or their error, with the settings by their view.
pub open spec fn config_view(config: Result<Config, ConfigError>) -> Result<ConfigView, ConfigError> {
    match config {
        Ok(c) => Ok(c@),
        Err(e) => Err(e),
    }
}

/// An optional text as an optional sequence of characters.
pub open spec fn value_view(value: Option<&str>) -> Option<Seq<char>> {
    match value {
        Some(text) => Some(text@),
        None => None,
    }
}

/// Decodes the cookie secret.
pub fn decode_cookie_key(secret: Option<&str>) -> (key: Result<Vec<u8>, ConfigError>)
    ensures
        key_view(key) == cookie_key_of(value_view(secret)),
{
    match secret {
        None => Err(ConfigError::MissingCookieSecret),
        Some(text) => {
            if text.as_bytes().len() > usize::MAX / 4 {
                return Err(ConfigError::InvalidCookieSecret);
            }
            match base64_decode(text) {
                Ok(bytes) => Ok(bytes),
                Err(_) => Err(ConfigError::InvalidCookieSecret),
            }
        },
    }
}

impl Config {
    /// Puts the settings together from a cookie key that was decoded
    /// already.
    pub fn assemble(
        cookie_key: Result<Vec<u8>, ConfigError>,
        approval_key: Option<&str>,
        web_url: Option<&str>,
        production: bool,
    ) -> (config: Result<Config, ConfigError>)
        ensures
            config_view(config) == settings(
                key_view(cookie_key),
                value_view(approval_key),
                value_view(web_url),
                production,
            ),
    {
        let key = match cookie_key {
            Ok(key) => key,
            Err(e) => {
                return Err(e);
            },
        };
        let credential = match approval_key {
            Some(credential) => String::from_str(credential),
            None => {
                return Err(ConfigError::MissingApprovalKey);
            },
        };
        let origin = match web_url {
            Some(origin) => String::from_str(origin),
            None => String::from_str("http://localhost:5000"),
        };
        Ok(Config { cookie_key: key, approval_key: credential, web_url: origin, secure_cookies: production })
    }

    /// Reads the settings from the values of `COOKIE_SECRET_KEY`,
    /// `APPROVEAPI_TEST_KEY`, `WEB_URL` and `PRODUCTION`, each `None` where
    /// the variable is not set. `PRODUCTION` counts by being set, whatever
    /// it holds.
    pub fn from_env(
        cookie_secret: Option<&str>,
        approval_key: Option<&str>,
        web_url: Option<&str>,
        production: Option<&str>,
    ) -> (config: Result<Config, ConfigError>)
        ensures
            config_view(config) == settings(
                cookie_key_of(value_view(cookie_secret)),
                value_view(approval_key),
                value_view(web_url),
                production.is_some(),
            ),
    {
        Config::assemble(decode_cookie_key(cookie_secret), approval_key, web_url, production.is_some())
    }
}

} // verus!
