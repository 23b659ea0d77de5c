//! The REST side of the API: the credentials of a session and the addresses
//! that follow from them.

use crate::request::{join3, Param};
use crypto::digest::Digest;
use crypto::sha2::Sha256;
use url::Url;
use vstd::prelude::*;
use vstd::string::*;

verus! {

/// The root of the REST API.
pub const API_ROOT: &'static str = "https://api.kite.trade";

/// The SHA-256 digest of the UTF-8 bytes of `input`, in hexadecimal.
pub uninterp spec fn sha256_hex_of(input: Seq<char>) -> Seq<char>;

/// The address that `input` is parsed to, written out again; `None` where
/// `input` does not parse as an absolute address.
pub uninterp spec fn address_of(input: Seq<char>) -> Option<Seq<char>>;

/// The address that `input` is parsed to, with `params` added to its query,
/// written out again; `None` where `input` does not parse as an absolute
/// address.
pub uninterp spec fn address_with_params(
    input: Seq<char>,
    params: Seq<(Seq<char>, Seq<char>)>,
) -> Option<Seq<char>>;

/// Why no address could be made of a text.
#[verifier::external_type_specification]
#[verifier::external_body]
pub struct ExParseError(url::ParseError);

/// Trusted: `crypto::sha2::Sha256`, fed through `Digest::input_str` and read
/// with `Digest::result_str`.
///
/// A fresh digest that is given the bytes of one string and then asked for
/// its result in hexadecimal depends on that string alone; the contract
/// gives that result its name and claims nothing more of it.
#[verifier::external_body]
fn sha256_hex(input: &str) -> (digest: String)
    ensures
        digest@ == sha256_hex_of(input@),
{
    let mut sha = Sha256::new();
    sha.input_str(input);
    sha.result_str()
}

/// Trusted: `url::Url::parse`.
///
/// The outside function parses and normalises an absolute address or says
/// why it cannot; which of the two, and the text of the address, depend on
/// the input alone. The contract names the text and claims nothing more.
#[verifier::external_body]
fn parse_address(input: &str) -> (address: Result<String, url::ParseError>)
    ensures
        match address {
            Ok(text) => address_of(input@) == Some(text@),
            Err(_) => address_of(input@) is None,
        },
{
    match Url::parse(input) {
        Ok(url) => Ok(String::from(url)),
        Err(error) => Err(error),
    }
}

/// Trusted: `url::Url::parse_with_params`.
///
/// The outside function parses an absolute address as `Url::parse` does and
/// then appends each pair to the query, encoded as a form. The result
/// depends on the input and the pairs alone; the contract names it and
/// claims nothing more.
#[verifier::external_body]
fn parse_address_with_params(input: &str, params: &Vec<Param>) -> (address: Result<
    String,
    url::ParseError,
>)
    ensures
        match address {
            Ok(text) => address_with_params(input@, crate::request::params_of(params@)) == Some(
                text@,
            ),
            Err(_) => address_with_params(input@, crate::request::params_of(params@)) is None,
        },
{
    let pairs = params.iter().map(|param| (param.name.as_str(), param.value.as_str()));
    match Url::parse_with_params(input, pairs) {
        Ok(url) => Ok(String::from(url)),
        Err(error) => Err(error),
    }
}

/// What the server is told to prove that the caller knows the API secret:
/// the digest of the API key, the token and the secret, one after the other.
pub open spec fn checksum_of(api_key: Seq<char>, token: Seq<char>, api_secret: Seq<char>) -> Seq<
    char,
> {
    sha256_hex_of(api_key + token + api_secret)
}

/// The text of the address of `path`: the root of the API, a slash, and the
/// path without its first character.
pub open spec fn address_text(path: Seq<char>) -> Seq<char> {
    API_ROOT@ + "/"@ + path.subrange(1, path.len() as int)
}

/// The value of the `Authorization` header.
pub open spec fn authorization_of(api_key: Seq<char>, access_token: Seq<char>) -> Seq<char> {
    "token "@ + api_key + ":"@ + access_token
}

/// What an answer of the server comes to.
#[derive(Clone, Debug, PartialEq, Eq)]
pub enum Answer {
    /// The server did what was asked; this is the body of its answer.
    Accepted(String),
    /// The server refused; this is what it said.
    KiteException(String),
}

/// Tells an accepted request from a refused one: status 200 is the only one
/// that accepts.
pub fn raise_or_return(status: u16, body: String) -> (answer: Answer)
    ensures
        status == 200 ==> answer == Answer::Accepted(body),
        status != 200 ==> answer == Answer::KiteException(body),
{
    if status == 200 {
        Answer::Accepted(body)
    } else {
        Answer::KiteException(body)
    }
}

/// The address of the login page for `api_key`.
pub open spec fn login_url_of(api_key: Seq<char>) -> Seq<char> {
    "https://kite.trade/connect/login?api_key="@ + api_key + "&v3"@
}

/// The credentials of a session with the REST API.
///
/// `H` is the type of what is called when the session has expired; a plain
/// function, `fn()`, where nothing else is needed.
pub struct KiteConnect<H> {
    api_key: String,
    access_token: String,
    session_expiry_hook: Option<H>,
}

impl<H> Default for KiteConnect<H> {
    /// Placeholder credentials, to be replaced before any request is made.
    fn default() -> (connect: Self)
        ensures
            connect.key() == "<API-KEY>"@,
            connect.token() == "<ACCESS-TOKEN>"@,
            connect.hook() is None,
    {
        KiteConnect {
            api_key: "<API-KEY>".to_owned(),
            access_token: "<ACCESS-TOKEN>".to_owned(),
            session_expiry_hook: None,
        }
    }
}

impl<H> KiteConnect<H> {
    /// The API key.
    pub closed spec fn key(&self) -> Seq<char> {
        self.api_key@
    }

    /// The access token.
    pub closed spec fn token(&self) -> Seq<char> {
        self.access_token@
    }

    /// What is to be called when the session has expired.
    pub closed spec fn hook(&self) -> Option<H> {
        self.session_expiry_hook
    }

    /// Credentials without an expiry hook.
    pub fn new(api_key: &str, access_token: &str) -> (connect: Self)
        ensures
            connect.key() == api_key@,
            connect.token() == access_token@,
            connect.hook() is None,
    {
        KiteConnect {
            api_key: api_key.to_owned(),
            access_token: access_token.to_owned(),
            session_expiry_hook: None,
        }
    }

    /// Sets what is to be called when the session has expired.
    pub fn set_session_expiry_hook(&mut self, method: H)
        ensures
            final(self).hook() == Some(method),
            final(self).key() == old(self).key(),
            final(self).token() == old(self).token(),
    {
        self.session_expiry_hook = Some(method);
    }

    /// Replaces the access token.
    pub fn set_access_token(&mut self, access_token: &str)
        ensures
            final(self).token() == access_token@,
            final(self).key() == old(self).key(),
            final(self).hook() == old(self).hook(),
    {
        self.access_token = access_token.to_owned();
    }

    /// The address of the login page.
    pub fn login_url(&self) -> (url: String)
        ensures
            url@ == login_url_of(self.key()),
    {
        let mut url = String::from_str("https://kite.trade/connect/login?api_key=");
        url.append(self.api_key.as_str());
        url.append("&v3");
        url
    }

    /// The API key.
    pub fn api_key(&self) -> (key: &str)
        ensures
            key@ == self.key(),
    {
        self.api_key.as_str()
    }

    /// The access token.
    pub fn access_token(&self) -> (token: &str)
        ensures
            token@ == self.token(),
    {
        self.access_token.as_str()
    }

    /// What is to be called when the session has expired.
    pub fn session_expiry_hook(&self) -> (hook: Option<&H>)
        ensures
            hook == match self.hook() {
                Some(method) => Some(&method),
                None => None,
            },
    {
        self.session_expiry_hook.as_ref()
    }

    /// The value of the `Authorization` header of every request.
    pub fn authorization(&self) -> (value: String)
        ensures
            value@ == authorization_of(self.key(), self.token()),
    {
        let mut value = join3("token ", self.api_key.as_str(), ":");
        value.append(self.access_token.as_str());
        value
    }

    /// The address of `path` below the root of the API, with `param` in its
    /// query if there is any.
    ///
    /// The first character of `path`, the slash of a path, is left out and a
    /// slash written in its place, so it has to be there and to be a single
    /// byte.
    pub fn build_url(&self, path: &str, param: Option<&Vec<Param>>) -> (url: Result<
        String,
        url::ParseError,
    >)
        requires
            path@.len() > 0,
            path@[0] as u32 <= 0x7f,
        ensures
            match param {
                Some(params) => match url {
                    Ok(text) => address_with_params(
                        address_text(path@),
                        crate::request::params_of(params@),
                    ) == Some(text@),
                    Err(_) => address_with_params(
                        address_text(path@),
                        crate::request::params_of(params@),
                    ) is None,
                },
                None => match url {
                    Ok(text) => address_of(address_text(path@)) == Some(text@),
                    Err(_) => address_of(address_text(path@)) is None,
                },
            },
    {
        let length = path.unicode_len();
        let base = join3(API_ROOT, "/", path.substring_char(1, length));
        match param {
            Some(params) => parse_address_with_params(base.as_str(), params),
            None => parse_address(base.as_str()),
        }
    }

    /// The checksum that goes with `token` in a request for a session.
    pub fn checksum(&self, token: &str, api_secret: &str) -> (checksum: String)
        ensures
            checksum@ == checksum_of(self.key(), token@, api_secret@),
    {
        let text = join3(self.api_key.as_str(), token, api_secret);
        sha256_hex(text.as_str())
    }
}

} // verus!
