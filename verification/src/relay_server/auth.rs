//! How browsers log in, and the settings that authentication needs.
use crate::clock::unix_timestamp_secs;
use crate::config_error::{ConfigError, ConfigErrorModel};
use crate::config_error;
use crate::duplicate::Duplicate;
use crate::relay_server::state::{
    AppState, BrowserAuthConfig, BrowserAuthModel, BrowserLoginSession, LoginModel, ServerModel,
};
use crate::string_map::StringSet;
use crate::string_map;
use crate::text::{
    chars, from_chars, is_blank, join3, join4, number_string, same, slice_contains, slice_same,
    slice_split_once, slice_trim, slice_trim_end_char, split_string, to_lower, trim_string,
};
use crate::text;
use vstd::prelude::*;

verus! {

// ---------------------------------------------------------------------------
// Settings
// ---------------------------------------------------------------------------

/// A setting that may be absent but not blank.
pub open spec fn optional_setting(key: Seq<char>, value: Option<Seq<char>>) -> Result<
    Option<Seq<char>>,
    ConfigErrorModel,
> {
    match value {
        None => Ok(None),
        Some(value) => if text::trim(value).len() == 0 {
            Err(ConfigErrorModel::Blank { key })
        } else {
            Ok(Some(text::trim(value)))
        },
    }
}

pub fn optional_nonempty_env(key: &str, value: Option<&str>) -> (r: Result<
    Option<String>,
    ConfigError,
>)
    ensures
        config_error::config_result(r) == optional_setting(
            key@,
            match value {
                Some(value) => Some(value@),
                None => None,
            },
        ),
{
    match value {
        None => Ok(None),
        Some(value) => {
            if is_blank(value) {
                Err(ConfigError::Blank { key: key.to_string() })
            } else {
                Ok(Some(trim_string(value)))
            }
        },
    }
}

/// A setting that may be neither absent nor blank.
pub open spec fn required_setting(key: Seq<char>, value: Option<Seq<char>>) -> Result<
    Seq<char>,
    ConfigErrorModel,
> {
    match optional_setting(key, value) {
        Err(error) => Err(error),
        Ok(None) => Err(ConfigErrorModel::Missing { key }),
        Ok(Some(value)) => Ok(value),
    }
}

/// What is said by an optional text.
pub open spec fn text_model(value: Option<&str>) -> Option<Seq<char>> {
    match value {
        Some(value) => Some(value@),
        None => None,
    }
}

pub fn required_nonempty_env(key: &str, value: Option<&str>) -> (r: Result<String, ConfigError>)
    ensures
        config_error::config_result(r) == required_setting(key@, text_model(value)),
{
    match optional_nonempty_env(key, value) {
        Err(error) => Err(error),
        Ok(None) => Err(ConfigError::Missing { key: key.to_string() }),
        Ok(Some(value)) => Ok(value),
    }
}

/// A setting that says yes or no.
pub open spec fn bool_setting(key: Seq<char>, value: Seq<char>) -> Result<bool, ConfigErrorModel> {
    let word = text::lower(text::trim(value));
    if word == "1"@ || word == "true"@ || word == "yes"@ || word == "on"@ {
        Ok(true)
    } else if word == "0"@ || word == "false"@ || word == "no"@ || word == "off"@ {
        Ok(false)
    } else {
        Err(ConfigErrorModel::NotBool { key })
    }
}

pub fn parse_bool_env(key: &str, value: &str) -> (r: Result<bool, ConfigError>)
    ensures
        config_error::config_result(r) == bool_setting(key@, value@),
{
    let all = chars(value);
    let word = to_lower(slice_trim(all.as_slice()));
    let word = word.as_slice();
    if slice_same(word, "1") || slice_same(word, "true") || slice_same(word, "yes") || slice_same(
        word,
        "on",
    ) {
        Ok(true)
    } else if slice_same(word, "0") || slice_same(word, "false") || slice_same(word, "no")
        || slice_same(word, "off") {
        Ok(false)
    } else {
        Err(ConfigError::NotBool { key: key.to_string() })
    }
}

/// The values among the parts of a list: trimmed, blank ones left out, each once.
pub open spec fn listed_values(parts: Seq<Seq<char>>) -> Seq<Seq<char>>
    decreases parts.len(),
{
    if parts.len() == 0 {
        Seq::empty()
    } else {
        let rest = listed_values(parts.drop_last());
        let value = text::trim(parts.last());
        if value.len() == 0 {
            rest
        } else {
            string_map::with_member(rest, value)
        }
    }
}

/// A setting that lists values between commas. Absent or blank it lists none.
pub open spec fn list_setting(key: Seq<char>, value: Option<Seq<char>>) -> Result<
    Seq<Seq<char>>,
    ConfigErrorModel,
> {
    match value {
        None => Ok(Seq::empty()),
        Some(value) => if text::trim(value).len() == 0 {
            Ok(Seq::empty())
        } else {
            let values = listed_values(text::split(text::trim(value), ','));
            if values.len() == 0 {
                Err(ConfigErrorModel::NoValues { key })
            } else {
                Ok(values)
            }
        },
    }
}

pub fn parse_string_set_env(key: &str, value: Option<&str>) -> (r: Result<StringSet, ConfigError>)
    ensures
        config_error::config_result(r) == list_setting(key@, text_model(value)),
{
    let mut values = StringSet::new();
    let value = match value {
        None => {
            return Ok(values);
        },
        Some(value) => value,
    };
    let all = chars(value);
    let trimmed = slice_trim(all.as_slice());
    if trimmed.len() == 0 {
        return Ok(values);
    }
    let parts = split_string(trimmed, ',');
    let ghost whole = parts.deep_view();
    assert(whole.take(0) =~= Seq::empty());
    for i in 0..parts.len()
        invariant
            whole == parts.deep_view(),
            values.deep_view() == listed_values(whole.take(i as int)),
    {
        assert(whole.take(i + 1).drop_last() == whole.take(i as int));
        proof {
            text::lemma_chars_deep(parts@[i as int]);
        }
        assert(whole.take(i + 1).last() == parts@[i as int]@);
        let part = slice_trim(parts[i].as_slice());
        if part.len() > 0 {
            values.insert(from_chars(part));
        }
    }
    assert(whole.take(whole.len() as int) == whole);
    if values.is_empty() {
        Err(ConfigError::NoValues { key: key.to_string() })
    } else {
        Ok(values)
    }
}

/// The tokens that home clients may use.
pub fn parse_client_token_set(value: Option<&str>) -> (r: Result<StringSet, ConfigError>)
    ensures
        config_error::config_result(r) == list_setting(
            "RELAY_SERVER_CLIENT_TOKENS"@,
            text_model(value),
        ),
{
    parse_string_set_env("RELAY_SERVER_CLIENT_TOKENS", value)
}

// ---------------------------------------------------------------------------
// Origins
// ---------------------------------------------------------------------------

/// An origin in the form in which origins are compared: scheme and host in
/// small letters. Only `http` and `https` origins without a path have one.
pub open spec fn normal_origin(value: Seq<char>) -> Option<Seq<char>> {
    match text::split_once(text::trim_end_char(text::trim(value), '/'), "://"@) {
        None => None,
        Some((scheme, rest)) => if text::lower(scheme) != "https"@ && text::lower(
            scheme,
        ) != "http"@ {
            None
        } else if rest.len() == 0 || rest.contains('/') || rest.contains('?') || rest.contains(
            '#',
        ) {
            None
        } else {
            Some(text::lower(scheme) + "://"@ + text::lower(rest))
        },
    }
}

pub fn normalize_origin(value: &str) -> (r: Option<String>)
    ensures
        r.deep_view() == normal_origin(value@),
{
    let all = chars(value);
    let trimmed = slice_trim_end_char(slice_trim(all.as_slice()), '/');
    match slice_split_once(trimmed, "://") {
        None => None,
        Some((scheme, rest)) => {
            let scheme = to_lower(scheme);
            if !slice_same(scheme.as_slice(), "https") && !slice_same(scheme.as_slice(), "http") {
                return None;
            }
            if rest.len() == 0 || slice_contains(rest, '/') || slice_contains(rest, '?')
                || slice_contains(rest, '#') {
                return None;
            }
            let scheme = from_chars(scheme.as_slice());
            let host = from_chars(to_lower(rest).as_slice());
            Some(join3(scheme.as_str(), "://", host.as_str()))
        },
    }
}

/// Origins in their normal form, each once; an error where one has none.
pub open spec fn normal_origins(key: Seq<char>, origins: Seq<Seq<char>>) -> Result<
    Seq<Seq<char>>,
    ConfigErrorModel,
>
    decreases origins.len(),
{
    if origins.len() == 0 {
        Ok(Seq::empty())
    } else {
        match normal_origins(key, origins.drop_last()) {
            Err(error) => Err(error),
            Ok(rest) => match normal_origin(origins.last()) {
                Some(origin) => Ok(string_map::with_member(rest, origin)),
                None => Err(ConfigErrorModel::BadOrigin { key, origin: origins.last() }),
            },
        }
    }
}

/// A setting that lists origins.
pub open spec fn origins_setting(key: Seq<char>, value: Option<Seq<char>>) -> Result<
    Seq<Seq<char>>,
    ConfigErrorModel,
> {
    match list_setting(key, value) {
        Err(error) => Err(error),
        Ok(origins) => normal_origins(key, origins),
    }
}

proof fn lemma_bad_origin(key: Seq<char>, origins: Seq<Seq<char>>, i: int)
    requires
        0 <= i <= origins.len(),
        normal_origins(key, origins.take(i)) is Err,
    ensures
        normal_origins(key, origins) == normal_origins(key, origins.take(i)),
    decreases origins.len() - i,
{
    if i == origins.len() {
        assert(origins.take(i) == origins);
    } else {
        assert(origins.take(i + 1).drop_last() == origins.take(i));
        lemma_bad_origin(key, origins, i + 1);
    }
}

pub fn parse_origin_set_env(key: &str, value: Option<&str>) -> (r: Result<StringSet, ConfigError>)
    ensures
        config_error::config_result(r) == origins_setting(key@, text_model(value)),
{
    let origins = match parse_string_set_env(key, value) {
        Err(error) => {
            return Err(error);
        },
        Ok(origins) => origins,
    };
    let mut normalized = StringSet::new();
    let ghost all = origins.deep_view();
    assert(all.take(0) =~= Seq::empty());
    let n: usize = origins.len();
    for i in 0..n
        invariant
            n == all.len(),
            all == origins.deep_view(),
            list_setting(key@, text_model(value)) == Ok::<_, ConfigErrorModel>(all),
            normal_origins(key@, all.take(i as int)) == Ok::<_, ConfigErrorModel>(
                normalized.deep_view(),
            ),
    {
        assert(all.take(i + 1).drop_last() == all.take(i as int));
        assert(all.take(i + 1).last() == all[i as int]);
        let origin = origins.member_at(i);
        match normalize_origin(origin.as_str()) {
            Some(origin) => {
                normalized.insert(origin);
            },
            None => {
                proof {
                    lemma_bad_origin(key@, all, i + 1);
                }
                return Err(
                    ConfigError::BadOrigin { key: key.to_string(), origin: origin.clone() },
                );
            },
        }
    }
    assert(all.take(all.len() as int) == all);
    Ok(normalized)
}

// ---------------------------------------------------------------------------
// Where the server listens
// ---------------------------------------------------------------------------

/// An address of the internet protocol.
#[derive(Debug, Clone, Copy, PartialEq, Eq)]
pub enum IpAddress {
    V4 { octets: [u8; 4] },
    V6 { segments: [u16; 8] },
}

/// The address and port to listen on.
#[derive(Debug, Clone, Copy, PartialEq, Eq)]
pub struct BindAddress {
    pub ip: IpAddress,
    pub port: u16,
}

/// The addresses by which a machine reaches itself: all of 127.0.0.0/8, and `::1`.
pub open spec fn is_loopback(ip: IpAddress) -> bool {
    match ip {
        IpAddress::V4 { octets } => octets[0] == 127,
        IpAddress::V6 { segments } => segments@ == seq![0u16, 0, 0, 0, 0, 0, 0, 1],
    }
}

impl IpAddress {
    pub fn is_loopback(&self) -> (r: bool)
        ensures
            r == is_loopback(*self),
    {
        match self {
            IpAddress::V4 { octets } => octets[0] == 127,
            IpAddress::V6 { segments } => {
                let r = segments[0] == 0 && segments[1] == 0 && segments[2] == 0 && segments[3]
                    == 0 && segments[4] == 0 && segments[5] == 0 && segments[6] == 0 && segments[7]
                    == 1;
                assert(r ==> segments@ =~= seq![0u16, 0, 0, 0, 0, 0, 0, 1]);
                assert(!r ==> segments@ != seq![0u16, 0, 0, 0, 0, 0, 0, 1]) by {
                    let loopback = seq![0u16, 0, 0, 0, 0, 0, 0, 1];
                    if segments@ == loopback {
                        assert(segments@[0] == 0 && segments@[1] == 0 && segments@[2] == 0);
                        assert(segments@[3] == 0 && segments@[4] == 0 && segments@[5] == 0);
                        assert(segments@[6] == 0 && segments@[7] == 1);
                    }
                }
                r
            },
        }
    }
}

/// Why settings of authentication are refused; none where they are not.
pub open spec fn auth_flaw(
    bind_address: BindAddress,
    allow_insecure_dev: bool,
    accepted_client_tokens: Seq<Seq<char>>,
    browser_auth: BrowserAuthModel,
) -> Option<ConfigErrorModel> {
    if allow_insecure_dev {
        if is_loopback(bind_address.ip) {
            None
        } else {
            Some(ConfigErrorModel::InsecureBindAddress)
        }
    } else if accepted_client_tokens.len() == 0 {
        Some(ConfigErrorModel::NoClientTokens)
    } else if browser_auth.allowed_origins.len() == 0 {
        Some(ConfigErrorModel::NoAllowedOrigins)
    } else if text::trim(browser_auth.login.username).len() == 0 {
        Some(ConfigErrorModel::BlankUsername)
    } else if text::trim(browser_auth.login.password).len() == 0 {
        Some(ConfigErrorModel::BlankPassword)
    } else {
        None
    }
}

pub fn validate_auth_configuration(
    bind_address: BindAddress,
    allow_insecure_dev: bool,
    accepted_client_tokens: &StringSet,
    browser_auth: &BrowserAuthConfig,
) -> (r: Result<(), ConfigError>)
    ensures
        match r {
            Ok(_) => auth_flaw(
                bind_address,
                allow_insecure_dev,
                accepted_client_tokens.deep_view(),
                browser_auth.deep_view(),
            ) is None,
            Err(error) => auth_flaw(
                bind_address,
                allow_insecure_dev,
                accepted_client_tokens.deep_view(),
                browser_auth.deep_view(),
            ) == Some(error.deep_view()),
        },
{
    if allow_insecure_dev {
        if !bind_address.ip.is_loopback() {
            return Err(ConfigError::InsecureBindAddress);
        }
        return Ok(());
    }
    if accepted_client_tokens.is_empty() {
        return Err(ConfigError::NoClientTokens);
    }
    if browser_auth.allowed_origins.is_empty() {
        return Err(ConfigError::NoAllowedOrigins);
    }
    if is_blank(browser_auth.login.username.as_str()) {
        return Err(ConfigError::BlankUsername);
    }
    if is_blank(browser_auth.login.password.as_str()) {
        return Err(ConfigError::BlankPassword);
    }
    Ok(())
}

impl BrowserAuthConfig {
    pub fn mode_name(&self) -> (r: &'static str)
        ensures
            r@ == "local_login"@,
    {
        "local_login"
    }
}

// ---------------------------------------------------------------------------
// Headers and cookies
// ---------------------------------------------------------------------------

/// The headers of a request that authentication looks at, as they came.
#[derive(Debug, Clone)]
pub struct RequestHeaders {
    pub cookie: Option<Vec<u8>>,
    pub origin: Option<Vec<u8>>,
}

pub open spec fn is_visible_ascii(byte: u8) -> bool {
    32 <= byte < 127 || byte == 9
}

/// A header as text, which only headers of visible ASCII characters are.
pub open spec fn header_text(value: Option<Vec<u8>>) -> Option<Seq<char>> {
    match value {
        None => None,
        Some(bytes) => if forall|i: int| 0 <= i < bytes@.len() ==> is_visible_ascii(bytes@[i]) {
            Some(bytes@.map_values(|byte: u8| byte as char))
        } else {
            None
        },
    }
}

fn header_chars(value: &Option<Vec<u8>>) -> (r: Option<Vec<char>>)
    ensures
        match r {
            Some(text) => header_text(*value) == Some(text@),
            None => header_text(*value) is None,
        },
{
    match value {
        None => None,
        Some(bytes) => {
            let mut out: Vec<char> = Vec::new();
            for i in 0..bytes.len()
                invariant
                    *value == Some(*bytes),
                    forall|j: int| 0 <= j < i ==> is_visible_ascii(#[trigger] bytes@[j]),
                    out@ == bytes@.take(i as int).map_values(|byte: u8| byte as char),
            {
                let byte = bytes[i];
                if !(32 <= byte && byte < 127 || byte == 9) {
                    assert(!is_visible_ascii(bytes@[i as int]));
                    return None;
                }
                out.push(byte as char);
                assert(out@ =~= bytes@.take(i + 1).map_values(|byte: u8| byte as char));
            }
            assert(bytes@.take(bytes@.len() as int) == bytes@);
            Some(out)
        },
    }
}

/// The value of a cookie among the parts of a cookie header. A part without an
/// equals sign ends the search.
pub open spec fn cookie_among(parts: Seq<Seq<char>>, name: Seq<char>) -> Option<Seq<char>>
    decreases parts.len(),
{
    if parts.len() == 0 {
        None
    } else {
        let part = text::trim(parts[0]);
        if part.len() == 0 {
            cookie_among(parts.skip(1), name)
        } else {
            match text::split_once(part, "="@) {
                None => None,
                Some((key, value)) => if text::trim(key) == name {
                    Some(text::trim(value))
                } else {
                    cookie_among(parts.skip(1), name)
                },
            }
        }
    }
}

/// The value of a cookie.
pub open spec fn cookie_in(header: Option<Seq<char>>, name: Seq<char>) -> Option<Seq<char>> {
    match header {
        None => None,
        Some(header) => cookie_among(text::split(header, ';'), name),
    }
}

pub fn cookie_value(headers: &RequestHeaders, cookie_name: &str) -> (r: Option<String>)
    ensures
        r.deep_view() == cookie_in(header_text(headers.cookie), cookie_name@),
{
    let header = match header_chars(&headers.cookie) {
        None => {
            return None;
        },
        Some(header) => header,
    };
    let parts = split_string(header.as_slice(), ';');
    let ghost whole = parts.deep_view();
    assert(whole.skip(0) == whole);
    for i in 0..parts.len()
        invariant
            whole == parts.deep_view(),
            header_text(headers.cookie) == Some(header@),
            whole == text::split(header@, ';'),
            cookie_among(whole, cookie_name@) == cookie_among(whole.skip(i as int), cookie_name@),
    {
        proof {
            text::lemma_chars_deep(parts@[i as int]);
        }
        assert(whole.skip(i as int)[0] == parts@[i as int]@);
        assert(whole.skip(i as int).skip(1) == whole.skip(i + 1));
        let part = slice_trim(parts[i].as_slice());
        if part.len() > 0 {
            match slice_split_once(part, "=") {
                None => {
                    return None;
                },
                Some((key, value)) => {
                    if slice_same(slice_trim(key), cookie_name) {
                        return Some(from_chars(slice_trim(value)));
                    }
                },
            }
        }
    }
    None
}

/// Whether a character may stand in a header.
pub open spec fn is_header_char(c: char) -> bool {
    c >= ' ' && c != '\u{7f}' || c == '\t'
}

pub open spec fn is_header_text(text: Seq<char>) -> bool {
    forall|i: int| 0 <= i < text.len() ==> is_header_char(#[trigger] text[i])
}

/// `axum::http::HeaderValue::from_str`: a text as the bytes of a header. It
/// takes every text but those with a control character other than the tab, and
/// the bytes are those of the text in UTF-8.
#[verifier::external_body]
pub(crate) fn header_value(text: &str) -> (r: Option<Vec<u8>>)
    ensures
        r is Some <==> is_header_text(text@),
        r matches Some(bytes) ==> bytes@ == vstd::utf8::encode_utf8(text@),
{
    match axum::http::HeaderValue::from_str(text) {
        Ok(value) => Some(value.as_bytes().to_vec()),
        Err(_) => None,
    }
}

pub open spec fn secure_flag(secure: bool) -> Seq<char> {
    if secure {
        "; Secure"@
    } else {
        ""@
    }
}

/// The cookie that keeps a login.
pub open spec fn auth_cookie(
    cookie_name: Seq<char>,
    token: Seq<char>,
    max_age_secs: u64,
    secure: bool,
) -> Seq<char> {
    cookie_name + "="@ + token + "; Path=/; HttpOnly; SameSite=Lax; Max-Age="@ + text::decimal(
        max_age_secs as nat,
    ) + secure_flag(secure)
}

/// The cookie that ends a login.
pub open spec fn expired_cookie(cookie_name: Seq<char>, secure: bool) -> Seq<char> {
    cookie_name + "=; Path=/; HttpOnly; SameSite=Lax; Max-Age=0"@ + secure_flag(secure)
}

/// A text as a header; none where it cannot be one.
pub open spec fn as_header(text: Seq<char>) -> Option<Seq<u8>> {
    if is_header_text(text) {
        Some(vstd::utf8::encode_utf8(text))
    } else {
        None
    }
}

/// What is said by optional bytes.
pub open spec fn bytes_model(bytes: Option<Vec<u8>>) -> Option<Seq<u8>> {
    match bytes {
        Some(bytes) => Some(bytes@),
        None => None,
    }
}

pub fn build_auth_cookie(cookie_name: &str, token: &str, max_age_secs: u64, secure: bool) -> (r:
    Option<Vec<u8>>)
    ensures
        bytes_model(r) == as_header(auth_cookie(cookie_name@, token@, max_age_secs, secure)),
{
    let secure_flag = if secure {
        "; Secure"
    } else {
        ""
    };
    let start = join3(cookie_name, "=", token);
    let value = join4(
        start.as_str(),
        "; Path=/; HttpOnly; SameSite=Lax; Max-Age=",
        number_string(max_age_secs).as_str(),
        secure_flag,
    );
    header_value(value.as_str())
}

pub fn build_expired_auth_cookie(cookie_name: &str, secure: bool) -> (r: Option<Vec<u8>>)
    ensures
        bytes_model(r) == as_header(expired_cookie(cookie_name@, secure)),
{
    let secure_flag = if secure {
        "; Secure"
    } else {
        ""
    };
    let value = join3(
        cookie_name,
        "=; Path=/; HttpOnly; SameSite=Lax; Max-Age=0",
        secure_flag,
    );
    header_value(value.as_str())
}

// ---------------------------------------------------------------------------
// Requests
// ---------------------------------------------------------------------------

/// Why a browser is turned away.
#[derive(Debug, Clone, Copy, PartialEq, Eq, Structural)]
pub enum AuthRefusal {
    OriginMissing,
    OriginInvalid,
    OriginNotAllowed,
    LoginMissing,
    LoginInvalid,
    LoginExpired,
}

pub open spec fn refusal_text(refusal: AuthRefusal) -> Seq<char> {
    match refusal {
        AuthRefusal::OriginMissing => "browser origin header missing"@,
        AuthRefusal::OriginInvalid => "browser origin header invalid"@,
        AuthRefusal::OriginNotAllowed => "browser origin not allowed"@,
        AuthRefusal::LoginMissing => "browser login session missing"@,
        AuthRefusal::LoginInvalid => "browser login session invalid"@,
        AuthRefusal::LoginExpired => "browser login session expired"@,
    }
}

impl AuthRefusal {
    pub fn message(&self) -> (r: &'static str)
        ensures
            r@ == refusal_text(*self),
    {
        match self {
            AuthRefusal::OriginMissing => "browser origin header missing",
            AuthRefusal::OriginInvalid => "browser origin header invalid",
            AuthRefusal::OriginNotAllowed => "browser origin not allowed",
            AuthRefusal::LoginMissing => "browser login session missing",
            AuthRefusal::LoginInvalid => "browser login session invalid",
            AuthRefusal::LoginExpired => "browser login session expired",
        }
    }
}

/// A header as text that is not blank.
pub open spec fn nonblank_header(value: Option<Vec<u8>>) -> Option<Seq<char>> {
    match header_text(value) {
        None => None,
        Some(text) => if text::trim(text).len() == 0 {
            None
        } else {
            Some(text::trim(text))
        },
    }
}

/// Why a request is turned away for its origin; none where it is not. Where no
/// origins are listed, all are welcome.
pub open spec fn origin_refusal(
    auth: BrowserAuthModel,
    origin_header: Option<Vec<u8>>,
) -> Option<AuthRefusal> {
    if auth.allowed_origins.len() == 0 {
        None
    } else {
        match nonblank_header(origin_header) {
            None => Some(AuthRefusal::OriginMissing),
            Some(text) => match normal_origin(text) {
                None => Some(AuthRefusal::OriginInvalid),
                Some(origin) => if auth.allowed_origins.contains(origin) {
                    None
                } else {
                    Some(AuthRefusal::OriginNotAllowed)
                },
            },
        }
    }
}

pub fn validate_browser_origin(auth: &BrowserAuthConfig, headers: &RequestHeaders) -> (r: Result<
    (),
    AuthRefusal,
>)
    ensures
        match r {
            Ok(_) => origin_refusal(auth.deep_view(), headers.origin) is None,
            Err(refusal) => origin_refusal(auth.deep_view(), headers.origin) == Some(refusal),
        },
{
    if auth.allowed_origins.is_empty() {
        return Ok(());
    }
    let text = match header_chars(&headers.origin) {
        None => {
            return Err(AuthRefusal::OriginMissing);
        },
        Some(text) => text,
    };
    let trimmed = slice_trim(text.as_slice());
    if trimmed.len() == 0 {
        return Err(AuthRefusal::OriginMissing);
    }
    match normalize_origin(from_chars(trimmed).as_str()) {
        None => Err(AuthRefusal::OriginInvalid),
        Some(origin) => if auth.allowed_origins.contains(origin.as_str()) {
            Ok(())
        } else {
            Err(AuthRefusal::OriginNotAllowed)
        },
    }
}

/// A browser whose user is known.
#[derive(Debug, Clone)]
pub struct AuthenticatedBrowser {
    pub user_id: String,
}

/// Who sends a request, or why it is turned away. A login that has expired is
/// forgotten.
pub open spec fn authentication(
    server: ServerModel,
    headers: RequestHeaders,
    enforce_origin: bool,
    now: u64,
) -> (ServerModel, Result<Seq<char>, AuthRefusal>) {
    let refusal = if enforce_origin {
        origin_refusal(server.browser_auth, headers.origin)
    } else {
        None
    };
    match refusal {
        Some(refusal) => (server, Err(refusal)),
        None => match cookie_in(
            header_text(headers.cookie),
            server.browser_auth.login.cookie_name,
        ) {
            None => (server, Err(AuthRefusal::LoginMissing)),
            Some(token) => match string_map::lookup(server.login_sessions, token) {
                None => (server, Err(AuthRefusal::LoginInvalid)),
                Some(login) => if login.expires_at <= now {
                    (
                        ServerModel {
                            login_sessions: string_map::erase(server.login_sessions, token),
                            ..server
                        },
                        Err(AuthRefusal::LoginExpired),
                    )
                } else {
                    (server, Ok(login.user_id))
                },
            },
        },
    }
}

/// What is said by the result of an authentication.
pub open spec fn authenticated(result: Result<AuthenticatedBrowser, AuthRefusal>) -> Result<
    Seq<char>,
    AuthRefusal,
> {
    match result {
        Ok(browser) => Ok(browser.user_id@),
        Err(refusal) => Err(refusal),
    }
}

impl AppState {
    /// Finds out who sends a request at a given time.
    pub fn authenticate_browser_request_at(
        &mut self,
        headers: &RequestHeaders,
        enforce_origin: bool,
        now: u64,
    ) -> (r: Result<AuthenticatedBrowser, AuthRefusal>)
        ensures
            (final(self).deep_view(), authenticated(r)) == authentication(
                old(self).deep_view(),
                *headers,
                enforce_origin,
                now,
            ),
    {
        if enforce_origin {
            match validate_browser_origin(&self.browser_auth, headers) {
                Ok(_) => {},
                Err(refusal) => {
                    return Err(refusal);
                },
            }
        }
        let token = match cookie_value(headers, self.browser_auth.login.cookie_name.as_str()) {
            None => {
                return Err(AuthRefusal::LoginMissing);
            },
            Some(token) => token,
        };
        let login = match self.login_sessions.get(token.as_str()) {
            None => {
                return Err(AuthRefusal::LoginInvalid);
            },
            Some(login) => login.duplicate(),
        };
        if login.expires_at <= now {
            self.login_sessions.remove(token.as_str());
            return Err(AuthRefusal::LoginExpired);
        }
        Ok(AuthenticatedBrowser { user_id: login.user_id })
    }

    /// Finds out who opens a websocket. The origin has to be an allowed one.
    pub fn authenticate_browser_ws_request(&mut self, headers: &RequestHeaders) -> (r: Result<
        AuthenticatedBrowser,
        AuthRefusal,
    >)
        ensures
            exists|now: u64|
                (final(self).deep_view(), authenticated(r)) == #[trigger] authentication(
                    old(self).deep_view(),
                    *headers,
                    true,
                    now,
                ),
    {
        let now = unix_timestamp_secs();
        self.authenticate_browser_request_at(headers, true, now)
    }

    /// Finds out who asks for a page.
    pub fn authenticate_browser_http_request(&mut self, headers: &RequestHeaders) -> (r: Result<
        AuthenticatedBrowser,
        AuthRefusal,
    >)
        ensures
            exists|now: u64|
                (final(self).deep_view(), authenticated(r)) == #[trigger] authentication(
                    old(self).deep_view(),
                    *headers,
                    false,
                    now,
                ),
    {
        let now = unix_timestamp_secs();
        self.authenticate_browser_request_at(headers, false, now)
    }
}

/// Where a browser is sent that asks for the login page: on to the console where
/// it is logged in already.
pub open spec fn login_page_answer(server: ServerModel, headers: RequestHeaders, now: u64) -> (
    ServerModel,
    Option<Seq<char>>,
) {
    let (after, result) = authentication(server, headers, false, now);
    (
        after,
        match result {
            Ok(_) => Some("/"@),
            Err(_) => None,
        },
    )
}

/// Who asks for a page; a browser that is not logged in is sent to the login page.
pub open spec fn page_answer(server: ServerModel, headers: RequestHeaders, now: u64) -> (
    ServerModel,
    Result<Seq<char>, Seq<char>>,
) {
    let (after, result) = authentication(server, headers, false, now);
    (
        after,
        match result {
            Ok(user_id) => Ok(user_id),
            Err(_) => Err("/login"@),
        },
    )
}

/// What is said by access to a page.
pub open spec fn page_access(result: Result<AuthenticatedBrowser, &'static str>) -> Result<
    Seq<char>,
    Seq<char>,
> {
    match result {
        Ok(browser) => Ok(browser.user_id@),
        Err(location) => Err(location@),
    }
}

impl AppState {
    /// Where a browser that asks for the login page is sent instead, if it is.
    pub fn login_page(&mut self, headers: &RequestHeaders) -> (r: Option<&'static str>)
        ensures
            exists|now: u64|
                (
                    final(self).deep_view(),
                    text_model(r),
                ) == #[trigger] login_page_answer(old(self).deep_view(), *headers, now),
    {
        let now = unix_timestamp_secs();
        let r = match self.authenticate_browser_request_at(headers, false, now) {
            Ok(_) => Some("/"),
            Err(_) => None,
        };
        assert((self.deep_view(), text_model(r)) == login_page_answer(
            old(self).deep_view(),
            *headers,
            now,
        ));
        r
    }

    /// Who asks for a page, or where the browser is sent to log in.
    pub fn ensure_browser_http_auth(&mut self, headers: &RequestHeaders) -> (r: Result<
        AuthenticatedBrowser,
        &'static str,
    >)
        ensures
            exists|now: u64|
                (final(self).deep_view(), page_access(r)) == #[trigger] page_answer(
                    old(self).deep_view(),
                    *headers,
                    now,
                ),
    {
        let now = unix_timestamp_secs();
        let r = match self.authenticate_browser_request_at(headers, false, now) {
            Ok(browser) => Ok(browser),
            Err(_) => Err("/login"),
        };
        assert((self.deep_view(), page_access(r)) == page_answer(
            old(self).deep_view(),
            *headers,
            now,
        ));
        r
    }
}

/// What is answered to a request to log in or out.
#[derive(Debug, Clone)]
pub enum AuthReply {
    /// The request is turned away with a text.
    Unauthorized { message: String },
    /// The request could not be carried out.
    Failed { message: String },
    /// The request was carried out; the browser is to keep the cookie.
    Done { cookie: Vec<u8> },
}

/// What an [`AuthReply`] says.
#[verifier::ext_equal]
pub enum AuthReplyModel {
    Unauthorized { message: Seq<char> },
    Failed { message: Seq<char> },
    Done { cookie: Seq<u8> },
}

impl DeepView for AuthReply {
    type V = AuthReplyModel;

    open spec fn deep_view(&self) -> AuthReplyModel {
        match self {
            AuthReply::Unauthorized { message } => AuthReplyModel::Unauthorized {
                message: message@,
            },
            AuthReply::Failed { message } => AuthReplyModel::Failed { message: message@ },
            AuthReply::Done { cookie } => AuthReplyModel::Done { cookie: cookie@ },
        }
    }
}

/// What a browser sends to log in.
#[derive(Debug, Clone)]
pub struct LoginRequest {
    pub username: String,
    pub password: String,
}

pub open spec fn later(now: u64, secs: u64) -> u64 {
    if now + secs > u64::MAX {
        u64::MAX
    } else {
        (now + secs) as u64
    }
}

/// A browser logs in: from an allowed origin, with the right name and password.
pub open spec fn login_step(
    server: ServerModel,
    origin_header: Option<Vec<u8>>,
    username: Seq<char>,
    password: Seq<char>,
    token: Seq<char>,
    now: u64,
) -> (ServerModel, AuthReplyModel) {
    let config = server.browser_auth.login;
    match origin_refusal(server.browser_auth, origin_header) {
        Some(refusal) => (
            server,
            AuthReplyModel::Unauthorized { message: refusal_text(refusal) },
        ),
        None => if username != config.username || password != config.password {
            (server, AuthReplyModel::Unauthorized { message: "invalid credentials"@ })
        } else {
            (
                ServerModel {
                    login_sessions: string_map::put(
                        server.login_sessions,
                        token,
                        LoginModel {
                            user_id: config.username,
                            expires_at: later(now, config.session_ttl_secs),
                        },
                    ),
                    ..server
                },
                match as_header(
                    auth_cookie(
                        config.cookie_name,
                        token,
                        config.session_ttl_secs,
                        config.cookie_secure,
                    ),
                ) {
                    Some(cookie) => AuthReplyModel::Done { cookie },
                    None => AuthReplyModel::Failed {
                        message: "failed to build auth cookie: 构建登录 cookie 失败"@,
                    },
                },
            )
        },
    }
}

/// A browser logs out: from an allowed origin. Its login, if it has one, ends.
pub open spec fn logout_step(server: ServerModel, headers: RequestHeaders) -> (
    ServerModel,
    AuthReplyModel,
) {
    let config = server.browser_auth.login;
    match origin_refusal(server.browser_auth, headers.origin) {
        Some(refusal) => (
            server,
            AuthReplyModel::Unauthorized { message: refusal_text(refusal) },
        ),
        None => (
            match cookie_in(header_text(headers.cookie), config.cookie_name) {
                Some(token) => ServerModel {
                    login_sessions: string_map::erase(server.login_sessions, token),
                    ..server
                },
                None => server,
            },
            match as_header(expired_cookie(config.cookie_name, config.cookie_secure)) {
                Some(cookie) => AuthReplyModel::Done { cookie },
                None => AuthReplyModel::Failed {
                    message: "failed to clear auth cookie: 构建退出登录 cookie 失败"@,
                },
            },
        ),
    }
}

/// The characters of a token.
pub open spec fn is_token_char(c: char) -> bool {
    '0' <= c <= '9' || 'a' <= c <= 'f' || c == '-'
}

/// Where the hyphens of a token stand.
pub open spec fn is_hyphen_place(i: int) -> bool {
    i == 8 || i == 13 || i == 18 || i == 23
}

/// A text of the form of a token: thirty-two hexadecimal digits in five groups
/// with hyphens between them. Two of the digits say that the others are random.
pub open spec fn is_token(token: Seq<char>) -> bool {
    &&& token.len() == 36
    &&& forall|i: int|
        0 <= i < token.len() ==> is_token_char(#[trigger] token[i]) && (token[i] == '-'
            <==> is_hyphen_place(i))
    &&& token[14] == '4'
    &&& token[19] == '8' || token[19] == '9' || token[19] == 'a' || token[19] == 'b'
}

/// `uuid::Uuid::new_v4`, written out: a random token. Its text is made of
/// hexadecimal digits in small letters and of hyphens at four places, with the
/// digits of the version and the variant fixed; the other digits are left to
/// chance.
#[verifier::external_body]
pub(crate) fn new_token() -> (r: String)
    ensures
        is_token(r@),
{
    uuid::Uuid::new_v4().to_string()
}

impl AppState {
    /// Logs a browser in at a given time, under a given token.
    pub fn login_submit_at(
        &mut self,
        headers: &RequestHeaders,
        request: &LoginRequest,
        token: String,
        now: u64,
    ) -> (r: AuthReply)
        ensures
            (final(self).deep_view(), r.deep_view()) == login_step(
                old(self).deep_view(),
                headers.origin,
                request.username@,
                request.password@,
                token@,
                now,
            ),
    {
        match validate_browser_origin(&self.browser_auth, headers) {
            Ok(_) => {},
            Err(refusal) => {
                return AuthReply::Unauthorized { message: refusal.message().to_string() };
            },
        }
        if !same(request.username.as_str(), self.browser_auth.login.username.as_str()) || !same(
            request.password.as_str(),
            self.browser_auth.login.password.as_str(),
        ) {
            return AuthReply::Unauthorized { message: "invalid credentials".to_string() };
        }
        let ttl = self.browser_auth.login.session_ttl_secs;
        let expires_at: u64 = if now > u64::MAX - ttl {
            u64::MAX
        } else {
            now + ttl
        };
        self.login_sessions.insert(
            token.clone(),
            BrowserLoginSession {
                user_id: self.browser_auth.login.username.clone(),
                expires_at,
            },
        );
        match build_auth_cookie(
            self.browser_auth.login.cookie_name.as_str(),
            token.as_str(),
            ttl,
            self.browser_auth.login.cookie_secure,
        ) {
            Some(cookie) => AuthReply::Done { cookie },
            None => AuthReply::Failed {
                message: "failed to build auth cookie: 构建登录 cookie 失败".to_string(),
            },
        }
    }

    /// Logs a browser in, under a new token.
    pub fn login_submit(&mut self, headers: &RequestHeaders, request: &LoginRequest) -> (r:
        AuthReply)
        ensures
            exists|token: Seq<char>, now: u64|
                is_token(token) && (final(self).deep_view(), r.deep_view())
                    == #[trigger] login_step(
                    old(self).deep_view(),
                    headers.origin,
                    request.username@,
                    request.password@,
                    token,
                    now,
                ),
    {
        let token = new_token();
        let now = unix_timestamp_secs();
        self.login_submit_at(headers, request, token, now)
    }

    /// Logs a browser out.
    pub fn logout_submit(&mut self, headers: &RequestHeaders) -> (r: AuthReply)
        ensures
            (final(self).deep_view(), r.deep_view()) == logout_step(
                old(self).deep_view(),
                *headers,
            ),
    {
        match validate_browser_origin(&self.browser_auth, headers) {
            Ok(_) => {},
            Err(refusal) => {
                return AuthReply::Unauthorized { message: refusal.message().to_string() };
            },
        }
        match cookie_value(headers, self.browser_auth.login.cookie_name.as_str()) {
            Some(token) => {
                self.login_sessions.remove(token.as_str());
            },
            None => {},
        }
        match build_expired_auth_cookie(
            self.browser_auth.login.cookie_name.as_str(),
            self.browser_auth.login.cookie_secure,
        ) {
            Some(cookie) => AuthReply::Done { cookie },
            None => AuthReply::Failed {
                message: "failed to clear auth cookie: 构建退出登录 cookie 失败".to_string(),
            },
        }
    }
}

} // verus!
