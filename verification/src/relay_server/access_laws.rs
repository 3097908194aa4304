//! Who is let in, for how long, and by which settings.
use crate::config_error::ConfigErrorModel;
use crate::relay_server::RelayServerEnv;
use crate::relay_server::auth::{AuthRefusal, AuthReplyModel, RequestHeaders};
use crate::relay_server::auth;
use crate::relay_server::connections;
use crate::relay_server::state::{BrowserAuthModel, ClientAuthModel, LoginModel, ServerModel};
use crate::relay_server;
use crate::string_map;
use crate::text;
use crate::text_laws;
use vstd::prelude::*;

verus! {

// ---------------------------------------------------------------------------
// Logins
// ---------------------------------------------------------------------------

/// The token that a request sends in the cookie of the server.
pub open spec fn sent_token(server: ServerModel, headers: RequestHeaders) -> Option<Seq<char>> {
    auth::cookie_in(
        auth::header_text(headers.cookie),
        server.browser_auth.login.cookie_name,
    )
}

/// A login lasts as many seconds as the settings say, from the second in which
/// it was made; within that time its token stands for the user who logged in,
/// and afterwards it has expired.
pub proof fn law_login_lasts_its_time(
    server: ServerModel,
    origin_header: Option<Vec<u8>>,
    token: Seq<char>,
    login_time: u64,
    headers: RequestHeaders,
    request_time: u64,
)
    requires
        auth::origin_refusal(server.browser_auth, origin_header) is None,
        sent_token(server, headers) == Some(token),
        login_time + server.browser_auth.login.session_ttl_secs <= u64::MAX,
    ensures
        ({
            let login = server.browser_auth.login;
            let after = auth::login_step(
                server,
                origin_header,
                login.username,
                login.password,
                token,
                login_time,
            ).0;
            &&& request_time < login_time + login.session_ttl_secs ==> auth::authentication(
                after,
                headers,
                false,
                request_time,
            ) == (after, Ok::<_, AuthRefusal>(login.username))
            &&& request_time >= login_time + login.session_ttl_secs ==> auth::authentication(
                after,
                headers,
                false,
                request_time,
            ).1 == Err::<Seq<char>, _>(AuthRefusal::LoginExpired)
        }),
{
    let login = server.browser_auth.login;
    string_map::law_lookup_after_put(
        server.login_sessions,
        token,
        LoginModel {
            user_id: login.username,
            expires_at: (login_time + login.session_ttl_secs) as u64,
        },
        token,
    );
}

/// A login, or the end of one, concerns its own token; the logins of others stay,
/// and so does everything else.
pub proof fn law_logins_are_separate(
    server: ServerModel,
    headers: RequestHeaders,
    username: Seq<char>,
    password: Seq<char>,
    token: Seq<char>,
    now: u64,
    enforce_origin: bool,
    other: Seq<char>,
)
    requires
        string_map::distinct(server.login_sessions),
        other != token,
        sent_token(server, headers) != Some(other),
    ensures
        string_map::lookup(
            auth::login_step(server, headers.origin, username, password, token, now).0.login_sessions,
            other,
        ) == string_map::lookup(server.login_sessions, other),
        string_map::lookup(auth::logout_step(server, headers).0.login_sessions, other)
            == string_map::lookup(server.login_sessions, other),
        string_map::lookup(
            auth::authentication(server, headers, enforce_origin, now).0.login_sessions,
            other,
        ) == string_map::lookup(server.login_sessions, other),
        auth::login_step(server, headers.origin, username, password, token, now).0.store
            == server.store,
        auth::logout_step(server, headers).0.store == server.store,
        auth::authentication(server, headers, enforce_origin, now).0.store == server.store,
        auth::login_step(server, headers.origin, username, password, token, now).0.sessions
            == server.sessions,
        auth::logout_step(server, headers).0.sessions == server.sessions,
        auth::authentication(server, headers, enforce_origin, now).0.sessions == server.sessions,
{
    let login = server.browser_auth.login;
    string_map::law_lookup_after_put(
        server.login_sessions,
        token,
        LoginModel {
            user_id: login.username,
            expires_at: auth::later(now, login.session_ttl_secs),
        },
        other,
    );
    match sent_token(server, headers) {
        Some(sent) => {
            string_map::law_lookup_after_erase(server.login_sessions, sent, other);
        },
        None => {},
    }
}

/// A request is turned away for what it lacks: a token, a token that is known, or
/// one that has not expired. An expired login is forgotten.
pub proof fn law_requests_are_turned_away_for_what_they_lack(
    server: ServerModel,
    headers: RequestHeaders,
    now: u64,
)
    requires
        string_map::distinct(server.login_sessions),
    ensures
        ({
            let (after, result) = auth::authentication(server, headers, false, now);
            match sent_token(server, headers) {
                None => after == server && result == Err::<Seq<char>, _>(
                    AuthRefusal::LoginMissing,
                ),
                Some(token) => match string_map::lookup(server.login_sessions, token) {
                    None => after == server && result == Err::<Seq<char>, _>(
                        AuthRefusal::LoginInvalid,
                    ),
                    Some(login) => if now < login.expires_at {
                        after == server && result == Ok::<_, AuthRefusal>(login.user_id)
                    } else {
                        &&& result == Err::<Seq<char>, _>(AuthRefusal::LoginExpired)
                        &&& string_map::lookup(after.login_sessions, token) is None
                    },
                },
            }
        }),
        auth::login_page_answer(server, headers, now).1 == if auth::authentication(
            server,
            headers,
            false,
            now,
        ).1 is Ok {
            Some("/"@)
        } else {
            None
        },
        auth::page_answer(server, headers, now).1 == match auth::authentication(
            server,
            headers,
            false,
            now,
        ).1 {
            Ok(user_id) => Ok::<_, Seq<char>>(user_id),
            Err(_) => Err("/login"@),
        },
{
    match sent_token(server, headers) {
        Some(token) => {
            string_map::law_lookup_after_erase(server.login_sessions, token, token);
        },
        None => {},
    }
}

/// A text that can stand in a header: no control characters but the tabulator.
pub open spec fn fits_a_header(text: Seq<char>) -> bool {
    forall|i: int|
        0 <= i < text.len() ==> {
            ||| #[trigger] text[i] >= ' ' && text[i] != '\u{7f}'
            ||| text[i] == '\t'
        }
}

/// A login is answered with a cookie that holds the token for as long as the
/// login lasts, is kept from scripts, and goes over secure connections alone
/// where that is set; the end of a login with one that holds nothing.
pub proof fn law_cookies_hold_the_token(
    server: ServerModel,
    headers: RequestHeaders,
    token: Seq<char>,
    now: u64,
)
    requires
        auth::origin_refusal(server.browser_auth, headers.origin) is None,
    ensures
        ({
            let login = server.browser_auth.login;
            let secure = if login.cookie_secure {
                "; Secure"@
            } else {
                ""@
            };
            let kept = login.cookie_name + "="@ + token
                + "; Path=/; HttpOnly; SameSite=Lax; Max-Age="@ + text::decimal(
                login.session_ttl_secs as nat,
            ) + secure;
            let ended = login.cookie_name + "=; Path=/; HttpOnly; SameSite=Lax; Max-Age=0"@
                + secure;
            let reply = auth::login_step(
                server,
                headers.origin,
                login.username,
                login.password,
                token,
                now,
            ).1;
            &&& fits_a_header(kept) ==> reply == (AuthReplyModel::Done {
                cookie: vstd::utf8::encode_utf8(kept),
            })
            &&& !fits_a_header(kept) ==> reply is Failed
            &&& fits_a_header(ended) ==> auth::logout_step(server, headers).1 == (
            AuthReplyModel::Done { cookie: vstd::utf8::encode_utf8(ended) })
            &&& !fits_a_header(ended) ==> auth::logout_step(server, headers).1 is Failed
        }),
{
    let login = server.browser_auth.login;
    lemma_header(
        auth::auth_cookie(
            login.cookie_name,
            token,
            login.session_ttl_secs,
            login.cookie_secure,
        ),
    );
    lemma_header(auth::expired_cookie(login.cookie_name, login.cookie_secure));
}

proof fn lemma_header(text: Seq<char>)
    ensures
        auth::is_header_text(text) <==> fits_a_header(text),
{
    assert(forall|i: int|
        0 <= i < text.len() ==> (auth::is_header_char(#[trigger] text[i]) <==> text[i] >= ' '
            && text[i] != '\u{7f}' || text[i] == '\t'));
}

/// A cookie is found among others, wherever it stands: the first of its name.
pub proof fn law_cookie_is_found_among_others(
    parts: Seq<Seq<char>>,
    name: Seq<char>,
    value: Seq<char>,
    i: int,
)
    requires
        0 <= i < parts.len(),
        text::split_once(text::trim(parts[i]), "="@) matches Some((key, found)) && text::trim(key)
            == name && text::trim(found) == value,
        text::trim(parts[i]).len() > 0,
        forall|j: int|
            0 <= j < i && text::trim(#[trigger] parts[j]).len() > 0 ==> (text::split_once(
                text::trim(parts[j]),
                "="@,
            ) matches Some((key, _)) && text::trim(key) != name),
    ensures
        auth::cookie_among(parts, name) == Some(value),
    decreases i,
{
    if i > 0 {
        let rest = parts.skip(1);
        assert(rest[i - 1] == parts[i]);
        assert forall|j: int|
            0 <= j < i - 1 && text::trim(#[trigger] rest[j]).len() > 0 implies (text::split_once(
            text::trim(rest[j]),
            "="@,
        ) matches Some((key, _)) && text::trim(key) != name) by {
            assert(rest[j] == parts[j + 1]);
        }
        assert(text::trim(parts[0]).len() > 0 ==> (text::split_once(
            text::trim(parts[0]),
            "="@,
        ) matches Some((key, _)) && text::trim(key) != name));
        law_cookie_is_found_among_others(rest, name, value, i - 1);
    }
}

// ---------------------------------------------------------------------------
// Origins and tokens
// ---------------------------------------------------------------------------

/// Where no origins are listed all are welcome; where some are, exactly those.
pub proof fn law_listed_origins_are_welcome(
    auth: BrowserAuthModel,
    origin_header: Option<Vec<u8>>,
    origin: Seq<char>,
)
    ensures
        auth.allowed_origins.len() == 0 ==> auth::origin_refusal(auth, origin_header) is None,
        (auth::nonblank_header(origin_header) matches Some(text) && auth::normal_origin(text)
            == Some(origin)) && auth.allowed_origins.contains(origin) ==> auth::origin_refusal(
            auth,
            origin_header,
        ) is None,
        (auth::nonblank_header(origin_header) matches Some(text) && auth::normal_origin(text)
            == Some(origin)) && auth.allowed_origins.len() > 0 && !auth.allowed_origins.contains(
            origin,
        ) ==> auth::origin_refusal(auth, origin_header) == Some(AuthRefusal::OriginNotAllowed),
        auth.allowed_origins.len() > 0 && auth::nonblank_header(origin_header) is None
            ==> auth::origin_refusal(auth, origin_header) == Some(AuthRefusal::OriginMissing),
        auth.allowed_origins.len() > 0 && (auth::nonblank_header(origin_header) matches Some(text)
            && auth::normal_origin(text) is None) ==> auth::origin_refusal(auth, origin_header)
            == Some(AuthRefusal::OriginInvalid),
{
}

/// A header is read character by character, where all of them can be shown.
pub proof fn law_header_is_read_by_characters(bytes: Vec<u8>)
    ensures
        (forall|i: int| 0 <= i < bytes@.len() ==> 32 <= #[trigger] bytes@[i] < 127 || bytes@[i]
            == 9) ==> (auth::header_text(Some(bytes)) matches Some(text) && text.len()
            == bytes@.len() && forall|i: int|
            0 <= i < text.len() ==> #[trigger] text[i] as u32 == bytes@[i] as u32),
        (exists|i: int|
            0 <= i < bytes@.len() && !(32 <= #[trigger] bytes@[i] < 127 || bytes@[i] == 9))
            ==> auth::header_text(Some(bytes)) is None,
        auth::header_text(None) is None,
{
    if forall|i: int| 0 <= i < bytes@.len() ==> 32 <= #[trigger] bytes@[i] < 127 || bytes@[i] == 9 {
        assert forall|i: int| 0 <= i < bytes@.len() implies auth::is_visible_ascii(bytes@[i]) by {
            assert(32 <= bytes@[i] < 127 || bytes@[i] == 9);
        }
    }
}

/// A device is let in by a token that is not revoked and, where tokens are
/// listed, is among them; by no other.
pub proof fn law_tokens_let_devices_in(auth: ClientAuthModel, token: Seq<char>)
    ensures
        auth.revoked_tokens.contains(token) ==> !connections::token_allowed(auth, token),
        !auth.revoked_tokens.contains(token) && auth.accepted_tokens.contains(token)
            ==> connections::token_allowed(auth, token),
        !auth.revoked_tokens.contains(token) && auth.accepted_tokens.len() == 0
            ==> connections::token_allowed(auth, token),
        auth.accepted_tokens.len() > 0 && !auth.accepted_tokens.contains(token)
            ==> !connections::token_allowed(auth, token),
{
}

// ---------------------------------------------------------------------------
// Settings
// ---------------------------------------------------------------------------

/// A setting is taken without the white space around it; a blank one is refused
/// by its name, and an absent one is, where it has to be there.
pub proof fn law_setting_is_taken_trimmed(
    key: Seq<char>,
    left: Seq<char>,
    word: Seq<char>,
    right: Seq<char>,
)
    requires
        text_laws::all_spaces(left),
        text_laws::all_spaces(right),
        word.len() > 0 ==> !text::is_space(word[0]) && !text::is_space(word.last()),
    ensures
        word.len() > 0 ==> auth::optional_setting(key, Some(left + word + right)) == Ok::<
            _,
            ConfigErrorModel,
        >(Some(word)),
        word.len() > 0 ==> auth::required_setting(key, Some(left + word + right)) == Ok::<
            _,
            ConfigErrorModel,
        >(word),
        word.len() == 0 ==> auth::optional_setting(key, Some(left + word + right)) == Err::<
            Option<Seq<char>>,
            _,
        >(ConfigErrorModel::Blank { key }),
        word.len() == 0 ==> auth::required_setting(key, Some(left + word + right)) == Err::<
            Seq<char>,
            _,
        >(ConfigErrorModel::Blank { key }),
        auth::optional_setting(key, None) == Ok::<_, ConfigErrorModel>(None::<Seq<char>>),
        auth::required_setting(key, None) == Err::<Seq<char>, _>(
            ConfigErrorModel::Missing { key },
        ),
{
    text_laws::law_trimming_gives_the_text(left, word, right);
}

/// Yes and no can be said in four words each, in capitals or small letters, with
/// white space around them; nothing else is understood.
pub proof fn law_yes_and_no(key: Seq<char>, value: Seq<char>)
    ensures
        ({
            let word = text::lower(text::trim(value));
            let yes = word == "1"@ || word == "true"@ || word == "yes"@ || word == "on"@;
            let no = word == "0"@ || word == "false"@ || word == "no"@ || word == "off"@;
            &&& yes ==> auth::bool_setting(key, value) == Ok::<_, ConfigErrorModel>(true)
            &&& no && !yes ==> auth::bool_setting(key, value) == Ok::<_, ConfigErrorModel>(false)
            &&& !yes && !no ==> auth::bool_setting(key, value) == Err::<bool, _>(
                ConfigErrorModel::NotBool { key },
            )
        }),
{
}

/// A value is among the parts of a list.
pub open spec fn is_part(parts: Seq<Seq<char>>, value: Seq<char>) -> bool {
    exists|i: int| 0 <= i < parts.len() && text::trim(#[trigger] parts[i]) == value
}

/// A list holds what stands between its commas, without white space around it,
/// and nothing blank; each value once.
pub proof fn law_list_holds_its_parts(parts: Seq<Seq<char>>, value: Seq<char>)
    ensures
        auth::listed_values(parts).contains(value) <==> value.len() > 0 && is_part(parts, value),
        auth::listed_values(parts).no_duplicates(),
    decreases parts.len(),
{
    if parts.len() > 0 {
        let rest = parts.drop_last();
        law_list_holds_its_parts(rest, value);
        let last = text::trim(parts.last());
        let before = auth::listed_values(rest);
        string_map::law_member_joins(before, last, value);
        assert(parts[parts.len() - 1] == parts.last());
        if is_part(rest, value) {
            let i = choose|i: int| 0 <= i < rest.len() && text::trim(#[trigger] rest[i]) == value;
            assert(parts[i] == rest[i]);
        }
        if is_part(parts, value) && last != value {
            let i = choose|i: int|
                0 <= i < parts.len() && text::trim(#[trigger] parts[i]) == value;
            assert(rest[i] == parts[i]);
        }
        if last.len() > 0 && !before.contains(last) {
            assert forall|i: int, j: int|
                0 <= i < j < before.push(last).len() implies before.push(last)[i] != before.push(
                last,
            )[j] by {
                if j == before.len() {
                    assert(before.contains(before[i]));
                }
            }
        }
    }
}

/// A setting that is a list is read so; absent or blank it lists nothing, and a
/// list of nothing but commas is refused by its name.
pub proof fn law_list_setting_is_read(key: Seq<char>, value: Seq<char>)
    ensures
        auth::list_setting(key, None) == Ok::<_, ConfigErrorModel>(Seq::<Seq<char>>::empty()),
        text_laws::all_spaces(value) ==> auth::list_setting(key, Some(value)) == Ok::<
            _,
            ConfigErrorModel,
        >(Seq::<Seq<char>>::empty()),
        auth::list_setting(key, Some(value)) matches Err(error) ==> error == (
        ConfigErrorModel::NoValues { key }),
        text::trim(value).len() > 0 ==> match auth::list_setting(key, Some(value)) {
            Ok(values) => values.len() > 0 && values == auth::listed_values(
                text::split(text::trim(value), ','),
            ),
            Err(_) => auth::listed_values(text::split(text::trim(value), ',')).len() == 0,
        },
{
    if text_laws::all_spaces(value) {
        text_laws::law_trimming_gives_the_text(value, Seq::empty(), Seq::empty());
        assert(value + Seq::<char>::empty() + Seq::<char>::empty() =~= value);
    }
}

/// The origins that are listed are compared in their normal form; one that has
/// none is refused as it was written.
pub proof fn law_origins_are_listed_in_normal_form(
    key: Seq<char>,
    origins: Seq<Seq<char>>,
    origin: Seq<char>,
)
    ensures
        auth::normal_origins(key, origins) matches Ok(listed) ==> {
            &&& listed.contains(origin) <==> exists|i: int|
                0 <= i < origins.len() && auth::normal_origin(#[trigger] origins[i]) == Some(
                    origin,
                )
            &&& forall|i: int|
                0 <= i < origins.len() ==> auth::normal_origin(#[trigger] origins[i]) is Some
        },
        auth::normal_origins(key, origins) matches Err(error) ==> exists|i: int|
            {
                &&& 0 <= i < origins.len()
                &&& auth::normal_origin(#[trigger] origins[i]) is None
                &&& error == (ConfigErrorModel::BadOrigin { key, origin: origins[i] })
            },
    decreases origins.len(),
{
    if origins.len() > 0 {
        let rest = origins.drop_last();
        law_origins_are_listed_in_normal_form(key, rest, origin);
        assert(origins[origins.len() - 1] == origins.last());
        match auth::normal_origins(key, rest) {
            Ok(listed) => {
                match auth::normal_origin(origins.last()) {
                    Some(last) => {
                        string_map::law_member_joins(listed, last, origin);
                        if listed.contains(origin) {
                            let i = choose|i: int|
                                0 <= i < rest.len() && auth::normal_origin(#[trigger] rest[i])
                                    == Some(origin);
                            assert(origins[i] == rest[i]);
                        }
                        assert forall|i: int| 0 <= i < origins.len() implies auth::normal_origin(
                            #[trigger] origins[i],
                        ) is Some by {
                            if i < rest.len() {
                                assert(rest[i] == origins[i]);
                            }
                        }
                        if exists|i: int|
                            0 <= i < origins.len() && auth::normal_origin(#[trigger] origins[i])
                                == Some(origin) {
                            let i = choose|i: int|
                                0 <= i < origins.len() && auth::normal_origin(
                                    #[trigger] origins[i],
                                ) == Some(origin);
                            if i < rest.len() {
                                assert(rest[i] == origins[i]);
                            }
                        }
                    },
                    None => {},
                }
            },
            Err(error) => {
                let i = choose|i: int|
                    {
                        &&& 0 <= i < rest.len()
                        &&& auth::normal_origin(#[trigger] rest[i]) is None
                        &&& error == (ConfigErrorModel::BadOrigin { key, origin: rest[i] })
                    };
                assert(origins[i] == rest[i]);
            },
        }
    }
}

/// A relay server runs by its settings: what is given is taken, what is not has
/// its usual value. A login lasts at least a minute, and its cookie is kept to
/// secure connections unless the server is set up for development.
pub proof fn law_server_settings_are_taken_over(env: RelayServerEnv)
    ensures
        relay_server::server_config(env) matches Ok(settings) ==> {
            let login = settings.browser_auth.login;
            &&& env.bind_address == Some(settings.bind_address)
            &&& env.allow_insecure_dev is None ==> !settings.allow_insecure_dev
            &&& auth::list_setting("RELAY_SERVER_CLIENT_TOKENS"@, env.client_tokens.deep_view())
                == Ok::<_, ConfigErrorModel>(settings.accepted_client_tokens)
            &&& auth::list_setting(
                "RELAY_SERVER_CLIENT_TOKENS_REVOKED"@,
                env.client_tokens_revoked.deep_view(),
            ) == Ok::<_, ConfigErrorModel>(settings.revoked_client_tokens)
            &&& auth::origins_setting(
                "RELAY_SERVER_BROWSER_ALLOWED_ORIGINS"@,
                env.browser_allowed_origins.deep_view(),
            ) == Ok::<_, ConfigErrorModel>(settings.browser_auth.allowed_origins)
            &&& env.login_username.deep_view() matches Some(name) && login.username == text::trim(
                name,
            )
            &&& env.login_password.deep_view() matches Some(word) && login.password == text::trim(
                word,
            )
            &&& login.session_ttl_secs >= 60
            &&& env.login_session_ttl_secs is None ==> login.session_ttl_secs == 86400
            &&& env.login_cookie_name.deep_view() matches Some(name) ==> login.cookie_name == name
            &&& env.login_cookie_name is None ==> login.cookie_name == "relay_session"@
            &&& env.login_cookie_secure is None ==> login.cookie_secure
                == !settings.allow_insecure_dev
            &&& env.state_file.deep_view() matches Some(file) ==> settings.state_file == file
            &&& env.state_file is None ==> settings.state_file == "relay-state.json"@
            &&& env.compaction_threshold is None ==> settings.compaction_threshold == 200
            &&& env.segment_event_limit is None ==> settings.segment_event_limit == 100
        },
{
}

/// Numbers among the settings of the relay server are taken as they are written;
/// what is no number counts as not given. So does how long a login lasts, but no
/// login lasts less than a minute.
pub proof fn law_server_numbers_are_taken_as_written(
    number: u64,
    max: nat,
    default: nat,
    other: Seq<char>,
    i: int,
)
    requires
        0 <= i < other.len(),
        !('0' <= other[i] <= '9'),
        i > 0 || other[0] != '+',
        number <= max,
    ensures
        relay_server::number_or(Some(text::decimal(number as nat)), max, default) == number,
        relay_server::number_or(Some(other), max, default) == default,
        relay_server::number_or(None, max, default) == default,
        number >= 60 ==> relay_server::login_ttl(Some(text::decimal(number as nat))) == number,
        number < 60 ==> relay_server::login_ttl(Some(text::decimal(number as nat))) == 60,
        relay_server::login_ttl(Some(other)) == 86400,
{
    text::law_decimal_is_read_back(number as nat, max);
    text::law_decimal_is_read_back(number as nat, u64::MAX as nat);
    text_laws::law_other_text_is_no_number(other, max, i);
    text_laws::law_other_text_is_no_number(other, u64::MAX as nat, i);
}

} // verus!
