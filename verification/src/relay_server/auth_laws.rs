//! What holds of logins, cookies and origins.
use crate::relay_server::RelayServerEnv;
use crate::relay_server::auth::{AuthRefusal, RequestHeaders};
use crate::relay_server::auth;
use crate::relay_server::state::{LoginModel, ServerModel};
use crate::relay_server;
use crate::string_map;
use crate::text;
use vstd::prelude::*;

verus! {

// ---------------------------------------------------------------------------
// Logins
// ---------------------------------------------------------------------------

/// A browser that logged in and sends its token is recognised until the login
/// expires, and not afterwards.
pub proof fn law_login_is_recognized(
    server: ServerModel,
    origin_header: Option<Vec<u8>>,
    token: Seq<char>,
    login_time: u64,
    headers: RequestHeaders,
    request_time: u64,
)
    requires
        auth::origin_refusal(server.browser_auth, origin_header) is None,
        auth::cookie_in(
            auth::header_text(headers.cookie),
            server.browser_auth.login.cookie_name,
        ) == Some(
            token,
        ),
    ensures
        ({
            let login = server.browser_auth.login;
            let after = auth::login_step(
                server,
                origin_header,
                login.username,
                login.password,
                token,
                login_time,
            ).0;
            auth::authentication(
                after,
                headers,
                false,
                request_time,
            ).1 == if request_time < auth::later(
                login_time,
                login.session_ttl_secs,
            ) {
                Ok::<Seq<char>, AuthRefusal>(login.username)
            } else {
                Err(AuthRefusal::LoginExpired)
            }
        }),
{
    let login = server.browser_auth.login;
    string_map::law_lookup_after_put(
        server.login_sessions,
        token,
        LoginModel {
            user_id: login.username,
            expires_at: auth::later(login_time, login.session_ttl_secs),
        },
        token,
    );
}

/// A browser that logged out is not recognised any more.
pub proof fn law_logout_ends_the_login(server: ServerModel, headers: RequestHeaders, now: u64)
    requires
        auth::origin_refusal(server.browser_auth, headers.origin) is None,
        auth::cookie_in(
            auth::header_text(headers.cookie),
            server.browser_auth.login.cookie_name,
        ) is Some,
        string_map::distinct(server.login_sessions),
    ensures
        auth::authentication(auth::logout_step(server, headers).0, headers, false, now).1 == Err::<
            Seq<char>,
            AuthRefusal,
        >(AuthRefusal::LoginInvalid),
{
    let token = auth::cookie_in(
        auth::header_text(headers.cookie),
        server.browser_auth.login.cookie_name,
    ).unwrap();
    string_map::law_lookup_after_erase(server.login_sessions, token, token);
}

/// A wrong name or password, or an origin that is not allowed, changes nothing.
pub proof fn law_failed_login_changes_nothing(
    server: ServerModel,
    origin_header: Option<Vec<u8>>,
    username: Seq<char>,
    password: Seq<char>,
    token: Seq<char>,
    now: u64,
)
    requires
        auth::origin_refusal(server.browser_auth, origin_header) is Some || username
            != server.browser_auth.login.username || password
            != server.browser_auth.login.password,
    ensures
        auth::login_step(server, origin_header, username, password, token, now).0 == server,
        auth::login_step(server, origin_header, username, password, token, now).1 is Unauthorized,
{
}

/// A request without a login is turned away, and so is one whose token is not
/// known.
pub proof fn law_request_without_login_is_refused(
    server: ServerModel,
    headers: RequestHeaders,
    enforce_origin: bool,
    now: u64,
)
    requires
        match auth::cookie_in(
            auth::header_text(headers.cookie),
            server.browser_auth.login.cookie_name,
        ) {
            Some(token) => string_map::lookup(server.login_sessions, token) is None,
            None => true,
        },
    ensures
        auth::authentication(server, headers, enforce_origin, now).1 is Err,
        auth::authentication(server, headers, enforce_origin, now).0 == server,
{
}

// ---------------------------------------------------------------------------
// Cookies
// ---------------------------------------------------------------------------

proof fn lemma_trimmed(s: Seq<char>)
    requires
        s.len() > 0 ==> !text::is_space(s[0]) && !text::is_space(s.last()),
    ensures
        text::trim(s) == s,
{
}

proof fn lemma_one_part(s: Seq<char>, c: char)
    requires
        !s.contains(c),
    ensures
        text::split(s, c) == seq![s],
    decreases s.len(),
{
    if s.len() > 0 {
        let rest = s.drop_last();
        assert forall|i: int| 0 <= i < rest.len() implies rest[i] != c by {
            assert(s.contains(s[i]));
        }
        lemma_one_part(rest, c);
        assert(s.contains(s.last()));
        assert(rest.push(s.last()) =~= s);
        assert(text::split(s, c) =~= seq![s]);
    } else {
        assert(text::split(s, c) =~= seq![s]);
    }
}

/// The first occurrence of a one-character pattern.
proof fn lemma_find_char(s: Seq<char>, pat: Seq<char>, i: int, at: int)
    requires
        pat.len() == 1,
        0 <= i <= at < s.len(),
        s[at] == pat[0],
        forall|j: int| i <= j < at ==> s[j] != pat[0],
    ensures
        text::find_from(s, pat, i) == Some(at),
    decreases at - i,
{
    assert(s.subrange(i, i + 1) =~= seq![s[i]]);
    if i == at {
        assert(s.subrange(i, i + 1) =~= pat);
    } else {
        assert(s.subrange(i, i + 1)[0] != pat[0]);
        lemma_find_char(s, pat, i + 1, at);
    }
}

/// A cookie that a browser sends back is read as it was set.
pub proof fn law_cookie_is_read_back(name: Seq<char>, value: Seq<char>)
    requires
        !name.contains('='),
        !name.contains(';'),
        !value.contains(';'),
        text::trim(name) == name,
        text::trim(value) == value,
    ensures
        auth::cookie_in(Some(name + "="@ + value), name) == Some(value),
{
    reveal_strlit("=");
    let sent = name + "="@ + value;
    let at = name.len() as int;
    assert(sent[at] == '=');
    assert forall|i: int| 0 <= i < sent.len() implies sent[i] != ';' by {
        if i < at {
            assert(name.contains(name[i]));
        } else if i > at {
            assert(value.contains(value[i - at - 1]));
        }
    }
    lemma_one_part(sent, ';');
    text::lemma_trim_ends(name);
    text::lemma_trim_ends(value);
    assert(sent[0] == if at > 0 {
        name[0]
    } else {
        '='
    });
    assert(sent.last() == if value.len() > 0 {
        value.last()
    } else {
        '='
    });
    lemma_trimmed(sent);
    assert forall|j: int| 0 <= j < at implies sent[j] != '=' by {
        assert(name.contains(name[j]));
    }
    lemma_find_char(sent, "="@, 0, at);
    assert(sent.take(at) =~= name);
    assert(sent.skip(at + 1) =~= value);
    assert(text::split(sent, ';')[0] == sent);
}

/// A token survives the way through a cookie.
pub proof fn law_token_is_read_back(name: Seq<char>, token: Seq<char>)
    requires
        auth::is_token(token),
        !name.contains('='),
        !name.contains(';'),
        text::trim(name) == name,
    ensures
        auth::cookie_in(Some(name + "="@ + token), name) == Some(token),
{
    assert(!text::is_space(token[0]) && !text::is_space(token.last())) by {
        assert(auth::is_token_char(token[0]));
        assert(auth::is_token_char(token[35]));
    }
    lemma_trimmed(token);
    assert forall|i: int| 0 <= i < token.len() implies token[i] != ';' by {
        assert(auth::is_token_char(token[i]));
    }
    law_cookie_is_read_back(name, token);
}

proof fn lemma_decimal_header(n: nat)
    ensures
        auth::is_header_text(text::decimal(n)),
    decreases n,
{
    if n >= 10 {
        lemma_decimal_header(n / 10);
    }
}

/// A login can be kept in a cookie wherever the cookie's name can stand in a
/// header.
pub proof fn law_login_cookie_can_be_set(
    name: Seq<char>,
    token: Seq<char>,
    max_age_secs: u64,
    secure: bool,
)
    requires
        auth::is_header_text(name),
        auth::is_token(token),
    ensures
        auth::is_header_text(auth::auth_cookie(name, token, max_age_secs, secure)),
{
    reveal_strlit("=");
    reveal_strlit("; Path=/; HttpOnly; SameSite=Lax; Max-Age=");
    reveal_strlit("; Secure");
    reveal_strlit("");
    lemma_decimal_header(max_age_secs as nat);
    assert forall|i: int| 0 <= i < token.len() implies auth::is_header_char(
        #[trigger] token[i],
    ) by {
        assert(auth::is_token_char(token[i]));
    }
    assert(auth::is_header_text("; Path=/; HttpOnly; SameSite=Lax; Max-Age="@));
    assert(auth::is_header_text("; Secure"@));
    assert(auth::is_header_text("="@));
    lemma_join_header(name, "="@);
    lemma_join_header(name + "="@, token);
    lemma_join_header(name + "="@ + token, "; Path=/; HttpOnly; SameSite=Lax; Max-Age="@);
    let start = name + "="@ + token + "; Path=/; HttpOnly; SameSite=Lax; Max-Age="@;
    lemma_join_header(start, text::decimal(max_age_secs as nat));
    if secure {
        lemma_join_header(start + text::decimal(max_age_secs as nat), "; Secure"@);
    } else {
        assert(start + text::decimal(max_age_secs as nat) + ""@ =~= start + text::decimal(
            max_age_secs as nat,
        ));
    }
}

proof fn lemma_join_header(a: Seq<char>, b: Seq<char>)
    requires
        auth::is_header_text(a),
        auth::is_header_text(b),
    ensures
        auth::is_header_text(a + b),
{
    assert forall|i: int| 0 <= i < (a + b).len() implies auth::is_header_char(
        #[trigger] (a + b)[i],
    ) by {
        if i < a.len() {
            assert((a + b)[i] == a[i]);
        } else {
            assert((a + b)[i] == b[i - a.len()]);
        }
    }
}

// ---------------------------------------------------------------------------
// Origins
// ---------------------------------------------------------------------------

proof fn lemma_lower_twice(s: Seq<char>)
    ensures
        text::lower(text::lower(s)) == text::lower(s),
{
    assert forall|c: char| text::lower_char(#[trigger] text::lower_char(c)) == text::lower_char(
        c,
    ) by {
        if 'A' <= c && c <= 'Z' {
            let d = ((c as u8) + 32) as u8 as char;
            assert(d as u32 == c as u32 + 32);
        }
    }
    assert(text::lower(text::lower(s)) =~= text::lower(s));
}

/// Small letters hold no sign that the text did not hold.
proof fn lemma_lower_keeps(s: Seq<char>, c: char)
    requires
        !('A' <= c && c <= 'Z'),
        !('a' <= c && c <= 'z'),
        !s.contains(c),
    ensures
        !text::lower(s).contains(c),
{
    assert forall|i: int| 0 <= i < s.len() implies text::lower(s)[i] != c by {
        assert(s.contains(s[i]));
        let d = s[i];
        if 'A' <= d && d <= 'Z' {
            let e = ((d as u8) + 32) as u8 as char;
            assert(e as u32 == d as u32 + 32);
        }
    }
}

/// The normal form of an origin is its own normal form, unless it ends in white
/// space.
pub proof fn law_normal_origin_is_normal(value: Seq<char>, origin: Seq<char>)
    requires
        auth::normal_origin(value) == Some(origin),
        text::trim(origin) == origin,
    ensures
        auth::normal_origin(origin) == Some(origin),
{
    reveal_strlit("://");
    reveal_strlit("https");
    reveal_strlit("http");
    let (scheme, rest) = text::split_once(
        text::trim_end_char(text::trim(value), '/'),
        "://"@,
    ).unwrap();
    let low = text::lower(scheme);
    let host = text::lower(rest);
    let pat = "://"@;
    let n = low.len() as int;
    assert(origin == low + pat + host);
    lemma_lower_keeps(rest, '/');
    lemma_lower_keeps(rest, '?');
    lemma_lower_keeps(rest, '#');
    assert(origin.last() == host.last());
    assert(host.contains(host.last()));
    assert(text::trim_end_char(origin, '/') == origin);
    assert(origin.subrange(n, n + 3) =~= pat);
    assert(low == "https"@ || low == "http"@);
    assert forall|i: int| 0 <= i < n implies !#[trigger] occurs_at(origin, pat, i) by {
        assert(origin.subrange(i, i + 3)[0] == low[i]);
        assert(low[i] != ':');
    }
    lemma_find_at(origin, pat, 0, n);
    assert(origin.take(n) =~= low);
    assert(origin.skip(n + 3) =~= host);
    lemma_lower_twice(scheme);
    lemma_lower_twice(rest);
}

/// Whether a pattern stands at a position.
spec fn occurs_at(s: Seq<char>, pat: Seq<char>, i: int) -> bool {
    s.subrange(i, i + pat.len()) == pat
}

proof fn lemma_find_at(s: Seq<char>, pat: Seq<char>, i: int, at: int)
    requires
        0 <= i <= at,
        at + pat.len() <= s.len(),
        s.subrange(at, at + pat.len()) == pat,
        forall|j: int| i <= j < at ==> !#[trigger] occurs_at(s, pat, j),
    ensures
        text::find_from(s, pat, i) == Some(at),
    decreases at - i,
{
    if i < at {
        assert(!occurs_at(s, pat, i));
        lemma_find_at(s, pat, i + 1, at);
    }
}

/// White space at the start goes away alike with one more sign at the end.
proof fn lemma_trim_start_push(s: Seq<char>, c: char)
    requires
        !text::is_space(c),
    ensures
        text::trim_start(s.push(c)) == text::trim_start(s).push(c),
        text::trim_start(s).len() > 0 ==> text::trim_start(s).last() == s.last(),
    decreases s.len(),
{
    if s.len() > 0 && text::is_space(s[0]) {
        assert(s.push(c).skip(1) =~= s.skip(1).push(c));
        lemma_trim_start_push(s.skip(1), c);
    }
}

/// A slash at the end of an origin does not count, unless white space comes
/// before it.
pub proof fn law_final_slash_does_not_count(value: Seq<char>)
    requires
        value.len() > 0 ==> !text::is_space(value.last()),
    ensures
        auth::normal_origin(value.push('/')) == auth::normal_origin(value),
{
    lemma_trim_start_push(value, '/');
    let start = text::trim_start(value);
    assert(text::trim(value) == start);
    assert(text::trim(value.push('/')) == start.push('/'));
    assert(start.push('/').drop_last() =~= start);
}

/// Turning a capital into a small letter makes no sign into another kind.
proof fn lemma_lower_char(c: char)
    ensures
        text::is_space(text::lower_char(c)) == text::is_space(c),
        text::lower_char(c) == '/' <==> c == '/',
        text::lower_char(c) == ':' <==> c == ':',
{
    if 'A' <= c && c <= 'Z' {
        let d = ((c as u8) + 32) as u8 as char;
        assert(d as u32 == c as u32 + 32);
    }
}

proof fn lemma_lower_trim_start(s: Seq<char>)
    ensures
        text::trim_start(text::lower(s)) == text::lower(text::trim_start(s)),
    decreases s.len(),
{
    if s.len() > 0 {
        lemma_lower_char(s[0]);
        assert(text::lower(s).skip(1) =~= text::lower(s.skip(1)));
        lemma_lower_trim_start(s.skip(1));
    }
}

proof fn lemma_lower_trim_end(s: Seq<char>)
    ensures
        text::trim_end(text::lower(s)) == text::lower(text::trim_end(s)),
        text::trim_end_char(text::lower(s), '/') == text::lower(text::trim_end_char(s, '/')),
    decreases s.len(),
{
    if s.len() > 0 {
        lemma_lower_char(s.last());
        assert(text::lower(s).drop_last() =~= text::lower(s.drop_last()));
        lemma_lower_trim_end(s.drop_last());
    }
}

proof fn lemma_lower_find(s: Seq<char>, i: int)
    requires
        0 <= i,
    ensures
        text::find_from(text::lower(s), "://"@, i) == text::find_from(s, "://"@, i),
    decreases s.len() - i + 1,
{
    reveal_strlit("://");
    if i + 3 <= s.len() {
        let pat = "://"@;
        let a = s.subrange(i, i + 3);
        let b = text::lower(s).subrange(i, i + 3);
        lemma_lower_char(s[i]);
        lemma_lower_char(s[i + 1]);
        lemma_lower_char(s[i + 2]);
        assert(a[0] == s[i] && a[1] == s[i + 1] && a[2] == s[i + 2]);
        assert(b[0] == text::lower_char(s[i]));
        assert(b[1] == text::lower_char(s[i + 1]));
        assert(b[2] == text::lower_char(s[i + 2]));
        if a == pat {
            assert(b =~= pat);
        }
        if b == pat {
            assert(a =~= pat);
        }
        lemma_lower_find(s, i + 1);
    }
}

/// A sign that is no capital stays where capitals are turned into small letters.
proof fn lemma_lower_holds(s: Seq<char>, c: char)
    requires
        !('A' <= c && c <= 'Z'),
        s.contains(c),
    ensures
        text::lower(s).contains(c),
{
    let i = choose|i: int| 0 <= i < s.len() && s[i] == c;
    assert(text::lower(s)[i] == c);
}

/// Capitals in an origin do not count.
pub proof fn law_capitals_do_not_count(value: Seq<char>)
    ensures
        auth::normal_origin(text::lower(value)) == auth::normal_origin(value),
{
    reveal_strlit("://");
    lemma_lower_trim_start(value);
    lemma_lower_trim_end(text::trim_start(value));
    lemma_lower_trim_end(text::trim(value));
    let s = text::trim_end_char(text::trim(value), '/');
    lemma_lower_find(s, 0);
    match text::find(s, "://"@) {
        Some(i) => {
            lemma_found_within(s, "://"@, 0);
            let scheme = s.take(i);
            let rest = s.skip(i + 3);
            assert(text::lower(s).take(i) =~= text::lower(scheme));
            assert(text::lower(s).skip(i + 3) =~= text::lower(rest));
            lemma_lower_twice(scheme);
            lemma_lower_twice(rest);
            if rest.contains('/') {
                lemma_lower_holds(rest, '/');
            } else {
                lemma_lower_keeps(rest, '/');
            }
            if rest.contains('?') {
                lemma_lower_holds(rest, '?');
            } else {
                lemma_lower_keeps(rest, '?');
            }
            if rest.contains('#') {
                lemma_lower_holds(rest, '#');
            } else {
                lemma_lower_keeps(rest, '#');
            }
        },
        None => {},
    }
}

/// A pattern that is found stands within the text.
proof fn lemma_found_within(s: Seq<char>, pat: Seq<char>, i: int)
    requires
        0 <= i,
    ensures
        text::find_from(s, pat, i) matches Some(at) ==> i <= at && at + pat.len() <= s.len(),
    decreases s.len() - i + 1,
{
    if i + pat.len() <= s.len() {
        lemma_found_within(s, pat, i + 1);
    }
}

/// An origin is a scheme and a host: its normal form has both in small letters.
/// There is none of another scheme, and none of anything with a path, a query or
/// a fragment.
pub proof fn law_origin_is_scheme_and_host(scheme: Seq<char>, host: Seq<char>)
    requires
        !scheme.contains(':'),
        scheme.len() > 0,
        !text::is_space(scheme[0]),
        host.len() > 0,
        !text::is_space(host.last()),
        host.last() != '/',
    ensures
        ({
            let known = text::lower(scheme) == "https"@ || text::lower(scheme) == "http"@;
            let plain = !host.contains('/') && !host.contains('?') && !host.contains('#');
            auth::normal_origin(scheme + "://"@ + host) == if known && plain {
                Some(text::lower(scheme) + "://"@ + text::lower(host))
            } else {
                None
            }
        }),
{
    reveal_strlit("://");
    let pat = "://"@;
    let value = scheme + pat + host;
    let n = scheme.len() as int;
    assert(value[0] == scheme[0]);
    assert(value.last() == host.last());
    lemma_trimmed(value);
    assert(text::trim_end_char(value, '/') == value);
    assert(value.subrange(n, n + 3) =~= pat);
    assert forall|i: int| 0 <= i < n implies !#[trigger] occurs_at(value, pat, i) by {
        assert(value.subrange(i, i + 3)[0] == scheme[i]);
        assert(scheme.contains(scheme[i]));
    }
    lemma_find_at(value, pat, 0, n);
    assert(value.take(n) =~= scheme);
    assert(value.skip(n + 3) =~= host);
}

/// Where origins are listed, a request from another one neither gets through nor
/// changes a login.
pub proof fn law_foreign_origin_is_refused(
    server: ServerModel,
    headers: RequestHeaders,
    username: Seq<char>,
    password: Seq<char>,
    token: Seq<char>,
    now: u64,
)
    requires
        server.browser_auth.allowed_origins.len() > 0,
        auth::nonblank_header(headers.origin) matches Some(text) ==> (auth::normal_origin(
            text,
        ) matches Some(origin) ==> !server.browser_auth.allowed_origins.contains(origin)),
    ensures
        auth::authentication(server, headers, true, now).0 == server,
        auth::authentication(server, headers, true, now).1 is Err,
        auth::login_step(server, headers.origin, username, password, token, now).0 == server,
        auth::login_step(
            server,
            headers.origin,
            username,
            password,
            token,
            now,
        ).1 is Unauthorized,
        auth::logout_step(server, headers).0 == server,
        auth::logout_step(server, headers).1 is Unauthorized,
{
}

// ---------------------------------------------------------------------------
// Settings
// ---------------------------------------------------------------------------

/// A server that runs is guarded: it asks for a name and a password, and unless
/// it listens on the loopback alone, for tokens of home clients and for origins.
pub proof fn law_running_server_is_guarded(env: RelayServerEnv)
    requires
        relay_server::server_config(env) is Ok,
    ensures
        ({
            let config = relay_server::server_config(env)->Ok_0;
            &&& config.browser_auth.login.username.len() > 0
            &&& config.browser_auth.login.password.len() > 0
            &&& if config.allow_insecure_dev {
                auth::is_loopback(config.bind_address.ip)
            } else {
                &&& config.accepted_client_tokens.len() > 0
                &&& config.browser_auth.allowed_origins.len() > 0
            }
        }),
{
}

} // verus!
