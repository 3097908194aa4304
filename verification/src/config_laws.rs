//! What the settings of the home client come to.
use crate::config::{
    ConfigModel, HomeClientEnv, RelayConfigModel, RelayTransportConfig, TransportModel,
    WorkspaceConfigModel, WorkspaceList,
};
use crate::config;
use crate::config_error::ConfigErrorModel;
use crate::config_error;
use crate::reconnect::ReconnectDelay;
use crate::reconnect;
use crate::text;
use crate::text_laws;
use vstd::prelude::*;

verus! {

// ---------------------------------------------------------------------------
// The address of the relay server
// ---------------------------------------------------------------------------

/// An address that is accepted is kept as it was given, but for white space
/// around it.
pub proof fn law_address_is_kept(raw: Seq<char>, allow_insecure_ws: bool)
    ensures
        config::relay_url(raw, allow_insecure_ws) matches Ok(url) ==> url == text::trim(raw),
{
}

/// A secure address is always accepted; an insecure one only where that is
/// allowed and it leads to this machine; anything else never, each time for its
/// own reason.
pub proof fn law_addresses_are_judged_by_scheme(
    raw: Seq<char>,
    scheme: Seq<char>,
    rest: Seq<char>,
    allow_insecure_ws: bool,
)
    requires
        text::split_once(text::trim(raw), "://"@) == Some((scheme, rest)),
    ensures
        text::lower(scheme) == "wss"@ ==> config::relay_url(raw, allow_insecure_ws) == Ok::<
            _,
            ConfigErrorModel,
        >(text::trim(raw)),
        text::lower(scheme) == "ws"@ ==> config::relay_url(raw, false) == Err::<Seq<char>, _>(
            ConfigErrorModel::InsecureScheme,
        ),
        text::lower(scheme) == "ws"@ && (config::target_host(rest) == "localhost"@
            || config::target_host(rest) == "127.0.0.1"@ || config::target_host(rest) == "::1"@)
            ==> config::relay_url(raw, true) == Ok::<_, ConfigErrorModel>(text::trim(raw)),
        text::lower(scheme) == "ws"@ && config::target_host(rest) != "localhost"@
            && config::target_host(rest) != "127.0.0.1"@ && config::target_host(rest) != "::1"@
            ==> config::relay_url(raw, true) == Err::<Seq<char>, _>(
            ConfigErrorModel::InsecureTarget,
        ),
        text::lower(scheme) != "wss"@ && text::lower(scheme) != "ws"@ ==> config::relay_url(
            raw,
            allow_insecure_ws,
        ) == Err::<Seq<char>, _>(ConfigErrorModel::UnknownScheme),
{
    reveal_strlit("wss");
    reveal_strlit("ws");
    reveal_strlit("://");
    assert("wss"@.len() != "ws"@.len());
    text_laws::law_text_is_divided(text::trim(raw), "://"@);
}

/// A blank address, and one without a scheme, are refused as such.
pub proof fn law_address_needs_a_scheme(raw: Seq<char>, allow_insecure_ws: bool)
    ensures
        text_laws::all_spaces(raw) ==> config::relay_url(raw, allow_insecure_ws) == Err::<
            Seq<char>,
            _,
        >(ConfigErrorModel::BlankUrl),
        text::trim(raw).len() > 0 && text::split_once(text::trim(raw), "://"@) is None
            ==> config::relay_url(raw, allow_insecure_ws) == Err::<Seq<char>, _>(
            ConfigErrorModel::NoScheme,
        ),
{
    if text_laws::all_spaces(raw) {
        text_laws::law_trimming_gives_the_text(raw, Seq::empty(), Seq::empty());
        assert(raw + Seq::<char>::empty() + Seq::<char>::empty() =~= raw);
    }
}

/// A text without the characters that end the part of an address that says
/// where it leads.
pub open spec fn stays_within(s: Seq<char>) -> bool {
    !s.contains('/') && !s.contains('?') && !s.contains('#')
}

/// What may follow that part: nothing, or a path, a query or a fragment.
pub open spec fn leads_on(tail: Seq<char>) -> bool {
    tail.len() > 0 ==> tail[0] == '/' || tail[0] == '?' || tail[0] == '#'
}

proof fn lemma_before_first_of_sum(front: Seq<char>, back: Seq<char>, c: char)
    requires
        !front.contains(c),
    ensures
        text::before_first(front + back, c) == front + text::before_first(back, c),
    decreases front.len(),
{
    let s = front + back;
    if front.len() == 0 {
        assert(s =~= back);
        assert(front + text::before_first(back, c) =~= text::before_first(back, c));
    } else {
        assert(front.contains(front[0]));
        assert(s[0] == front[0]);
        let rest = front.skip(1);
        assert(s.skip(1) =~= rest + back);
        assert forall|i: int| 0 <= i < rest.len() implies rest[i] != c by {
            assert(front.contains(front[i + 1]));
        }
        lemma_before_first_of_sum(rest, back, c);
        assert(seq![front[0]] + (rest + text::before_first(back, c)) =~= front
            + text::before_first(back, c));
    }
}

proof fn lemma_first_stays(s: Seq<char>, c: char)
    requires
        s.len() > 0,
        s[0] != c,
    ensures
        text::before_first(s, c).len() > 0,
        text::before_first(s, c)[0] == s[0],
{
}

/// The part of an address that says where it leads ends where a path, a query
/// or a fragment begins.
pub proof fn law_authority_ends_at_the_path(authority: Seq<char>, tail: Seq<char>)
    requires
        stays_within(authority),
        leads_on(tail),
    ensures
        config::authority_of(authority + tail) == authority,
{
    let one = text::before_first(tail, '/');
    let two = text::before_first(one, '?');
    let three = text::before_first(two, '#');
    lemma_before_first_of_sum(authority, tail, '/');
    lemma_before_first_of_sum(authority, one, '?');
    lemma_before_first_of_sum(authority, two, '#');
    if tail.len() > 0 {
        if tail[0] == '/' {
            assert(one.len() == 0);
        } else {
            lemma_first_stays(tail, '/');
            if tail[0] == '?' {
                assert(two.len() == 0);
            } else {
                lemma_first_stays(one, '?');
            }
        }
    }
    assert(three.len() == 0);
    assert(authority + three =~= authority);
}

/// The host that an address names, whoever is to be logged in there, whatever
/// the port and whatever the path, in small letters.
pub proof fn law_host_is_found(
    user: Option<Seq<char>>,
    host: Seq<char>,
    port: Seq<char>,
    tail: Seq<char>,
)
    requires
        user matches Some(name) ==> stays_within(name),
        stays_within(host),
        !host.contains('@'),
        !host.contains(':'),
        host.len() > 0,
        host[0] != '[',
        text::trim(host) == host,
        stays_within(port),
        !port.contains('@'),
        port.len() > 0 ==> port[0] == ':',
        leads_on(tail),
    ensures
        ({
            let login = match user {
                Some(name) => name.push('@'),
                None => Seq::empty(),
            };
            config::target_host(login + (host + port) + tail) == text::lower(host)
        }),
{
    let login = match user {
        Some(name) => name.push('@'),
        None => Seq::empty(),
    };
    let place = host + port;
    let authority = login + place;
    assert forall|c: char| c == '/' || c == '?' || c == '#' implies !#[trigger] authority.contains(
        c,
    ) by {
        if authority.contains(c) {
            let i = choose|i: int| 0 <= i < authority.len() && authority[i] == c;
            if i < login.len() {
                if i < login.len() - 1 {
                    assert(user.unwrap()[i] == c);
                    assert(user.unwrap().contains(c));
                }
            } else if i < login.len() + host.len() {
                assert(host[i - login.len()] == c);
            } else {
                assert(port[i - login.len() - host.len()] == c);
            }
        }
    }
    law_authority_ends_at_the_path(authority, tail);
    assert(!place.contains('@')) by {
        if place.contains('@') {
            let i = choose|i: int| 0 <= i < place.len() && place[i] == '@';
            if i < host.len() {
                assert(host[i] == '@');
            } else {
                assert(port[i - host.len()] == '@');
            }
        }
    }
    match user {
        Some(name) => text_laws::law_text_after_a_character(name, '@', place),
        None => {
            text_laws::law_text_after_a_character(Seq::empty(), '@', place);
            assert(authority =~= place);
        },
    }
    assert(place[0] == host[0]);
    if port.len() > 0 {
        assert(place =~= host.push(':') + port.skip(1));
        text_laws::law_text_before_a_character(host, ':', port.skip(1));
    } else {
        assert(place =~= host);
        text_laws::law_text_before_a_character(host, ':', Seq::empty());
    }
}

/// An address of the newer kind stands in brackets.
pub proof fn law_bracketed_host_is_found(host: Seq<char>, port: Seq<char>, tail: Seq<char>)
    requires
        stays_within(host),
        !host.contains('@'),
        !host.contains(']'),
        text::trim(host) == host,
        stays_within(port),
        !port.contains('@'),
        leads_on(tail),
    ensures
        config::target_host(seq!['['] + host + seq![']'] + port + tail) == text::lower(host),
{
    let place = seq!['['] + host + seq![']'] + port;
    assert forall|c: char|
        c == '/' || c == '?' || c == '#' || c == '@' implies !#[trigger] place.contains(c) by {
        if place.contains(c) {
            let i = choose|i: int| 0 <= i < place.len() && place[i] == c;
            if 0 < i < 1 + host.len() {
                assert(host[i - 1] == c);
            } else if i > 1 + host.len() {
                assert(port[i - 2 - host.len()] == c);
            }
        }
    }
    law_authority_ends_at_the_path(place, tail);
    text_laws::law_text_after_a_character(Seq::empty(), '@', place);
    assert(place[0] == '[');
    assert(place.skip(1) =~= host.push(']') + port);
    text_laws::law_text_before_a_character(host, ']', port);
}

// ---------------------------------------------------------------------------
// Workspaces
// ---------------------------------------------------------------------------

/// A workspace has nothing wrong with it: it has an id and a name, its path is
/// absolute, and none before it has its id.
pub open spec fn is_in_order(
    workspaces: Seq<WorkspaceConfigModel>,
    absolute: Seq<bool>,
    i: int,
) -> bool {
    &&& !text_laws::all_spaces(workspaces[i].id)
    &&& !text_laws::all_spaces(workspaces[i].name)
    &&& absolute[i]
    &&& forall|j: int| 0 <= j < i ==> (#[trigger] workspaces[j]).id != workspaces[i].id
}

proof fn lemma_blank(s: Seq<char>)
    ensures
        text::trim(s).len() == 0 <==> text_laws::all_spaces(s),
{
    if text_laws::all_spaces(s) {
        text_laws::law_trimming_gives_the_text(s, Seq::empty(), Seq::empty());
        assert(s + Seq::<char>::empty() + Seq::<char>::empty() =~= s);
    }
    if text::trim(s).len() == 0 {
        let start = text_laws::law_trimming_takes_off_spaces(s);
        assert forall|i: int| 0 <= i < s.len() implies text::is_space(#[trigger] s[i]) by {
            if i < start {
                assert(s.take(start)[i] == s[i]);
            } else {
                assert(s.skip(start)[i - start] == s[i]);
            }
        }
    }
}

/// Workspaces are accepted, all of them as they are, exactly where there are some
/// and each is in order.
pub proof fn law_workspaces_in_order_are_accepted(
    workspaces: Seq<WorkspaceConfigModel>,
    absolute: Seq<bool>,
)
    ensures
        config::checked_workspaces(workspaces, absolute) is Ok <==> workspaces.len() > 0
            && forall|i: int|
            0 <= i < workspaces.len() ==> #[trigger] is_in_order(workspaces, absolute, i),
        config::checked_workspaces(workspaces, absolute) matches Ok(accepted) ==> accepted
            == workspaces,
        workspaces.len() == 0 ==> config::checked_workspaces(workspaces, absolute) == Err::<
            Seq<WorkspaceConfigModel>,
            _,
        >(ConfigErrorModel::NoWorkspaces),
{
    lemma_flaws_from(workspaces, absolute, 0);
}

proof fn lemma_flaws_from(workspaces: Seq<WorkspaceConfigModel>, absolute: Seq<bool>, from: int)
    requires
        0 <= from,
    ensures
        config::first_flaw(workspaces, absolute, from) is None <==> forall|i: int|
            from <= i < workspaces.len() ==> #[trigger] is_in_order(workspaces, absolute, i),
    decreases workspaces.len() - from,
{
    if from < workspaces.len() {
        lemma_blank(workspaces[from].id);
        lemma_blank(workspaces[from].name);
        assert(config::flaw_at(workspaces, absolute, from) is None <==> is_in_order(
            workspaces,
            absolute,
            from,
        ));
        lemma_flaws_from(workspaces, absolute, from + 1);
    }
}

/// The first workspace that is not in order is the one that is reported, for the
/// first thing that is wrong with it.
pub proof fn law_first_flaw_is_reported(
    workspaces: Seq<WorkspaceConfigModel>,
    absolute: Seq<bool>,
    i: int,
)
    requires
        0 <= i < workspaces.len(),
        !is_in_order(workspaces, absolute, i),
        forall|j: int| 0 <= j < i ==> #[trigger] is_in_order(workspaces, absolute, j),
    ensures
        config::checked_workspaces(workspaces, absolute) == Err::<Seq<WorkspaceConfigModel>, _>(
            if text_laws::all_spaces(workspaces[i].id) {
                ConfigErrorModel::BlankWorkspaceId
            } else if text_laws::all_spaces(workspaces[i].name) {
                ConfigErrorModel::BlankWorkspaceName
            } else if !absolute[i] {
                ConfigErrorModel::RelativePath { id: workspaces[i].id }
            } else {
                ConfigErrorModel::RepeatedWorkspace { id: workspaces[i].id }
            },
        ),
{
    lemma_flaw_at(workspaces, absolute, 0, i);
    lemma_blank(workspaces[i].id);
    lemma_blank(workspaces[i].name);
}

proof fn lemma_flaw_at(
    workspaces: Seq<WorkspaceConfigModel>,
    absolute: Seq<bool>,
    from: int,
    i: int,
)
    requires
        0 <= from <= i < workspaces.len(),
        !is_in_order(workspaces, absolute, i),
        forall|j: int| 0 <= j < i ==> #[trigger] is_in_order(workspaces, absolute, j),
    ensures
        config::first_flaw(workspaces, absolute, from) == config::flaw_at(workspaces, absolute, i),
        config::flaw_at(workspaces, absolute, i) is Some,
    decreases i - from,
{
    lemma_blank(workspaces[from].id);
    lemma_blank(workspaces[from].name);
    if from < i {
        assert(is_in_order(workspaces, absolute, from));
        lemma_flaw_at(workspaces, absolute, from + 1, i);
    }
}

/// The default workspace is the one that is named, which has to be there, or
/// else the first.
pub proof fn law_default_workspace_is_there(
    workspaces: Seq<WorkspaceConfigModel>,
    id: Seq<char>,
    i: int,
)
    requires
        0 <= i < workspaces.len(),
    ensures
        config::default_workspace_of(workspaces, None) == Ok::<_, ConfigErrorModel>(
            workspaces[0].id,
        ),
        config::default_workspace_of(workspaces, Some(workspaces[i].id)) == Ok::<
            _,
            ConfigErrorModel,
        >(workspaces[i].id),
        (forall|j: int| 0 <= j < workspaces.len() ==> (#[trigger] workspaces[j]).id != id)
            ==> config::default_workspace_of(workspaces, Some(id)) == Err::<Seq<char>, _>(
            ConfigErrorModel::UnknownDefaultWorkspace { id },
        ),
{
}

/// Where no workspaces are listed, the current directory is the only one, under
/// its own name; a list that cannot be read is refused.
pub proof fn law_current_directory_is_offered(
    current_dir: Seq<char>,
    absolute: Seq<bool>,
    dir_name: Option<Seq<char>>,
)
    ensures
        config::offered_workspaces(WorkspaceList::Absent, current_dir, absolute, dir_name)
            == Ok::<_, ConfigErrorModel>(
            seq![
                WorkspaceConfigModel {
                    id: "default"@,
                    name: match dir_name {
                        Some(name) => name,
                        None => "Current Workspace"@,
                    },
                    path: current_dir,
                },
            ],
        ),
        config::offered_workspaces(WorkspaceList::Malformed, current_dir, absolute, dir_name)
            == Err::<Seq<WorkspaceConfigModel>, _>(ConfigErrorModel::BadWorkspaces),
{
}

// ---------------------------------------------------------------------------
// Numbers and names
// ---------------------------------------------------------------------------

/// A number is taken as it is written; nothing written means the default, and
/// anything else is refused with the name of the setting.
pub proof fn law_number_is_taken_as_written(
    key: Seq<char>,
    number: u64,
    default: u64,
    other: Seq<char>,
    i: int,
)
    requires
        0 <= i < other.len(),
        !('0' <= other[i] <= '9'),
        i > 0 || other[0] != '+',
    ensures
        config::number_setting(key, None, default) == Ok::<_, ConfigErrorModel>(default),
        config::number_setting(key, Some(text::decimal(number as nat)), default) == Ok::<
            _,
            ConfigErrorModel,
        >(number),
        config::number_setting(key, Some(other), default) == Err::<u64, _>(
            ConfigErrorModel::NotNumber { key },
        ),
{
    text::law_decimal_is_read_back(number as nat, u64::MAX as nat);
    text_laws::law_other_text_is_no_number(other, u64::MAX as nat, i);
}

/// The times of reconnecting where nothing is said of them.
pub proof fn law_times_have_defaults(env: HomeClientEnv)
    requires
        env.reconnect_delay_secs is None,
        env.reconnect_max_delay_secs is None,
        env.reconnect_jitter_millis is None,
        env.reconnect_reset_after_secs is None,
    ensures
        config::reconnect_times(env) == Ok::<_, ConfigErrorModel>((3u64, 60u64, 750u64, 30u64)),
{
}

/// The times of reconnecting are what is written of them, but no delay is shorter
/// than a second, the longest is no shorter than the first, and a connection
/// counts after a second at the earliest.
pub proof fn law_times_are_taken_as_written(
    env: HomeClientEnv,
    delay: u64,
    longest: u64,
    jitter: u64,
    reset: u64,
)
    requires
        env.reconnect_delay_secs.deep_view() == Some(text::decimal(delay as nat)),
        env.reconnect_max_delay_secs.deep_view() == Some(text::decimal(longest as nat)),
        env.reconnect_jitter_millis.deep_view() == Some(text::decimal(jitter as nat)),
        env.reconnect_reset_after_secs.deep_view() == Some(text::decimal(reset as nat)),
    ensures
        config::reconnect_times(env) matches Ok((first, last, spread, lasting)) && {
            &&& first == if delay == 0 {
                1
            } else {
                delay
            }
            &&& last == if longest < first {
                first
            } else {
                longest
            }
            &&& spread == jitter
            &&& lasting == if reset == 0 {
                1
            } else {
                reset
            }
        },
{
    text::law_decimal_is_read_back(delay as nat, u64::MAX as nat);
    text::law_decimal_is_read_back(longest as nat, u64::MAX as nat);
    text::law_decimal_is_read_back(jitter as nat, u64::MAX as nat);
    text::law_decimal_is_read_back(reset as nat, u64::MAX as nat);
}

/// A home client that reaches the relay server does so as its settings say: at
/// the address that was checked, with the token, under the id and the name that
/// are given, or else those of the machine, or else the usual ones.
pub proof fn law_relay_settings_are_taken_over(env: HomeClientEnv)
    ensures
        config::relay_config(env) matches Ok(settings) ==> {
            &&& env.relay_url.deep_view() matches Some(raw) && settings.url == text::trim(raw)
            &&& env.auth_token.deep_view() == Some(settings.auth_token)
            &&& env.device_id.deep_view() matches Some(id) ==> settings.device_id == id
            &&& env.device_name.deep_view() matches Some(name) ==> settings.device_name == name
            &&& env.device_id is None && env.hostname is Some ==> Some(settings.device_id)
                == env.hostname.deep_view()
            &&& env.device_name is None && env.hostname is Some ==> Some(settings.device_name)
                == env.hostname.deep_view()
            &&& env.device_id is None && env.hostname is None ==> settings.device_id
                == "home-client"@
            &&& env.device_name is None && env.hostname is None ==> settings.device_name
                == "Home Client"@
            &&& config::reconnect_times(env) == Ok::<_, ConfigErrorModel>(
                (
                    settings.reconnect_delay_secs,
                    settings.reconnect_max_delay_secs,
                    settings.reconnect_jitter_millis,
                    settings.reconnect_reset_after_secs,
                ),
            )
        },
        env.allow_insecure_ws is None && (env.relay_url.deep_view() matches Some(raw)
            && config::relay_url(raw, false) is Err) ==> config::relay_config(env) is Err,
        env.auth_token is None ==> config::relay_config(env) is Err,
        env.relay_url is None ==> config::relay_config(env) is Err,
{
}

/// The settings of the home client have the workspaces that were found in order
/// and a default among them; the way to the relay server is taken exactly where
/// it is asked for, and an unknown way is refused by its name.
pub proof fn law_settings_are_taken_over(
    mode: Seq<char>,
    env: HomeClientEnv,
    workspaces: Seq<WorkspaceConfigModel>,
    default_workspace_id: Seq<char>,
    relay: RelayConfigModel,
)
    requires
        config::default_workspace_of(workspaces, env.default_workspace_id.deep_view()) == Ok::<
            _,
            ConfigErrorModel,
        >(default_workspace_id),
    ensures
        mode == "local"@ ==> config::client_config(mode, env, workspaces) == Ok::<
            _,
            ConfigErrorModel,
        >(ConfigModel { transport: TransportModel::Local, workspaces, default_workspace_id }),
        mode == "relay"@ && config::relay_config(env) == Ok::<_, ConfigErrorModel>(relay)
            ==> config::client_config(mode, env, workspaces) == Ok::<_, ConfigErrorModel>(
            ConfigModel {
                transport: TransportModel::Relay(relay),
                workspaces,
                default_workspace_id,
            },
        ),
        mode == "relay"@ && config::relay_config(env) is Err ==> config::client_config(
            mode,
            env,
            workspaces,
        ) is Err,
        mode != "local"@ && mode != "relay"@ ==> config::client_config(mode, env, workspaces)
            == Err::<ConfigModel, _>(ConfigErrorModel::UnknownTransport { mode }),
        config::mode_of(None) == "local"@,
{
    reveal_strlit("local");
    reveal_strlit("relay");
    assert("local"@[0] == 'l' && "relay"@[0] == 'r');
}

/// The way is asked for in capitals or small letters alike.
pub proof fn law_mode_is_read_in_small_letters(transport: Seq<char>)
    requires
        forall|i: int| 0 <= i < transport.len() ==> (#[trigger] transport[i] as u32) < 128,
    ensures
        config::mode_of(Some(transport)) == text::lower(transport),
{
}

// ---------------------------------------------------------------------------
// Waiting
// ---------------------------------------------------------------------------

/// The first wait is the first delay; every failure doubles the wait until it has
/// reached the longest delay; the twentieth doubling is the last.
pub proof fn law_wait_doubles(base: u64, longest: u64, attempt: u32)
    ensures
        ({
            let first = if base == 0 {
                1nat
            } else {
                base as nat
            };
            let last = if longest < first {
                first
            } else {
                longest as nat
            };
            let wait = reconnect::delay_secs(base, longest, attempt);
            &&& attempt <= 1 ==> wait == first
            &&& 1 <= attempt <= 20 ==> reconnect::delay_secs(base, longest, (attempt + 1) as u32)
                == if 2 * wait > last {
                last
            } else {
                2 * wait
            }
            &&& attempt >= 21 ==> wait == reconnect::delay_secs(base, longest, 21)
        }),
{
    let first = config::at_least(base, 1);
    let last = config::at_least(longest, first);
    vstd::arithmetic::power2::lemma2_to64();
    assert(first * 1 == first) by (nonlinear_arith);
    if 1 <= attempt <= 20 {
        let n = (attempt - 1) as nat;
        vstd::arithmetic::power2::lemma_pow2_unfold(n + 1);
        let power = vstd::arithmetic::power2::pow2(n);
        assert(first * (2 * power) == 2 * (first * power)) by (nonlinear_arith);
        let next = (attempt + 1) as u32;
        assert(vstd::arithmetic::power2::pow2((next - 1) as nat) == 2 * power);
    }
}

/// The spread is what is left of the clock's nanoseconds where they are taken
/// off in steps of one more than the bound.
pub proof fn law_spread_is_what_is_left(max_millis: u64, secs: u64, nanos: u32)
    requires
        max_millis < u64::MAX,
        secs * 1_000_000_000 + nanos <= u64::MAX,
    ensures
        ({
            let spread = reconnect::jitter_of(max_millis, Some((secs, nanos)));
            &&& spread <= max_millis
            &&& (secs * 1_000_000_000 + nanos - spread) % (max_millis + 1) == 0
        }),
        reconnect::jitter_of(max_millis, None) == 0,
{
    let n = secs * 1_000_000_000 + nanos;
    let step = max_millis + 1;
    assert(n % 0x1_0000_0000_0000_0000 == n);
    assert(0int % step == 0) by {
        vstd::arithmetic::div_mod::lemma_small_mod(0, step as nat);
    }
    vstd::arithmetic::div_mod::lemma_fundamental_div_mod(n, step);
    vstd::arithmetic::div_mod::lemma_mod_multiples_basic(n / step, step);
    vstd::arithmetic::mul::lemma_mul_is_commutative(n / step, step);
}

/// The wait is worked out from the settings, and a connection counts as a failure
/// where it did not come about or did not last as long as they say; failures are
/// counted one by one, and forgotten after a success.
pub proof fn law_failures_are_counted(
    settings: RelayTransportConfig,
    attempt: u32,
    reading: Option<(u64, u32)>,
    delay: ReconnectDelay,
    lasted_secs: u64,
    short: bool,
    never: bool,
    failures: u32,
    more: u32,
    none: u32,
)
    requires
        call_ensures(reconnect::reconnect_delay, (&settings, attempt, reading), delay),
        call_ensures(reconnect::cycle_failed, (&settings, Some(lasted_secs)), short),
        call_ensures(reconnect::cycle_failed, (&settings, None), never),
        call_ensures(reconnect::count_failures, (failures, true), more),
        call_ensures(reconnect::count_failures, (failures, false), none),
    ensures
        delay.secs == reconnect::delay_secs(
            settings.reconnect_delay_secs,
            settings.reconnect_max_delay_secs,
            attempt,
        ),
        delay.jitter_millis == reconnect::jitter_of(settings.reconnect_jitter_millis, reading),
        short <==> lasted_secs < settings.reconnect_reset_after_secs,
        never,
        failures < u32::MAX ==> more == failures + 1,
        failures == u32::MAX ==> more == failures,
        none == 0,
{
}

/// A setting that is refused is named, and so is what was found in it.
pub proof fn law_refused_settings_are_named(name: Seq<char>, found: Seq<char>)
    ensures
        config_error::config_error_text(ConfigErrorModel::Blank { key: name }) == name
            + " 不能为空字符串"@,
        config_error::config_error_text(ConfigErrorModel::Missing { key: name })
            == "缺少环境变量 "@ + name,
        config_error::config_error_text(ConfigErrorModel::NotBool { key: name }) == name
            + " 必须是布尔值"@,
        config_error::config_error_text(ConfigErrorModel::NotNumber { key: name }) == name
            + " 必须是非负整数"@,
        config_error::config_error_text(ConfigErrorModel::NoValues { key: name }) == name
            + " 至少需要包含一个非空值"@,
        config_error::config_error_text(ConfigErrorModel::BadOrigin { key: name, origin: found }) == name
            + " 包含非法 origin: "@ + found,
        config_error::config_error_text(ConfigErrorModel::UnknownTransport { mode: found })
            == "不支持的 HOME_CLIENT_TRANSPORT: "@ + found,
        config_error::config_error_text(ConfigErrorModel::RelativePath { id: found }) == "工作区 `"@
            + found + "` 的 path 必须是绝对路径"@,
        config_error::config_error_text(ConfigErrorModel::RepeatedWorkspace { id: found })
            == "工作区 id 重复: "@ + found,
        config_error::config_error_text(ConfigErrorModel::UnknownDefaultWorkspace { id: found })
            == "HOME_CLIENT_DEFAULT_WORKSPACE_ID 未出现在工作区列表中: "@ + found,
{
}

} // verus!
