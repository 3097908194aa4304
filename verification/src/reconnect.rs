//! How long the home client waits before it connects again.
use crate::clock::since_epoch;
use crate::config::RelayTransportConfig;
use crate::config;
use vstd::prelude::*;

verus! {

/// The wait before the next attempt: whole seconds, and milliseconds on top
/// that spread the attempts of several clients.
#[derive(Debug, Clone, Copy, PartialEq, Eq, Structural)]
pub struct ReconnectDelay {
    pub secs: u64,
    pub jitter_millis: u64,
}

/// The seconds to wait: doubled with each failure after the first, up to the
/// longest delay. No delay is shorter than a second.
pub open spec fn delay_secs(base: u64, longest: u64, failure_attempt: u32) -> nat {
    let base = config::at_least(base, 1);
    let longest = config::at_least(longest, base);
    let doublings = if failure_attempt == 0 {
        0
    } else if failure_attempt > 21 {
        20
    } else {
        failure_attempt - 1
    };
    let grown = base * vstd::arithmetic::power2::pow2(doublings as nat);
    if grown > longest {
        longest as nat
    } else {
        grown as nat
    }
}

/// A number of milliseconds up to a bound, drawn from a reading of the clock.
pub open spec fn jitter_of(max_millis: u64, reading: Option<(u64, u32)>) -> nat {
    if max_millis == 0 {
        0
    } else {
        let nanos = match reading {
            Some((secs, nanos)) => (secs * 1_000_000_000 + nanos) % 0x1_0000_0000_0000_0000,
            None => 0,
        };
        let bound = if max_millis == u64::MAX {
            max_millis as int
        } else {
            max_millis + 1
        };
        (nanos % bound) as nat
    }
}

/// A number of milliseconds up to a bound, drawn from a given reading of the clock.
pub fn jitter_millis(max_millis: u64, reading: Option<(u64, u32)>) -> (r: u64)
    ensures
        r == jitter_of(max_millis, reading),
{
    if max_millis == 0 {
        return 0;
    }
    let bound: u64 = if max_millis == u64::MAX {
        max_millis
    } else {
        max_millis + 1
    };
    let nanos: u64 = match reading {
        Some((secs, nanos)) => {
            assert(secs * 1_000_000_000 + nanos <= 0xffff_ffff_ffff_ffff * 1_000_000_000
                + 0xffff_ffff);
            let whole: u128 = secs as u128 * 1_000_000_000u128 + nanos as u128;
            (whole % 0x1_0000_0000_0000_0000u128) as u64
        },
        None => 0,
    };
    nanos % bound
}

/// A number of milliseconds up to a bound.
pub fn random_jitter_millis(max_millis: u64) -> (r: u64)
    ensures
        exists|reading: Option<(u64, u32)>| r == #[trigger] jitter_of(max_millis, reading),
{
    let reading = since_epoch();
    jitter_millis(max_millis, reading)
}

fn double(base: u64, doublings: u32) -> (r: Option<u64>)
    requires
        doublings <= 20,
    ensures
        match r {
            Some(grown) => grown == base * vstd::arithmetic::power2::pow2(doublings as nat),
            None => base * vstd::arithmetic::power2::pow2(doublings as nat) > u64::MAX,
        },
{
    proof {
        vstd::arithmetic::power2::lemma2_to64();
        assert(base * 1 == base) by (nonlinear_arith);
    }
    let mut grown: u64 = base;
    for i in 0..doublings
        invariant
            doublings <= 20,
            grown == base * vstd::arithmetic::power2::pow2(i as nat),
    {
        proof {
            vstd::arithmetic::power2::lemma_pow2_unfold((i + 1) as nat);
            assert(base * vstd::arithmetic::power2::pow2(
                (i + 1) as nat,
            ) == 2 * (base * vstd::arithmetic::power2::pow2(i as nat))) by (nonlinear_arith)
                requires
                    vstd::arithmetic::power2::pow2(
                        (i + 1) as nat,
                    ) == 2 * vstd::arithmetic::power2::pow2(i as nat),
            ;
        }
        if grown > u64::MAX / 2 {
            proof {
                lemma_grows(base as nat, (i + 1) as nat, doublings as nat);
            }
            return None;
        }
        grown = grown * 2;
    }
    Some(grown)
}

proof fn lemma_grows(base: nat, a: nat, b: nat)
    requires
        a <= b,
    ensures
        base * vstd::arithmetic::power2::pow2(a) <= base * vstd::arithmetic::power2::pow2(b),
    decreases b,
{
    if a < b {
        vstd::arithmetic::power2::lemma_pow2_unfold(b);
        lemma_grows(base, a, (b - 1) as nat);
        assert(base * vstd::arithmetic::power2::pow2(
            b,
        ) == 2 * (base * vstd::arithmetic::power2::pow2((b - 1) as nat))) by (nonlinear_arith)
            requires
                vstd::arithmetic::power2::pow2(b) == 2 * vstd::arithmetic::power2::pow2(
                    (b - 1) as nat,
                ),
        ;
    }
}

/// The wait before the next attempt, with a given reading of the clock.
pub fn reconnect_delay(
    config: &RelayTransportConfig,
    failure_attempt: u32,
    reading: Option<(u64, u32)>,
) -> (r: ReconnectDelay)
    ensures
        r.secs == delay_secs(
            config.reconnect_delay_secs,
            config.reconnect_max_delay_secs,
            failure_attempt,
        ),
        r.jitter_millis == jitter_of(config.reconnect_jitter_millis, reading),
{
    let base: u64 = if config.reconnect_delay_secs < 1 {
        1
    } else {
        config.reconnect_delay_secs
    };
    let longest: u64 = if config.reconnect_max_delay_secs < base {
        base
    } else {
        config.reconnect_max_delay_secs
    };
    let doublings: u32 = if failure_attempt == 0 {
        0
    } else if failure_attempt > 21 {
        20
    } else {
        failure_attempt - 1
    };
    let secs: u64 = match double(base, doublings) {
        Some(grown) => if grown > longest {
            longest
        } else {
            grown
        },
        None => longest,
    };
    ReconnectDelay { secs, jitter_millis: jitter_millis(config.reconnect_jitter_millis, reading) }
}

/// The wait before the next attempt.
pub fn reconnect_delay_with_jitter(config: &RelayTransportConfig, failure_attempt: u32) -> (r:
    ReconnectDelay)
    ensures
        r.secs == delay_secs(
            config.reconnect_delay_secs,
            config.reconnect_max_delay_secs,
            failure_attempt,
        ),
        exists|reading: Option<(u64, u32)>|
            r.jitter_millis == #[trigger] jitter_of(config.reconnect_jitter_millis, reading),
{
    let reading = since_epoch();
    reconnect_delay(config, failure_attempt, reading)
}

/// Whether a connection counts as a failure: it did not come about, or it did
/// not last.
pub fn cycle_failed(config: &RelayTransportConfig, lasted_secs: Option<u64>) -> (r: bool)
    ensures
        r == match lasted_secs {
            Some(secs) => secs < config.reconnect_reset_after_secs,
            None => true,
        },
{
    match lasted_secs {
        Some(secs) => secs < config.reconnect_reset_after_secs,
        None => true,
    }
}

/// The number of failures in a row after another connection has ended.
pub fn count_failures(failures: u32, failed: bool) -> (r: u32)
    ensures
        r == if !failed {
            0
        } else if failures == u32::MAX {
            u32::MAX
        } else {
            (failures + 1) as u32
        },
{
    if !failed {
        0
    } else if failures == u32::MAX {
        u32::MAX
    } else {
        failures + 1
    }
}

/// However often connecting fails, a client waits at least a second and at most
/// the longest delay, or the first one where that is longer.
pub proof fn law_delay_is_bounded(base: u64, longest: u64, failure_attempt: u32)
    ensures
        1 <= delay_secs(base, longest, failure_attempt),
        config::at_least(base, 1) <= delay_secs(base, longest, failure_attempt),
        delay_secs(base, longest, failure_attempt) <= config::at_least(
            longest,
            config::at_least(base, 1),
        ),
{
    let base = config::at_least(base, 1);
    let doublings = if failure_attempt == 0 {
        0
    } else if failure_attempt > 21 {
        20
    } else {
        failure_attempt - 1
    };
    vstd::arithmetic::power2::lemma2_to64();
    assert(base * 1 == base) by (nonlinear_arith);
    lemma_grows(base as nat, 0, doublings as nat);
}

/// The more failures in a row, the longer the wait.
pub proof fn law_delay_grows(base: u64, longest: u64, first: u32, second: u32)
    requires
        first <= second,
    ensures
        delay_secs(base, longest, first) <= delay_secs(base, longest, second),
{
    let doublings = |attempt: u32|
        if attempt == 0 {
            0int
        } else if attempt > 21 {
            20
        } else {
            attempt - 1
        };
    lemma_grows(
        config::at_least(base, 1) as nat,
        doublings(first) as nat,
        doublings(second) as nat,
    );
}

/// The spread never exceeds its bound.
pub proof fn law_jitter_is_bounded(max_millis: u64, reading: Option<(u64, u32)>)
    ensures
        jitter_of(max_millis, reading) <= max_millis,
{
}

} // verus!
