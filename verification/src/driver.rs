//! Media driver settings: threading modes and idle strategies, their codes and
//! names, and the parsing of those names from configuration text.

use vstd::prelude::*;
use vstd::string::*;

use crate::text::str_equals;

verus! {

/// Threading model for the embedded media driver.
#[derive(Debug, Clone, Copy, PartialEq, Eq, Structural)]
pub enum ThreadingMode {
    /// Separate threads for conductor, sender, and receiver.
    Dedicated,
    /// Sender and receiver share a thread; conductor is separate.
    SharedNetwork,
    /// All three run on a single shared thread.
    Shared,
    /// Caller-driven — the application invokes the driver duty cycle.
    Invoker,
}

/// The number the media driver uses for a threading mode.
pub open spec fn threading_mode_code(mode: ThreadingMode) -> i32 {
    match mode {
        ThreadingMode::Dedicated => 0,
        ThreadingMode::SharedNetwork => 1,
        ThreadingMode::Shared => 2,
        ThreadingMode::Invoker => 3,
    }
}

/// The configuration name of a threading mode.
pub open spec fn threading_mode_name(mode: ThreadingMode) -> Seq<char> {
    match mode {
        ThreadingMode::Dedicated => "dedicated"@,
        ThreadingMode::SharedNetwork => "shared_network"@,
        ThreadingMode::Shared => "shared"@,
        ThreadingMode::Invoker => "invoker"@,
    }
}

/// The threading mode that a configuration name stands for, if any.
pub open spec fn threading_mode_named(name: Seq<char>) -> Option<ThreadingMode> {
    if name == "dedicated"@ {
        Some(ThreadingMode::Dedicated)
    } else if name == "shared_network"@ {
        Some(ThreadingMode::SharedNetwork)
    } else if name == "shared"@ {
        Some(ThreadingMode::Shared)
    } else if name == "invoker"@ {
        Some(ThreadingMode::Invoker)
    } else {
        None
    }
}

/// The message given for an unknown threading mode name.
pub open spec fn unknown_threading_mode_message(name: Seq<char>) -> Seq<char> {
    "Unknown threading mode: '"@ + name
        + "'. Expected: dedicated, shared_network, shared, invoker"@
}

impl ThreadingMode {
    /// The number the media driver uses for this threading mode.
    pub fn code(&self) -> (r: i32)
        ensures
            r == threading_mode_code(*self),
    {
        match self {
            ThreadingMode::Dedicated => 0,
            ThreadingMode::SharedNetwork => 1,
            ThreadingMode::Shared => 2,
            ThreadingMode::Invoker => 3,
        }
    }
}

/// Idle strategy for media driver threads.
#[derive(Debug, Clone, Copy, PartialEq, Eq, Structural)]
pub enum IdleStrategy {
    /// Progressive back-off: spin → yield → park.
    Backoff,
    /// Busy spin (lowest latency, highest CPU).
    Spin,
    /// Thread yield.
    Yield,
    /// Thread sleep.
    Sleeping,
    /// No-op (do nothing between duty cycles).
    Noop,
}

/// The name of an idle strategy, as the media driver and configuration files know it.
pub open spec fn idle_strategy_name(strategy: IdleStrategy) -> Seq<char> {
    match strategy {
        IdleStrategy::Backoff => "backoff"@,
        IdleStrategy::Spin => "spin"@,
        IdleStrategy::Yield => "yield"@,
        IdleStrategy::Sleeping => "sleeping"@,
        IdleStrategy::Noop => "noop"@,
    }
}

/// The idle strategy that a name stands for, if any.
pub open spec fn idle_strategy_named(name: Seq<char>) -> Option<IdleStrategy> {
    if name == "backoff"@ {
        Some(IdleStrategy::Backoff)
    } else if name == "spin"@ {
        Some(IdleStrategy::Spin)
    } else if name == "yield"@ {
        Some(IdleStrategy::Yield)
    } else if name == "sleeping"@ {
        Some(IdleStrategy::Sleeping)
    } else if name == "noop"@ {
        Some(IdleStrategy::Noop)
    } else {
        None
    }
}

/// The message given for an unknown idle strategy name.
pub open spec fn unknown_idle_strategy_message(name: Seq<char>) -> Seq<char> {
    "Unknown idle strategy: '"@ + name + "'. Expected: backoff, spin, yield, sleeping, noop"@
}

impl IdleStrategy {
    /// The name of this idle strategy.
    pub fn as_str(&self) -> (r: &'static str)
        ensures
            r@ == idle_strategy_name(*self),
    {
        match self {
            IdleStrategy::Backoff => "backoff",
            IdleStrategy::Spin => "spin",
            IdleStrategy::Yield => "yield",
            IdleStrategy::Sleeping => "sleeping",
            IdleStrategy::Noop => "noop",
        }
    }
}

fn unknown_name_message(prefix: &str, name: &str, suffix: &str) -> (r: String)
    ensures
        r@ == prefix@ + name@ + suffix@,
{
    let mut msg = String::from_str(prefix);
    msg.append(name);
    msg.append(suffix);
    msg
}

/// Parses a threading mode from its configuration name.
pub fn parse_threading_mode(s: &str) -> (r: Result<ThreadingMode, String>)
    ensures
        match r {
            Ok(mode) => threading_mode_named(s@) == Some(mode),
            Err(e) => threading_mode_named(s@) is None && e@ == unknown_threading_mode_message(s@),
        },
{
    if str_equals(s, "dedicated") {
        Ok(ThreadingMode::Dedicated)
    } else if str_equals(s, "shared_network") {
        Ok(ThreadingMode::SharedNetwork)
    } else if str_equals(s, "shared") {
        Ok(ThreadingMode::Shared)
    } else if str_equals(s, "invoker") {
        Ok(ThreadingMode::Invoker)
    } else {
        Err(
            unknown_name_message(
                "Unknown threading mode: '",
                s,
                "'. Expected: dedicated, shared_network, shared, invoker",
            ),
        )
    }
}

/// Parses an idle strategy from its name.
pub fn parse_idle_strategy(s: &str) -> (r: Result<IdleStrategy, String>)
    ensures
        match r {
            Ok(strategy) => idle_strategy_named(s@) == Some(strategy),
            Err(e) => idle_strategy_named(s@) is None && e@ == unknown_idle_strategy_message(s@),
        },
{
    if str_equals(s, "backoff") {
        Ok(IdleStrategy::Backoff)
    } else if str_equals(s, "spin") {
        Ok(IdleStrategy::Spin)
    } else if str_equals(s, "yield") {
        Ok(IdleStrategy::Yield)
    } else if str_equals(s, "sleeping") {
        Ok(IdleStrategy::Sleeping)
    } else if str_equals(s, "noop") {
        Ok(IdleStrategy::Noop)
    } else {
        Err(
            unknown_name_message(
                "Unknown idle strategy: '",
                s,
                "'. Expected: backoff, spin, yield, sleeping, noop",
            ),
        )
    }
}

/// Every idle strategy is parsed back from its own name: parsing `as_str()` of a
/// strategy yields that strategy.
pub proof fn lemma_idle_strategy_name_round_trip(strategy: IdleStrategy)
    ensures
        idle_strategy_named(idle_strategy_name(strategy)) == Some(strategy),
{
    reveal_strlit("backoff");
    reveal_strlit("spin");
    reveal_strlit("yield");
    reveal_strlit("sleeping");
    reveal_strlit("noop");
    assert("spin"@[0] != "backoff"@[0]);
    assert("yield"@[0] != "backoff"@[0] && "yield"@[0] != "spin"@[0]);
    assert("sleeping"@[0] != "backoff"@[0] && "sleeping"@[1] != "spin"@[1]
        && "sleeping"@[0] != "yield"@[0]);
    assert("noop"@[0] != "backoff"@[0] && "noop"@[0] != "spin"@[0] && "noop"@[0] != "yield"@[0]
        && "noop"@[0] != "sleeping"@[0]);
}

/// A name is accepted as an idle strategy only if it is that strategy's own name.
pub proof fn lemma_idle_strategy_named_is_name(name: Seq<char>, strategy: IdleStrategy)
    requires
        idle_strategy_named(name) == Some(strategy),
    ensures
        name == idle_strategy_name(strategy),
{
}

/// Distinct threading modes have distinct configuration names, each accepted back
/// as the mode it names.
pub proof fn lemma_threading_mode_name_round_trip(mode: ThreadingMode)
    ensures
        threading_mode_named(threading_mode_name(mode)) == Some(mode),
{
    reveal_strlit("dedicated");
    reveal_strlit("shared_network");
    reveal_strlit("shared");
    reveal_strlit("invoker");
    assert("shared_network"@[0] != "dedicated"@[0]);
    assert("shared"@[0] != "dedicated"@[0] && "shared"@.len() != "shared_network"@.len());
    assert("invoker"@[0] != "dedicated"@[0] && "invoker"@[0] != "shared_network"@[0]
        && "invoker"@[0] != "shared"@[0]);
}

/// Distinct threading modes have distinct driver codes, all in `0..=3`.
pub proof fn lemma_threading_mode_codes(a: ThreadingMode, b: ThreadingMode)
    ensures
        0 <= threading_mode_code(a) <= 3,
        threading_mode_code(a) == threading_mode_code(b) <==> a == b,
{
}

} // verus!
