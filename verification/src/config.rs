//! The configuration resolver and the keep-awake loop's per-iteration
//! decision.
//!
//! The resolver turns the raw option values (help and version flags, mode
//! string, timer string) into either an early-exit action or a validated
//! [`Config`]. The loop decision maps a [`Config`] to the sequence of bit
//! masks that must be asserted to the OS on every iteration; the loop itself
//! (the OS call and the sleep) lives outside this library.

use crate::timer::{clamp_timer, decimal_value, is_decimal, parse_timer, spec_clamp_timer,
    TIMER_MAX, TIMER_MIN};
use crate::wake::WakeMode;
use vstd::prelude::*;

verus! {

/// The resolved runtime parameters, computed once at startup and immutable
/// thereafter.
pub struct Config {
    /// Milliseconds between assertions, clamped to `[TIMER_MIN, TIMER_MAX]`.
    pub timer_millis: u64,
    /// Ordered, non-empty sequence of modes selected by the mode option.
    pub active_modes: Vec<WakeMode>,
}

impl Config {
    /// The invariant of a resolved configuration: the timer lies in the
    /// accepted interval and at least one mode is selected.
    pub open spec fn wf(self) -> bool {
        &&& TIMER_MIN <= self.timer_millis <= TIMER_MAX
        &&& self.active_modes@.len() > 0
    }
}

/// What the program must do after reading its options: print the usage text,
/// print the version, abort on a malformed timer value, or enter the
/// keep-awake loop with a resolved configuration.
pub enum Action {
    /// Print the usage text and exit successfully.
    ShowHelp,
    /// Print the version string and exit successfully.
    ShowVersion,
    /// The timer option value is not an unsigned decimal integer that fits
    /// in a `u64`: abort with a diagnostic before entering the loop.
    InvalidTimer,
    /// Enter the keep-awake loop with this configuration.
    Run(Config),
}

/// The view of an optional borrowed string as an optional character sequence.
pub open spec fn opt_str_view(o: Option<&str>) -> Option<Seq<char>> {
    match o {
        Some(s) => Some(s@),
        None => None,
    }
}

/// The modes selected by the mode option: `"1"` selects the system mode,
/// `"2"` the display mode, `"3"` both (system first); any other value, or an
/// absent option, silently falls back to the display mode. Total over all
/// strings: no value is an error.
pub open spec fn spec_resolve_mode(m: Option<Seq<char>>) -> Seq<WakeMode> {
    match m {
        Some(s) => if s == "1"@ {
            seq![WakeMode::SystemRequired]
        } else if s == "3"@ {
            seq![WakeMode::SystemRequired, WakeMode::DisplayRequired]
        } else {
            seq![WakeMode::DisplayRequired]
        },
        None => seq![WakeMode::DisplayRequired],
    }
}

/// The mode option's value never resolves to an empty selection: every
/// string, recognized or not, and an absent option all yield at least one
/// mode.
pub proof fn lemma_resolve_mode_nonempty(m: Option<Seq<char>>)
    ensures
        spec_resolve_mode(m).len() > 0,
{
}

/// Resolves the mode option value into the ordered list of selected modes.
pub fn resolve_mode(m: Option<&str>) -> (r: Vec<WakeMode>)
    ensures
        r@ == spec_resolve_mode(opt_str_view(m)),
        r@.len() > 0,
{
    proof {
        reveal_strlit("1");
        reveal_strlit("3");
    }
    let mut r: Vec<WakeMode> = Vec::new();
    match m {
        Some(s) => {
            let n: usize = s.unicode_len();
            if n == 1 {
                let c = s.get_char(0);
                if c == '1' {
                    assert(s@ =~= "1"@);
                    r.push(WakeMode::SystemRequired);
                } else if c == '3' {
                    assert(s@ =~= "3"@);
                    r.push(WakeMode::SystemRequired);
                    r.push(WakeMode::DisplayRequired);
                } else {
                    // "2" and every other single character select the
                    // display mode.
                    r.push(WakeMode::DisplayRequired);
                }
            } else {
                r.push(WakeMode::DisplayRequired);
            }
        },
        None => {
            r.push(WakeMode::DisplayRequired);
        },
    }
    assert(r@ =~= spec_resolve_mode(opt_str_view(m)));
    r
}

/// Whether the timer option value is acceptable: an absent option always is,
/// a present one must be an unsigned decimal integer that fits in a `u64`.
pub open spec fn timer_input_valid(t: Option<Seq<char>>) -> bool {
    match t {
        Some(s) => is_decimal(s) && decimal_value(s) <= u64::MAX,
        None => true,
    }
}

/// The raw (unclamped) timer value: the parsed option value, or `TIMER_MIN`
/// when the option is absent.
pub open spec fn raw_timer_of(t: Option<Seq<char>>) -> int {
    match t {
        Some(s) => decimal_value(s) as int,
        None => TIMER_MIN as int,
    }
}

/// Resolves the raw option values into the action the program must take.
///
/// The help flag wins over everything, then the version flag; then a
/// malformed timer value is fatal; otherwise the timer is parsed (defaulting
/// to `TIMER_MIN`) and clamped, the modes are resolved, and the keep-awake
/// loop is entered.
pub fn resolve(help: bool, version: bool, mode: Option<&str>, timer: Option<&str>) -> (r: Action)
    ensures
        r is ShowHelp <==> help,
        r is ShowVersion <==> (!help && version),
        r is InvalidTimer <==> (!help && !version && !timer_input_valid(opt_str_view(timer))),
        r is Run <==> (!help && !version && timer_input_valid(opt_str_view(timer))),
        r matches Action::Run(c) ==> {
            &&& c.timer_millis == spec_clamp_timer(raw_timer_of(opt_str_view(timer)))
            &&& c.active_modes@ == spec_resolve_mode(opt_str_view(mode))
            &&& c.wf()
        },
{
    if help {
        return Action::ShowHelp;
    }
    if version {
        return Action::ShowVersion;
    }
    let raw: u64 = match timer {
        Some(t) => match parse_timer(t) {
            Some(v) => v,
            None => {
                return Action::InvalidTimer;
            },
        },
        None => TIMER_MIN,
    };
    let timer_millis: u64 = clamp_timer(raw);
    let active_modes: Vec<WakeMode> = resolve_mode(mode);
    Action::Run(Config { timer_millis, active_modes })
}

/// The sequence of bit masks asserted to the OS for a mode selection, in
/// selection order.
pub open spec fn spec_assertion_bits(modes: Seq<WakeMode>) -> Seq<u32> {
    modes.map_values(|m: WakeMode| m.spec_bit())
}

/// The bit masks that one iteration of the keep-awake loop must pass to the
/// OS primitive, one call per selected mode, in selection order.
pub fn assertion_bits(c: &Config) -> (r: Vec<u32>)
    ensures
        r@ == spec_assertion_bits(c.active_modes@),
        r@.len() == c.active_modes@.len(),
{
    let mut r: Vec<u32> = Vec::new();
    let n: usize = c.active_modes.len();
    let mut i: usize = 0;
    while i < n
        invariant
            i <= n,
            n == c.active_modes@.len(),
            r@ =~= spec_assertion_bits(c.active_modes@.take(i as int)),
        decreases n - i,
    {
        r.push(c.active_modes[i].bit());
        i = i + 1;
    }
    proof {
        assert(c.active_modes@.take(n as int) =~= c.active_modes@);
    }
    r
}

/// The model of the keep-awake loop: what iteration number `iteration`
/// asserts to the OS. It is a function of the configuration alone — the loop
/// carries no state from one iteration to the next.
pub open spec fn spec_iteration_bits(c: Config, iteration: nat) -> Seq<u32> {
    spec_assertion_bits(c.active_modes@)
}

/// Re-asserting the wake-state flags is idempotent from the loop's point of
/// view: every iteration asserts exactly the same bit masks in the same
/// order, so no internal state accumulates across iterations.
pub proof fn lemma_iterations_identical(c: Config, i: nat, j: nat)
    ensures
        spec_iteration_bits(c, i) == spec_iteration_bits(c, j),
{
}

} // verus!
