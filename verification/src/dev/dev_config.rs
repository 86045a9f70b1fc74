use vstd::prelude::*;
use vstd::string::*;
use crate::text::{parse_unsigned, parse_unsigned_text};

verus! {

/// Shortest duration, in milliseconds, that the dev speed factor can shrink an action to.
pub const MIN_SPEED_DURATION_MS: u64 = 500;

/// Server-side development configuration.
/// When `dev_mode` is false, all gameplay behaves normally.
pub struct DevConfig {
    /// Whether dev mode is active.
    pub dev_mode: bool,
    /// Duration divisor: every action duration is divided by this factor.
    pub speed_factor: u64,
    /// Skip resource validation (crafting/building without ingredients).
    pub bypass_resources: bool,
}

/// What `apply_speed` returns for a duration.
pub open spec fn sped_up(speed_factor: u64, duration_ms: u64) -> u64 {
    if speed_factor <= 1 {
        duration_ms
    } else if duration_ms / speed_factor > MIN_SPEED_DURATION_MS {
        duration_ms / speed_factor
    } else {
        MIN_SPEED_DURATION_MS
    }
}

/// Whether an environment value switches a flag on: exactly `"true"` or `"1"`.
pub open spec fn is_truthy(s: Seq<char>) -> bool {
    s == "true"@ || s == "1"@
}

/// What `str::parse::<u64>` returns for a text (`None` for its error).
pub open spec fn parsed_u64(s: Seq<char>) -> Option<u64> {
    match parse_unsigned(s, u64::MAX as int) {
        Some(v) => Some(v as u64),
        None => None,
    }
}

/// Parses a `u64` as `str::parse::<u64>` does: an optional `+` and decimal
/// digits whose value fits a `u64`; anything else is refused.
fn parse_u64(s: &String) -> (r: Option<u64>)
    ensures
        r == parsed_u64(s@),
{
    parse_unsigned_text(s.as_str(), u64::MAX)
}

fn truthy(s: &String) -> (b: bool)
    ensures
        b == is_truthy(s@),
{
    proof {
        reveal_strlit("true");
        reveal_strlit("1");
    }
    let t = String::from_str("true");
    let one = String::from_str("1");
    *s == t || *s == one
}

impl DevConfig {
    /// The configuration that `from_env_values` builds from the three variables.
    pub open spec fn spec_from_env(
        dev_mode_var: Option<Seq<char>>,
        speed_var: Option<Seq<char>>,
        bypass_var: Option<Seq<char>>,
    ) -> DevConfig {
        let dev_mode = match dev_mode_var {
            Some(v) => is_truthy(v),
            None => false,
        };
        let speed_factor = if dev_mode {
            match speed_var {
                Some(v) => match parsed_u64(v) {
                    Some(n) => n,
                    None => 10,
                },
                None => 10,
            }
        } else {
            1
        };
        let bypass_resources = if dev_mode {
            match bypass_var {
                Some(v) => is_truthy(v),
                None => true,
            }
        } else {
            false
        };
        DevConfig { dev_mode, speed_factor, bypass_resources }
    }

    /// Builds the configuration from the values of `DEV_MODE`, `DEV_SPEED_FACTOR`
    /// and `DEV_BYPASS_RESOURCES` (`None` where a variable is unset).
    /// Speed factor defaults to 10 in dev mode and is 1 otherwise; resources are
    /// bypassed by default in dev mode and never otherwise.
    pub fn from_env_values(
        dev_mode_var: Option<String>,
        speed_var: Option<String>,
        bypass_var: Option<String>,
    ) -> (c: DevConfig)
        ensures
            c == DevConfig::spec_from_env(
                match dev_mode_var { Some(v) => Some(v@), None => None },
                match speed_var { Some(v) => Some(v@), None => None },
                match bypass_var { Some(v) => Some(v@), None => None },
            ),
    {
        let dev_mode = match &dev_mode_var {
            Some(v) => truthy(v),
            None => false,
        };
        let speed_factor: u64 = if dev_mode {
            match &speed_var {
                Some(v) => match parse_u64(v) {
                    Some(n) => n,
                    None => 10,
                },
                None => 10,
            }
        } else {
            1
        };
        let bypass_resources = if dev_mode {
            match &bypass_var {
                Some(v) => truthy(v),
                None => true,
            }
        } else {
            false
        };
        DevConfig { dev_mode, speed_factor, bypass_resources }
    }

    /// Applies the speed factor to a duration in milliseconds: unchanged when
    /// the factor is at most 1, otherwise divided by it but never below 500 ms.
    pub fn apply_speed(&self, duration_ms: u64) -> (r: u64)
        ensures
            r == sped_up(self.speed_factor, duration_ms),
            self.speed_factor <= 1 ==> r == duration_ms,
            self.speed_factor > 1 ==> r >= MIN_SPEED_DURATION_MS,
    {
        if self.speed_factor <= 1 {
            duration_ms
        } else {
            let q = duration_ms / self.speed_factor;
            if q > MIN_SPEED_DURATION_MS {
                q
            } else {
                MIN_SPEED_DURATION_MS
            }
        }
    }

    /// Whether resource checks should be skipped.
    pub fn skip_resource_check(&self) -> (r: bool)
        ensures
            r == self.bypass_resources,
    {
        self.bypass_resources
    }
}

/// Outside dev mode gameplay is unchanged: whatever the other variables say,
/// durations keep their length and resources are checked.
pub proof fn law_normal_mode_changes_nothing(
    dev_mode_var: Option<Seq<char>>,
    speed_var: Option<Seq<char>>,
    bypass_var: Option<Seq<char>>,
    duration_ms: u64,
)
    requires
        !DevConfig::spec_from_env(dev_mode_var, speed_var, bypass_var).dev_mode,
    ensures
        sped_up(DevConfig::spec_from_env(dev_mode_var, speed_var, bypass_var).speed_factor, duration_ms)
            == duration_ms,
        !DevConfig::spec_from_env(dev_mode_var, speed_var, bypass_var).bypass_resources,
{
}

/// In dev mode no action lasts less than 500 ms, and none lasts longer than
/// it would outside dev mode.
pub proof fn law_sped_up_bounds(speed_factor: u64, duration_ms: u64)
    requires
        speed_factor > 1,
    ensures
        sped_up(speed_factor, duration_ms) >= MIN_SPEED_DURATION_MS,
        duration_ms >= MIN_SPEED_DURATION_MS ==> sped_up(speed_factor, duration_ms) <= duration_ms,
{
    assert(duration_ms / speed_factor <= duration_ms) by (nonlinear_arith)
        requires
            speed_factor > 1,
    ;
}

} // verus!
