use vstd::prelude::*;
use crate::text::same_text;

verus! {

/// The math mode that kernels are compiled with.
#[derive(Debug, Clone, Copy, PartialEq, Eq, Hash, Structural)]
pub enum MathMode {
    Fast,
    Relaxed,
}

/// Which implementations of floating-point functions kernels are compiled with.
#[derive(Debug, Clone, Copy, PartialEq, Eq, Hash, Structural)]
pub enum MathFloatingPointFunctions {
    Fast,
    Precise,
}

/// How the Metal compiler is set up for a library.
#[derive(Debug, Clone, Copy, PartialEq, Eq, Hash, Structural)]
pub enum CompileSettings {
    /// The math mode settings, on systems that have them
    /// (macOS 15, iOS 18 and later).
    MathMode { mode: MathMode, functions: MathFloatingPointFunctions },
    /// The older fast-math switch, on older systems.
    FastMathEnabled(bool),
}

/// The name of the environment variable that turns fast math on or off.
pub const FAST_MATH_ENV: &'static str = "CANDLE_METAL_ENABLE_FAST_MATH";

/// The compiler settings for a request of fast math (`fast_math_enabled`),
/// on a system that has the math mode settings or not.
pub open spec fn compile_settings_of(fast_math_enabled: bool, math_mode_available: bool) -> CompileSettings {
    if math_mode_available {
        if fast_math_enabled {
            CompileSettings::MathMode { mode: MathMode::Fast, functions: MathFloatingPointFunctions::Fast }
        } else {
            CompileSettings::MathMode {
                mode: MathMode::Relaxed,
                functions: MathFloatingPointFunctions::Precise,
            }
        }
    } else {
        CompileSettings::FastMathEnabled(fast_math_enabled)
    }
}

/// The compiler settings for kernels: fast math with fast functions, or
/// relaxed math with precise functions, where the system has math modes;
/// the plain fast-math switch elsewhere.
pub fn compile_settings(fast_math_enabled: bool, math_mode_available: bool) -> (s: CompileSettings)
    ensures
        s == compile_settings_of(fast_math_enabled, math_mode_available),
{
    if math_mode_available {
        if fast_math_enabled {
            CompileSettings::MathMode { mode: MathMode::Fast, functions: MathFloatingPointFunctions::Fast }
        } else {
            CompileSettings::MathMode {
                mode: MathMode::Relaxed,
                functions: MathFloatingPointFunctions::Precise,
            }
        }
    } else {
        CompileSettings::FastMathEnabled(fast_math_enabled)
    }
}

/// The boolean that an environment variable's value gives: `true` and
/// `false` are read as such; no value, or any other, gives `default`.
pub open spec fn env_flag_of(value: Option<Seq<char>>, default: bool) -> bool {
    match value {
        Some(v) => if v == "true"@ {
            true
        } else if v == "false"@ {
            false
        } else {
            default
        },
        None => default,
    }
}

/// The boolean that an environment variable's value gives.
pub fn env_flag(value: Option<&str>, default: bool) -> (b: bool)
    ensures
        b == env_flag_of(
            match value {
                Some(v) => Some(v@),
                None => None,
            },
            default,
        ),
{
    match value {
        Some(v) => if same_text(v, "true") {
            true
        } else if same_text(v, "false") {
            false
        } else {
            default
        },
        None => default,
    }
}

/// Whether fast math is asked for, given the value of `FAST_MATH_ENV`; it is
/// on unless the variable says `false`.
pub open spec fn fast_math_of(env_value: Option<Seq<char>>) -> bool {
    env_flag_of(env_value, true)
}

/// Whether fast math is asked for, given the value of `FAST_MATH_ENV`; it is
/// on unless the variable says `false`.
pub fn fast_math_enabled(env_value: Option<&str>) -> (b: bool)
    ensures
        b == fast_math_of(
            match env_value {
                Some(v) => Some(v@),
                None => None,
            },
        ),
{
    env_flag(env_value, true)
}

/// Fast math is off exactly when the variable holds the five characters
/// `false`; unset, or holding anything else (`1`, `0`, `no`, `FALSE`), it is on.
pub proof fn lemma_fast_math_off_only_on_false(value: Option<Seq<char>>)
    ensures
        fast_math_of(value) == (value != Some(seq!['f', 'a', 'l', 's', 'e'])),
{
    reveal_strlit("false");
    reveal_strlit("true");
    assert("false"@ =~= seq!['f', 'a', 'l', 's', 'e']);
    if value == Some("true"@) {
        assert("true"@[0] != seq!['f', 'a', 'l', 's', 'e'][0]);
    }
}

/// Where the system has math modes, fast math gives the fast math mode with
/// fast functions and its absence the relaxed mode with precise functions;
/// elsewhere the fast-math switch is set to the request. The choice of the
/// switch never depends on anything but the request.
pub proof fn lemma_compile_settings_cases(fast_math_enabled: bool, math_mode_available: bool)
    ensures
        math_mode_available && fast_math_enabled ==> compile_settings_of(
            fast_math_enabled,
            math_mode_available,
        ) == (CompileSettings::MathMode {
            mode: MathMode::Fast,
            functions: MathFloatingPointFunctions::Fast,
        }),
        math_mode_available && !fast_math_enabled ==> compile_settings_of(
            fast_math_enabled,
            math_mode_available,
        ) == (CompileSettings::MathMode {
            mode: MathMode::Relaxed,
            functions: MathFloatingPointFunctions::Precise,
        }),
        !math_mode_available ==> compile_settings_of(fast_math_enabled, math_mode_available)
            == CompileSettings::FastMathEnabled(fast_math_enabled),
{
}

/// A flag reads `true` for the four characters `true`, `false` for the five
/// characters `false`, and the default for no value or any other text.
pub proof fn lemma_env_flag_values(value: Option<Seq<char>>, default: bool)
    ensures
        env_flag_of(value, default) == (if value == Some(seq!['t', 'r', 'u', 'e']) {
            true
        } else if value == Some(seq!['f', 'a', 'l', 's', 'e']) {
            false
        } else {
            default
        }),
{
    reveal_strlit("false");
    reveal_strlit("true");
    assert("false"@ =~= seq!['f', 'a', 'l', 's', 'e']);
    assert("true"@ =~= seq!['t', 'r', 'u', 'e']);
}

} // verus!
