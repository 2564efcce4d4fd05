//! The lines that tell the user how a build is going.

use crate::config::{VerilatedModelConfig, VerilatedModelConfigView};
use crate::runtime::{LibraryLoad, LibraryLoadView};
use crate::text::{decimal, decimal_string};
use vstd::prelude::*;
use vstd::string::*;

verus! {

/// The name of the build profile: `unoptimized` without optimization,
/// `O` and the level otherwise.
pub open spec fn spec_profile_name(optimization: int) -> Seq<char> {
    if optimization == 0 {
        "unoptimized"@
    } else {
        "O"@ + decimal(optimization as nat)
    }
}

/// What is said of a model that is about to be compiled: the module, the
/// cache key and the source.
pub open spec fn spec_compiling_notice(load: LibraryLoadView) -> Seq<char> {
    load.key.name + "#"@ + decimal(load.key.hash as nat) + " ("@ + load.key.source_path + ")"@
}

/// Hundredths of a second, in two digits.
pub open spec fn two_digits(hundredths: int) -> Seq<char> {
    if hundredths < 10 {
        "0"@ + decimal(hundredths as nat)
    } else {
        decimal(hundredths as nat)
    }
}

/// What is said of a build that has ended after `seconds` seconds and
/// `milliseconds` milliseconds.
pub open spec fn spec_finished_notice(
    config: VerilatedModelConfigView,
    seconds: int,
    milliseconds: int,
) -> Seq<char> {
    "`verilator-"@ + spec_profile_name(config.verilator_optimization) + "` profile target in "@
        + decimal(seconds as nat) + "."@ + two_digits(milliseconds / 10) + "s"@
}

/// Builds [`spec_profile_name`].
pub fn profile_name(config: &VerilatedModelConfig) -> (name: String)
    ensures
        name@ == spec_profile_name(config@.verilator_optimization),
{
    if config.verilator_optimization == 0 {
        "unoptimized".to_owned()
    } else {
        let mut name = "O".to_owned();
        let level = decimal_string(config.verilator_optimization as u64);
        name.append(level.as_str());
        name
    }
}

/// Builds [`spec_compiling_notice`].
pub fn compiling_notice(load: &LibraryLoad) -> (notice: String)
    ensures
        notice@ == spec_compiling_notice(load@),
{
    let mut notice = load.key.name.clone();
    notice.append("#");
    let key = decimal_string(load.key.hash);
    notice.append(key.as_str());
    notice.append(" (");
    notice.append(load.key.source_path.as_str());
    notice.append(")");
    notice
}

/// Builds [`spec_finished_notice`]. Of the milliseconds only the
/// hundredths of a second are shown.
pub fn finished_notice(config: &VerilatedModelConfig, seconds: u64, milliseconds: u32) -> (notice:
    String)
    ensures
        notice@ == spec_finished_notice(config@, seconds as int, milliseconds as int),
{
    let mut notice = "`verilator-".to_owned();
    let profile = profile_name(config);
    notice.append(profile.as_str());
    notice.append("` profile target in ");
    let whole = decimal_string(seconds);
    notice.append(whole.as_str());
    notice.append(".");
    let hundredths: u32 = milliseconds / 10;
    let fraction = if hundredths < 10 {
        let mut fraction = "0".to_owned();
        let digit = decimal_string(hundredths as u64);
        fraction.append(digit.as_str());
        fraction
    } else {
        decimal_string(hundredths as u64)
    };
    notice.append(fraction.as_str());
    notice.append("s");
    notice
}

} // verus!
