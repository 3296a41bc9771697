//! How loud the tool is, from the number of `-v` flags.
use vstd::prelude::*;

verus! {

/// The verbosity levels of cargo-mobile2, held as plain values.
#[derive(Clone, Copy, Debug, PartialEq, Eq, Structural)]
pub enum NoiseLevel {
    Polite,
    LoudAndProud,
    FranklyQuitePedantic,
}

/// The level that `occurrences` repetitions of the verbosity flag select.
pub open spec fn noise_for(occurrences: u64) -> NoiseLevel {
    if occurrences == 0 {
        NoiseLevel::Polite
    } else if occurrences == 1 {
        NoiseLevel::LoudAndProud
    } else {
        NoiseLevel::FranklyQuitePedantic
    }
}

/// Calls `cargo_mobile2::opts::NoiseLevel::from_occurrences`, whose source maps
/// 0 to `Polite`, 1 to `LoudAndProud` and every other count to
/// `FranklyQuitePedantic`; the contract claims exactly that mapping.
#[verifier::external_body]
fn cargo_noise_level(occurrences: u64) -> (level: NoiseLevel)
    ensures
        level == noise_for(occurrences),
{
    match cargo_mobile2::opts::NoiseLevel::from_occurrences(occurrences) {
        cargo_mobile2::opts::NoiseLevel::Polite => NoiseLevel::Polite,
        cargo_mobile2::opts::NoiseLevel::LoudAndProud => NoiseLevel::LoudAndProud,
        cargo_mobile2::opts::NoiseLevel::FranklyQuitePedantic => NoiseLevel::FranklyQuitePedantic,
    }
}

/// The noise level for a verbosity count given on the command line.
pub fn noise_level(verbosity: u8) -> (level: NoiseLevel)
    ensures
        level == noise_for(verbosity as u64),
{
    cargo_noise_level(verbosity as u64)
}

} // verus!
