//! The overwrite algorithms offered to the user, as the interface lists them.

use vstd::prelude::*;
use crate::shredder::engine::OverwriteTarget;
use crate::shredder::errors::ShredError;
use crate::shredder::traits::ProgressReporter;
use crate::shredder::types::{PatternType, ShredResult};

verus! {

/// The pattern of a pass of the DoD 5220.22-M sequence: zeros, ones, random,
/// repeating.
pub open spec fn dod_pattern(pass: u32) -> PatternType {
    if pass % 3 == 0 {
        PatternType::Zeros
    } else if pass % 3 == 1 {
        PatternType::Ones
    } else {
        PatternType::Random
    }
}

/// The pattern of a pass of the DoD 5220.22-M sequence.
pub fn dod_pass_pattern(pass: u32) -> (r: PatternType)
    ensures
        r == dod_pattern(pass),
{
    match pass % 3 {
        0 => PatternType::Zeros,
        1 => PatternType::Ones,
        _ => PatternType::Random,
    }
}

/// Every third pass of the DoD sequence is random, and the sequence repeats.
pub proof fn lemma_dod_sequence_repeats(pass: u32)
    requires
        pass <= u32::MAX - 3,
    ensures
        dod_pattern((pass + 3) as u32) == dod_pattern(pass),
        dod_pattern(2) == PatternType::Random,
{
}

/// The DoD sequence starts zeros, ones, random: pass `3k` writes zeros, pass
/// `3k + 1` ones and pass `3k + 2` random data.
pub proof fn lemma_dod_zeros_ones_random(pass: u32)
    ensures
        pass % 3 == 0 ==> dod_pattern(pass) == PatternType::Zeros,
        pass % 3 == 1 ==> dod_pattern(pass) == PatternType::Ones,
        pass % 3 == 2 ==> dod_pattern(pass) == PatternType::Random,
        dod_pattern(0) == PatternType::Zeros && dod_pattern(1) == PatternType::Ones,
{
}

/// What the interface shows of one algorithm.
#[derive(Debug, Clone)]
pub struct AlgorithmInfo {
    pub index: usize,
    pub name: String,
    pub description: String,
    pub default_passes: u32,
    pub max_passes: u32,
    pub accepted_patterns: Vec<String>,
    pub has_fixed_pattern_sequence: bool,
}

fn names(list: Vec<&'static str>) -> (r: Vec<String>)
    ensures
        r@.len() == list@.len(),
{
    let mut out: Vec<String> = Vec::new();
    let mut i: usize = 0;
    while i < list.len()
        invariant
            i <= list@.len(),
            out@.len() == i,
        decreases list.len() - i,
    {
        out.push(String::from_str(list[i]));
        i = i + 1;
    }
    out
}

/// The name of the algorithm at an index.
pub open spec fn algorithm_name(i: int) -> Seq<char> {
    if i == 0 { "NIST 800-88 Clear"@ } else if i == 1 { "DoD 5220.22-M"@ } else { "Random Only"@ }
}

/// The description of the algorithm at an index.
pub open spec fn algorithm_description(i: int) -> Seq<char> {
    if i == 0 {
        "NIST SP 800-88 Clear. One pass of cryptographically secure random data."@
    } else if i == 1 {
        "US DoD 5220.22-M. Fixed 3-pass sequence: zeros, ones, random. Passes > 3 repeat the sequence."@
    } else {
        "Fastest algorithm. Writes cryptographically secure random data only."@
    }
}

/// The most passes the algorithm at an index accepts.
pub open spec fn algorithm_max_passes(i: int) -> u32 {
    if i == 0 { 1 } else if i == 1 { 7 } else { 35 }
}

/// The passes the algorithm at an index suggests.
pub open spec fn algorithm_default_passes(i: int) -> u32 {
    if i == 1 { 3 } else { 1 }
}

/// The algorithms, in the order their indexes name them: NIST 800-88 Clear
/// and Random Only map to one random pass, DoD 5220.22-M to the fixed
/// three-pass sequence.
pub fn all_algorithms() -> (r: Vec<AlgorithmInfo>)
    ensures
        r@.len() == 3,
        forall|i: int| 0 <= i < 3 ==> (#[trigger] r@[i]).index == i,
        forall|i: int| 0 <= i < 3 ==> 1 <= (#[trigger] r@[i]).default_passes <= r@[i].max_passes,
        r@[1].has_fixed_pattern_sequence,
        !r@[0].has_fixed_pattern_sequence && !r@[2].has_fixed_pattern_sequence,
        forall|i: int| 0 <= i < 3 ==> (#[trigger] r@[i]).max_passes == algorithm_max_passes(i)
            && r@[i].default_passes == algorithm_default_passes(i) && r@[i].name@ == algorithm_name(i)
            && r@[i].description@ == algorithm_description(i),
{
    vec![
        AlgorithmInfo {
            index: 0,
            name: String::from_str("NIST 800-88 Clear"),
            description: String::from_str("NIST SP 800-88 Clear. One pass of cryptographically secure random data."),
            default_passes: 1,
            max_passes: 1,
            accepted_patterns: names(vec!["Random"]),
            has_fixed_pattern_sequence: false,
        },
        AlgorithmInfo {
            index: 1,
            name: String::from_str("DoD 5220.22-M"),
            description: String::from_str(
                "US DoD 5220.22-M. Fixed 3-pass sequence: zeros, ones, random. Passes > 3 repeat the sequence.",
            ),
            default_passes: 3,
            max_passes: 7,
            accepted_patterns: names(vec!["Zeros", "Ones", "Random"]),
            has_fixed_pattern_sequence: true,
        },
        AlgorithmInfo {
            index: 2,
            name: String::from_str("Random Only"),
            description: String::from_str("Fastest algorithm. Writes cryptographically secure random data only."),
            default_passes: 1,
            max_passes: 35,
            accepted_patterns: names(vec!["Random"]),
            has_fixed_pattern_sequence: false,
        },
    ]
}

/// A pass-count algorithm of the legacy overwrite interface: its catalogue
/// entry and the pattern of each pass.
pub trait ShredAlgorithm {
    fn name(&self) -> &'static str;
    fn description(&self) -> &'static str;
    fn default_passes(&self) -> u32;
    fn max_passes(&self) -> u32;
    fn accepted_patterns(&self) -> Vec<PatternType>;
    /// Whether the passes follow a fixed sequence whatever pattern is chosen.
    fn has_fixed_pattern_sequence(&self) -> bool;
    /// The pattern the last pass leaves on the file.
    fn final_pattern(&self, user_pattern: PatternType) -> PatternType;
    /// The pattern of pass `pass` (counted from zero).
    fn pass_pattern(&self, pass: u32, user_pattern: PatternType) -> PatternType;
}

/// Runs `passes` passes of `algorithm` over the first `file_size` bytes; the
/// first failed pass ends the run with its error. The byte count saturates.
pub fn shred_with<A: ShredAlgorithm, T: OverwriteTarget, P: ProgressReporter>(
    algorithm: &A,
    file: &mut T,
    file_size: u64,
    passes: u32,
    pattern: PatternType,
    progress: &P,
) -> (r: Result<ShredResult, ShredError>)
    ensures
        r matches Ok(res) ==> res.success && res.passes_completed == passes && res.errors@.len() == 0
            && (passes == 0 ==> res.bytes_written == 0),
        passes == 0 ==> (r matches Ok(res) && res.bytes_written == 0),
{
    let mut total: u64 = 0;
    let mut pass: u32 = 0;
    while pass < passes
        invariant
            pass <= passes,
            pass == 0 ==> total == 0,
        decreases passes - pass,
    {
        let p = algorithm.pass_pattern(pass, pattern);
        let written = file.write_pass(file_size, p, progress)?;
        total = total.saturating_add(written);
        pass = pass + 1;
    }
    Ok(ShredResult { success: true, passes_completed: passes, bytes_written: total, errors: Vec::new() })
}

/// NIST SP 800-88 Clear: one pass of random data.
pub struct NistClear;

/// DoD 5220.22-M: zeros, ones, random, repeating.
pub struct Dod522022M;

/// Random data only, as many passes as chosen.
pub struct RandomOnly;

impl ShredAlgorithm for NistClear {
    fn name(&self) -> (r: &'static str)
        ensures r@ == algorithm_name(0),
    {
        "NIST 800-88 Clear"
    }
    fn description(&self) -> (r: &'static str)
        ensures r@ == algorithm_description(0),
    {
        "NIST SP 800-88 Clear. One pass of cryptographically secure random data."
    }
    fn default_passes(&self) -> (r: u32)
        ensures r == algorithm_default_passes(0),
    {
        1
    }
    fn max_passes(&self) -> (r: u32)
        ensures r == algorithm_max_passes(0),
    {
        1
    }
    fn accepted_patterns(&self) -> (r: Vec<PatternType>)
        ensures r@ == seq![PatternType::Random],
    {
        vec![PatternType::Random]
    }
    fn has_fixed_pattern_sequence(&self) -> (r: bool)
        ensures !r,
    {
        false
    }
    fn final_pattern(&self, _user_pattern: PatternType) -> (r: PatternType)
        ensures r == PatternType::Random,
    {
        PatternType::Random
    }
    fn pass_pattern(&self, _pass: u32, _user_pattern: PatternType) -> (r: PatternType)
        ensures r == PatternType::Random,
    {
        PatternType::Random
    }
}

impl ShredAlgorithm for Dod522022M {
    fn name(&self) -> (r: &'static str)
        ensures r@ == algorithm_name(1),
    {
        "DoD 5220.22-M"
    }
    fn description(&self) -> (r: &'static str)
        ensures r@ == algorithm_description(1),
    {
        "US DoD 5220.22-M. Fixed 3-pass sequence: zeros, ones, random. Passes > 3 repeat the sequence."
    }
    fn default_passes(&self) -> (r: u32)
        ensures r == algorithm_default_passes(1),
    {
        3
    }
    fn max_passes(&self) -> (r: u32)
        ensures r == algorithm_max_passes(1),
    {
        7
    }
    fn accepted_patterns(&self) -> (r: Vec<PatternType>)
        ensures r@ == seq![PatternType::Zeros, PatternType::Ones, PatternType::Random],
    {
        vec![PatternType::Zeros, PatternType::Ones, PatternType::Random]
    }
    fn has_fixed_pattern_sequence(&self) -> (r: bool)
        ensures r,
    {
        true
    }
    fn final_pattern(&self, _user_pattern: PatternType) -> (r: PatternType)
        ensures r == PatternType::Random,
    {
        PatternType::Random
    }
    fn pass_pattern(&self, pass: u32, _user_pattern: PatternType) -> (r: PatternType)
        ensures r == dod_pattern(pass),
    {
        dod_pass_pattern(pass)
    }
}

impl ShredAlgorithm for RandomOnly {
    fn name(&self) -> (r: &'static str)
        ensures r@ == algorithm_name(2),
    {
        "Random Only"
    }
    fn description(&self) -> (r: &'static str)
        ensures r@ == algorithm_description(2),
    {
        "Fastest algorithm. Writes cryptographically secure random data only."
    }
    fn default_passes(&self) -> (r: u32)
        ensures r == algorithm_default_passes(2),
    {
        1
    }
    fn max_passes(&self) -> (r: u32)
        ensures r == algorithm_max_passes(2),
    {
        35
    }
    fn accepted_patterns(&self) -> (r: Vec<PatternType>)
        ensures r@ == seq![PatternType::Random],
    {
        vec![PatternType::Random]
    }
    fn has_fixed_pattern_sequence(&self) -> (r: bool)
        ensures !r,
    {
        false
    }
    fn final_pattern(&self, user_pattern: PatternType) -> (r: PatternType)
        ensures r == user_pattern,
    {
        user_pattern
    }
    fn pass_pattern(&self, _pass: u32, user_pattern: PatternType) -> (r: PatternType)
        ensures r == user_pattern,
    {
        user_pattern
    }
}

} // verus!
