use vstd::prelude::*;
use vstd::string::*;

use crate::conf::config::{join_path, path_join};

verus! {

/// Character of a decimal digit.
pub open spec fn digit_char(d: nat) -> char {
    if d == 0 {
        '0'
    } else if d == 1 {
        '1'
    } else if d == 2 {
        '2'
    } else if d == 3 {
        '3'
    } else if d == 4 {
        '4'
    } else if d == 5 {
        '5'
    } else if d == 6 {
        '6'
    } else if d == 7 {
        '7'
    } else if d == 8 {
        '8'
    } else {
        '9'
    }
}

/// Decimal notation of `n`, without sign or leading zeros.
pub open spec fn decimal(n: nat) -> Seq<char>
    decreases n,
{
    if n < 10 {
        seq![digit_char(n)]
    } else {
        decimal(n / 10).push(digit_char(n % 10))
    }
}

/// Relies on `ToString` of `u64`, which formats through `Display`: the
/// decimal digits of the value, without sign or leading zeros.
#[verifier::external_body]
fn decimal_string(n: u64) -> (r: String)
    ensures
        r@ == decimal(n as nat),
{
    n.to_string()
}

/// Name of the input file of the sample at `index`.
pub open spec fn sample_input_name(index: nat) -> Seq<char> {
    "sample-"@ + decimal(index) + ".in"@
}

/// Name of the expected-output file of the sample at `index`.
pub open spec fn sample_output_name(index: nat) -> Seq<char> {
    "sample-"@ + decimal(index) + ".out"@
}

/// Path of the input file of the sample at `index` in `testdir`.
pub fn sample_input_path(testdir: &str, index: u64) -> (r: String)
    ensures
        r@ == path_join(testdir@, sample_input_name(index as nat)),
{
    let name = String::from_str("sample-");
    let digits = decimal_string(index);
    let name = name.concat(digits.as_str());
    let name = name.concat(".in");
    join_path(testdir, name.as_str())
}

/// Path of the expected-output file of the sample at `index` in `testdir`.
pub fn sample_output_path(testdir: &str, index: u64) -> (r: String)
    ensures
        r@ == path_join(testdir@, sample_output_name(index as nat)),
{
    let name = String::from_str("sample-");
    let digits = decimal_string(index);
    let name = name.concat(digits.as_str());
    let name = name.concat(".out");
    join_path(testdir, name.as_str())
}

/// Index at which the probe for a free sample index starts.
pub const FIRST_SAMPLE_INDEX: u64 = 1;

/// Decision after checking whether the input file of one index exists.
#[derive(Debug, PartialEq, Eq)]
pub enum Probe {
    /// This index is free.
    Free(u64),
    /// This index is taken: check the next one.
    Next(u64),
    /// Every representable index is taken.
    Exhausted,
}

/// One step of the linear probe for the next free sample index; only the
/// input file of an index decides whether it is taken.
pub fn probe_step(index: u64, input_exists: bool) -> (r: Probe)
    ensures
        !input_exists ==> r == Probe::Free(index),
        input_exists && index < u64::MAX ==> r == Probe::Next((index + 1) as u64),
        input_exists && index == u64::MAX ==> r == Probe::Exhausted,
{
    if !input_exists {
        Probe::Free(index)
    } else if index < u64::MAX {
        Probe::Next(index + 1)
    } else {
        Probe::Exhausted
    }
}

/// Why a new sample pair could not be added.
#[derive(Debug, PartialEq, Eq)]
pub enum AllocError {
    /// The working configuration names no test directory.
    NoTestDir,
    /// The test directory could not be created.
    DirectoryError,
    /// Exactly one file of the pair was created; it is left in place.
    PartialWrite { input_created: bool },
    /// Neither file of the pair could be created.
    CreateFailed,
}

/// The test directory must be named.
pub fn check_testdir(testdir: &str) -> (r: Result<(), AllocError>)
    ensures
        testdir@.len() == 0 <==> r is Err,
        r is Err ==> r == Err::<(), AllocError>(AllocError::NoTestDir),
{
    if testdir.is_empty() {
        Err(AllocError::NoTestDir)
    } else {
        Ok(())
    }
}

/// Outcome of creating an input/output pair, given which of the two
/// creations succeeded. No outcome undoes a created file.
pub fn pair_outcome(input_created: bool, output_created: bool) -> (r: Result<(), AllocError>)
    ensures
        r is Ok <==> input_created && output_created,
        input_created != output_created ==> r == Err::<(), AllocError>(
            AllocError::PartialWrite { input_created },
        ),
        !input_created && !output_created ==> r == Err::<(), AllocError>(AllocError::CreateFailed),
{
    if input_created && output_created {
        Ok(())
    } else if input_created || output_created {
        Err(AllocError::PartialWrite { input_created })
    } else {
        Err(AllocError::CreateFailed)
    }
}

} // verus!
