//! The records that operations hand back to their callers.

use crate::text::{decimal, digit_text, hex, spec_decimal, spec_digit_text, spec_hex};
use vstd::prelude::*;
use vstd::string::*;

verus! {

/// What a proving operation reports: how long it took, how large the proof is, and
/// the commitment that links it to the other circuit's proofs.
#[derive(Debug)]
pub struct ProofResult {
    /// Milliseconds spent preparing. The backend does not time this apart, so it is 0.
    pub prep_ms: u64,
    /// Milliseconds spent proving.
    pub prove_ms: u64,
    /// Milliseconds spent in all.
    pub total_ms: u64,
    /// The length of the proof in bytes.
    pub proof_size_bytes: u64,
    /// The shared commitment in lower-case hexadecimal.
    pub comm_w_shared: String,
}

/// The mathematical content of a [`ProofResult`].
pub struct ProofResultView {
    pub prep_ms: u64,
    pub prove_ms: u64,
    pub total_ms: u64,
    pub proof_size_bytes: u64,
    pub comm_w_shared: Seq<char>,
}

impl View for ProofResult {
    type V = ProofResultView;

    open spec fn view(&self) -> ProofResultView {
        ProofResultView {
            prep_ms: self.prep_ms,
            prove_ms: self.prove_ms,
            total_ms: self.total_ms,
            proof_size_bytes: self.proof_size_bytes,
            comm_w_shared: self.comm_w_shared@,
        }
    }
}

/// The report of an operation that took `elapsed_ms` and left a proof of
/// `proof_len` bytes under the shared commitment `comm_shared`.
pub open spec fn spec_proof_result(
    elapsed_ms: u64,
    proof_len: nat,
    comm_shared: Seq<u8>,
) -> ProofResultView {
    ProofResultView {
        prep_ms: 0,
        prove_ms: elapsed_ms,
        total_ms: elapsed_ms,
        proof_size_bytes: proof_len as u64,
        comm_w_shared: spec_hex(comm_shared),
    }
}

impl ProofResult {
    /// Builds the report of an operation that took `elapsed_ms` and left `proof`
    /// under the shared commitment `comm_shared`.
    pub fn new(elapsed_ms: u64, proof: &Vec<u8>, comm_shared: &Vec<u8>) -> (result: ProofResult)
        ensures
            result@ == spec_proof_result(elapsed_ms, proof@.len(), comm_shared@),
    {
        ProofResult {
            prep_ms: 0,
            prove_ms: elapsed_ms,
            total_ms: elapsed_ms,
            proof_size_bytes: proof.len() as u64,
            comm_w_shared: hex(comm_shared),
        }
    }
}

/// The quotient of `numerator` by `denominator`, rounded to the nearest whole
/// number, and to the even one of the two when it lies exactly between them.
pub open spec fn spec_round_half_even(numerator: nat, denominator: nat) -> nat {
    let quotient = numerator / denominator;
    let rest = numerator % denominator;
    if 2 * rest > denominator || (2 * rest == denominator && quotient % 2 == 1) {
        quotient + 1
    } else {
        quotient
    }
}

/// The distance between neighbouring numbers that 53 binary digits can hold, at
/// the size of `n`: 1 below 2^53, then doubling with each further binary digit.
pub open spec fn spec_spacing(n: nat) -> nat
    decreases n,
{
    if n < 0x20_0000_0000_0000 {
        1
    } else {
        2 * spec_spacing(n / 2)
    }
}

/// The number nearest to `n` that 53 binary digits can hold, the even one of two
/// that are equally near. A size is shown with this precision.
pub open spec fn spec_nearest_representable(n: nat) -> nat {
    spec_round_half_even(n, spec_spacing(n)) * spec_spacing(n)
}

/// A number of hundredths, written with its two decimal places.
pub open spec fn spec_two_decimals(hundredths: nat) -> Seq<char> {
    spec_decimal(hundredths / 100) + "."@ + spec_digit_text((hundredths / 10) % 10)
        + spec_digit_text(hundredths % 10)
}

/// A size in bytes as a reader wants it: in bytes below 1024, in units of 1024
/// bytes (`KB`) below 1024 * 1024, and in units of 1024 * 1024 bytes (`MB`) from
/// there on, the latter two rounded to two decimal places.
pub open spec fn spec_format_size(bytes: u64) -> Seq<char> {
    if bytes < 1024 {
        spec_decimal(bytes as nat) + " B"@
    } else if bytes < 1024 * 1024 {
        spec_two_decimals(spec_round_half_even(bytes as nat * 100, 1024)) + " KB"@
    } else {
        spec_two_decimals(
            spec_round_half_even(spec_nearest_representable(bytes as nat) * 100, 1024 * 1024),
        ) + " MB"@
    }
}

/// Divides and rounds to the nearest whole number, to the even one on a tie.
fn round_half_even(numerator: u128, denominator: u128) -> (rounded: u128)
    requires
        0 < denominator <= 0x1000_0000,
        numerator <= 0x1_0000_0000_0000_0000_0000,
    ensures
        rounded == spec_round_half_even(numerator as nat, denominator as nat),
        rounded * denominator <= numerator + denominator,
{
    let quotient = numerator / denominator;
    let rest = numerator % denominator;
    proof {
        vstd::arithmetic::div_mod::lemma_fundamental_div_mod(numerator as int, denominator as int);
        assert((quotient + 1) * denominator == quotient * denominator + denominator)
            by (nonlinear_arith);
        assert(quotient * denominator == denominator * quotient) by (nonlinear_arith);
        assert(quotient <= numerator) by (nonlinear_arith)
            requires
                quotient * denominator <= numerator,
                denominator >= 1,
                quotient >= 0,
        ;
    }
    if 2 * rest > denominator || (2 * rest == denominator && quotient % 2 == 1) {
        quotient + 1
    } else {
        quotient
    }
}

/// The distance between neighbouring numbers of 53 binary digits at the size of `n`.
fn spacing(n: u64) -> (unit: u64)
    ensures
        unit == spec_spacing(n as nat),
        1 <= unit <= 4096,
        n >= 0x20_0000_0000_0000 ==> unit * 0x10_0000_0000_0000 <= n,
    decreases n,
{
    if n < 0x20_0000_0000_0000 {
        1
    } else {
        let half = spacing(n / 2);
        2 * half
    }
}

/// Writes a number of hundredths with its two decimal places.
fn two_decimals(hundredths: u128) -> (text: String)
    ensures
        text@ == spec_two_decimals(hundredths as nat),
{
    let mut text = decimal(hundredths / 100);
    text.append(".");
    text.append(digit_text(((hundredths / 10) % 10) as u8));
    text.append(digit_text((hundredths % 10) as u8));
    text
}

/// The timings and sizes that a complete run of both circuits reports.
#[derive(Clone, Copy, Debug, PartialEq, Eq, Structural)]
pub struct BenchmarkResults {
    pub prepare_setup_ms: u64,
    pub show_setup_ms: u64,
    pub generate_blinds_ms: u64,
    pub prove_prepare_ms: u64,
    pub reblind_prepare_ms: u64,
    pub prove_show_ms: u64,
    pub reblind_show_ms: u64,
    pub verify_prepare_ms: u64,
    pub verify_show_ms: u64,
    pub prepare_proving_key_bytes: u64,
    pub prepare_verifying_key_bytes: u64,
    pub show_proving_key_bytes: u64,
    pub show_verifying_key_bytes: u64,
    pub prepare_proof_bytes: u64,
    pub show_proof_bytes: u64,
    pub prepare_witness_bytes: u64,
    pub show_witness_bytes: u64,
}

impl BenchmarkResults {
    /// The record in which nothing has been measured yet.
    pub open spec fn spec_zero() -> BenchmarkResults {
        BenchmarkResults {
            prepare_setup_ms: 0,
            show_setup_ms: 0,
            generate_blinds_ms: 0,
            prove_prepare_ms: 0,
            reblind_prepare_ms: 0,
            prove_show_ms: 0,
            reblind_show_ms: 0,
            verify_prepare_ms: 0,
            verify_show_ms: 0,
            prepare_proving_key_bytes: 0,
            prepare_verifying_key_bytes: 0,
            show_proving_key_bytes: 0,
            show_verifying_key_bytes: 0,
            prepare_proof_bytes: 0,
            show_proof_bytes: 0,
            prepare_witness_bytes: 0,
            show_witness_bytes: 0,
        }
    }

    /// The record in which nothing has been measured yet.
    pub fn zero() -> (results: BenchmarkResults)
        ensures
            results == BenchmarkResults::spec_zero(),
    {
        BenchmarkResults {
            prepare_setup_ms: 0,
            show_setup_ms: 0,
            generate_blinds_ms: 0,
            prove_prepare_ms: 0,
            reblind_prepare_ms: 0,
            prove_show_ms: 0,
            reblind_show_ms: 0,
            verify_prepare_ms: 0,
            verify_show_ms: 0,
            prepare_proving_key_bytes: 0,
            prepare_verifying_key_bytes: 0,
            show_proving_key_bytes: 0,
            show_verifying_key_bytes: 0,
            prepare_proof_bytes: 0,
            show_proof_bytes: 0,
            prepare_witness_bytes: 0,
            show_witness_bytes: 0,
        }
    }

    /// Writes a size in bytes for a reader: `512 B`, `1.50 KB`, `2.00 MB`.
    pub fn format_size(bytes: u64) -> (text: String)
        ensures
            text@ == spec_format_size(bytes),
    {
        if bytes < 1024 {
            let mut text = decimal(bytes as u128);
            text.append(" B");
            text
        } else if bytes < 1024 * 1024 {
            let mut text = two_decimals(round_half_even(bytes as u128 * 100, 1024));
            text.append(" KB");
            text
        } else {
            let unit = spacing(bytes) as u128;
            let nearest = round_half_even(bytes as u128, unit) * unit;
            let mut text = two_decimals(round_half_even(nearest * 100, 1024 * 1024));
            text.append(" MB");
            text
        }
    }
}

} // verus!
