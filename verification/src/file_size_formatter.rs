use vstd::prelude::*;

use crate::decimal::{all_digits, dec_digits, dec_val, parse_u64, u64_to_string};
use crate::errors::Error;
use crate::text::{ieq, split_ws, split_whitespace_tokens, str_ieq};

verus! {

/// The four supported size scales, adjacent ones related by a factor of 1000.
#[derive(Debug, Clone, Copy, PartialEq, Eq, Structural)]
pub enum FileSize {
    Bytes,
    Kilobytes,
    Megabytes,
    Gigabytes,
}

/// How many unit steps above bytes a scale sits.
pub open spec fn unit_index(u: FileSize) -> nat {
    match u {
        FileSize::Bytes => 0,
        FileSize::Kilobytes => 1,
        FileSize::Megabytes => 2,
        FileSize::Gigabytes => 3,
    }
}

/// `1000^k`.
pub open spec fn pow1000(k: nat) -> nat
    decreases k,
{
    if k == 0 {
        1
    } else {
        1000 * pow1000((k - 1) as nat)
    }
}

/// The magnitude at scale `j` of a quantity of `n` units at scale `u`:
/// multiplied by 1000 for every step down toward bytes, floor-divided by 1000
/// for every step up.
pub open spec fn value_at(n: nat, u: FileSize, j: nat) -> nat {
    if j <= unit_index(u) {
        n * pow1000((unit_index(u) - j) as nat)
    } else {
        n / pow1000((j - unit_index(u)) as nat)
    }
}

/// A validated magnitude with the scale it was given at.
#[derive(Debug, Clone, Copy, PartialEq, Eq, Structural)]
pub struct SizeAndUnitParsed(pub u64, pub FileSize);

/// One quantity expressed at all four scales: bytes, kilobytes, megabytes,
/// gigabytes, in that order.
#[derive(Debug, Clone, Copy, PartialEq, Eq, Structural)]
pub struct ComputedSize(pub u64, pub u64, pub u64, pub u64);

/// The scale that a unit token names: one of the eight recognized spellings,
/// abbreviation or full word, compared without regard to ASCII case.
pub open spec fn unit_of(t: Seq<char>) -> Option<FileSize> {
    if ieq(t, "b"@) || ieq(t, "bytes"@) {
        Some(FileSize::Bytes)
    } else if ieq(t, "kb"@) || ieq(t, "kilobytes"@) {
        Some(FileSize::Kilobytes)
    } else if ieq(t, "mb"@) || ieq(t, "megabytes"@) {
        Some(FileSize::Megabytes)
    } else if ieq(t, "gb"@) || ieq(t, "gigabytes"@) {
        Some(FileSize::Gigabytes)
    } else {
        None
    }
}

/// Decides `unit_of`.
fn parse_unit(t: &str) -> (r: Option<FileSize>)
    ensures
        r == unit_of(t@),
{
    if str_ieq(t, "b") || str_ieq(t, "bytes") {
        Some(FileSize::Bytes)
    } else if str_ieq(t, "kb") || str_ieq(t, "kilobytes") {
        Some(FileSize::Kilobytes)
    } else if str_ieq(t, "mb") || str_ieq(t, "megabytes") {
        Some(FileSize::Megabytes)
    } else if str_ieq(t, "gb") || str_ieq(t, "gigabytes") {
        Some(FileSize::Gigabytes)
    } else {
        None
    }
}

/// The input splits into exactly two whitespace-separated tokens.
pub open spec fn has_two_tokens(s: Seq<char>) -> bool {
    split_ws(s).len() == 2
}

/// The first token is a non-empty string of decimal digits whose value fits
/// in `u64`.
pub open spec fn size_token_ok(s: Seq<char>) -> bool {
    let t = split_ws(s)[0];
    t.len() > 0 && all_digits(t) && dec_val(t) <= u64::MAX
}

/// The second token names one of the four scales.
pub open spec fn unit_token_ok(s: Seq<char>) -> bool {
    unit_of(split_ws(s)[1]) is Some
}

/// The input parses into a magnitude and a scale.
pub open spec fn parse_ok(s: Seq<char>) -> bool {
    has_two_tokens(s) && size_token_ok(s) && unit_token_ok(s)
}

/// The magnitude that the first token denotes.
pub open spec fn magnitude_of(s: Seq<char>) -> nat {
    dec_val(split_ws(s)[0])
}

/// The scale that the second token names.
pub open spec fn input_unit(s: Seq<char>) -> FileSize {
    unit_of(split_ws(s)[1])->Some_0
}

/// The four magnitudes rendered as strings, each suffixed with the plural
/// lowercase unit name, whatever spelling the input used.
#[derive(Debug)]
pub struct Size {
    pub bytes: String,
    pub kilobytes: String,
    pub megabytes: String,
    pub gigabytes: String,
}

/// The first four powers of 1000, written out.
pub proof fn lemma_pow1000_vals()
    ensures
        pow1000(0) == 1,
        pow1000(1) == 1000,
        pow1000(2) == 1000000,
        pow1000(3) == 1000000000,
{
    assert(pow1000(0) == 1);
    assert(pow1000(1) == 1000);
    assert(pow1000(2) == 1000000);
    assert(pow1000(3) == 1000000000);
}

/// `r` views as the magnitudes of `n` units at scale `u`, each at its own
/// scale and with its unit name appended.
pub open spec fn rendered_sizes(n: nat, u: FileSize, r: Size) -> bool {
    &&& r.bytes@ == dec_digits(value_at(n, u, 0)) + " bytes"@
    &&& r.kilobytes@ == dec_digits(value_at(n, u, 1)) + " kilobytes"@
    &&& r.megabytes@ == dec_digits(value_at(n, u, 2)) + " megabytes"@
    &&& r.gigabytes@ == dec_digits(value_at(n, u, 3)) + " gigabytes"@
}

/// Everything `FileSizeFormatter::new` promises of its result, as a relation
/// between the view of the input and the result: which error comes on which
/// malformed input, and the exact text of each rendered field on success.
pub open spec fn new_outcome(s: Seq<char>, r: Result<Size, Error>) -> bool {
    if !has_two_tokens(s) {
        r matches Err(e) && (e matches Error::InvalidParsedSizeAndUnit(m) && m@
            == "InvalidParsedSizeAndUnit : {size_and_unit}"@)
    } else if !size_token_ok(s) {
        r matches Err(e) && (e matches Error::InvalidParsedSize(m) && m@
            == "InvalidParsedSize : {size}"@)
    } else if !unit_token_ok(s) {
        r matches Err(e) && (e matches Error::InvalidParsedUnit(m) && m@
            == "InvalidParsedUnit : {unit}"@)
    } else if value_at(magnitude_of(s), input_unit(s), 0) > u64::MAX {
        r matches Err(e) && (e matches Error::Overflow(m) && m@ == "Overflow : {size_and_unit}"@)
    } else {
        r matches Ok(size) && rendered_sizes(magnitude_of(s), input_unit(s), size)
    }
}

/// Renders `n` in decimal with `suffix` appended.
fn render(n: u64, suffix: &str) -> (r: String)
    ensures
        r@ == dec_digits(n as nat) + suffix@,
{
    let mut s = u64_to_string(n);
    s.append(suffix);
    s
}

/// Parses, converts and renders: the whole pipeline from the raw
/// size-and-unit string to the four rendered magnitudes.
pub struct FileSizeFormatter;

impl FileSizeFormatter {
    /// Builds the rendered `Size` for a raw size-and-unit string, or the
    /// error that names what is wrong with it: `new_outcome` states the whole
    /// behaviour.
    pub fn new(size_and_unit: String) -> (r: Result<Size, Error>)
        ensures
            new_outcome(size_and_unit@, r),
    {
        let formatter = FileSizeFormatter;
        let parsed = match formatter.parse(size_and_unit) {
            Ok(p) => p,
            Err(e) => {
                return Err(e);
            },
        };
        let computed = match formatter.compute(parsed.0, parsed.1) {
            Ok(c) => c,
            Err(e) => {
                return Err(e);
            },
        };
        Ok(
            Size {
                bytes: render(computed.0, " bytes"),
                kilobytes: render(computed.1, " kilobytes"),
                megabytes: render(computed.2, " megabytes"),
                gigabytes: render(computed.3, " gigabytes"),
            },
        )
    }

    /// Splits the input at whitespace and reads the magnitude and the scale,
    /// reporting the first thing that is wrong: the token count, then the
    /// number, then the unit.
    pub fn parse(&self, size_and_unit: String) -> (r: Result<SizeAndUnitParsed, Error>)
        ensures
            r is Ok <==> parse_ok(size_and_unit@),
            r matches Ok(p) ==> (p.0 as nat == magnitude_of(size_and_unit@) && p.1 == input_unit(
                size_and_unit@,
            )),
            !has_two_tokens(size_and_unit@) ==> (r matches Err(e) && (e matches Error::InvalidParsedSizeAndUnit(m)
                && m@ == "InvalidParsedSizeAndUnit : {size_and_unit}"@)),
            has_two_tokens(size_and_unit@) && !size_token_ok(size_and_unit@) ==> (r matches Err(e)
                && (e matches Error::InvalidParsedSize(m) && m@ == "InvalidParsedSize : {size}"@)),
            has_two_tokens(size_and_unit@) && size_token_ok(size_and_unit@) && !unit_token_ok(
                size_and_unit@,
            ) ==> (r matches Err(e) && (e matches Error::InvalidParsedUnit(m) && m@
                == "InvalidParsedUnit : {unit}"@)),
    {
        let toks = split_whitespace_tokens(size_and_unit.as_str());
        if toks.len() != 2 {
            return Err(
                Error::InvalidParsedSizeAndUnit(
                    String::from_str("InvalidParsedSizeAndUnit : {size_and_unit}"),
                ),
            );
        }
        proof {
            assert(toks@.map_values(|t: String| t@)[0] == toks@[0]@);
            assert(toks@.map_values(|t: String| t@)[1] == toks@[1]@);
        }
        let size = match parse_u64(toks[0].as_str()) {
            Some(v) => v,
            None => {
                return Err(
                    Error::InvalidParsedSize(String::from_str("InvalidParsedSize : {size}")),
                );
            },
        };
        let unit = match parse_unit(toks[1].as_str()) {
            Some(u) => u,
            None => {
                return Err(
                    Error::InvalidParsedUnit(String::from_str("InvalidParsedUnit : {unit}")),
                );
            },
        };
        Ok(SizeAndUnitParsed(size, unit))
    }

    /// Converts `size` units at scale `unit` into all four scales.
    /// Succeeds exactly when the magnitude at the bytes scale, the largest of
    /// the four, still fits in `u64`; a larger quantity is refused rather
    /// than silently wrapped.
    pub fn compute(&self, size: u64, unit: FileSize) -> (r: Result<ComputedSize, Error>)
        ensures
            r is Ok <==> value_at(size as nat, unit, 0) <= u64::MAX,
            r matches Ok(c) ==> {
                &&& c.0 == value_at(size as nat, unit, 0)
                &&& c.1 == value_at(size as nat, unit, 1)
                &&& c.2 == value_at(size as nat, unit, 2)
                &&& c.3 == value_at(size as nat, unit, 3)
            },
            r matches Err(e) ==> (e matches Error::Overflow(m) && m@ == "Overflow : {size_and_unit}"@),
    {
        proof {
            lemma_pow1000_vals();
        }
        match unit {
            FileSize::Bytes => {
                assert(value_at(size as nat, unit, 0) == size as nat * pow1000(0));
                assert(value_at(size as nat, unit, 0) == size as nat);
                Ok(ComputedSize(size, size / 1000, size / 1000000, size / 1000000000))
            },
            FileSize::Kilobytes => {
                let bytes = match size.checked_mul(1000) {
                    Some(b) => b,
                    None => {
                        return Err(
                            Error::Overflow(String::from_str("Overflow : {size_and_unit}")),
                        );
                    },
                };
                Ok(ComputedSize(bytes, size, size / 1000, size / 1000000))
            },
            FileSize::Megabytes => {
                let bytes = match size.checked_mul(1000000) {
                    Some(b) => b,
                    None => {
                        return Err(
                            Error::Overflow(String::from_str("Overflow : {size_and_unit}")),
                        );
                    },
                };
                assert(size * 1000 <= size * 1000000) by (nonlinear_arith);
                Ok(ComputedSize(bytes, size * 1000, size, size / 1000))
            },
            FileSize::Gigabytes => {
                let bytes = match size.checked_mul(1000000000) {
                    Some(b) => b,
                    None => {
                        return Err(
                            Error::Overflow(String::from_str("Overflow : {size_and_unit}")),
                        );
                    },
                };
                assert(size * 1000 <= size * 1000000000) by (nonlinear_arith);
                assert(size * 1000000 <= size * 1000000000) by (nonlinear_arith);
                Ok(ComputedSize(bytes, size * 1000000, size * 1000, size))
            },
        }
    }
}

/// Round-trip identity: the field at the input's own scale carries exactly
/// the input magnitude.
pub proof fn lemma_round_trip(n: nat, u: FileSize)
    ensures
        value_at(n, u, unit_index(u)) == n,
{
    assert(pow1000(0) == 1);
    assert(value_at(n, u, unit_index(u)) == n * pow1000(0));
    assert(n * pow1000(0) == n * 1);
}

/// Reading a scale `k` steps below the input's multiplies by `1000^k`
/// exactly: nothing is truncated on the way down.
pub proof fn lemma_steps_down_exact(n: nat, u: FileSize, j: nat)
    requires
        j <= unit_index(u),
    ensures
        value_at(n, u, j) == n * pow1000((unit_index(u) - j) as nat),
{
}

/// Reading a scale `k` steps above the input's floor-divides by `1000^k`:
/// any fractional remainder is discarded.
pub proof fn lemma_steps_up_floor(n: nat, u: FileSize, j: nat)
    requires
        unit_index(u) <= j,
    ensures
        value_at(n, u, j) == n / pow1000((j - unit_index(u)) as nat),
{
    if j == unit_index(u) {
        assert(pow1000(0) == 1);
        assert(value_at(n, u, j) == n * pow1000(0));
        assert(n * pow1000(0) == n * 1);
        assert(n / pow1000(0) == n / 1);
    }
}

/// Unit spellings are matched without regard to ASCII case: tokens equal up
/// to case name the same scale.
pub proof fn lemma_unit_of_case_insensitive(t1: Seq<char>, t2: Seq<char>)
    requires
        ieq(t1, t2),
    ensures
        unit_of(t1) == unit_of(t2),
{
}

} // verus!
