//! Helpers around paths and sizes: the last step of path resolution, the
//! guard against system directories and the display of a byte count.

use crate::errors::{outcome_view, text_outcome, Failure, PeekError};
use crate::host::Platform;
use crate::text::{chars_of, starts_with};
use vstd::prelude::*;
use vstd::string::*;

verus! {

/// What becomes of an attempt to bring `path` into canonical form: the
/// canonical path where the system gave one, else an `InvalidPath` failure
/// that names the path and, after a colon, the system's error.
pub open spec fn canonical_or_invalid(
    path: Seq<char>,
    outcome: Result<Seq<char>, Seq<char>>,
) -> Result<Seq<char>, Failure> {
    match outcome {
        Ok(canonical) => Ok(canonical),
        Err(error) => Err(Failure::InvalidPath(path + ": "@ + error)),
    }
}

/// Concludes the canonicalization of `path`. `outcome` is what the system
/// answered: the canonical path, or the text of its error.
pub fn canonicalize_path(path: &str, outcome: Result<String, String>) -> (result: Result<
    String,
    PeekError,
>)
    ensures
        outcome_view(result) == canonical_or_invalid(path@, text_outcome(outcome)),
{
    match outcome {
        Ok(canonical) => Ok(canonical),
        Err(error) => {
            let detail = String::from_str(path).concat(": ").concat(error.as_str());
            Err(PeekError::InvalidPath(detail))
        },
    }
}

/// The beginnings of paths that must not be opened on `platform`.
pub open spec fn unsafe_prefixes(platform: Platform) -> Seq<Seq<char>> {
    match platform {
        Platform::Linux | Platform::Unix => seq![
            "/etc"@,
            "/bin"@,
            "/usr/bin"@,
            "/sbin"@,
            "/var"@,
            "/root"@,
            "/lib"@,
            "/lib64"@,
            "/boot"@,
            "/dev"@,
            "/proc"@,
            "/sys"@,
        ],
        Platform::Windows => seq![
            "C:\\Windows"@,
            "C:\\Program Files"@,
            "C:\\Program Files (x86)"@,
            "C:\\System32"@,
        ],
        Platform::Other => Seq::empty(),
    }
}

/// A path is safe on `platform` when it begins with none of the platform's
/// unsafe prefixes. The comparison is on the text of the path.
pub open spec fn is_safe(platform: Platform, path: Seq<char>) -> bool {
    forall|i: int|
        0 <= i < unsafe_prefixes(platform).len() ==> !(#[trigger] unsafe_prefixes(
            platform,
        )[i]).is_prefix_of(path)
}

/// The unsafe prefixes of `platform`, in the order of `unsafe_prefixes`.
fn unsafe_prefix_list(platform: Platform) -> (list: Vec<&'static str>)
    ensures
        list@.len() == unsafe_prefixes(platform).len(),
        forall|i: int| 0 <= i < list@.len() ==> (#[trigger] list@[i])@ == unsafe_prefixes(platform)[i],
{
    match platform {
        Platform::Linux | Platform::Unix => vec![
            "/etc",
            "/bin",
            "/usr/bin",
            "/sbin",
            "/var",
            "/root",
            "/lib",
            "/lib64",
            "/boot",
            "/dev",
            "/proc",
            "/sys",
        ],
        Platform::Windows => vec![
            "C:\\Windows",
            "C:\\Program Files",
            "C:\\Program Files (x86)",
            "C:\\System32",
        ],
        Platform::Other => Vec::new(),
    }
}

/// Whether `path` may be opened on `platform`: it begins with none of the
/// platform's system directories.
pub fn is_safe_path_on(platform: Platform, path: &str) -> (safe: bool)
    ensures
        safe == is_safe(platform, path@),
{
    let text = chars_of(path);
    let list = unsafe_prefix_list(platform);
    let mut i: usize = 0;
    while i < list.len()
        invariant
            i <= list@.len(),
            text@ == path@,
            list@.len() == unsafe_prefixes(platform).len(),
            forall|j: int| 0 <= j < list@.len() ==> (#[trigger] list@[j])@ == unsafe_prefixes(platform)[j],
            forall|j: int| 0 <= j < i ==> !(#[trigger] unsafe_prefixes(platform)[j]).is_prefix_of(path@),
        decreases list@.len() - i,
    {
        let prefix = chars_of(list[i]);
        if starts_with(text.as_slice(), prefix.as_slice()) {
            return false;
        }
        i += 1;
    }
    true
}

/// Whether `path` may be opened on a Unix-like system.
pub fn is_safe_path(path: &str) -> (safe: bool)
    ensures
        safe == is_safe(Platform::Unix, path@),
{
    is_safe_path_on(Platform::Unix, path)
}

/// `num / den`, rounded to the nearest whole number; where two are equally
/// near, to the even one.
pub open spec fn round_half_even(num: nat, den: nat) -> nat
    recommends
        den > 0,
{
    let quotient = num / den;
    let rest = num % den;
    if 2 * rest < den || (2 * rest == den && quotient % 2 == 0) {
        quotient
    } else {
        quotient + 1
    }
}

/// The distance between neighbouring numbers that have 53 significant
/// bits, at the size of `n`: 1 below 2^53, doubling with each further bit.
pub open spec fn spacing(n: nat) -> nat
    decreases n,
{
    if n < 0x20_0000_0000_0000 {
        1
    } else {
        2 * spacing(n / 2)
    }
}

/// `n` as a number of 53 significant bits: `n` itself where it has no more,
/// else the nearest such number, the even one of two that are equally near.
pub open spec fn to_53_bits(n: nat) -> nat {
    round_half_even(n, spacing(n)) * spacing(n)
}

/// The position of the unit in which an amount is shown: the count of
/// divisions by 1024 that bring it below 1024, at most four.
pub open spec fn unit_index(amount: nat) -> nat {
    if amount < 1024 {
        0
    } else if amount < 1024 * 1024 {
        1
    } else if amount < 1024 * 1024 * 1024 {
        2
    } else if amount < 1024 * 1024 * 1024 * 1024 {
        3
    } else {
        4
    }
}

/// The number of bytes in the unit at position `index`.
pub open spec fn unit_size(index: nat) -> nat {
    if index == 0 {
        1
    } else if index == 1 {
        1024
    } else if index == 2 {
        1024 * 1024
    } else if index == 3 {
        1024 * 1024 * 1024
    } else {
        1024 * 1024 * 1024 * 1024
    }
}

/// The name of the unit at position `index`.
pub open spec fn unit_name(index: nat) -> Seq<char> {
    if index == 0 {
        "B"@
    } else if index == 1 {
        "KB"@
    } else if index == 2 {
        "MB"@
    } else if index == 3 {
        "GB"@
    } else {
        "TB"@
    }
}

/// The amount of `bytes` in hundredths of its unit, rounded to the nearest
/// hundredth, to the even one of two that are equally near.
pub open spec fn hundredths(bytes: nat) -> nat {
    let amount = to_53_bits(bytes);
    round_half_even(amount * 100, unit_size(unit_index(amount)))
}

/// The decimal digit `d`.
pub open spec fn digit(d: nat) -> Seq<char> {
    if d == 0 {
        "0"@
    } else if d == 1 {
        "1"@
    } else if d == 2 {
        "2"@
    } else if d == 3 {
        "3"@
    } else if d == 4 {
        "4"@
    } else if d == 5 {
        "5"@
    } else if d == 6 {
        "6"@
    } else if d == 7 {
        "7"@
    } else if d == 8 {
        "8"@
    } else {
        "9"@
    }
}

/// `n` in decimal digits, without leading zeros.
pub open spec fn decimal(n: nat) -> Seq<char>
    decreases n,
{
    if n < 10 {
        digit(n)
    } else {
        decimal(n / 10) + digit(n % 10)
    }
}

/// A byte count as it is shown: the amount with two decimals, a space and
/// the unit. The count is taken with 53 significant bits and divided by
/// 1024 until it is below 1024 or the unit is TB.
pub open spec fn format_size_of(bytes: nat) -> Seq<char> {
    let shown = hundredths(bytes);
    decimal(shown / 100) + "."@ + digit(shown % 100 / 10) + digit(shown % 10) + " "@ + unit_name(
        unit_index(to_53_bits(bytes)),
    )
}

/// `num / den`, rounded to the nearest whole number, ties to even.
fn divide_rounding(num: u128, den: u128) -> (rounded: u128)
    requires
        0 < den <= 0x1_0000_0000_0000_0000,
        num <= 0x1_0000_0000_0000_0000_0000,
    ensures
        rounded == round_half_even(num as nat, den as nat),
{
    let quotient: u128 = num / den;
    let rest: u128 = num % den;
    if 2 * rest < den || (2 * rest == den && quotient % 2 == 0) {
        quotient
    } else {
        quotient + 1
    }
}

/// `bytes` with 53 significant bits.
fn round_to_53_bits(bytes: u64) -> (amount: u128)
    ensures
        amount == to_53_bits(bytes as nat),
        amount <= 0x1_0000_0000_0000_0000,
{
    let mut unit: u64 = 1;
    let mut rest: u64 = bytes;
    while rest >= 0x20_0000_0000_0000
        invariant
            unit * spacing(rest as nat) == spacing(bytes as nat),
            rest * unit <= bytes,
            is_spacing(unit as nat),
        decreases rest,
    {
        assert(unit < 2048) by (nonlinear_arith)
            requires
                rest >= 0x20_0000_0000_0000,
                rest * unit <= bytes,
                bytes < 0x1_0000_0000_0000_0000,
                unit >= 1,
        ;
        assert((rest / 2) * (unit * 2) <= bytes) by (nonlinear_arith)
            requires
                rest * unit <= bytes,
                unit >= 1,
        ;
        assert((unit * 2) * spacing((rest / 2) as nat) == unit * (2 * spacing((rest / 2) as nat)))
            by (nonlinear_arith);
        rest = rest / 2;
        unit = unit * 2;
    }
    assert(unit == spacing(bytes as nat));
    let steps: u128 = divide_rounding(bytes as u128, unit as u128);
    assert(steps * unit <= 0x1_0000_0000_0000_0000) by {
        lemma_rounded_product_bound(bytes as nat, unit as nat);
    }
    steps * (unit as u128)
}

/// The spacings that occur below 2^64: the powers of two up to 2048.
spec fn is_spacing(unit: nat) -> bool {
    unit == 1 || unit == 2 || unit == 4 || unit == 8 || unit == 16 || unit == 32 || unit == 64
        || unit == 128 || unit == 256 || unit == 512 || unit == 1024 || unit == 2048
}

/// Rounding `n` to a multiple of a power of two up to 2048 stays within
/// 2^64 for `n` below 2^64.
proof fn lemma_rounded_product_bound(n: nat, unit: nat)
    requires
        n < 0x1_0000_0000_0000_0000,
        is_spacing(unit),
    ensures
        round_half_even(n, unit) * unit <= 0x1_0000_0000_0000_0000,
{
    let q = n / unit;
    let r = n % unit;
    assert(n == unit * q + r && 0 <= r < unit) by (nonlinear_arith)
        requires
            q == n / unit,
            r == n % unit,
            unit > 0,
    ;
    let top = 0x1_0000_0000_0000_0000int / (unit as int);
    assert(q < top) by (nonlinear_arith)
        requires
            unit * q + r < top * unit,
            r >= 0,
            unit > 0,
    ;
    assert((q + 1) * unit <= top * unit) by (nonlinear_arith)
        requires
            q + 1 <= top,
            unit > 0,
    ;
    assert(q * unit <= (q + 1) * unit) by (nonlinear_arith)
        requires
            unit > 0,
    ;
}

/// The decimal digit `d` as a text.
fn digit_text(d: u128) -> (text: &'static str)
    requires
        d < 10,
    ensures
        text@ == digit(d as nat),
{
    if d == 0 {
        "0"
    } else if d == 1 {
        "1"
    } else if d == 2 {
        "2"
    } else if d == 3 {
        "3"
    } else if d == 4 {
        "4"
    } else if d == 5 {
        "5"
    } else if d == 6 {
        "6"
    } else if d == 7 {
        "7"
    } else if d == 8 {
        "8"
    } else {
        "9"
    }
}

/// Appends `n` in decimal digits to `text`.
fn push_decimal(text: &mut String, n: u128)
    ensures
        final(text)@ == old(text)@ + decimal(n as nat),
    decreases n,
{
    if n >= 10 {
        push_decimal(text, n / 10);
    }
    text.append(digit_text(n % 10));
}

/// The position of the unit in which `amount` is shown.
fn unit_index_of(amount: u128) -> (index: usize)
    ensures
        index == unit_index(amount as nat),
{
    if amount < 1024 {
        0
    } else if amount < 1024 * 1024 {
        1
    } else if amount < 1024 * 1024 * 1024 {
        2
    } else if amount < 1024 * 1024 * 1024 * 1024 {
        3
    } else {
        4
    }
}

/// The size and the name of the unit at position `index`.
fn unit_at(index: usize) -> (unit: (u128, &'static str))
    ensures
        unit.0 == unit_size(index as nat),
        unit.1@ == unit_name(index as nat),
{
    if index == 0 {
        (1, "B")
    } else if index == 1 {
        (1024, "KB")
    } else if index == 2 {
        (1024 * 1024, "MB")
    } else if index == 3 {
        (1024 * 1024 * 1024, "GB")
    } else {
        (1024 * 1024 * 1024 * 1024, "TB")
    }
}

/// Shows a byte count in the largest unit, up to TB, in which the amount
/// is at least 1: the amount with two decimals, a space and the unit.
pub fn format_size(bytes: u64) -> (text: String)
    ensures
        text@ == format_size_of(bytes as nat),
{
    let amount: u128 = round_to_53_bits(bytes);
    let (size, name) = unit_at(unit_index_of(amount));
    let shown: u128 = divide_rounding(amount * 100, size);
    let mut text = String::new();
    push_decimal(&mut text, shown / 100);
    text.append(".");
    text.append(digit_text(shown % 100 / 10));
    text.append(digit_text(shown % 10));
    text.append(" ");
    text.append(name);
    text
}

} // verus!
