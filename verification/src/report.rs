//! The result of one item and the text that goes into it.

use vstd::prelude::*;
use vstd::string::*;
use crate::text::{decimal, push_decimal};

verus! {

/// What is known of an image file.
#[derive(Debug, Clone, PartialEq, Eq)]
pub struct ImageInfo {
    pub name: String,
    pub width: u32,
    pub height: u32,
    pub size: u64,
    pub original_path: String,
}

/// The outcome of one item. A failed item has no output path and a result size
/// of zero; its message gives the reason.
#[derive(Debug, Clone, PartialEq, Eq)]
pub struct ProcessResult {
    pub success: bool,
    pub original_size: u64,
    pub result_size: u64,
    pub output_path: String,
    pub message: String,
}

/// The byte reduction in tenths of a percent, without its sign: the quotient
/// `1000 * |original - result| / original` rounded to the nearest integer,
/// halves away from zero. Zero when the original size is zero.
pub open spec fn reduction_tenths(original: u64, result: u64) -> nat {
    if original == 0 {
        0
    } else {
        let gap: int = if result > original {
            result - original
        } else {
            original - result
        };
        ((2000 * gap + original) / (2 * original)) as nat
    }
}

/// The byte reduction `(1 - result / original) * 100` with one decimal place.
/// It carries a minus sign when the result is larger than the original, and is
/// `0.0` when the original size is zero.
pub open spec fn reduction_text(original: u64, result: u64) -> Seq<char> {
    let tenths = reduction_tenths(original, result);
    let sign = if original != 0 && result > original {
        "-"@
    } else {
        Seq::<char>::empty()
    };
    sign + decimal(tenths / 10) + "."@ + decimal(tenths % 10)
}

/// `<original> → <result> bytes (<reduction>% reduction)`.
pub open spec fn size_summary(original: u64, result: u64) -> Seq<char> {
    decimal(original as nat) + " → "@ + decimal(result as nat) + " bytes ("@ + reduction_text(
        original,
        result,
    ) + "% reduction)"@
}

/// Whether `r` is the failed result for an item of `original_size` bytes with
/// the given message.
pub open spec fn is_failure(r: ProcessResult, original_size: u64, message: Seq<char>) -> bool {
    &&& !r.success
    &&& r.original_size == original_size
    &&& r.result_size == 0
    &&& r.output_path@ == Seq::<char>::empty()
    &&& r.message@ == message
}

/// Whether `r` is a failed result for an item of `original_size` bytes whose
/// message starts with `prefix`.
pub open spec fn fails_with_prefix(r: ProcessResult, original_size: u64, prefix: Seq<char>) -> bool {
    &&& !r.success
    &&& r.original_size == original_size
    &&& r.result_size == 0
    &&& r.output_path@ == Seq::<char>::empty()
    &&& prefix.is_prefix_of(r.message@)
}

/// Whether `r` is the successful result described by the arguments.
pub open spec fn is_success(
    r: ProcessResult,
    original_size: u64,
    result_size: u64,
    output_path: Seq<char>,
    message: Seq<char>,
) -> bool {
    &&& r.success
    &&& r.original_size == original_size
    &&& r.result_size == result_size
    &&& r.output_path@ == output_path
    &&& r.message@ == message
}

/// Computes the byte reduction in tenths of a percent, without its sign.
pub fn reduction(original: u64, result: u64) -> (tenths: u128)
    ensures
        tenths == reduction_tenths(original, result),
{
    if original == 0 {
        return 0;
    }
    let gap: u64 = if result > original {
        result - original
    } else {
        original - result
    };
    (2000 * (gap as u128) + (original as u128)) / (2 * (original as u128))
}

/// Appends the byte reduction, as in `12.5` or `-3.0`, to `out`.
pub fn push_reduction(out: &mut String, original: u64, result: u64)
    ensures
        final(out)@ == old(out)@ + reduction_text(original, result),
{
    let tenths = reduction(original, result);
    let ghost start = out@;
    if original != 0 && result > original {
        out.append("-");
    }
    let ghost signed = out@;
    push_decimal(out, tenths / 10);
    out.append(".");
    push_decimal(out, tenths % 10);
    proof {
        let t = reduction_tenths(original, result);
        assert(out@ =~= signed + decimal(t / 10) + "."@ + decimal(t % 10));
        assert(out@ =~= start + reduction_text(original, result));
    }
}

/// Appends `<original> → <result> bytes (<reduction>% reduction)` to `out`.
pub fn push_size_summary(out: &mut String, original: u64, result: u64)
    ensures
        final(out)@ == old(out)@ + size_summary(original, result),
{
    let ghost start = out@;
    push_decimal(out, original as u128);
    out.append(" → ");
    push_decimal(out, result as u128);
    out.append(" bytes (");
    push_reduction(out, original, result);
    out.append("% reduction)");
    assert(out@ =~= start + size_summary(original, result));
}

/// The reduction of an item whose source holds no bytes is `0.0`, whatever the
/// size of its output.
pub proof fn lemma_reduction_of_empty_original(result: u64)
    ensures
        reduction_tenths(0, result) == 0,
        reduction_text(0, result) == seq!['0', '.', '0'],
{
    reveal_strlit(".");
    assert(reduction_text(0, result) =~= seq!['0', '.', '0']);
}

/// The reduction is negative exactly when the output is larger than a
/// non-empty source.
pub proof fn lemma_reduction_sign(original: u64, result: u64)
    ensures
        reduction_text(original, result)[0] == '-' <==> original != 0 && result > original,
{
    reveal_strlit("-");
    reveal_strlit(".");
    let tenths = reduction_tenths(original, result);
    crate::text::lemma_decimal_starts_with_digit(tenths / 10);
    let digits = decimal(tenths / 10) + "."@ + decimal(tenths % 10);
    assert(digits[0] == decimal(tenths / 10)[0]);
    if original != 0 && result > original {
        assert(reduction_text(original, result) =~= "-"@ + digits);
    } else {
        assert(reduction_text(original, result) =~= digits);
    }
}

impl ProcessResult {
    /// The result of an item that failed.
    pub fn failure(original_size: u64, message: String) -> (r: ProcessResult)
        ensures
            is_failure(r, original_size, message@),
    {
        ProcessResult {
            success: false,
            original_size,
            result_size: 0,
            output_path: String::new(),
            message,
        }
    }

    /// The result of an item whose output of `result_size` bytes stands at
    /// `output_path`.
    pub fn success(
        original_size: u64,
        result_size: u64,
        output_path: String,
        message: String,
    ) -> (r: ProcessResult)
        ensures
            is_success(r, original_size, result_size, output_path@, message@),
            r.output_path == output_path,
            r.message == message,
    {
        ProcessResult { success: true, original_size, result_size, output_path, message }
    }
}

} // verus!
