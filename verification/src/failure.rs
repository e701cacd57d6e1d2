//! Why an item failed, and how the reason is worded in its result.

use vstd::prelude::*;
use vstd::string::*;
use crate::report::{is_failure, ProcessResult};

verus! {

/// The operations an item can go through.
#[derive(Debug, Clone, Copy, PartialEq, Eq, Structural)]
pub enum Operation {
    /// The multi-stage pipeline: resize, quantize, encode, recompress.
    Process,
    /// Lossless recompression to PNG.
    Optimize,
    /// Resize to PNG.
    Resize,
    /// Palette compression to PNG.
    Quantize,
}

/// The stage at which an item failed.
#[derive(Debug, Clone, Copy, PartialEq, Eq, Structural)]
pub enum Fault {
    /// The source file does not exist.
    NotFound,
    /// The output directory could not be created.
    DirectoryCreate,
    /// The source could not be read or decoded as an image.
    Decode,
    /// The requested dimensions cannot be held in memory.
    Oversize,
    /// The quality is not a percentage.
    Configuration,
    /// The quantizer refused the pixels.
    QuantizerInput,
    /// No palette met the quality band.
    Quantization,
    /// The pixels could not be mapped to the palette.
    Remap,
    /// The palette does not fit into a PNG.
    Palette,
    /// The indexed pixels could not be encoded as a PNG.
    Encode,
    /// The image could not be converted to a PNG.
    Convert,
    /// The PNG could not be recompressed.
    Recompress,
    /// The pixels could not be encoded as WebP.
    WebpEncode,
    /// The output file could not be written.
    Write,
}

/// A failed stage with the detail that the failing party gave.
#[derive(Debug, Clone, PartialEq, Eq)]
pub struct Failure {
    pub fault: Fault,
    pub detail: String,
}

/// The part of a failure message that comes before the detail.
pub open spec fn failure_head(operation: Operation, fault: Fault, path: Seq<char>) -> Seq<char> {
    match fault {
        Fault::NotFound => path + ": ファイルが存在しません"@,
        Fault::DirectoryCreate => "出力ディレクトリ作成エラー: "@,
        Fault::Decode => match operation {
            Operation::Quantize => "画像読み込みエラー: "@,
            Operation::Optimize => path + ": 画像を開けません: "@,
            _ => path + ": 画像を開けません - "@,
        },
        Fault::Oversize => "リサイズエラー: "@,
        Fault::Configuration => "クオリティ設定エラー: "@,
        Fault::QuantizerInput => match operation {
            Operation::Quantize => "画像作成エラー: "@,
            _ => "imagequant エラー: "@,
        },
        Fault::Quantization => "量子化エラー: "@,
        Fault::Remap => "リマップエラー: "@,
        Fault::Palette => "パレット追加エラー: "@,
        Fault::Encode => "PNG エンコードエラー: "@,
        Fault::Convert => match operation {
            Operation::Optimize => path + ": PNG への変換に失敗: "@,
            Operation::Resize => "保存エラー: "@,
            _ => "PNG 変換エラー: "@,
        },
        Fault::Recompress => match operation {
            Operation::Optimize => path + ": 最適化に失敗しました - "@,
            _ => "oxipng エラー: "@,
        },
        Fault::WebpEncode => "WebP エンコードエラー: "@,
        Fault::Write => match operation {
            Operation::Optimize => path + ": 最適化に失敗しました - "@,
            Operation::Resize => "保存エラー: "@,
            _ => "ファイル書き込みエラー: "@,
        },
    }
}

/// The message of a failed item: the head for its operation and stage, then
/// the detail.
pub open spec fn failure_text(
    operation: Operation,
    fault: Fault,
    path: Seq<char>,
    detail: Seq<char>,
) -> Seq<char> {
    failure_head(operation, fault, path) + detail
}

/// The original size that a failed item reports. A source that is missing has
/// none; resizing and palette compression measure the source only once it
/// has been decoded.
pub open spec fn reported_size(operation: Operation, fault: Fault, original_size: u64) -> u64 {
    match fault {
        Fault::NotFound => 0,
        Fault::Decode => match operation {
            Operation::Resize | Operation::Quantize => 0,
            _ => original_size,
        },
        _ => original_size,
    }
}

/// `path` followed by `tail`.
fn after_path(path: &str, tail: &str) -> (s: String)
    ensures
        s@ == path@ + tail@,
{
    let mut s = String::from_str(path);
    s.append(tail);
    s
}

/// Builds the part of a failure message that comes before the detail.
pub fn failure_head_text(operation: Operation, fault: Fault, path: &str) -> (head: String)
    ensures
        head@ == failure_head(operation, fault, path@),
{
    match fault {
        Fault::NotFound => after_path(path, ": ファイルが存在しません"),
        Fault::DirectoryCreate => String::from_str("出力ディレクトリ作成エラー: "),
        Fault::Decode => match operation {
            Operation::Quantize => String::from_str("画像読み込みエラー: "),
            Operation::Optimize => after_path(path, ": 画像を開けません: "),
            _ => after_path(path, ": 画像を開けません - "),
        },
        Fault::Oversize => String::from_str("リサイズエラー: "),
        Fault::Configuration => String::from_str("クオリティ設定エラー: "),
        Fault::QuantizerInput => match operation {
            Operation::Quantize => String::from_str("画像作成エラー: "),
            _ => String::from_str("imagequant エラー: "),
        },
        Fault::Quantization => String::from_str("量子化エラー: "),
        Fault::Remap => String::from_str("リマップエラー: "),
        Fault::Palette => String::from_str("パレット追加エラー: "),
        Fault::Encode => String::from_str("PNG エンコードエラー: "),
        Fault::Convert => match operation {
            Operation::Optimize => after_path(path, ": PNG への変換に失敗: "),
            Operation::Resize => String::from_str("保存エラー: "),
            _ => String::from_str("PNG 変換エラー: "),
        },
        Fault::Recompress => match operation {
            Operation::Optimize => after_path(path, ": 最適化に失敗しました - "),
            _ => String::from_str("oxipng エラー: "),
        },
        Fault::WebpEncode => String::from_str("WebP エンコードエラー: "),
        Fault::Write => match operation {
            Operation::Optimize => after_path(path, ": 最適化に失敗しました - "),
            Operation::Resize => String::from_str("保存エラー: "),
            _ => String::from_str("ファイル書き込みエラー: "),
        },
    }
}

impl Failure {
    /// A failure at `fault` with the given detail.
    pub fn new(fault: Fault, detail: String) -> (f: Failure)
        ensures
            f.fault == fault,
            f.detail@ == detail@,
    {
        Failure { fault, detail }
    }

    /// The result that reports this failure for the item at `path`.
    pub fn into_result(self, operation: Operation, path: &str, original_size: u64) -> (r:
        ProcessResult)
        ensures
            is_failure(
                r,
                reported_size(operation, self.fault, original_size),
                failure_text(operation, self.fault, path@, self.detail@),
            ),
    {
        let mut message = failure_head_text(operation, self.fault, path);
        message.append(self.detail.as_str());
        let size = match self.fault {
            Fault::NotFound => 0,
            Fault::Decode => match operation {
                Operation::Resize | Operation::Quantize => 0,
                _ => original_size,
            },
            _ => original_size,
        };
        ProcessResult::failure(size, message)
    }
}

} // verus!
