use vstd::prelude::*;
use vstd::string::StringExecFns;

use crate::batch::{DownloadError, FsError, Outcome};

verus! {

/// The character of a decimal digit.
pub open spec fn digit_char(d: nat) -> char {
    seq!['0', '1', '2', '3', '4', '5', '6', '7', '8', '9'][d as int]
}

/// `n` in decimal, without leading zeros.
pub open spec fn decimal(n: nat) -> Seq<char>
    decreases n,
{
    if n < 10 {
        seq![digit_char(n)]
    } else {
        decimal(n / 10).push(digit_char(n % 10))
    }
}

/// `n < 1000` in exactly three decimal digits.
pub open spec fn three_digits(n: nat) -> Seq<char> {
    seq![digit_char(n / 100), digit_char((n / 10) % 10), digit_char(n % 10)]
}

/// `n` in decimal, its digits grouped by three from the right with `,`.
pub open spec fn grouped(n: nat) -> Seq<char>
    decreases n,
{
    if n < 1000 {
        decimal(n)
    } else {
        grouped(n / 1000) + ","@ + three_digits(n % 1000)
    }
}

/// Relies on num_format's `ToFormattedString::to_formatted_string` with the
/// `en_GB` locale, whose separator is `,` and whose grouping is by threes.
#[verifier::external_body]
fn format_grouped(n: u128) -> (r: String)
    ensures
        r@ == grouped(n as nat),
{
    num_format::ToFormattedString::to_formatted_string(&n, &num_format::Locale::en_GB)
}

/// The words that describe a failure.
pub open spec fn error_text(e: DownloadError) -> Seq<char> {
    match e {
        DownloadError::Network(m) => "network error: "@ + m@,
        DownloadError::Filesystem(FsError::PermissionDenied) => "filesystem error: permission denied"@,
        DownloadError::Filesystem(FsError::Io(m)) => "filesystem error: "@ + m@,
    }
}

/// The line printed when a task finishes.
pub open spec fn progress_text(o: Outcome) -> Seq<char> {
    match o {
        Outcome::Succeeded { bytes, path } => "Downloaded "@ + grouped(bytes as nat) + " bytes to "@
            + path@,
        Outcome::Failed(e) => "Failure! "@ + error_text(e),
    }
}

/// The line printed once the batch is over.
pub open spec fn summary_text(total: nat) -> Seq<char> {
    "Downloaded "@ + grouped(total) + " bytes"@
}

impl DownloadError {
    /// The words that describe this failure.
    pub fn describe(&self) -> (r: String)
        ensures
            r@ == error_text(*self),
    {
        match self {
            DownloadError::Network(m) => String::from_str("network error: ").concat(m.as_str()),
            DownloadError::Filesystem(FsError::PermissionDenied) => String::from_str(
                "filesystem error: permission denied",
            ),
            DownloadError::Filesystem(FsError::Io(m)) => String::from_str(
                "filesystem error: ",
            ).concat(m.as_str()),
        }
    }
}

/// The line that reports one finished task.
pub fn progress_line(outcome: &Outcome) -> (r: String)
    ensures
        r@ == progress_text(*outcome),
{
    match outcome {
        Outcome::Succeeded { bytes, path } => {
            let count = format_grouped(*bytes as u128);
            String::from_str("Downloaded ").concat(count.as_str()).concat(" bytes to ").concat(
                path.as_str(),
            )
        },
        Outcome::Failed(e) => {
            let text = e.describe();
            String::from_str("Failure! ").concat(text.as_str())
        },
    }
}

/// The line that reports the bytes written by the whole batch.
pub fn summary_line(total_bytes: u128) -> (r: String)
    ensures
        r@ == summary_text(total_bytes as nat),
{
    let count = format_grouped(total_bytes);
    String::from_str("Downloaded ").concat(count.as_str()).concat(" bytes")
}

} // verus!
