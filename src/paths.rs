use vstd::prelude::*;

use crate::batch::FsError;
use crate::feed::{file_name_of, file_name_part_of, Feed, FeedFormat, Listing};
use crate::report::digit_char;

verus! {

/// A path joined with a further component, as `std::path::Path::join` does it
/// on Unix: a `part` that starts at the root replaces `base`; otherwise `part`
/// follows `base`, with a `/` between them unless `base` is empty or already
/// ends in one.
pub open spec fn joined(base: Seq<char>, part: Seq<char>) -> Seq<char> {
    if part.len() > 0 && part[0] == '/' {
        part
    } else if base.len() == 0 || base.last() == '/' {
        base + part
    } else {
        base + "/"@ + part
    }
}

/// What `std::path::Path::parent` finds in `path`.
pub uninterp spec fn parent_of(path: Seq<char>) -> Option<Seq<char>>;

/// The pattern a run's directory name is rendered with.
pub const STAMP_PATTERN: &'static str = "%Y-%m-%d_%H-%M-%S%z";

/// Whether `y` is a leap year of the Gregorian calendar.
pub open spec fn is_leap_year(y: int) -> bool {
    (y % 4 == 0 && y % 100 != 0) || y % 400 == 0
}

/// The number of days of month `m` of year `y`.
pub open spec fn days_in_month(y: int, m: int) -> int {
    if m == 2 {
        if is_leap_year(y) {
            29
        } else {
            28
        }
    } else if m == 4 || m == 6 || m == 9 || m == 11 {
        30
    } else {
        31
    }
}

/// A date and time that exists, in a year of four digits, at an offset of
/// less than a day from UTC.
pub open spec fn valid_moment(
    year: int,
    month: int,
    day: int,
    hour: int,
    minute: int,
    second: int,
    offset: int,
) -> bool {
    &&& -86_400 < offset < 86_400
    &&& 1 <= year <= 9999
    &&& 1 <= month <= 12
    &&& 1 <= day <= days_in_month(year, month)
    &&& 0 <= hour < 24
    &&& 0 <= minute < 60
    &&& 0 <= second < 60
}

/// `n < 100` in two decimal digits.
pub open spec fn two_digits(n: int) -> Seq<char> {
    seq![digit_char(((n / 10) % 10) as nat), digit_char((n % 10) as nat)]
}

/// `n < 10000` in four decimal digits.
pub open spec fn four_digits(n: int) -> Seq<char> {
    two_digits(n / 100) + two_digits(n % 100)
}

/// An offset east of UTC in seconds as `+hhmm` or `-hhmm`, rounded to the
/// nearest minute.
pub open spec fn offset_text(offset: int) -> Seq<char> {
    let minutes = (if offset < 0 { -offset } else { offset } + 30) / 60;
    seq![if offset < 0 { '-' } else { '+' }] + two_digits(minutes / 60) + two_digits(minutes % 60)
}

/// The text of a moment in the pattern `%Y-%m-%d_%H-%M-%S%z`:
/// `2024-01-02_03-04-05+0100`.
pub open spec fn stamp_text(
    year: int,
    month: int,
    day: int,
    hour: int,
    minute: int,
    second: int,
    offset: int,
) -> Seq<char> {
    four_digits(year) + "-"@ + two_digits(month) + "-"@ + two_digits(day) + "_"@ + two_digits(hour)
        + "-"@ + two_digits(minute) + "-"@ + two_digits(second) + offset_text(offset)
}

/// Relies on std::path::Path::join (with `Path::new` and `to_string_lossy`, which
/// loses nothing on text that came from a `&str`): on Unix a rooted `part`
/// replaces `base`, and otherwise one `/` separates the two where `base` does
/// not already end in one.
#[verifier::external_body]
fn join_path(base: &str, part: &str) -> (r: String)
    ensures
        r@ == joined(base@, part@),
{
    std::path::Path::new(base).join(part).to_string_lossy().into_owned()
}

/// Relies on std::path::Path::parent, which finds no parent in the empty path
/// and in the root `/`.
#[verifier::external_body]
fn path_parent(path: &str) -> (r: Option<String>)
    ensures
        r is None <==> parent_of(path@) is None,
        r matches Some(p) ==> parent_of(path@) == Some(p@),
        path@ == "/"@ ==> r is None,
        path@.len() == 0 ==> r is None,
{
    match std::path::Path::new(path).parent() {
        Some(p) => Some(p.to_string_lossy().into_owned()),
        None => None,
    }
}

/// Relies on chrono's `FixedOffset::east_opt` (`Some` for an offset of less than
/// a day), `TimeZone::with_ymd_and_hms` (a single result for a valid date and
/// time at a fixed offset) and `DateTime::format`, whose `%Y` writes a year of
/// 1 to 9999 in four digits, `%m %d %H %M %S` two digits each, and `%z` the
/// sign and the offset as `hhmm` rounded to the minute.
#[verifier::external_body]
fn render_stamp(
    year: i32,
    month: u32,
    day: u32,
    hour: u32,
    minute: u32,
    second: u32,
    offset: i32,
    pattern: &str,
) -> (r: Option<String>)
    requires
        valid_moment(
            year as int,
            month as int,
            day as int,
            hour as int,
            minute as int,
            second as int,
            offset as int,
        ),
        pattern@ == STAMP_PATTERN@,
    ensures
        r is Some,
        r matches Some(t) ==> t@ == stamp_text(
            year as int,
            month as int,
            day as int,
            hour as int,
            minute as int,
            second as int,
            offset as int,
        ),
{
    let zone = chrono::FixedOffset::east_opt(offset)?;
    let at = chrono::TimeZone::with_ymd_and_hms(&zone, year, month, day, hour, minute, second);
    Some(at.single()?.format(pattern).to_string())
}

/// The number of days of month `month` of year `year`.
pub fn month_length(year: i32, month: u32) -> (r: u32)
    ensures
        r == days_in_month(year as int, month as int),
{
    if month == 2 {
        if (year % 4 == 0 && year % 100 != 0) || year % 400 == 0 {
            29
        } else {
            28
        }
    } else if month == 4 || month == 6 || month == 9 || month == 11 {
        30
    } else {
        31
    }
}

/// The moment a run started, captured once and shared by every descriptor of
/// the run, as the text that names the run's directories.
#[derive(Clone, Debug)]
pub struct RunStamp {
    text: String,
}

impl RunStamp {
    /// The directory name of the run.
    pub closed spec fn view(&self) -> Seq<char> {
        self.text@
    }

    /// The stamp of the given local date and time, `offset` seconds east of UTC;
    /// `None` exactly where that is no valid moment.
    pub fn new(
        year: i32,
        month: u32,
        day: u32,
        hour: u32,
        minute: u32,
        second: u32,
        offset: i32,
    ) -> (r: Option<RunStamp>)
        ensures
            r is Some <==> valid_moment(
                year as int,
                month as int,
                day as int,
                hour as int,
                minute as int,
                second as int,
                offset as int,
            ),
            r matches Some(s) ==> s@ == stamp_text(
                year as int,
                month as int,
                day as int,
                hour as int,
                minute as int,
                second as int,
                offset as int,
            ),
    {
        let valid = -86_400 < offset && offset < 86_400 && 1 <= year && year <= 9999 && 1 <= month
            && month <= 12 && 1 <= day && day <= month_length(year, month) && hour < 24 && minute
            < 60 && second < 60;
        if !valid {
            return None;
        }
        match render_stamp(year, month, day, hour, minute, second, offset, STAMP_PATTERN) {
            Some(text) => Some(RunStamp { text }),
            None => None,
        }
    }

    /// The directory name of the run.
    pub fn as_str(&self) -> (r: &str)
        ensures
            r@ == self@,
    {
        self.text.as_str()
    }
}

/// Where a payload is written: the directory that must exist first, or
/// `PermissionDenied` when `path` has no parent, as the root has none.
pub fn persist_dir(path: &str) -> (r: Result<String, FsError>)
    ensures
        match parent_of(path@) {
            Some(d) => r matches Ok(s) && s@ == d,
            None => r matches Err(FsError::PermissionDenied),
        },
        path@ == "/"@ ==> r matches Err(FsError::PermissionDenied),
{
    match path_parent(path) {
        Some(dir) => Ok(dir),
        None => Err(FsError::PermissionDenied),
    }
}

/// `{account}/{run stamp}/{listing}.{extension}`, as the path functions join it.
pub open spec fn sub_path_of(user: Seq<char>, stamp: Seq<char>, l: Listing, f: FeedFormat) -> Seq<char> {
    joined(joined(user, stamp), file_name_of(l, f))
}

/// A file name starts with a letter, never at the root.
pub proof fn lemma_file_name_relative(l: Listing, f: FeedFormat)
    ensures
        file_name_of(l, f).len() > 0,
        file_name_of(l, f)[0] != '/',
{
    reveal_strlit("frontPage");
    reveal_strlit("saved");
    reveal_strlit("upvoted");
    reveal_strlit("downvoted");
    reveal_strlit("hidden");
    reveal_strlit("inbox");
    reveal_strlit("inboxUnread");
    reveal_strlit("inboxMessages");
    reveal_strlit("inboxCommentReplies");
    reveal_strlit("inboxSelfPostReplies");
    reveal_strlit("inboxMentions");
    let part = file_name_part_of(l);
    assert(part.len() > 0 && part[0] != '/');
    assert(file_name_of(l, f)[0] == part[0]);
}

impl Feed {
    /// `{account}/{run stamp}/{listing}.{extension}`, relative to the output root.
    /// For an account name and a stamp that neither start nor end with `/`, the
    /// three parts stand with exactly one `/` between them.
    pub fn sub_path(&self, stamp: &RunStamp) -> (r: String)
        ensures
            r@ == sub_path_of(self.user_name@, stamp@, self.listing, self.format),
            ({
                let u = self.user_name@;
                let t = stamp@;
                u.len() > 0 && u[0] != '/' && u.last() != '/' && t.len() > 0 && t[0] != '/'
                    && t.last() != '/'
            }) ==> r@ == self.user_name@ + "/"@ + stamp@ + "/"@ + file_name_of(
                self.listing,
                self.format,
            ),
    {
        let run_dir = join_path(self.user_name.as_str(), stamp.as_str());
        let name = self.file_name();
        proof {
            lemma_file_name_relative(self.listing, self.format);
            let u = self.user_name@;
            let t = stamp@;
            if u.len() > 0 && u[0] != '/' && u.last() != '/' && t.len() > 0 && t[0] != '/'
                && t.last() != '/' {
                assert(run_dir@ == u + "/"@ + t);
                assert(run_dir@.last() == t.last());
            }
        }
        join_path(run_dir.as_str(), name.as_str())
    }

    /// The file this feed is stored in, under the output root `out_dir`.
    pub fn target_path(&self, out_dir: &str, stamp: &RunStamp) -> (r: String)
        ensures
            r@ == joined(out_dir@, sub_path_of(self.user_name@, stamp@, self.listing, self.format)),
    {
        let sub = self.sub_path(stamp);
        join_path(out_dir, sub.as_str())
    }
}

} // verus!
