use feed_archive::batch::FsError;
use feed_archive::feed::{Feed, FeedFormat, Listing};
use feed_archive::paths::{month_length, persist_dir, RunStamp};

fn stamp() -> RunStamp {
    RunStamp::new(2024, 1, 2, 3, 4, 5, 3600).unwrap()
}

#[test]
fn run_stamp_text() {
    assert_eq!(stamp().as_str(), "2024-01-02_03-04-05+0100");
    let west = RunStamp::new(1999, 12, 31, 23, 59, 58, -5 * 3600).unwrap();
    assert_eq!(west.as_str(), "1999-12-31_23-59-58-0500");
}

#[test]
fn run_stamp_rejects_invalid_moment() {
    assert!(RunStamp::new(2023, 2, 30, 0, 0, 0, 0).is_none());
    assert!(RunStamp::new(2023, 13, 1, 0, 0, 0, 0).is_none());
    assert!(RunStamp::new(2023, 1, 1, 0, 0, 0, 86_400).is_none());
    assert!(RunStamp::new(2023, 1, 1, 0, 0, 0, -86_400).is_none());
    assert!(RunStamp::new(10_000, 1, 1, 0, 0, 0, 0).is_none());
    assert!(RunStamp::new(0, 1, 1, 0, 0, 0, 0).is_none());
    assert!(RunStamp::new(2023, 1, 1, 24, 0, 0, 0).is_none());
    assert!(RunStamp::new(2023, 1, 1, 0, 0, 60, 0).is_none());
    assert!(RunStamp::new(1900, 2, 29, 0, 0, 0, 0).is_none());
}

#[test]
fn run_stamp_accepts_leap_days_and_edges() {
    assert_eq!(RunStamp::new(2024, 2, 29, 0, 0, 0, 0).unwrap().as_str(), "2024-02-29_00-00-00+0000");
    assert_eq!(RunStamp::new(2000, 2, 29, 12, 0, 0, 0).unwrap().as_str(), "2000-02-29_12-00-00+0000");
    assert_eq!(RunStamp::new(1, 1, 1, 0, 0, 0, 0).unwrap().as_str(), "0001-01-01_00-00-00+0000");
    assert_eq!(RunStamp::new(9999, 12, 31, 23, 59, 59, 0).unwrap().as_str(), "9999-12-31_23-59-59+0000");
}

#[test]
fn run_stamp_offset_rounds_to_the_minute() {
    assert_eq!(RunStamp::new(2024, 6, 1, 0, 0, 0, 3630).unwrap().as_str(), "2024-06-01_00-00-00+0101");
    assert_eq!(RunStamp::new(2024, 6, 1, 0, 0, 0, 3629).unwrap().as_str(), "2024-06-01_00-00-00+0100");
    assert_eq!(RunStamp::new(2024, 6, 1, 0, 0, 0, 86_399).unwrap().as_str(), "2024-06-01_00-00-00+2400");
    assert_eq!(RunStamp::new(2024, 6, 1, 0, 0, 0, -19_800).unwrap().as_str(), "2024-06-01_00-00-00-0530");
}

#[test]
fn month_lengths() {
    assert_eq!(month_length(2023, 2), 28);
    assert_eq!(month_length(2024, 2), 29);
    assert_eq!(month_length(1900, 2), 28);
    assert_eq!(month_length(2000, 2), 29);
    assert_eq!(month_length(2023, 4), 30);
    assert_eq!(month_length(2023, 12), 31);
}

#[test]
fn sub_path_keeps_a_rooted_account_name() {
    let feed = Feed::new("/abs".to_string(), "t".to_string(), Listing::Saved, FeedFormat::Json);
    assert_eq!(feed.sub_path(&stamp()), "/abs/2024-01-02_03-04-05+0100/saved.json");
    let trailing = Feed::new("dir/".to_string(), "t".to_string(), Listing::Saved, FeedFormat::Rss);
    assert_eq!(trailing.sub_path(&stamp()), "dir/2024-01-02_03-04-05+0100/saved.rss");
}

#[test]
fn sub_path_is_account_stamp_file() {
    let feed = Feed::new("alice".to_string(), "t".to_string(), Listing::Saved, FeedFormat::Json);
    assert_eq!(feed.sub_path(&stamp()), "alice/2024-01-02_03-04-05+0100/saved.json");
}

#[test]
fn target_path_under_output_root() {
    let feed = Feed::new("bob".to_string(), "t".to_string(), Listing::Inbox, FeedFormat::Rss);
    assert_eq!(
        feed.target_path("../archive", &stamp()),
        "../archive/bob/2024-01-02_03-04-05+0100/inbox.rss"
    );
    assert_eq!(
        feed.target_path("", &stamp()),
        "bob/2024-01-02_03-04-05+0100/inbox.rss"
    );
}

#[test]
fn persist_to_root_is_permission_denied() {
    assert_eq!(persist_dir("/"), Err(FsError::PermissionDenied));
    assert_eq!(persist_dir(""), Err(FsError::PermissionDenied));
}

#[test]
fn persist_dir_is_the_parent() {
    assert_eq!(persist_dir("a/b/c.json"), Ok("a/b".to_string()));
    assert_eq!(persist_dir("/top.json"), Ok("/".to_string()));
    assert_eq!(persist_dir("plain.json"), Ok("".to_string()));
}

#[test]
fn persist_dir_twice_is_the_same() {
    let first = persist_dir("out/alice/run/saved.json");
    let second = persist_dir("out/alice/run/saved.json");
    assert_eq!(first, Ok("out/alice/run".to_string()));
    assert_eq!(first, second);
}
