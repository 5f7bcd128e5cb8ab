use feed_archive::config::{
    expand_feeds, AllValues, AppConfig, FeedConfig, Subset, DEFAULT_MAX_CONCURRENT_DOWNLOADS,
};
use feed_archive::feed::{Feed, FeedFormat, Listing};

fn feed(listing: Listing, format: FeedFormat) -> Feed {
    Feed::new("alice".to_string(), "tok123".to_string(), listing, format)
}

#[test]
fn extension_of_each_format() {
    assert_eq!(FeedFormat::Json.extension(), "json");
    assert_eq!(FeedFormat::Rss.extension(), "rss");
}

#[test]
fn file_name_parts_of_listings() {
    assert_eq!(Listing::FrontPage.file_name_part(), "frontPage");
    assert_eq!(Listing::InboxSelfPostReplies.file_name_part(), "inboxSelfPostReplies");
    assert_eq!(Listing::InboxMentions.file_name_part(), "inboxMentions");
}

#[test]
fn url_of_front_page() {
    assert_eq!(
        feed(Listing::FrontPage, FeedFormat::Json).url("old.reddit.com"),
        "https://old.reddit.com/.json?feed=tok123&user=alice"
    );
}

#[test]
fn url_of_user_listing_names_the_account() {
    assert_eq!(
        feed(Listing::Upvoted, FeedFormat::Rss).url("example.org"),
        "https://example.org/user/alice/upvoted.rss?feed=tok123&user=alice"
    );
    assert_eq!(
        feed(Listing::Hidden, FeedFormat::Json).url("example.org"),
        "https://example.org/user/alice/hidden.json?feed=tok123&user=alice"
    );
}

#[test]
fn url_of_inbox_listings() {
    assert_eq!(
        feed(Listing::InboxUnread, FeedFormat::Json).url("d"),
        "https://d/message/unread/.json?feed=tok123&user=alice"
    );
    assert_eq!(
        feed(Listing::InboxMentions, FeedFormat::Rss).url("d"),
        "https://d/message/mentions.rss?feed=tok123&user=alice"
    );
}

#[test]
fn file_name_joins_listing_and_extension() {
    assert_eq!(feed(Listing::Saved, FeedFormat::Rss).file_name(), "saved.rss");
    assert_eq!(
        feed(Listing::InboxCommentReplies, FeedFormat::Json).file_name(),
        "inboxCommentReplies.json"
    );
}

#[test]
fn all_values_lists_every_variant() {
    assert_eq!(FeedFormat::all(), vec![FeedFormat::Json, FeedFormat::Rss]);
    let listings = Listing::all();
    assert_eq!(listings.len(), 11);
    assert_eq!(listings[0], Listing::FrontPage);
    assert_eq!(listings[10], Listing::InboxMentions);
}

#[test]
fn subset_to_vec() {
    let all: Subset<FeedFormat> = Subset::All;
    assert_eq!(all.to_vec(), vec![FeedFormat::Json, FeedFormat::Rss]);
    let some = Subset::Listed(vec![Listing::Saved, Listing::Inbox]);
    assert_eq!(some.to_vec(), vec![Listing::Saved, Listing::Inbox]);
    let none: Subset<Listing> = Subset::Listed(vec![]);
    assert!(none.to_vec().is_empty());
}

#[test]
fn config_defaults_apply_only_when_unset() {
    let mut config = AppConfig {
        reddit_domain: None,
        max_concurrent_downloads: None,
        out_path: None,
        feeds: vec![],
    };
    assert_eq!(config.reddit_domain(), "old.reddit.com");
    assert_eq!(config.max_concurrent_downloads(), DEFAULT_MAX_CONCURRENT_DOWNLOADS);
    assert_eq!(config.max_concurrent_downloads(), 32);
    assert_eq!(config.out_path(), "");
    config.reddit_domain = Some("www.reddit.com".to_string());
    config.max_concurrent_downloads = Some(4);
    config.out_path = Some("../archive".to_string());
    assert_eq!(config.reddit_domain(), "www.reddit.com");
    assert_eq!(config.max_concurrent_downloads(), 4);
    assert_eq!(config.out_path(), "../archive");
}

#[test]
fn expand_feeds_goes_account_listing_format() {
    let configs = vec![
        FeedConfig {
            user_name: "a".to_string(),
            feed_token: "ta".to_string(),
            listings: Subset::Listed(vec![Listing::Saved, Listing::Inbox]),
            formats: Subset::All,
        },
        FeedConfig {
            user_name: "b".to_string(),
            feed_token: "tb".to_string(),
            listings: Subset::All,
            formats: Subset::Listed(vec![FeedFormat::Json]),
        },
    ];
    let feeds = expand_feeds(&configs);
    assert_eq!(feeds.len(), 4 + 11);
    assert_eq!(feeds[0].user_name, "a");
    assert_eq!((feeds[0].listing, feeds[0].format), (Listing::Saved, FeedFormat::Json));
    assert_eq!((feeds[1].listing, feeds[1].format), (Listing::Saved, FeedFormat::Rss));
    assert_eq!((feeds[2].listing, feeds[2].format), (Listing::Inbox, FeedFormat::Json));
    assert_eq!((feeds[3].listing, feeds[3].format), (Listing::Inbox, FeedFormat::Rss));
    assert_eq!(feeds[4].user_name, "b");
    assert_eq!(feeds[4].token, "tb");
    assert_eq!((feeds[4].listing, feeds[4].format), (Listing::FrontPage, FeedFormat::Json));
    assert_eq!(feeds[14].listing, Listing::InboxMentions);
}

#[test]
fn expand_feeds_of_no_accounts_is_empty() {
    assert!(expand_feeds(&vec![]).is_empty());
}
