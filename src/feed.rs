use vstd::prelude::*;
use vstd::string::StringExecFns;

use crate::config::AllValues;

verus! {

/// The wire representation requested for a listing.
#[derive(Copy, Clone, Debug, PartialEq, Eq, Structural)]
pub enum FeedFormat {
    Json,
    Rss,
}

/// The kind of feed resource.
#[derive(Copy, Clone, Debug, PartialEq, Eq, Structural)]
pub enum Listing {
    FrontPage,
    Saved,
    Upvoted,
    Downvoted,
    Hidden,
    Inbox,
    InboxUnread,
    InboxMessages,
    InboxCommentReplies,
    InboxSelfPostReplies,
    InboxMentions,
}

/// One resource to fetch: the account, its feed token, the listing and the format.
#[derive(Clone, Debug)]
pub struct Feed {
    pub user_name: String,
    pub token: String,
    pub listing: Listing,
    pub format: FeedFormat,
}

/// The file extension of a format, as it appears in URLs and file names.
pub open spec fn extension_of(f: FeedFormat) -> Seq<char> {
    match f {
        FeedFormat::Json => "json"@,
        FeedFormat::Rss => "rss"@,
    }
}

/// The name a listing's file carries, before the extension.
pub open spec fn file_name_part_of(l: Listing) -> Seq<char> {
    match l {
        Listing::FrontPage => "frontPage"@,
        Listing::Saved => "saved"@,
        Listing::Upvoted => "upvoted"@,
        Listing::Downvoted => "downvoted"@,
        Listing::Hidden => "hidden"@,
        Listing::Inbox => "inbox"@,
        Listing::InboxUnread => "inboxUnread"@,
        Listing::InboxMessages => "inboxMessages"@,
        Listing::InboxCommentReplies => "inboxCommentReplies"@,
        Listing::InboxSelfPostReplies => "inboxSelfPostReplies"@,
        Listing::InboxMentions => "inboxMentions"@,
    }
}

/// The path of a listing on the site, for the given account.
pub open spec fn listing_path_of(l: Listing, user: Seq<char>) -> Seq<char> {
    match l {
        Listing::FrontPage => "/"@,
        Listing::Saved => "/saved"@,
        Listing::Upvoted => "/user/"@ + user + "/upvoted"@,
        Listing::Downvoted => "/user/"@ + user + "/downvoted"@,
        Listing::Hidden => "/user/"@ + user + "/hidden"@,
        Listing::Inbox => "/message/inbox/"@,
        Listing::InboxUnread => "/message/unread/"@,
        Listing::InboxMessages => "/message/messages/"@,
        Listing::InboxCommentReplies => "/message/comments/"@,
        Listing::InboxSelfPostReplies => "/message/selfreply"@,
        Listing::InboxMentions => "/message/mentions"@,
    }
}

/// `https://{domain}{listing path}.{extension}?feed={token}&user={account}`
pub open spec fn url_of(
    domain: Seq<char>,
    user: Seq<char>,
    token: Seq<char>,
    l: Listing,
    f: FeedFormat,
) -> Seq<char> {
    "https://"@ + domain + listing_path_of(l, user) + "."@ + extension_of(f) + "?feed="@ + token
        + "&user="@ + user
}

/// `{listing name}.{extension}`
pub open spec fn file_name_of(l: Listing, f: FeedFormat) -> Seq<char> {
    file_name_part_of(l) + "."@ + extension_of(f)
}

impl FeedFormat {
    pub fn extension(&self) -> (r: &str)
        ensures
            r@ == extension_of(*self),
    {
        match self {
            FeedFormat::Json => "json",
            FeedFormat::Rss => "rss",
        }
    }
}

impl Listing {
    pub fn file_name_part(&self) -> (r: &str)
        ensures
            r@ == file_name_part_of(*self),
    {
        match self {
            Listing::FrontPage => "frontPage",
            Listing::Saved => "saved",
            Listing::Upvoted => "upvoted",
            Listing::Downvoted => "downvoted",
            Listing::Hidden => "hidden",
            Listing::Inbox => "inbox",
            Listing::InboxUnread => "inboxUnread",
            Listing::InboxMessages => "inboxMessages",
            Listing::InboxCommentReplies => "inboxCommentReplies",
            Listing::InboxSelfPostReplies => "inboxSelfPostReplies",
            Listing::InboxMentions => "inboxMentions",
        }
    }

    /// The path of this listing on the site, for the account `user`.
    pub fn url_path(&self, user: &str) -> (r: String)
        ensures
            r@ == listing_path_of(*self, user@),
    {
        match self {
            Listing::FrontPage => String::from_str("/"),
            Listing::Saved => String::from_str("/saved"),
            Listing::Upvoted => String::from_str("/user/").concat(user).concat("/upvoted"),
            Listing::Downvoted => String::from_str("/user/").concat(user).concat("/downvoted"),
            Listing::Hidden => String::from_str("/user/").concat(user).concat("/hidden"),
            Listing::Inbox => String::from_str("/message/inbox/"),
            Listing::InboxUnread => String::from_str("/message/unread/"),
            Listing::InboxMessages => String::from_str("/message/messages/"),
            Listing::InboxCommentReplies => String::from_str("/message/comments/"),
            Listing::InboxSelfPostReplies => String::from_str("/message/selfreply"),
            Listing::InboxMentions => String::from_str("/message/mentions"),
        }
    }
}

impl AllValues for FeedFormat {
    open spec fn all_values() -> Seq<FeedFormat> {
        seq![FeedFormat::Json, FeedFormat::Rss]
    }

    fn all() -> (r: Vec<FeedFormat>) {
        vec![FeedFormat::Json, FeedFormat::Rss]
    }
}

impl AllValues for Listing {
    open spec fn all_values() -> Seq<Listing> {
        seq![
            Listing::FrontPage,
            Listing::Saved,
            Listing::Upvoted,
            Listing::Downvoted,
            Listing::Hidden,
            Listing::Inbox,
            Listing::InboxUnread,
            Listing::InboxMessages,
            Listing::InboxCommentReplies,
            Listing::InboxSelfPostReplies,
            Listing::InboxMentions,
        ]
    }

    fn all() -> (r: Vec<Listing>) {
        vec![
            Listing::FrontPage,
            Listing::Saved,
            Listing::Upvoted,
            Listing::Downvoted,
            Listing::Hidden,
            Listing::Inbox,
            Listing::InboxUnread,
            Listing::InboxMessages,
            Listing::InboxCommentReplies,
            Listing::InboxSelfPostReplies,
            Listing::InboxMentions,
        ]
    }
}

impl Feed {
    /// The account, the token, the listing and the format.
    pub open spec fn view(&self) -> (Seq<char>, Seq<char>, Listing, FeedFormat) {
        (self.user_name@, self.token@, self.listing, self.format)
    }

    pub fn new(user_name: String, token: String, listing: Listing, format: FeedFormat) -> (r: Feed)
        ensures
            r.user_name@ == user_name@,
            r.token@ == token@,
            r.listing == listing,
            r.format == format,
    {
        Feed { user_name, token, listing, format }
    }

    /// The address this feed is fetched from, on the site `domain`.
    pub fn url(&self, domain: &str) -> (r: String)
        ensures
            r@ == url_of(domain@, self.user_name@, self.token@, self.listing, self.format),
    {
        let url_path = self.listing.url_path(self.user_name.as_str());
        let ext = self.format.extension();
        let r = String::from_str("https://").concat(domain).concat(url_path.as_str()).concat(
            ".",
        ).concat(ext).concat("?feed=").concat(self.token.as_str()).concat("&user=").concat(
            self.user_name.as_str(),
        );
        r
    }

    /// The name of the file this feed is stored in.
    pub fn file_name(&self) -> (r: String)
        ensures
            r@ == file_name_of(self.listing, self.format),
    {
        String::from_str(self.listing.file_name_part()).concat(".").concat(self.format.extension())
    }
}

} // verus!
