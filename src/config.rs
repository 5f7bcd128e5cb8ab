use vstd::prelude::*;

use crate::feed::{Feed, FeedFormat, Listing};

verus! {

/// A type with a fixed, finite list of values.
pub trait AllValues: Sized {
    /// Every value of the type, in its canonical order.
    spec fn all_values() -> Seq<Self>;

    fn all() -> (r: Vec<Self>)
        ensures
            r@ == Self::all_values(),
    ;
}

/// The most downloads that run at once when the configuration names no ceiling.
pub const DEFAULT_MAX_CONCURRENT_DOWNLOADS: u16 = 32;

/// The site that feeds come from when the configuration names none.
pub const DEFAULT_REDDIT_DOMAIN: &'static str = "old.reddit.com";

/// The output root when the configuration names none: the current directory.
pub const DEFAULT_OUT_PATH: &'static str = "";

/// What a run is asked to do: the site, the ceiling on parallel downloads, the
/// output root, and the accounts whose feeds are archived.
#[derive(Clone, Debug)]
pub struct AppConfig {
    pub reddit_domain: Option<String>,
    pub max_concurrent_downloads: Option<u16>,
    pub out_path: Option<String>,
    pub feeds: Vec<FeedConfig>,
}

/// One account: its name, its feed token, and the listings and formats to fetch.
#[derive(Clone, Debug)]
pub struct FeedConfig {
    pub user_name: String,
    pub feed_token: String,
    pub listings: Subset<Listing>,
    pub formats: Subset<FeedFormat>,
}

impl AppConfig {
    /// The site to fetch from: the configured one, else the default.
    pub fn reddit_domain(&self) -> (r: &str)
        ensures
            r@ == match self.reddit_domain {
                Some(d) => d@,
                None => DEFAULT_REDDIT_DOMAIN@,
            },
    {
        match &self.reddit_domain {
            Some(domain) => domain.as_str(),
            None => DEFAULT_REDDIT_DOMAIN,
        }
    }

    /// The ceiling on parallel downloads: the configured one, else the default.
    pub fn max_concurrent_downloads(&self) -> (r: u16)
        ensures
            r == match self.max_concurrent_downloads {
                Some(n) => n,
                None => DEFAULT_MAX_CONCURRENT_DOWNLOADS,
            },
    {
        match self.max_concurrent_downloads {
            Some(n) => n,
            None => DEFAULT_MAX_CONCURRENT_DOWNLOADS,
        }
    }

    /// The output root: the configured one, else the current directory.
    pub fn out_path(&self) -> (r: &str)
        ensures
            r@ == match self.out_path {
                Some(p) => p@,
                None => DEFAULT_OUT_PATH@,
            },
    {
        match &self.out_path {
            Some(path) => path.as_str(),
            None => DEFAULT_OUT_PATH,
        }
    }
}

/// Either every value of a type, or the listed ones.
#[derive(Clone, Debug)]
pub enum Subset<T> {
    All,
    Listed(Vec<T>),
}

impl<T: AllValues> Subset<T> {
    /// The values this subset stands for.
    pub open spec fn values(&self) -> Seq<T> {
        match self {
            Subset::All => T::all_values(),
            Subset::Listed(them) => them@,
        }
    }
}

impl<T: AllValues + Clone> Subset<T> {
    pub fn to_vec(&self) -> (r: Vec<T>)
        ensures
            r@.len() == self.values().len(),
            forall|i: int| 0 <= i < r@.len() ==> cloned(self.values()[i], #[trigger] r@[i]),
    {
        match self {
            Subset::All => T::all(),
            Subset::Listed(them) => them.clone(),
        }
    }
}

/// The descriptor of each format of one listing of one account, in the order of the formats.
pub open spec fn formats_for(
    user: Seq<char>,
    token: Seq<char>,
    l: Listing,
    fs: Seq<FeedFormat>,
) -> Seq<(Seq<char>, Seq<char>, Listing, FeedFormat)> {
    fs.map_values(|f: FeedFormat| (user, token, l, f))
}

/// The descriptors of one account: listing by listing, each in every format.
pub open spec fn listings_for(
    user: Seq<char>,
    token: Seq<char>,
    ls: Seq<Listing>,
    fs: Seq<FeedFormat>,
) -> Seq<(Seq<char>, Seq<char>, Listing, FeedFormat)>
    decreases ls.len(),
{
    if ls.len() == 0 {
        seq![]
    } else {
        listings_for(user, token, ls.drop_last(), fs) + formats_for(user, token, ls.last(), fs)
    }
}

/// The descriptors of a list of accounts, account by account.
pub open spec fn expansion(cs: Seq<FeedConfig>) -> Seq<(Seq<char>, Seq<char>, Listing, FeedFormat)>
    decreases cs.len(),
{
    if cs.len() == 0 {
        seq![]
    } else {
        expansion(cs.drop_last()) + listings_for(
            cs.last().user_name@,
            cs.last().feed_token@,
            cs.last().listings.values(),
            cs.last().formats.values(),
        )
    }
}

/// Every descriptor that the accounts ask for: for each account in turn, each
/// of its listings, in each of its formats.
pub fn expand_feeds(configs: &Vec<FeedConfig>) -> (r: Vec<Feed>)
    ensures
        r@.map_values(|f: Feed| f.view()) == expansion(configs@),
{
    let mut feeds: Vec<Feed> = Vec::new();
    let mut i: usize = 0;
    while i < configs.len()
        invariant
            i <= configs@.len(),
            feeds@.map_values(|f: Feed| f.view()) == expansion(configs@.take(i as int)),
        decreases configs@.len() - i,
    {
        let c = &configs[i];
        let listings = c.listings.to_vec();
        let formats = c.formats.to_vec();
        assert(listings@ =~= c.listings.values());
        assert(formats@ =~= c.formats.values());
        let ghost before = feeds@.map_values(|f: Feed| f.view());
        let mut j: usize = 0;
        while j < listings.len()
            invariant
                j <= listings@.len(),
                feeds@.map_values(|f: Feed| f.view()) == before + listings_for(
                    c.user_name@,
                    c.feed_token@,
                    listings@.take(j as int),
                    formats@,
                ),
            decreases listings@.len() - j,
        {
            let ghost mid = feeds@.map_values(|f: Feed| f.view());
            let mut k: usize = 0;
            while k < formats.len()
                invariant
                    k <= formats@.len(),
                    j < listings@.len(),
                    feeds@.map_values(|f: Feed| f.view()) == mid + formats_for(
                        c.user_name@,
                        c.feed_token@,
                        listings@[j as int],
                        formats@.take(k as int),
                    ),
                decreases formats@.len() - k,
            {
                let feed = Feed::new(
                    c.user_name.clone(),
                    c.feed_token.clone(),
                    listings[j],
                    formats[k],
                );
                assert(feed.view() == (c.user_name@, c.feed_token@, listings@[j as int], formats@[k as int]));
                let ghost prev = feeds@;
                feeds.push(feed);
                assert(feeds@.map_values(|f: Feed| f.view()) =~= prev.map_values(|f: Feed| f.view()).push(
                    feed.view(),
                ));
                assert(formats@.take(k + 1) =~= formats@.take(k as int).push(formats@[k as int]));
                assert(feeds@.map_values(|f: Feed| f.view()) =~= mid + formats_for(
                    c.user_name@,
                    c.feed_token@,
                    listings@[j as int],
                    formats@.take(k + 1),
                ));
                k = k + 1;
            }
            assert(formats@.take(k as int) =~= formats@);
            assert(listings@.take(j + 1).drop_last() =~= listings@.take(j as int));
            assert(feeds@.map_values(|f: Feed| f.view()) =~= before + listings_for(
                c.user_name@,
                c.feed_token@,
                listings@.take(j + 1),
                formats@,
            ));
            j = j + 1;
        }
        assert(listings@.take(j as int) =~= listings@);
        assert(configs@.take(i + 1).drop_last() =~= configs@.take(i as int));
        assert(feeds@.map_values(|f: Feed| f.view()) =~= expansion(configs@.take(i + 1)));
        i = i + 1;
    }
    assert(configs@.take(i as int) =~= configs@);
    feeds
}

} // verus!
