//! Request descriptors for the three feed providers.
//!
//! Each builder turns an operation and its parameters into a fully-resolved
//! method/URL/headers triple. No builder performs network I/O; the trending
//! builder is the only one that depends on a date, and the community-post
//! builder inserts its identifier into the URL path verbatim, without
//! escaping.

use vstd::prelude::*;

use crate::date::Date;
use crate::date::lemma_day_index_injective;
use crate::date::lemma_week_earlier_spec;
use crate::date::lemma_ymd_seq_injective;

verus! {

/// The request method; every provider is fetched with a read-only GET.
#[derive(Clone, Copy, Debug, PartialEq, Eq, Structural)]
pub enum Method {
    Get,
}

/// A fully-resolved outbound request: method, URL and headers, built fresh
/// per invocation.
pub struct RequestDescriptor {
    pub method: Method,
    pub url: String,
    pub headers: Vec<(String, String)>,
}

/// The client-identifying header name sent to providers that reject
/// anonymous-looking requests.
pub open spec fn user_agent_name() -> Seq<char> {
    "User-Agent"@
}

/// The fixed product-and-version string identifying this client.
pub open spec fn user_agent_value() -> Seq<char> {
    "CatchUp/1.0"@
}

/// The descriptor carries no headers at all.
pub open spec fn has_no_custom_headers(rd: RequestDescriptor) -> bool {
    rd.headers@.len() == 0
}

/// The descriptor carries exactly one header: the client-identifying one.
pub open spec fn has_client_header_only(rd: RequestDescriptor) -> bool {
    &&& rd.headers@.len() == 1
    &&& rd.headers@[0].0@ == user_agent_name()
    &&& rd.headers@[0].1@ == user_agent_value()
}

/// The fixed article-feed endpoint, selecting the popularity ordering.
pub open spec fn zenn_articles_url() -> Seq<char> {
    "https://zenn.dev/api/articles?order=liked"@
}

/// The trending search URL up to the embedded date boundary.
pub open spec fn github_url_prefix() -> Seq<char> {
    "https://api.github.com/search/repositories?q=created:>"@
}

/// The trending search URL after the date boundary: fixed sort and page size.
pub open spec fn github_url_suffix() -> Seq<char> {
    "&sort=stars&order=desc&per_page=30"@
}

/// The trending search URL with `boundary` embedded as `YYYY-MM-DD`.
pub open spec fn github_trending_url(boundary: Date) -> Seq<char> {
    github_url_prefix() + boundary.ymd_seq() + github_url_suffix()
}

/// The community-post URL up to the caller-supplied identifier.
pub open spec fn reddit_url_prefix() -> Seq<char> {
    "https://www.reddit.com/r/"@
}

/// The community-post URL after the identifier: fixed sort and result limit.
pub open spec fn reddit_url_suffix() -> Seq<char> {
    "/hot.json?limit=10"@
}

/// The community-post URL with `subreddit` embedded verbatim.
pub open spec fn reddit_posts_url(subreddit: Seq<char>) -> Seq<char> {
    reddit_url_prefix() + subreddit + reddit_url_suffix()
}

/// Builds the article-feed request: the fixed URL and no custom headers.
pub fn zenn_articles_request() -> (r: RequestDescriptor)
    ensures
        r.method == Method::Get,
        r.url@ == zenn_articles_url(),
        has_no_custom_headers(r),
{
    RequestDescriptor {
        method: Method::Get,
        url: String::from_str("https://zenn.dev/api/articles?order=liked"),
        headers: Vec::new(),
    }
}

/// Builds the trending-repository request for the given invocation day: the
/// search URL embeds the day one week earlier as its creation-date boundary,
/// and the client-identifying header is attached.
pub fn github_trending_request(today: Date) -> (r: RequestDescriptor)
    requires
        today.wf(),
        today.day_index() >= 7,
    ensures
        r.method == Method::Get,
        r.url@ == github_trending_url(today.week_earlier_spec()),
        has_client_header_only(r),
{
    let boundary = today.week_earlier();
    let date_str = boundary.ymd_string();
    let mut url = String::from_str("https://api.github.com/search/repositories?q=created:>");
    url.append(date_str.as_str());
    url.append("&sort=stars&order=desc&per_page=30");
    RequestDescriptor { method: Method::Get, url, headers: client_headers() }
}

/// Builds the community-post request for the given identifier: the URL embeds
/// the identifier verbatim, with no escaping, and the client-identifying
/// header is attached.
pub fn reddit_posts_request(subreddit: &str) -> (r: RequestDescriptor)
    ensures
        r.method == Method::Get,
        r.url@ == reddit_posts_url(subreddit@),
        has_client_header_only(r),
{
    let mut url = String::from_str("https://www.reddit.com/r/");
    url.append(subreddit);
    url.append("/hot.json?limit=10");
    RequestDescriptor { method: Method::Get, url, headers: client_headers() }
}

/// The one-element header list shared by the providers that need the
/// client-identifying header.
fn client_headers() -> (r: Vec<(String, String)>)
    ensures
        r@.len() == 1,
        r@[0].0@ == user_agent_name(),
        r@[0].1@ == user_agent_value(),
{
    let mut h: Vec<(String, String)> = Vec::new();
    h.push((String::from_str("User-Agent"), String::from_str("CatchUp/1.0")));
    h
}

/// Law: trending fetches on different calendar days embed different date
/// boundaries — each boundary is the invocation day moved back one week, so
/// distinct days give distinct `YYYY-MM-DD` renderings and distinct URLs.
pub proof fn lemma_distinct_days_distinct_boundaries(t1: Date, t2: Date)
    requires
        t1.wf(),
        t2.wf(),
        t1.day_index() >= 7,
        t2.day_index() >= 7,
        t1 != t2,
    ensures
        t1.week_earlier_spec().day_index() == t1.day_index() - 7,
        t2.week_earlier_spec().day_index() == t2.day_index() - 7,
        t1.week_earlier_spec().ymd_seq() != t2.week_earlier_spec().ymd_seq(),
        github_trending_url(t1.week_earlier_spec()) != github_trending_url(t2.week_earlier_spec()),
{
    lemma_week_earlier_spec(t1);
    lemma_week_earlier_spec(t2);
    let b1 = t1.week_earlier_spec();
    let b2 = t2.week_earlier_spec();
    if t1.day_index() == t2.day_index() {
        lemma_day_index_injective(t1, t2);
    }
    if b1.ymd_seq() == b2.ymd_seq() {
        lemma_ymd_seq_injective(b1, b2);
    }
    if github_trending_url(b1) == github_trending_url(b2) {
        assert forall|i: int| 0 <= i < 10 implies b1.ymd_seq()[i] == b2.ymd_seq()[i] by {
            assert(github_trending_url(b1)[github_url_prefix().len() + i] == b1.ymd_seq()[i]);
            assert(github_trending_url(b2)[github_url_prefix().len() + i] == b2.ymd_seq()[i]);
        }
        assert(b1.ymd_seq() =~= b2.ymd_seq());
    }
}

} // verus!
