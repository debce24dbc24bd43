//! The command dispatcher: the single externally-invocable surface.
//!
//! Given a named operation and its parameters, [`plan`] either answers
//! immediately (the greeting) or hands back the fetch operation together with
//! its fully-resolved request descriptor. The surrounding application issues
//! the request and feeds what the transport reported to
//! [`crate::outcome::settle`], which produces the final outcome. Invocations
//! share no state: every call builds its descriptor fresh.

use vstd::prelude::*;

use chrono::Datelike;

use crate::date::Date;
use crate::date::days_in_month;
use crate::greet;
use crate::greeting_prefix;
use crate::greeting_suffix;
use crate::outcome::FetchOp;
use crate::outcome::Outcome;
use crate::request::Method;
use crate::request::RequestDescriptor;
use crate::request::github_trending_request;
use crate::request::github_trending_url;
use crate::request::has_client_header_only;
use crate::request::has_no_custom_headers;
use crate::request::reddit_posts_request;
use crate::request::reddit_posts_url;
use crate::request::zenn_articles_request;
use crate::request::zenn_articles_url;

verus! {

/// A named operation with its declared parameters, from the closed set the
/// front-end may invoke.
pub enum Command {
    Greet(String),
    FetchZennArticles,
    FetchGithubTrending,
    FetchRedditPosts(String),
}

/// What the dispatcher decided for one invocation: answer at once, or issue
/// the given request for the given fetch operation.
pub enum Step {
    Reply(Outcome),
    Fetch(FetchOp, RequestDescriptor),
}

/// Relies on `std::time::SystemTime::now`,
/// `chrono::DateTime::from_timestamp` and the `chrono::Datelike` accessors,
/// all along their non-panicking paths: a clock before the Unix epoch or past
/// chrono's range yields `None`, and any returned triple is a valid proleptic
/// Gregorian calendar date — the current UTC day — with the month in 1..=12,
/// the day in 1..=31 and within the month, and the year inside chrono's
/// representable range.
#[verifier::external_body]
fn today_utc() -> (r: Option<(i32, u32, u32)>)
    ensures
        r matches Some(t) ==> {
            &&& -262143 <= t.0 <= 262142
            &&& 1 <= t.1 <= 12
            &&& 1 <= t.2 <= 31
            &&& (t.1 == 2 ==> t.2 <= 29)
            &&& ((t.1 == 4 || t.1 == 6 || t.1 == 9 || t.1 == 11) ==> t.2 <= 30)
        },
{
    let since_epoch = std::time::SystemTime::now().duration_since(std::time::UNIX_EPOCH).ok()?;
    let secs = i64::try_from(since_epoch.as_secs()).ok()?;
    let now = chrono::DateTime::from_timestamp(secs, 0)?;
    let d = now.date_naive();
    Some((d.year(), d.month(), d.day()))
}

/// Turns a clock reading into a date of the library: a date comes out exactly
/// when a reading is present, its year lies in the supported range and the
/// triple is a valid calendar date — and it is then that date.
pub fn date_from_reading(reading: Option<(i32, u32, u32)>) -> (r: Option<Date>)
    ensures
        r is Some <==> (reading matches Some(v) && 1 <= v.0 <= 9999 && 1 <= v.1 <= 12 && 1 <= v.2
            <= days_in_month(v.0 as int, v.1 as int)),
        r matches Some(d) ==> (reading matches Some(v) && d == (Date {
            year: v.0 as u32,
            month: v.1,
            day: v.2,
        }) && d.wf()),
{
    match reading {
        Some((y, m, d)) => {
            if 1 <= y && y <= 9999 {
                Date::new(y as u32, m, d)
            } else {
                None
            }
        },
        None => None,
    }
}

/// Reads the clock and returns the current UTC date, if the clock is readable
/// and the date lies in the library's supported year range — which it does
/// for any realistically set clock.
pub fn current_date() -> (r: Option<Date>)
    ensures
        r matches Some(d) ==> d.wf(),
{
    date_from_reading(today_utc())
}

/// Decides the trending fetch for the given current date: a step comes out
/// exactly when a date is at hand and a week-earlier boundary exists for it
/// in the calendar — and the step then carries the trending request built
/// for that date.
pub fn trending_step(today: Option<Date>) -> (r: Option<Step>)
    requires
        today matches Some(t) ==> t.wf(),
    ensures
        r is Some <==> (today matches Some(t) && t.day_index() >= 7),
        r matches Some(s) ==> (today matches Some(t) && s matches Step::Fetch(op, rd) && op
            == FetchOp::GithubTrending && rd.method == Method::Get && rd.url@
            == github_trending_url(t.week_earlier_spec()) && has_client_header_only(rd)),
{
    match today {
        Some(t) => {
            if t.day_number() >= 7 {
                Some(Step::Fetch(FetchOp::GithubTrending, github_trending_request(t)))
            } else {
                None
            }
        },
        None => None,
    }
}

/// Dispatches one invocation. The greeting is answered at once; each fetch
/// operation yields its request descriptor, built fresh. The result is `None`
/// only for the trending fetch, and exactly when [`trending_step`] declines
/// the date that [`current_date`] read: the clock is unreadable, out of the
/// supported range, or too early for a week-earlier boundary.
pub fn plan(cmd: &Command) -> (r: Option<Step>)
    ensures
        r is None ==> cmd is FetchGithubTrending,
        cmd matches Command::Greet(name) ==> (r matches Some(s) && s matches Step::Reply(o) && o
            matches Outcome::Success(m) && m@ == greeting_prefix() + name@ + greeting_suffix()),
        cmd is FetchZennArticles ==> (r matches Some(s) && s matches Step::Fetch(op, rd) && op
            == FetchOp::ZennArticles && rd.method == Method::Get && rd.url@ == zenn_articles_url()
            && has_no_custom_headers(rd)),
        cmd matches Command::FetchRedditPosts(id) ==> (r matches Some(s) && s matches Step::Fetch(
            op,
            rd,
        ) && op == FetchOp::RedditPosts && rd.method == Method::Get && rd.url@ == reddit_posts_url(
            id@,
        ) && has_client_header_only(rd)),
        cmd is FetchGithubTrending ==> (r matches Some(s) ==> (s matches Step::Fetch(op, rd) && op
            == FetchOp::GithubTrending && rd.method == Method::Get && has_client_header_only(rd)
            && (exists|t: Date|
            #![trigger t.week_earlier_spec()]
            t.wf() && t.day_index() >= 7 && rd.url@ == github_trending_url(
                t.week_earlier_spec(),
            )))),
{
    match cmd {
        Command::Greet(name) => Some(Step::Reply(Outcome::Success(greet(name.as_str())))),
        Command::FetchZennArticles => Some(
            Step::Fetch(FetchOp::ZennArticles, zenn_articles_request()),
        ),
        Command::FetchRedditPosts(id) => Some(
            Step::Fetch(FetchOp::RedditPosts, reddit_posts_request(id.as_str())),
        ),
        Command::FetchGithubTrending => {
            let today = current_date();
            trending_step(today)
        },
    }
}

} // verus!
