use catchup::date::Date;
use catchup::dispatch::Command;
use catchup::dispatch::Step;
use catchup::dispatch::current_date;
use catchup::dispatch::date_from_reading;
use catchup::dispatch::plan;
use catchup::dispatch::trending_step;
use catchup::greet;
use catchup::outcome::FetchOp;
use catchup::outcome::Outcome;
use catchup::outcome::TransportEvent;
use catchup::outcome::clock_failure;
use catchup::outcome::settle;
use catchup::request::Method;

#[test]
fn greet_substitutes_the_name_into_the_template() {
    assert_eq!(greet("Ada"), "Hello, Ada! You've been greeted from Rust!");
    assert_eq!(greet(""), "Hello, ! You've been greeted from Rust!");
    assert_eq!(
        greet("Grace Hopper"),
        "Hello, Grace Hopper! You've been greeted from Rust!"
    );
}

fn failure_message(op: FetchOp, ev: TransportEvent) -> String {
    match settle(op, ev) {
        Outcome::Failure(m) => m,
        Outcome::Success(_) => panic!("expected a failure outcome"),
    }
}

#[test]
fn a_send_failure_names_the_fetch_stage_and_the_operation() {
    assert_eq!(
        failure_message(FetchOp::ZennArticles, TransportEvent::SendError("boom".to_string())),
        "Failed to fetch Zenn articles: boom"
    );
    assert_eq!(
        failure_message(FetchOp::GithubTrending, TransportEvent::SendError("boom".to_string())),
        "Failed to fetch GitHub trending: boom"
    );
    assert_eq!(
        failure_message(FetchOp::RedditPosts, TransportEvent::SendError("boom".to_string())),
        "Failed to fetch Reddit posts: boom"
    );
}

#[test]
fn a_read_failure_names_the_read_stage() {
    assert_eq!(
        failure_message(FetchOp::ZennArticles, TransportEvent::ReadError("cut off".to_string())),
        "Failed to read response: cut off"
    );
    assert_eq!(
        failure_message(FetchOp::RedditPosts, TransportEvent::ReadError("cut off".to_string())),
        "Failed to read response: cut off"
    );
}

#[test]
fn a_client_build_failure_names_the_client_stage() {
    assert_eq!(
        failure_message(FetchOp::GithubTrending, TransportEvent::ClientError("no tls".to_string())),
        "Failed to build HTTP client: no tls"
    );
}

#[test]
fn a_body_is_returned_as_success_unmodified() {
    let payload = "  {\"data\": [1, 2]} caf\u{00e9}\r\n\t ".to_string();
    match settle(FetchOp::ZennArticles, TransportEvent::Body(payload.clone())) {
        Outcome::Success(b) => assert_eq!(b, payload),
        Outcome::Failure(_) => panic!("expected a success outcome"),
    }
}

#[test]
fn an_unusable_clock_reads_as_its_own_failure() {
    match clock_failure() {
        Outcome::Failure(m) => assert_eq!(
            m,
            "Failed to determine the current date: the system clock is unreadable or out of range"
        ),
        Outcome::Success(_) => panic!("expected a failure outcome"),
    }
}

#[test]
fn plan_answers_the_greeting_without_a_fetch() {
    match plan(&Command::Greet("Ada".to_string())) {
        Some(Step::Reply(Outcome::Success(m))) => {
            assert_eq!(m, "Hello, Ada! You've been greeted from Rust!")
        }
        _ => panic!("expected an immediate successful reply"),
    }
}

#[test]
fn plan_hands_back_the_zenn_fetch() {
    match plan(&Command::FetchZennArticles) {
        Some(Step::Fetch(op, rd)) => {
            assert_eq!(op, FetchOp::ZennArticles);
            assert_eq!(rd.url, "https://zenn.dev/api/articles?order=liked");
            assert!(rd.headers.is_empty());
        }
        _ => panic!("expected a fetch step"),
    }
}

#[test]
fn plan_hands_back_the_reddit_fetch() {
    match plan(&Command::FetchRedditPosts("programming".to_string())) {
        Some(Step::Fetch(op, rd)) => {
            assert_eq!(op, FetchOp::RedditPosts);
            assert_eq!(rd.url, "https://www.reddit.com/r/programming/hot.json?limit=10");
            assert_eq!(rd.headers[0].0, "User-Agent");
            assert_eq!(rd.headers[0].1, "CatchUp/1.0");
        }
        _ => panic!("expected a fetch step"),
    }
}

#[test]
fn plan_embeds_a_dated_boundary_for_the_trending_fetch() {
    let prefix = "https://api.github.com/search/repositories?q=created:>";
    let suffix = "&sort=stars&order=desc&per_page=30";
    match plan(&Command::FetchGithubTrending) {
        Some(Step::Fetch(op, rd)) => {
            assert_eq!(op, FetchOp::GithubTrending);
            assert_eq!(rd.method, Method::Get);
            assert!(rd.url.starts_with(prefix));
            assert!(rd.url.ends_with(suffix));
            let boundary = &rd.url[prefix.len()..rd.url.len() - suffix.len()];
            assert_eq!(boundary.len(), 10);
            let bytes = boundary.as_bytes();
            for (i, b) in bytes.iter().enumerate() {
                if i == 4 || i == 7 {
                    assert_eq!(*b, b'-');
                } else {
                    assert!(b.is_ascii_digit());
                }
            }
            assert_eq!(rd.headers[0].0, "User-Agent");
            assert_eq!(rd.headers[0].1, "CatchUp/1.0");
        }
        _ => panic!("expected a fetch step"),
    }
}

#[test]
fn date_from_reading_accepts_exactly_the_supported_valid_dates() {
    assert_eq!(
        date_from_reading(Some((2026, 10, 9))),
        Some(Date { year: 2026, month: 10, day: 9 })
    );
    assert_eq!(date_from_reading(Some((1, 1, 1))), Some(Date { year: 1, month: 1, day: 1 }));
    assert_eq!(date_from_reading(None), None);
    assert_eq!(date_from_reading(Some((0, 5, 5))), None);
    assert_eq!(date_from_reading(Some((-50, 3, 3))), None);
    assert_eq!(date_from_reading(Some((10000, 1, 1))), None);
    assert_eq!(date_from_reading(Some((2023, 2, 29))), None);
    assert_eq!(date_from_reading(Some((2026, 13, 1))), None);
}

#[test]
fn trending_step_issues_a_fetch_exactly_when_a_boundary_exists() {
    match trending_step(Some(Date { year: 2024, month: 3, day: 8 })) {
        Some(Step::Fetch(op, rd)) => {
            assert_eq!(op, FetchOp::GithubTrending);
            assert_eq!(
                rd.url,
                "https://api.github.com/search/repositories?q=created:>2024-03-01&sort=stars&order=desc&per_page=30"
            );
            assert_eq!(rd.headers[0].0, "User-Agent");
            assert_eq!(rd.headers[0].1, "CatchUp/1.0");
        }
        _ => panic!("expected a trending fetch step"),
    }
    assert!(trending_step(None).is_none());
    assert!(trending_step(Some(Date { year: 1, month: 1, day: 3 })).is_none());
    assert!(trending_step(Some(Date { year: 1, month: 1, day: 8 })).is_some());
}

#[test]
fn the_clock_reads_a_plausible_current_date() {
    let today = current_date().expect("the clock lies in the supported range");
    assert!(today.year >= 2020);
    assert!((1..=12).contains(&today.month));
    assert!((1..=31).contains(&today.day));
    let boundary = today.week_earlier();
    assert_eq!(u64::from(boundary.day_number()), u64::from(today.day_number()) - 7);
}
