//! The uniform success/failure contract returned to the caller.
//!
//! Every fetch ends in exactly one [`Outcome`]: the raw response body,
//! unmodified, or a single flattened failure message. The message names the
//! stage that failed — building the client, sending the request, or reading
//! the response body — followed by the transport's own description.

use vstd::prelude::*;

verus! {

/// The result of one invocation: the raw payload, or one flattened,
/// human-readable failure message.
pub enum Outcome {
    Success(String),
    Failure(String),
}

/// The three fetch operations, one per provider.
#[derive(Clone, Copy, Debug, PartialEq, Eq, Structural)]
pub enum FetchOp {
    ZennArticles,
    GithubTrending,
    RedditPosts,
}

/// What the network transport reported for one issued request: the full
/// response body, or the stage that failed with the transport's description.
pub enum TransportEvent {
    /// The transport client could not be built.
    ClientError(String),
    /// The request could not be sent (connection, DNS, TLS).
    SendError(String),
    /// The response body could not be fully read.
    ReadError(String),
    /// The raw response body, exactly as received.
    Body(String),
}

/// The message prefix naming a failed client build.
pub open spec fn client_error_prefix() -> Seq<char> {
    "Failed to build HTTP client: "@
}

/// The message prefix naming a failed response read.
pub open spec fn read_error_prefix() -> Seq<char> {
    "Failed to read response: "@
}

/// The message prefix naming a failed request send, per operation.
pub open spec fn send_error_prefix(op: FetchOp) -> Seq<char> {
    match op {
        FetchOp::ZennArticles => "Failed to fetch Zenn articles: "@,
        FetchOp::GithubTrending => "Failed to fetch GitHub trending: "@,
        FetchOp::RedditPosts => "Failed to fetch Reddit posts: "@,
    }
}

/// Maps what the transport reported to the outcome handed to the caller: a
/// body becomes a success, unmodified; each failure becomes one message that
/// names the failing stage and carries the transport's description.
pub fn settle(op: FetchOp, ev: TransportEvent) -> (r: Outcome)
    ensures
        ev matches TransportEvent::Body(b) ==> r == Outcome::Success(b),
        ev matches TransportEvent::ClientError(e) ==> (r matches Outcome::Failure(m) && m@
            == client_error_prefix() + e@),
        ev matches TransportEvent::SendError(e) ==> (r matches Outcome::Failure(m) && m@
            == send_error_prefix(op) + e@),
        ev matches TransportEvent::ReadError(e) ==> (r matches Outcome::Failure(m) && m@
            == read_error_prefix() + e@),
{
    match ev {
        TransportEvent::Body(b) => Outcome::Success(b),
        TransportEvent::ClientError(e) => {
            let mut m = String::from_str("Failed to build HTTP client: ");
            m.append(e.as_str());
            Outcome::Failure(m)
        },
        TransportEvent::SendError(e) => {
            let mut m = match op {
                FetchOp::ZennArticles => String::from_str("Failed to fetch Zenn articles: "),
                FetchOp::GithubTrending => String::from_str("Failed to fetch GitHub trending: "),
                FetchOp::RedditPosts => String::from_str("Failed to fetch Reddit posts: "),
            };
            m.append(e.as_str());
            Outcome::Failure(m)
        },
        TransportEvent::ReadError(e) => {
            let mut m = String::from_str("Failed to read response: ");
            m.append(e.as_str());
            Outcome::Failure(m)
        },
    }
}

/// The message reported when no usable current date can be read from the
/// system clock, so no request could be built.
pub open spec fn clock_error_message() -> Seq<char> {
    "Failed to determine the current date: the system clock is unreadable or out of range"@
}

/// The failure outcome for an invocation that could not build its request
/// because the system clock gave no usable current date: unreadable, outside
/// the supported years, or too early for a week-earlier boundary.
pub fn clock_failure() -> (r: Outcome)
    ensures
        r matches Outcome::Failure(m) && m@ == clock_error_message(),
{
    Outcome::Failure(
        String::from_str(
            "Failed to determine the current date: the system clock is unreadable or out of range",
        ),
    )
}

/// Law: the stage is readable off the message. Whatever the transport's own
/// descriptions were, a send-stage message, a read-stage message and a
/// client-build message are pairwise distinct, for every operation.
pub proof fn lemma_stage_tagged_messages_distinct(op: FetchOp, e1: Seq<char>, e2: Seq<char>)
    ensures
        send_error_prefix(op) + e1 != read_error_prefix() + e2,
        send_error_prefix(op) + e1 != client_error_prefix() + e2,
        client_error_prefix() + e1 != read_error_prefix() + e2,
{
    reveal_strlit("Failed to build HTTP client: ");
    reveal_strlit("Failed to read response: ");
    reveal_strlit("Failed to fetch Zenn articles: ");
    reveal_strlit("Failed to fetch GitHub trending: ");
    reveal_strlit("Failed to fetch Reddit posts: ");
    assert((send_error_prefix(op) + e1)[10] != (read_error_prefix() + e2)[10]);
    assert((send_error_prefix(op) + e1)[10] != (client_error_prefix() + e2)[10]);
    assert((client_error_prefix() + e1)[10] != (read_error_prefix() + e2)[10]);
}

} // verus!
