//! What the metrics stage of the pipeline decides for each request: the
//! labels under which the request is counted and timed, and the names and
//! bucket bounds of the two aggregates that it feeds.
//!
//! The stage wraps the dispatch of every route. Before dispatch it notes the
//! method and the route template; when the response is there, whatever its
//! status, it completes the note into one set of labels. The application
//! measures the elapsed time and reports both to its recorder: it adds one to
//! the counter [`requests_total`] and one observation to the histogram
//! [`requests_duration_seconds`], each under those labels.

use vstd::prelude::*;
use vstd::string::StringExecFns;

use crate::pipeline::REQUEST_TIMEOUT_SECONDS;
use crate::todo::optional_text;

verus! {

/// The decimal digit that stands for `d`, for `d` below ten.
pub open spec fn digit(d: nat) -> char {
    if d == 0 {
        '0'
    } else if d == 1 {
        '1'
    } else if d == 2 {
        '2'
    } else if d == 3 {
        '3'
    } else if d == 4 {
        '4'
    } else if d == 5 {
        '5'
    } else if d == 6 {
        '6'
    } else if d == 7 {
        '7'
    } else if d == 8 {
        '8'
    } else {
        '9'
    }
}

/// The decimal numeral of `n`: no sign, no leading zero, `"0"` for zero.
pub open spec fn decimal(n: nat) -> Seq<char>
    decreases n,
{
    if n < 10 {
        seq![digit(n)]
    } else {
        decimal(n / 10).push(digit(n % 10))
    }
}

/// The numeral of a single digit.
fn digit_text(d: u16) -> (text: &'static str)
    requires
        d < 10,
    ensures
        text@ == seq![digit(d as nat)],
{
    proof {
        reveal_strlit("0");
        reveal_strlit("1");
        reveal_strlit("2");
        reveal_strlit("3");
        reveal_strlit("4");
        reveal_strlit("5");
        reveal_strlit("6");
        reveal_strlit("7");
        reveal_strlit("8");
        reveal_strlit("9");
    }
    let text = if d == 0 {
        "0"
    } else if d == 1 {
        "1"
    } else if d == 2 {
        "2"
    } else if d == 3 {
        "3"
    } else if d == 4 {
        "4"
    } else if d == 5 {
        "5"
    } else if d == 6 {
        "6"
    } else if d == 7 {
        "7"
    } else if d == 8 {
        "8"
    } else {
        "9"
    };
    assert(text@ =~= seq![digit(d as nat)]);
    text
}

/// Appends the decimal numeral of `n` to `out`.
fn push_decimal(n: u16, out: &mut String)
    ensures
        final(out)@ == old(out)@ + decimal(n as nat),
    decreases n,
{
    if n >= 10 {
        push_decimal(n / 10, out);
    }
    out.append(digit_text(n % 10));
    assert(out@ =~= old(out)@ + decimal(n as nat));
}

/// The label value of a response status: its decimal numeral, as in `"200"`.
pub fn status_label(status: u16) -> (label: String)
    ensures
        label@ == decimal(status as nat),
{
    let mut label = String::new();
    push_decimal(status, &mut label);
    assert(label@ =~= decimal(status as nat));
    label
}

/// The path under which a request is counted: the template of the route that
/// handles it, so that all requests to one route share a label, and the
/// literal path only where no route matched.
pub open spec fn label_path(matched: Option<Seq<char>>, literal: Seq<char>) -> Seq<char> {
    match matched {
        Some(template) => template,
        None => literal,
    }
}

/// Mathematical value of [`RequestLabels`].
pub struct RequestLabelsView {
    pub method: Seq<char>,
    pub path: Seq<char>,
    pub status: Seq<char>,
}

/// The labels under which one completed request is counted and timed.
#[derive(Debug, PartialEq, Eq)]
pub struct RequestLabels {
    pub method: String,
    pub path: String,
    pub status: String,
}

impl View for RequestLabels {
    type V = RequestLabelsView;

    open spec fn view(&self) -> RequestLabelsView {
        RequestLabelsView { method: self.method@, path: self.path@, status: self.status@ }
    }
}

impl RequestLabels {
    /// The labels as the name and value pairs that a recorder takes, in the
    /// order `method`, `path`, `status`.
    pub fn pairs(&self) -> (pairs: Vec<(&'static str, String)>)
        ensures
            pairs@.len() == 3,
            pairs@[0].0@ == "method"@ && pairs@[0].1@ == self@.method,
            pairs@[1].0@ == "path"@ && pairs@[1].1@ == self@.path,
            pairs@[2].0@ == "status"@ && pairs@[2].1@ == self@.status,
    {
        let mut pairs: Vec<(&'static str, String)> = Vec::new();
        pairs.push(("method", self.method.clone()));
        pairs.push(("path", self.path.clone()));
        pairs.push(("status", self.status.clone()));
        pairs
    }
}

/// Mathematical value of a [`PendingRequest`].
pub struct PendingRequestView {
    pub method: Seq<char>,
    pub path: Seq<char>,
}

/// A request that has been noted before dispatch and not yet answered.
///
/// Completing it consumes it, so one request yields one set of labels and is
/// counted once.
#[derive(Debug)]
pub struct PendingRequest {
    method: String,
    path: String,
}

impl View for PendingRequest {
    type V = PendingRequestView;

    closed spec fn view(&self) -> PendingRequestView {
        PendingRequestView { method: self.method@, path: self.path@ }
    }
}

impl PendingRequest {
    /// Notes a request before it is dispatched: its method, and the path
    /// under which it will be counted.
    pub fn start(method: String, matched_path: Option<String>, uri_path: String) -> (pending:
        PendingRequest)
        ensures
            pending@.method == method@,
            pending@.path == label_path(optional_text(matched_path), uri_path@),
    {
        let path = match matched_path {
            Some(template) => template,
            None => uri_path,
        };
        PendingRequest { method, path }
    }

    /// Completes the note with the status of the response, whatever that
    /// status is: success, client error, server error or timeout.
    pub fn complete(self, status: u16) -> (labels: RequestLabels)
        ensures
            labels@.method == self@.method,
            labels@.path == self@.path,
            labels@.status == decimal(status as nat),
    {
        RequestLabels { method: self.method, path: self.path, status: status_label(status) }
    }
}

/// The labels of a request, from what is known before dispatch and the
/// status that came back.
pub fn track_metrics(
    method: String,
    matched_path: Option<String>,
    uri_path: String,
    status: u16,
) -> (labels: RequestLabels)
    ensures
        labels@.method == method@,
        labels@.path == label_path(optional_text(matched_path), uri_path@),
        labels@.status == decimal(status as nat),
{
    PendingRequest::start(method, matched_path, uri_path).complete(status)
}

/// Name of the counter of completed requests.
pub fn requests_total() -> (name: &'static str)
    ensures
        name@ == "http_requests_total"@,
{
    "http_requests_total"
}

/// Name of the histogram of request latencies, in seconds.
pub fn requests_duration_seconds() -> (name: &'static str)
    ensures
        name@ == "http_requests_duration_seconds"@,
{
    "http_requests_duration_seconds"
}

/// Upper bounds of the latency buckets, in milliseconds: from 5 ms to 10 s.
pub open spec fn latency_bounds_millis() -> Seq<u64> {
    seq![5, 10, 25, 50, 100, 250, 500, 1000, 2500, 5000, 10000]
}

/// The upper bounds of the latency buckets, in milliseconds. They rise
/// strictly, and the last one is the request timeout, so that every request
/// answered within the timeout falls into a bounded bucket.
pub fn latency_buckets_millis() -> (bounds: Vec<u64>)
    ensures
        bounds@ == latency_bounds_millis(),
        forall|i: int, j: int| 0 <= i < j < bounds@.len() ==> bounds@[i] < bounds@[j],
        bounds@[bounds@.len() - 1] == REQUEST_TIMEOUT_SECONDS * 1000,
{
    let mut bounds: Vec<u64> = Vec::new();
    bounds.push(5);
    bounds.push(10);
    bounds.push(25);
    bounds.push(50);
    bounds.push(100);
    bounds.push(250);
    bounds.push(500);
    bounds.push(1000);
    bounds.push(2500);
    bounds.push(5000);
    bounds.push(10000);
    assert(bounds@ =~= latency_bounds_millis());
    bounds
}

/// A request counter is modelled as a map from labels to the number of
/// requests counted under them; labels that the map lacks stand at zero.
/// This is how often requests have been counted under `labels`.
pub open spec fn count_of(counts: Map<RequestLabelsView, nat>, labels: RequestLabelsView) -> nat {
    if counts.contains_key(labels) {
        counts[labels]
    } else {
        0
    }
}

/// The model of a request counter after one more request has been counted
/// under `labels`.
pub open spec fn counted(counts: Map<RequestLabelsView, nat>, labels: RequestLabelsView) -> Map<
    RequestLabelsView,
    nat,
> {
    counts.insert(labels, count_of(counts, labels) + 1)
}

/// In that model, counting a completed request raises the count of its own
/// labels by exactly one and leaves the count of every other set of labels as
/// it was.
pub proof fn lemma_counted_once(
    counts: Map<RequestLabelsView, nat>,
    labels: RequestLabelsView,
    other: RequestLabelsView,
)
    ensures
        count_of(counted(counts, labels), labels) == count_of(counts, labels) + 1,
        other != labels ==> count_of(counted(counts, labels), other) == count_of(counts, other),
{
}

} // verus!
