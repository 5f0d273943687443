//! What holds of the samples that requests add, whatever the requests are.
//!
//! A request is taken here as a mathematical value: the route template it
//! matched, if any, its literal path, its method and how its handling ended.
//! `update_of` is the label tuple that it adds one sample to, in the counter
//! and in the histogram alike; `updates` counts the samples that a sequence
//! of requests adds to one tuple.

use crate::labels::is_scrape;
use crate::labels::labels_of;
use crate::labels::lemma_labels_injective;
use crate::labels::route_label;
use crate::labels::LabelTuple;
use crate::labels::SCRAPE_METHOD;
use crate::observation::outcome_labels;
use crate::observation::Completion;
use crate::observation::PendingObservation;
use vstd::prelude::*;
use vstd::seq_lib::to_multiset_contains;
use vstd::seq_lib::to_multiset_len;
use vstd::seq_lib::to_multiset_remove;

verus! {

/// A request and how its handling ended.
pub struct Request {
    /// The route template that the request matched, where it matched one.
    pub matched: Option<Seq<char>>,
    /// The literal path of the request.
    pub raw: Seq<char>,
    /// The method of the request.
    pub method: Seq<char>,
    /// How the handling ended.
    pub completion: Completion,
}

/// The label tuple that `request` adds one sample to, if any.
pub open spec fn update_of(scrape: Option<Seq<char>>, request: Request) -> Option<LabelTuple> {
    outcome_labels(
        scrape,
        route_label(request.matched, request.raw),
        request.method,
        request.completion,
    )
}

/// The number of samples that `request` adds to `labels`: one or none.
pub open spec fn adds(scrape: Option<Seq<char>>, request: Request, labels: LabelTuple) -> nat {
    if update_of(scrape, request) == Some(labels) {
        1
    } else {
        0
    }
}

/// The number of samples that `requests` add to `labels`.
pub open spec fn updates(scrape: Option<Seq<char>>, requests: Seq<Request>, labels: LabelTuple) -> nat
    decreases requests.len(),
{
    if requests.len() == 0 {
        0
    } else {
        updates(scrape, requests.drop_last(), labels) + adds(scrape, requests.last(), labels)
    }
}

/// What resolving a pending observation records is what its request adds.
pub proof fn law_resolution_follows_request(
    pending: PendingObservation,
    request: Request,
)
    requires
        !pending.resolved(),
        pending.path() == route_label(request.matched, request.raw),
        pending.method() == request.method,
    ensures
        pending.plan(request.completion) == update_of(pending.scrape_path(), request),
{
}

/// A request that has been resolved adds nothing, however it is resolved
/// again.
pub proof fn law_resolved_adds_nothing(pending: PendingObservation, completion: Completion)
    requires
        pending.resolved(),
    ensures
        pending.plan(completion) is None,
{
}

/// A label tuple has samples only where some request of the sequence adds
/// to it: the tuples with samples are no more than the requests' own, so
/// routed requests fill no more endpoints than there are templates.
pub proof fn law_samples_only_under_request_labels(
    scrape: Option<Seq<char>>,
    requests: Seq<Request>,
    labels: LabelTuple,
)
    requires
        updates(scrape, requests, labels) > 0,
    ensures
        exists|i: int|
            0 <= i < requests.len() && update_of(scrape, #[trigger] requests[i]) == Some(labels),
    decreases requests.len(),
{
    if adds(scrape, requests.last(), labels) == 1 {
        assert(requests[requests.len() - 1] == requests.last());
    } else {
        let rest = requests.drop_last();
        law_samples_only_under_request_labels(scrape, rest, labels);
        let i = choose|i: int| 0 <= i < rest.len() && update_of(scrape, #[trigger] rest[i]) == Some(labels);
        assert(requests[i] == rest[i]);
    }
}

/// A request adds a sample to at most one label tuple, and at most one
/// sample to it.
pub proof fn law_at_most_one_update(
    scrape: Option<Seq<char>>,
    request: Request,
    labels: LabelTuple,
    other: LabelTuple,
)
    requires
        labels != other,
    ensures
        updates(scrape, seq![request], labels) + updates(scrape, seq![request], other) <= 1,
{
    let one = seq![request];
    assert(one.drop_last() =~= Seq::<Request>::empty());
    assert(one.last() == request);
    reveal_with_fuel(updates, 2);
    assert(updates(scrape, one, labels) == adds(scrape, request, labels));
    assert(updates(scrape, one, other) == adds(scrape, request, other));
}

/// One sequence of requests after another adds what the two add apart.
pub proof fn law_updates_add_up(
    scrape: Option<Seq<char>>,
    first: Seq<Request>,
    second: Seq<Request>,
    labels: LabelTuple,
)
    ensures
        updates(scrape, first + second, labels) == updates(scrape, first, labels) + updates(
            scrape,
            second,
            labels,
        ),
    decreases second.len(),
{
    if second.len() == 0 {
        assert(first + second =~= first);
    } else {
        assert((first + second).drop_last() =~= first + second.drop_last());
        assert((first + second).last() == second.last());
        law_updates_add_up(scrape, first, second.drop_last(), labels);
    }
}

/// Taking one request out of a sequence takes out what that request adds.
proof fn lemma_updates_without(
    scrape: Option<Seq<char>>,
    requests: Seq<Request>,
    i: int,
    labels: LabelTuple,
)
    requires
        0 <= i < requests.len(),
    ensures
        updates(scrape, requests, labels) == updates(scrape, requests.remove(i), labels) + adds(
            scrape,
            requests[i],
            labels,
        ),
    decreases requests.len(),
{
    if i == requests.len() - 1 {
        assert(requests.remove(i) =~= requests.drop_last());
    } else {
        assert(requests.remove(i).drop_last() =~= requests.drop_last().remove(i));
        assert(requests.remove(i).last() == requests.last());
        lemma_updates_without(scrape, requests.drop_last(), i, labels);
    }
}

/// The order in which requests complete does not change what they add: the
/// same requests in any other order add the same number of samples to every
/// label tuple, so none is lost however they interleave.
pub proof fn law_order_is_immaterial(
    scrape: Option<Seq<char>>,
    requests: Seq<Request>,
    reordered: Seq<Request>,
    labels: LabelTuple,
)
    requires
        requests.to_multiset() == reordered.to_multiset(),
    ensures
        updates(scrape, requests, labels) == updates(scrape, reordered, labels),
    decreases requests.len(),
{
    to_multiset_len(requests);
    to_multiset_len(reordered);
    if requests.len() > 0 {
        let last = requests.len() - 1;
        let request = requests[last];
        assert(requests.contains(request));
        to_multiset_contains(requests, request);
        to_multiset_contains(reordered, request);
        let j = choose|j: int| 0 <= j < reordered.len() && reordered[j] == request;
        to_multiset_remove(requests, last);
        to_multiset_remove(reordered, j);
        assert(requests.remove(last) =~= requests.drop_last());
        law_order_is_immaterial(scrape, requests.drop_last(), reordered.remove(j), labels);
        lemma_updates_without(scrape, reordered, j, labels);
    }
}

/// A request adds to the tuple of a path, a method and a status code exactly
/// when it was answered with that code, carries that method, has that path
/// as its endpoint label and is not the scrape itself.
pub proof fn law_request_adds_to_its_own_tuple(
    scrape: Option<Seq<char>>,
    request: Request,
    path: Seq<char>,
    method: Seq<char>,
    status: u16,
)
    ensures
        adds(scrape, request, labels_of(path, method, status)) == 1 <==> {
            &&& request.completion == Completion::Responded(status)
            &&& request.method == method
            &&& route_label(request.matched, request.raw) == path
            &&& !is_scrape(scrape, path, method)
        },
{
    match request.completion {
        Completion::Responded(answered) => {
            lemma_labels_injective(
                route_label(request.matched, request.raw),
                request.method,
                answered,
                path,
                method,
                status,
            );
        },
        Completion::Failed => {},
    }
}

/// Requests that matched `template`, carry `method` and were answered with
/// `status` add one sample each to the tuple of the three, so that the
/// tuple has as many samples as there were requests. The scrape itself is
/// left out.
pub proof fn law_each_request_counted(
    scrape: Option<Seq<char>>,
    requests: Seq<Request>,
    template: Seq<char>,
    method: Seq<char>,
    status: u16,
)
    requires
        forall|i: int|
            0 <= i < requests.len() ==> {
                &&& (#[trigger] requests[i]).matched == Some(template)
                &&& requests[i].method == method
                &&& requests[i].completion == Completion::Responded(status)
            },
        !is_scrape(scrape, template, method),
    ensures
        updates(scrape, requests, labels_of(template, method, status)) == requests.len(),
    decreases requests.len(),
{
    if requests.len() > 0 {
        let rest = requests.drop_last();
        assert forall|i: int| 0 <= i < rest.len() implies {
            &&& (#[trigger] rest[i]).matched == Some(template)
            &&& rest[i].method == method
            &&& rest[i].completion == Completion::Responded(status)
        } by {
            assert(rest[i] == requests[i]);
        }
        law_each_request_counted(scrape, rest, template, method, status);
        let last = requests.last();
        assert(last == requests[requests.len() - 1]);
        assert(update_of(scrape, last) == Some(labels_of(template, method, status)));
    }
}

/// A `GET` request whose endpoint label is the scrape path adds no sample.
pub proof fn law_scrape_not_counted(
    scrape: Seq<char>,
    requests: Seq<Request>,
    request: Request,
    labels: LabelTuple,
)
    requires
        route_label(request.matched, request.raw) == scrape,
        request.method == SCRAPE_METHOD@,
    ensures
        update_of(Some(scrape), request) is None,
        updates(Some(scrape), requests.push(request), labels) == updates(
            Some(scrape),
            requests,
            labels,
        ),
{
    assert(requests.push(request).drop_last() =~= requests);
    assert(requests.push(request).last() == request);
}

/// A request with another method than `GET` adds a sample wherever it goes,
/// the scrape path included, and so does every answered request where no
/// scrape path is configured.
pub proof fn law_other_requests_counted(
    scrape: Option<Seq<char>>,
    requests: Seq<Request>,
    request: Request,
    status: u16,
)
    requires
        request.completion == Completion::Responded(status),
        request.method != SCRAPE_METHOD@ || scrape is None,
    ensures
        update_of(scrape, request) == Some(
            labels_of(route_label(request.matched, request.raw), request.method, status),
        ),
        updates(
            scrape,
            requests.push(request),
            labels_of(route_label(request.matched, request.raw), request.method, status),
        ) == updates(
            scrape,
            requests,
            labels_of(route_label(request.matched, request.raw), request.method, status),
        ) + 1,
{
    assert(requests.push(request).drop_last() =~= requests);
    assert(requests.push(request).last() == request);
}

/// Two requests that matched the same template, with the same method and
/// the same completion, add to the same label tuple, whatever their literal
/// paths are; and the endpoint label of a routed request is its template.
pub proof fn law_template_decides_label(scrape: Option<Seq<char>>, a: Request, b: Request)
    requires
        a.matched is Some,
        a.matched == b.matched,
        a.method == b.method,
        a.completion == b.completion,
    ensures
        update_of(scrape, a) == update_of(scrape, b),
        update_of(scrape, a) matches Some(labels) ==> Some(labels.endpoint) == a.matched,
{
}

/// A request whose handler failed adds no sample to any label tuple.
pub proof fn law_failure_not_counted(
    scrape: Option<Seq<char>>,
    requests: Seq<Request>,
    request: Request,
    labels: LabelTuple,
)
    requires
        request.completion == Completion::Failed,
    ensures
        update_of(scrape, request) is None,
        updates(scrape, requests.push(request), labels) == updates(scrape, requests, labels),
{
    assert(requests.push(request).drop_last() =~= requests);
    assert(requests.push(request).last() == request);
}

} // verus!
