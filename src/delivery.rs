//! The HTTP requests that carry an event to its targets.
use vstd::prelude::*;
use crate::outcome::{failure_text, lemma_failure_text_nonempty, DeliveryResult};
use crate::router::{fallback_reply, law_callback_fanout, lemma_failure_not_fallback};
use crate::config::{routes, DeliveryTarget, EventKind, RelayConfig};

verus! {

/// One POST of an event's JSON payload to one target.
#[derive(Debug, PartialEq, Eq)]
pub struct DeliveryRequest {
    pub target: String,
    pub url: String,
    pub body: Vec<u8>,
    pub timeout_ms: u64,
    pub accept_invalid_certs: bool,
}

/// `q` posts `payload` to `t`, with `t`'s timeout and certificate policy.
pub open spec fn request_matches(q: DeliveryRequest, t: DeliveryTarget, payload: Seq<u8>) -> bool {
    &&& q.target@ == t.name@
    &&& q.url@ == t.url@
    &&& q.body@ == payload
    &&& q.timeout_ms == t.timeout_ms
    &&& q.accept_invalid_certs == t.accept_invalid_certs
}

fn copy_bytes(b: &Vec<u8>) -> (r: Vec<u8>)
    ensures
        r@ == b@,
{
    let mut r: Vec<u8> = Vec::with_capacity(b.len());
    let mut i: usize = 0;
    while i < b.len()
        invariant
            i <= b.len(),
            r@ == b@.take(i as int),
        decreases b.len() - i,
    {
        r.push(b[i]);
        i = i + 1;
        assert(r@ =~= b@.take(i as int));
    }
    assert(b@.take(b.len() as int) =~= b@);
    r
}

/// The request that posts `payload` to `target`. It depends on its two
/// arguments alone, and neither is changed.
pub fn request_for(target: &DeliveryTarget, payload: &Vec<u8>) -> (r: DeliveryRequest)
    ensures
        request_matches(r, *target, payload@),
{
    DeliveryRequest {
        target: target.name.clone(),
        url: target.url.clone(),
        body: copy_bytes(payload),
        timeout_ms: target.timeout_ms,
        accept_invalid_certs: target.accept_invalid_certs,
    }
}

/// `r` is what delivering `payload` to `t` starts from: the request, or the
/// encoding failure with the encoder's message.
pub open spec fn prepared(r: Result<DeliveryRequest, DeliveryResult>, t: DeliveryTarget, payload: Result<Vec<u8>, String>) -> bool {
    match payload {
        Ok(bytes) => r matches Ok(q) && request_matches(q, t, bytes@),
        Err(e) => r matches Err(DeliveryResult::EncodeFailed { error }) && error@ == e@,
    }
}

/// The request that posts an event's `payload` to `target`, or, where the
/// payload could not be encoded, the failed outcome that stands for the
/// delivery, with the encoder's message.
pub fn prepare_delivery(target: &DeliveryTarget, payload: &Result<Vec<u8>, String>) -> (r: Result<DeliveryRequest, DeliveryResult>)
    ensures
        prepared(r, *target, *payload),
{
    match payload {
        Ok(bytes) => Ok(request_for(target, bytes)),
        Err(e) => Err(DeliveryResult::EncodeFailed { error: e.clone() }),
    }
}

/// The deliveries of a callback: one per configured callback target, in
/// priority order, each carrying the same payload (or, where it could not be
/// encoded, each an encoding failure).
pub fn callback_requests(config: &RelayConfig, payload: &Result<Vec<u8>, String>) -> (r: Vec<Result<DeliveryRequest, DeliveryResult>>)
    ensures
        r.len() == routes(*config, EventKind::Callback).len(),
        forall|i: int| 0 <= i < r.len() ==>
            prepared(#[trigger] r[i], routes(*config, EventKind::Callback)[i], *payload),
{
    let targets = config.targets(EventKind::Callback);
    let mut r: Vec<Result<DeliveryRequest, DeliveryResult>> = Vec::new();
    let mut i: usize = 0;
    while i < targets.len()
        invariant
            i <= targets.len(),
            targets@ == routes(*config, EventKind::Callback),
            r.len() == i,
            forall|j: int| 0 <= j < i ==> prepared(#[trigger] r[j], targets@[j], *payload),
        decreases targets.len() - i,
    {
        r.push(prepare_delivery(&targets[i], payload));
        i = i + 1;
    }
    r
}

/// A payload that could not be encoded gives, for any target, a failed
/// outcome and no request; the text it is reported by is not empty and is
/// not the no-target fallback.
pub proof fn law_encode_failure_outcome(t: DeliveryTarget, e: String, r: Result<DeliveryRequest, DeliveryResult>)
    requires
        prepared(r, t, Err::<Vec<u8>, String>(e)),
    ensures
        r matches Err(DeliveryResult::EncodeFailed { .. }),
        failure_text(r->Err_0).len() > 0,
        failure_text(r->Err_0) != fallback_reply(),
{
    lemma_failure_text_nonempty(r->Err_0);
    lemma_failure_not_fallback(r->Err_0);
}

/// Building the request twice for one target and one payload gives the same
/// request both times: delivery keeps no state between calls.
pub proof fn law_request_stateless(t: DeliveryTarget, payload: Seq<u8>, a: DeliveryRequest, b: DeliveryRequest)
    requires
        request_matches(a, t, payload),
        request_matches(b, t, payload),
    ensures
        a.target@ == b.target@,
        a.url@ == b.url@,
        a.body@ == b.body@,
        a.timeout_ms == b.timeout_ms,
        a.accept_invalid_certs == b.accept_invalid_certs,
{
}

/// With both callback targets configured, the callback's requests go to the
/// production and the development target, and both carry the event's
/// payload byte for byte.
pub proof fn law_callback_same_payload(c: RelayConfig, payload: Vec<u8>, reqs: Seq<Result<DeliveryRequest, DeliveryResult>>)
    requires
        c.callback_prod is Some,
        c.callback_dev is Some,
        reqs.len() == routes(c, EventKind::Callback).len(),
        forall|i: int| 0 <= i < reqs.len() ==>
            prepared(#[trigger] reqs[i], routes(c, EventKind::Callback)[i], Ok::<Vec<u8>, String>(payload)),
    ensures
        reqs.len() == 2,
        reqs[0] matches Ok(q) && request_matches(q, c.callback_prod->0, payload@),
        reqs[1] matches Ok(q) && request_matches(q, c.callback_dev->0, payload@),
        reqs[0]->Ok_0.body@ == reqs[1]->Ok_0.body@,
{
    law_callback_fanout(c);
    assert(prepared(reqs[0], routes(c, EventKind::Callback)[0], Ok::<Vec<u8>, String>(payload)));
    assert(prepared(reqs[1], routes(c, EventKind::Callback)[1], Ok::<Vec<u8>, String>(payload)));
}

} // verus!
