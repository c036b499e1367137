//! Routing decisions: which target a command goes to next and what it is
//! answered with, and which callback deliveries are reported as failed.
//!
//! The caller drives a command as a loop: it asks `next_command_action` with
//! the outcomes gathered so far, performs the delivery it is told to, and
//! stops at the first reply.
use vstd::prelude::*;
use crate::config::{routes, DeliveryTarget, EventKind, RelayConfig};
use crate::outcome::{
    accepted, delivered, failure_text, lemma_failure_text_nonempty, reply_of, DeliveryOutcome,
    DeliveryResult,
};

verus! {

/// Reply to a command for which no target is configured.
pub open spec fn fallback_reply() -> Seq<char> {
    "Failed to talk to backend. slack_socket_bridge didn't find any ENV variable webhook token."@
}

pub fn fallback_reply_text() -> (r: String)
    ensures
        r@ == fallback_reply(),
{
    String::from_str("Failed to talk to backend. slack_socket_bridge didn't find any ENV variable webhook token.")
}

/// The results of a sequence of outcomes.
pub open spec fn results(s: Seq<DeliveryOutcome>) -> Seq<DeliveryResult> {
    s.map_values(|o: DeliveryOutcome| o.result)
}

/// What to do next for a command.
#[derive(Debug, PartialEq, Eq)]
pub enum CommandAction {
    /// Post the event to the target at this index of the command's targets.
    Deliver(usize),
    /// Answer the command with this text; nothing further is done.
    Reply(String),
}

/// With `n` targets and the results `hist` of the deliveries made so far, the
/// command is answered now: the last delivery gave a usable answer, or every
/// target has been tried.
pub open spec fn reply_due(n: nat, hist: Seq<DeliveryResult>) -> bool {
    (hist.len() > 0 && delivered(hist.last())) || hist.len() >= n
}

/// The answer once it is due: the fallback where nothing was tried, else
/// what the last delivery yields.
pub open spec fn reply_after(hist: Seq<DeliveryResult>) -> Seq<char> {
    if hist.len() == 0 {
        fallback_reply()
    } else {
        reply_of(hist.last())
    }
}

/// Decides the next step for a command whose targets are `targets` (in
/// priority order), given the outcomes of the deliveries made so far, in the
/// order they were made.
pub fn next_command_action(targets: &Vec<DeliveryTarget>, outcomes: &Vec<DeliveryOutcome>) -> (r: CommandAction)
    requires
        outcomes.len() <= targets.len(),
    ensures
        match r {
            CommandAction::Deliver(i) => !reply_due(targets.len() as nat, results(outcomes@))
                && i == outcomes.len(),
            CommandAction::Reply(text) => reply_due(targets.len() as nat, results(outcomes@))
                && text@ == reply_after(results(outcomes@)),
        },
{
    let k = outcomes.len();
    if k == 0 {
        if targets.len() == 0 {
            CommandAction::Reply(fallback_reply_text())
        } else {
            CommandAction::Deliver(0)
        }
    } else {
        let last = &outcomes[k - 1].result;
        if last.is_delivered() || k >= targets.len() {
            CommandAction::Reply(last.reply_text())
        } else {
            CommandAction::Deliver(k)
        }
    }
}

/// Number of deliveries a command makes when target `j` (for `j >= i`) would
/// answer with `rs[j]`, counting from `i`: up to and including the first
/// usable answer, else all of them.
pub open spec fn stop_from(rs: Seq<DeliveryResult>, i: nat) -> nat
    decreases rs.len() - i,
{
    if i >= rs.len() {
        rs.len()
    } else if delivered(rs[i as int]) {
        i + 1
    } else {
        stop_from(rs, i + 1)
    }
}

/// Number of deliveries a command makes when its targets answer `rs`.
pub open spec fn attempts(rs: Seq<DeliveryResult>) -> nat {
    stop_from(rs, 0)
}

/// The reply to a command whose targets, in priority order, answer `rs`.
pub open spec fn command_reply(rs: Seq<DeliveryResult>) -> Seq<char> {
    reply_after(rs.take(attempts(rs) as int))
}

proof fn lemma_stop_from(rs: Seq<DeliveryResult>, i: nat)
    requires
        i <= rs.len(),
    ensures
        i <= stop_from(rs, i) <= rs.len(),
        i < rs.len() ==> i < stop_from(rs, i),
        forall|j: int| i <= j && j + 1 < stop_from(rs, i) ==> !delivered(#[trigger] rs[j]),
        stop_from(rs, i) == rs.len() || delivered(rs[stop_from(rs, i) - 1]),
    decreases rs.len() - i,
{
    if i < rs.len() && !delivered(rs[i as int]) {
        lemma_stop_from(rs, i + 1);
    }
}

/// A command is answered exactly once: when its targets answer `rs`, the
/// steps before `attempts(rs)` deliveries each deliver to the next target in
/// priority order, and after them the reply is due and is `command_reply(rs)`.
pub proof fn law_command_replied_once(rs: Seq<DeliveryResult>)
    ensures
        attempts(rs) <= rs.len(),
        forall|j: int| 0 <= j < attempts(rs) ==> !reply_due(rs.len(), #[trigger] rs.take(j)),
        reply_due(rs.len(), rs.take(attempts(rs) as int)),
        reply_after(rs.take(attempts(rs) as int)) == command_reply(rs),
{
    lemma_stop_from(rs, 0);
    let k = attempts(rs);
    assert forall|j: int| 0 <= j < k implies !reply_due(rs.len(), #[trigger] rs.take(j)) by {
        if j > 0 {
            assert(rs.take(j).last() == rs[j - 1]);
        }
    }
    if k > 0 {
        assert(rs.take(k as int).last() == rs[k - 1]);
    }
}

/// With no command target configured, the command is answered at once, and
/// with the fallback text.
pub proof fn law_no_target_fallback(c: RelayConfig)
    requires
        c.command_prod is None,
        c.command_dev is None,
    ensures
        routes(c, EventKind::Command).len() == 0,
        attempts(seq![]) == 0,
        reply_due(0, seq![]),
        reply_after(seq![]) == fallback_reply(),
        command_reply(seq![]) == fallback_reply(),
{
    assert(seq![].take(0) =~= Seq::<DeliveryResult>::empty());
}

/// With only the development target configured, it is the one target tried,
/// and the reply is what its answer yields.
pub proof fn law_development_only(c: RelayConfig, r: DeliveryResult)
    requires
        c.command_prod is None,
        c.command_dev is Some,
    ensures
        routes(c, EventKind::Command) == seq![c.command_dev->0],
        attempts(seq![r]) == 1,
        command_reply(seq![r]) == reply_of(r),
{
    assert(routes(c, EventKind::Command) =~= seq![c.command_dev->0]);
    reveal_with_fuel(stop_from, 2);
    assert(seq![r].take(1) =~= seq![r]);
}

/// Every failure text differs from the fallback text.
pub proof fn lemma_failure_not_fallback(r: DeliveryResult)
    ensures
        failure_text(r) != fallback_reply(),
{
    reveal_strlit("Failed to talk to backend. slack_socket_bridge didn't find any ENV variable webhook token.");
    reveal_strlit("Internal error. The action may have executed, but I was unable to retrieve the result.");
    reveal_strlit("Internal Error. Bridge could't connect to webhook. Resturned code: ");
    reveal_strlit("Failed to send message to webhook. Error: ");
    reveal_strlit("Failed to encode the event as JSON. Error: ");
    match r {
        DeliveryResult::Responded { .. } => {
            assert(failure_text(r)[0] != fallback_reply()[0]);
        },
        _ => {
            assert(failure_text(r)[10] != fallback_reply()[10]);
        },
    }
}

/// When the production target gives no usable answer (a non-success status,
/// say) and a development target is configured, the development target is
/// tried next; when it is the only target, the reply describes its failure
/// and is not the fallback text.
pub proof fn law_production_failure(prod: DeliveryResult, dev: DeliveryResult)
    requires
        !delivered(prod),
    ensures
        !reply_due(2, seq![prod, dev].take(1)),
        attempts(seq![prod, dev]) == 2,
        command_reply(seq![prod]) == failure_text(prod),
        command_reply(seq![prod]) != fallback_reply(),
{
    reveal_with_fuel(stop_from, 3);
    assert(seq![prod, dev].take(1) =~= seq![prod]);
    assert(seq![prod].take(1) =~= seq![prod]);
    lemma_failure_not_fallback(prod);
}

/// A command whose payload could not be encoded, so that every delivery
/// failed that way, still gets a non-empty reply.
pub proof fn law_encode_failure_replies(rs: Seq<DeliveryResult>)
    requires
        forall|i: int| 0 <= i < rs.len() ==> #[trigger] rs[i] is EncodeFailed,
    ensures
        command_reply(rs).len() > 0,
        rs.len() > 0 ==> command_reply(rs) == failure_text(rs.last()),
{
    lemma_stop_from(rs, 0);
    let k = attempts(rs);
    reveal_strlit("Failed to talk to backend. slack_socket_bridge didn't find any ENV variable webhook token.");
    if k > 0 {
        assert(rs.take(k as int).last() == rs[k - 1]);
        lemma_failure_text_nonempty(rs[k - 1]);
    }
}

/// What is reported of one callback delivery: nothing where the target
/// accepted the event, else the text describing the failure.
pub open spec fn callback_entry(r: DeliveryResult) -> Option<Seq<char>> {
    if accepted(r) {
        None
    } else {
        Some(failure_text(r))
    }
}

/// The report of a callback's deliveries to all its targets: entry `i`
/// describes outcome `i` alone, so no failure affects what is said of
/// another target.
pub fn callback_report(outcomes: &Vec<DeliveryOutcome>) -> (r: Vec<Option<String>>)
    ensures
        r.len() == outcomes.len(),
        forall|i: int| 0 <= i < r.len() ==> (match #[trigger] r[i] {
            Some(t) => callback_entry(outcomes[i].result) == Some(t@),
            None => callback_entry(outcomes[i].result) is None,
        }),
{
    let mut r: Vec<Option<String>> = Vec::new();
    let mut i: usize = 0;
    while i < outcomes.len()
        invariant
            i <= outcomes.len(),
            r.len() == i,
            forall|j: int| 0 <= j < i ==> (match #[trigger] r[j] {
                Some(t) => callback_entry(outcomes[j].result) == Some(t@),
                None => callback_entry(outcomes[j].result) is None,
            }),
        decreases outcomes.len() - i,
    {
        let result = &outcomes[i].result;
        if result.is_accepted() {
            r.push(None);
        } else {
            r.push(Some(result.failure_text()));
        }
        i = i + 1;
    }
    r
}

/// A callback goes to every configured callback target: with both
/// configured, to production and to development.
pub proof fn law_callback_fanout(c: RelayConfig)
    requires
        c.callback_prod is Some,
        c.callback_dev is Some,
    ensures
        routes(c, EventKind::Callback) == seq![c.callback_prod->0, c.callback_dev->0],
{
    assert(routes(c, EventKind::Callback) =~= seq![c.callback_prod->0, c.callback_dev->0]);
}

} // verus!
