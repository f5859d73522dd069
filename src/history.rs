//! Which items of a session's transcript may be sent back to the backend on
//! the next turn.
use vstd::prelude::*;

verus! {

/// How the session authenticates with the backend.
#[derive(Debug, Clone, Copy, PartialEq, Eq, Structural)]
pub enum AuthMode {
    /// Direct authentication with an API key.
    ApiKey,
    /// Delegated authentication through a managed account: reasoning
    /// identifiers are short-lived unless the backend stores them.
    ChatGpt,
}

/// One entry of the in-memory transcript.
#[derive(Debug, Clone, PartialEq, Eq)]
pub enum HistoryItem {
    UserMessage { text: String },
    AssistantMessage { text: String },
    Reasoning { id: Option<String>, summary: String },
    ToolCall { name: String, arguments: String },
}

/// Whether reasoning items must be left out of the replayed history: only
/// under delegated authentication with server-side storage disabled.
pub open spec fn drops_reasoning(auth: AuthMode, store_enabled: bool) -> bool {
    auth == AuthMode::ChatGpt && !store_enabled
}

/// `items` without its reasoning items, the others kept in order.
pub open spec fn without_reasoning(items: Seq<HistoryItem>) -> Seq<HistoryItem>
    decreases items.len(),
{
    if items.len() == 0 {
        Seq::empty()
    } else {
        (if items[0] is Reasoning {
            Seq::empty()
        } else {
            seq![items[0]]
        }) + without_reasoning(items.drop_first())
    }
}

/// The history to transmit for the given authentication and storage setting.
pub open spec fn replayed(items: Seq<HistoryItem>, auth: AuthMode, store_enabled: bool) -> Seq<
    HistoryItem,
> {
    if drops_reasoning(auth, store_enabled) {
        without_reasoning(items)
    } else {
        items
    }
}

/// How many reasoning items `items` holds.
pub open spec fn reasoning_count(items: Seq<HistoryItem>) -> nat
    decreases items.len(),
{
    if items.len() == 0 {
        0
    } else {
        (if items[0] is Reasoning {
            1nat
        } else {
            0nat
        }) + reasoning_count(items.drop_first())
    }
}

/// Whether reasoning items are left out of the replayed history.
pub fn filters_reasoning(auth: AuthMode, store_enabled: bool) -> (r: bool)
    ensures
        r == drops_reasoning(auth, store_enabled),
{
    auth == AuthMode::ChatGpt && !store_enabled
}

/// The items of the transcript that may be sent to the backend on the next
/// turn, in their order and unchanged. Evaluated afresh for every turn.
pub fn filter_for_replay(items: Vec<HistoryItem>, auth: AuthMode, store_enabled: bool) -> (r: Vec<
    HistoryItem,
>)
    ensures
        r@ == replayed(items@, auth, store_enabled),
{
    if !filters_reasoning(auth, store_enabled) {
        return items;
    }
    let ghost all = items@;
    let mut rest = items;
    let mut out: Vec<HistoryItem> = Vec::new();
    proof {
        assert(out@ + without_reasoning(rest@) =~= without_reasoning(all));
    }
    while rest.len() > 0
        invariant
            out@ + without_reasoning(rest@) == without_reasoning(all),
        decreases rest@.len(),
    {
        let ghost before = rest@;
        let it = rest.remove(0);
        proof {
            assert(rest@ =~= before.drop_first());
        }
        let keep = match &it {
            HistoryItem::Reasoning { .. } => false,
            _ => true,
        };
        let ghost out_before = out@;
        if keep {
            out.push(it);
        }
        proof {
            assert(out@ + without_reasoning(rest@) =~= out_before + without_reasoning(before));
        }
    }
    proof {
        assert(out@ =~= out@ + without_reasoning(rest@));
    }
    out
}

/// The input of the next turn: the replayable part of the transcript
/// followed by the new user message.
pub fn turn_input(history: Vec<HistoryItem>, text: String, auth: AuthMode, store_enabled: bool) -> (r:
    Vec<HistoryItem>)
    ensures
        r@ == replayed(history@, auth, store_enabled).push(HistoryItem::UserMessage { text }),
{
    let mut r = filter_for_replay(history, auth, store_enabled);
    r.push(HistoryItem::UserMessage { text });
    r
}

/// With reasoning filtered out, nothing of kind `reasoning` is transmitted.
pub proof fn lemma_without_reasoning_has_none(items: Seq<HistoryItem>)
    ensures
        reasoning_count(without_reasoning(items)) == 0,
        forall|i: int|
            0 <= i < without_reasoning(items).len() ==> !(#[trigger] without_reasoning(items)[i] is Reasoning),
    decreases items.len(),
{
    if items.len() > 0 {
        lemma_without_reasoning_has_none(items.drop_first());
        let head = if items[0] is Reasoning {
            Seq::<HistoryItem>::empty()
        } else {
            seq![items[0]]
        };
        let tail = without_reasoning(items.drop_first());
        if !(items[0] is Reasoning) {
            assert(head[0] == items[0]);
            assert(head.drop_first() =~= Seq::<HistoryItem>::empty());
            assert(reasoning_count(head.drop_first()) == 0);
        }
        assert(reasoning_count(head) == 0);
        assert(without_reasoning(items) == head + tail);
        lemma_count_concat(head, tail);
        assert forall|i: int|
            0 <= i < without_reasoning(items).len() implies !(#[trigger] without_reasoning(
            items,
        )[i] is Reasoning) by {
            if i >= head.len() {
                assert(without_reasoning(items)[i] == tail[i - head.len()]);
            }
        }
    }
}

proof fn lemma_count_concat(a: Seq<HistoryItem>, b: Seq<HistoryItem>)
    ensures
        reasoning_count(a + b) == reasoning_count(a) + reasoning_count(b),
    decreases a.len(),
{
    if a.len() > 0 {
        lemma_count_concat(a.drop_first(), b);
        assert((a + b).drop_first() =~= a.drop_first() + b);
    } else {
        assert(a + b =~= b);
    }
}

/// Under delegated authentication without storage, the transmitted history
/// holds no reasoning item; in every other setting it is the transcript
/// itself, every reasoning item included unchanged.
pub proof fn lemma_replay_rule(items: Seq<HistoryItem>, auth: AuthMode, store_enabled: bool)
    ensures
        drops_reasoning(auth, store_enabled) ==> reasoning_count(replayed(items, auth, store_enabled))
            == 0,
        !drops_reasoning(auth, store_enabled) ==> replayed(items, auth, store_enabled) == items,
{
    lemma_without_reasoning_has_none(items);
}

} // verus!
