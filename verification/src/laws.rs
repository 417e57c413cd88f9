//! The relay's laws, stated over the same spec functions that the registry's
//! and hub's contracts use. `relay_round` is the model of one fan-out: the
//! sender's message is appended to the outbound queue of every registered
//! connection except the sender itself, and to no other. The queues
//! themselves are ordered per destination, as each connection's outbound
//! channel is a strictly ordered queue.

use vstd::prelude::*;
use hyper_tungstenite::tungstenite::Message;
use crate::registry::Entry;
use crate::registry::distinct_ids;
use crate::registry::has_id;
use crate::registry::lemma_no_id_after_removal;
use crate::registry::lemma_without_id_covers_peers;
use crate::registry::lemma_without_id_distinct;
use crate::registry::lemma_without_id_keeps_entries;
use crate::registry::without_id;

verus! {

/// One fan-out round over the per-connection outbound queues: `from`'s
/// message `m` is appended to the queue of every connection registered in
/// `reg` other than `from`; every other queue is left alone.
pub open spec fn relay_round(
    qs: Map<usize, Seq<Message>>,
    reg: Seq<Entry>,
    from: usize,
    m: Message,
) -> Map<usize, Seq<Message>> {
    Map::new(
        |k: usize| qs.dom().contains(k),
        |k: usize|
            if has_id(reg, k) && k != from {
                qs[k].push(m)
            } else {
                qs[k]
            },
    )
}

/// Law: a broadcast from `from` reaches exactly the connections registered at
/// the time of sending, except `from` itself. Every such peer's queue gains
/// the message at its tail; the sender's own queue, and the queue of every
/// unregistered connection, is unchanged.
pub proof fn lemma_broadcast_reaches_all_peers_and_only_them(
    qs: Map<usize, Seq<Message>>,
    reg: Seq<Entry>,
    from: usize,
    m: Message,
)
    ensures
        forall|k: usize|
            qs.dom().contains(k) && has_id(reg, k) && k != from ==> #[trigger] relay_round(
                qs,
                reg,
                from,
                m,
            )[k] == qs[k].push(m),
        forall|k: usize|
            qs.dom().contains(k) && !(has_id(reg, k) && k != from) ==> #[trigger] relay_round(
                qs,
                reg,
                from,
                m,
            )[k] == qs[k],
        relay_round(qs, reg, from, m).dom() == qs.dom(),
{
    assert(relay_round(qs, reg, from, m).dom() =~= qs.dom());
}

/// Law: a broadcast snapshot taken for sender `x` targets every registered
/// peer other than `x`, targets no entry of `x`, targets nothing that was not
/// registered, and, when ids are registered uniquely, targets each peer
/// exactly once.
pub proof fn lemma_snapshot_targets(reg: Seq<Entry>, x: usize)
    ensures
        forall|i: int|
            0 <= i < reg.len() && (#[trigger] reg[i]).0 != x ==> without_id(reg, x).contains(
                reg[i],
            ),
        forall|j: int|
            0 <= j < without_id(reg, x).len() ==> (#[trigger] without_id(reg, x)[j]).0 != x
                && reg.contains(without_id(reg, x)[j]),
        distinct_ids(reg) ==> distinct_ids(without_id(reg, x)),
{
    lemma_without_id_covers_peers(reg, x);
    lemma_without_id_keeps_entries(reg, x);
    if distinct_ids(reg) {
        lemma_without_id_distinct(reg, x);
    }
}

/// Law: messages of a single sender reach a fixed peer in sending order.
/// After `from` broadcasts `m1` and then `m2`, a peer `k` registered at both
/// times holds its old queue with `m1` appended and then `m2`: `m1` stands at
/// the earlier index.
pub proof fn lemma_single_sender_order(
    qs: Map<usize, Seq<Message>>,
    reg1: Seq<Entry>,
    reg2: Seq<Entry>,
    from: usize,
    k: usize,
    m1: Message,
    m2: Message,
)
    requires
        qs.dom().contains(k),
        has_id(reg1, k),
        has_id(reg2, k),
        k != from,
    ensures
        relay_round(relay_round(qs, reg1, from, m1), reg2, from, m2)[k] == qs[k].push(m1).push(
            m2,
        ),
        relay_round(relay_round(qs, reg1, from, m1), reg2, from, m2)[k][qs[k].len() as int] == m1,
        relay_round(relay_round(qs, reg1, from, m1), reg2, from, m2)[k][qs[k].len() as int + 1] == m2,
{
    let mid = relay_round(qs, reg1, from, m1);
    assert(mid.dom().contains(k));
    assert(mid[k] == qs[k].push(m1));
    assert(relay_round(mid, reg2, from, m2)[k] == mid[k].push(m2));
}

/// Law: once a connection has deregistered, later broadcasts no longer
/// attempt delivery to it. Its id is absent from the filtered registry, so a
/// fan-out over that registry leaves its queue untouched, whoever sends.
pub proof fn lemma_no_delivery_after_deregister(
    qs: Map<usize, Seq<Message>>,
    reg: Seq<Entry>,
    gone: usize,
    from: usize,
    m: Message,
)
    requires
        qs.dom().contains(gone),
    ensures
        !has_id(without_id(reg, gone), gone),
        relay_round(qs, without_id(reg, gone), from, m)[gone] == qs[gone],
{
    lemma_no_id_after_removal(reg, gone);
}

} // verus!
