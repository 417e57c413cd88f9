//! The connection registry: process-wide shared state mapping each live
//! connection's id to the producer half of its outbound queue. Callers guard a
//! `Registry` with a single mutual-exclusion lock, take snapshots while
//! holding it, and fan out to the snapshot only after releasing it, so that a
//! slow peer never stalls the lock.

use vstd::prelude::*;
use hyper_tungstenite::tungstenite::Message;
use tokio::sync::mpsc::UnboundedSender;

verus! {

/// One registry entry: a connection id paired with the producer half of that
/// connection's outbound queue.
pub type Entry = (usize, UnboundedSender<Message>);

/// Whether some entry of `s` carries the id `id`.
pub open spec fn has_id(s: Seq<Entry>, id: usize) -> bool {
    exists|i: int| 0 <= i < s.len() && s[i].0 == id
}

/// Whether no two entries of `s` share an id.
pub open spec fn distinct_ids(s: Seq<Entry>) -> bool {
    forall|i: int, j: int| 0 <= i < j < s.len() ==> s[i].0 != s[j].0
}

/// The entries of `s` whose id is not `x`, in their original order. This is
/// both what deregistration leaves behind and what a broadcast snapshot keeps.
pub open spec fn without_id(s: Seq<Entry>, x: usize) -> Seq<Entry>
    decreases s.len(),
{
    if s.len() == 0 {
        Seq::empty()
    } else if s.last().0 != x {
        without_id(s.drop_last(), x).push(s.last())
    } else {
        without_id(s.drop_last(), x)
    }
}

/// The sender halves of the entries of `s`, in order.
pub open spec fn senders_of(s: Seq<Entry>) -> Seq<UnboundedSender<Message>> {
    s.map_values(|e: Entry| e.1)
}

/// `without_id` commutes with appending one entry.
pub proof fn lemma_without_id_push(s: Seq<Entry>, e: Entry, x: usize)
    ensures
        e.0 != x ==> without_id(s.push(e), x) == without_id(s, x).push(e),
        e.0 == x ==> without_id(s.push(e), x) == without_id(s, x),
{
    assert(s.push(e).drop_last() =~= s);
    assert(s.push(e).last() == e);
}

/// Filtering out an id that no entry carries leaves the sequence unchanged.
pub proof fn lemma_without_id_absent(s: Seq<Entry>, x: usize)
    requires
        !has_id(s, x),
    ensures
        without_id(s, x) == s,
    decreases s.len(),
{
    if s.len() > 0 {
        assert(forall|i: int| 0 <= i < s.len() - 1 ==> s.drop_last()[i] == s[i]);
        lemma_without_id_absent(s.drop_last(), x);
        assert(without_id(s, x) =~= s);
    } else {
        assert(without_id(s, x) =~= s);
    }
}

/// Removing the one entry that carries `x` is the same as filtering `x` out.
pub proof fn lemma_remove_is_without_id(s: Seq<Entry>, i: int, x: usize)
    requires
        0 <= i < s.len(),
        s[i].0 == x,
        forall|j: int| 0 <= j < s.len() && j != i ==> s[j].0 != x,
    ensures
        s.remove(i) == without_id(s, x),
    decreases s.len(),
{
    if i == s.len() - 1 {
        assert(s.remove(i) =~= s.drop_last());
        assert(!has_id(s.drop_last(), x)) by {
            assert(forall|j: int| 0 <= j < s.len() - 1 ==> s.drop_last()[j] == s[j]);
        }
        lemma_without_id_absent(s.drop_last(), x);
    } else {
        let t = s.drop_last();
        assert(forall|j: int| 0 <= j < t.len() ==> t[j] == s[j]);
        lemma_remove_is_without_id(t, i, x);
        assert(s.last().0 != x);
        assert(s.remove(i) =~= t.remove(i).push(s.last()));
    }
}

/// The connection registry. The lifecycle invariant holds throughout: an id is
/// present exactly between its session's registration and deregistration, and
/// no id is present twice.
pub struct Registry {
    entries: Vec<Entry>,
}

impl Registry {
    /// The registered entries, in registration order.
    pub closed spec fn view(&self) -> Seq<Entry> {
        self.entries@
    }

    /// Well-formed: no id is registered twice.
    pub open spec fn wf(&self) -> bool {
        distinct_ids(self@)
    }

    /// An empty registry.
    pub fn new() -> (r: Registry)
        ensures
            r@ == Seq::<Entry>::empty(),
            r.wf(),
    {
        Registry { entries: Vec::new() }
    }

    /// How many connections are registered.
    pub fn len(&self) -> (n: usize)
        ensures
            n == self@.len(),
    {
        self.entries.len()
    }

    /// Whether `id` is currently registered.
    pub fn contains(&self, id: usize) -> (r: bool)
        ensures
            r == has_id(self@, id),
    {
        let n = self.entries.len();
        let mut i: usize = 0;
        while i < n
            invariant
                n == self@.len(),
                0 <= i <= n,
                forall|j: int| 0 <= j < i ==> self@[j].0 != id,
            decreases n - i,
        {
            if self.entries[i].0 == id {
                return true;
            }
            i = i + 1;
        }
        false
    }

    /// Inserts the mapping for a fresh id. Registering an id that is already
    /// present is a contract violation, not a runtime error: callers obtain
    /// ids from the allocator, which never repeats one.
    pub fn register(&mut self, id: usize, tx: UnboundedSender<Message>)
        requires
            old(self).wf(),
            !has_id(old(self)@, id),
        ensures
            final(self)@ == old(self)@.push((id, tx)),
            final(self).wf(),
            has_id(final(self)@, id),
    {
        self.entries.push((id, tx));
        proof {
            assert(forall|j: int| 0 <= j < old(self)@.len() ==> self@[j] == old(self)@[j]);
            assert(has_id(self@, id)) by {
                assert(self@[self@.len() - 1].0 == id);
            }
        }
    }

    /// Removes the mapping for `id` if present; removing an absent id is a
    /// safe no-op, so deregistration may run unconditionally on session exit.
    pub fn deregister(&mut self, id: usize)
        requires
            old(self).wf(),
        ensures
            final(self)@ == without_id(old(self)@, id),
            final(self).wf(),
            !has_id(old(self)@, id) ==> final(self)@ == old(self)@,
            !has_id(final(self)@, id),
    {
        let ghost s = self@;
        let n = self.entries.len();
        let mut i: usize = 0;
        while i < n
            invariant
                self@ == s,
                s == old(self)@,
                distinct_ids(s),
                n == s.len(),
                0 <= i <= n,
                forall|j: int| 0 <= j < i ==> s[j].0 != id,
            decreases n - i,
        {
            if self.entries[i].0 == id {
                self.entries.remove(i);
                proof {
                    assert(forall|j: int| 0 <= j < s.len() && j != i ==> s[j].0 != id) by {
                        assert(distinct_ids(s));
                    }
                    lemma_remove_is_without_id(s, i as int, id);
                    lemma_no_id_after_removal(s, id);
                    lemma_without_id_distinct(s, id);
                }
                return;
            }
            i = i + 1;
        }
        proof {
            lemma_without_id_absent(s, id);
        }
    }

    /// A point-in-time copy of the sender halves of every registered
    /// connection except `x`, in registration order. Callers take the copy
    /// while holding the registry's lock and release the lock before sending
    /// on any returned handle.
    pub fn snapshot_excluding(&self, x: usize) -> (r: Vec<UnboundedSender<Message>>)
        ensures
            r@ == senders_of(without_id(self@, x)),
    {
        let mut r: Vec<UnboundedSender<Message>> = Vec::new();
        let n = self.entries.len();
        let mut i: usize = 0;
        while i < n
            invariant
                n == self@.len(),
                0 <= i <= n,
                r@ == senders_of(without_id(self@.take(i as int), x)),
            decreases n - i,
        {
            proof {
                assert(self@.take(i + 1) =~= self@.take(i as int).push(self@[i as int]));
                lemma_without_id_push(self@.take(i as int), self@[i as int], x);
                lemma_senders_of_push(without_id(self@.take(i as int), x), self@[i as int]);
            }
            if self.entries[i].0 != x {
                r.push(self.entries[i].1.clone());
            }
            i = i + 1;
        }
        proof {
            assert(self@.take(n as int) =~= self@);
        }
        r
    }
}

/// `senders_of` commutes with appending one entry.
pub proof fn lemma_senders_of_push(s: Seq<Entry>, e: Entry)
    ensures
        senders_of(s.push(e)) == senders_of(s).push(e.1),
{
    assert(senders_of(s.push(e)) =~= senders_of(s).push(e.1));
}

/// Filtering an id out never introduces a duplicate.
pub proof fn lemma_without_id_distinct(s: Seq<Entry>, x: usize)
    requires
        distinct_ids(s),
    ensures
        distinct_ids(without_id(s, x)),
    decreases s.len(),
{
    if s.len() > 0 {
        let t = s.drop_last();
        assert(forall|i: int| 0 <= i < t.len() ==> t[i] == s[i]);
        lemma_without_id_distinct(t, x);
        if s.last().0 != x {
            lemma_without_id_keeps_entries(t, x);
        }
    }
}

/// Every entry kept by `without_id` is an entry of the original sequence, and
/// no kept entry carries the filtered id.
pub proof fn lemma_without_id_keeps_entries(s: Seq<Entry>, x: usize)
    ensures
        forall|j: int|
            0 <= j < without_id(s, x).len() ==> (#[trigger] without_id(s, x)[j]).0 != x
                && s.contains(without_id(s, x)[j]),
    decreases s.len(),
{
    if s.len() > 0 {
        let t = s.drop_last();
        lemma_without_id_keeps_entries(t, x);
        assert(forall|e: Entry| t.contains(e) ==> s.contains(e)) by {
            assert(forall|i: int| 0 <= i < t.len() ==> t[i] == s[i]);
        }
        if s.last().0 != x {
            assert(s.contains(s.last())) by {
                assert(s[s.len() - 1] == s.last());
            }
            assert(forall|j: int|
                0 <= j < without_id(s, x).len() - 1 ==> without_id(s, x)[j] == without_id(
                    t,
                    x,
                )[j]);
        }
    }
}

/// After `x` is filtered out, no entry carries `x`.
pub proof fn lemma_no_id_after_removal(s: Seq<Entry>, x: usize)
    ensures
        !has_id(without_id(s, x), x),
{
    lemma_without_id_keeps_entries(s, x);
}

/// Every entry whose id is not the excluded one survives the filter: a
/// broadcast snapshot reaches every registered peer except the sender.
pub proof fn lemma_without_id_covers_peers(s: Seq<Entry>, x: usize)
    ensures
        forall|i: int|
            0 <= i < s.len() && (#[trigger] s[i]).0 != x ==> without_id(s, x).contains(s[i]),
    decreases s.len(),
{
    if s.len() > 0 {
        let t = s.drop_last();
        lemma_without_id_covers_peers(t, x);
        assert(forall|i: int| 0 <= i < t.len() ==> t[i] == s[i]);
        if s.last().0 != x {
            assert(forall|e: Entry| without_id(t, x).contains(e) ==> without_id(s, x).contains(e))
                by {
                assert(forall|j: int|
                    0 <= j < without_id(t, x).len() ==> without_id(s, x)[j] == without_id(t, x)[j]);
            }
            assert(without_id(s, x).last() == s.last());
            assert(without_id(s, x).contains(s.last())) by {
                assert(without_id(s, x)[without_id(s, x).len() - 1] == s.last());
            }
        } else {
            assert(forall|e: Entry| without_id(t, x).contains(e) ==> without_id(s, x).contains(e));
            assert(forall|i: int| 0 <= i < s.len() && s[i].0 != x ==> i < t.len());
        }
    }
}

} // verus!
