//! An append-only log of values, kept in memory: one list per stream, each
//! in the order of its appends. It answers as the service expects its
//! store to answer, and stands in for it where there is none.

use vstd::prelude::*;
use crate::db::{views, Value};
use crate::model::StreamId;

verus! {

/// The part of `list` that a ranged read returns: the positions `offset`
/// to `stop`, both counted from 0 and both included, as far as the list
/// has them.
pub open spec fn window<T>(list: Seq<T>, offset: nat, stop: nat) -> Seq<T> {
    if offset <= stop && offset < list.len() {
        list.subrange(offset as int, if stop < list.len() { stop as int + 1 } else { list.len() as int })
    } else {
        Seq::empty()
    }
}

/// Appending at position `list.len()` extends the window where that
/// position lies in it, and leaves it as it was where not.
pub proof fn lemma_window_push<T>(list: Seq<T>, item: T, offset: nat, stop: nat)
    ensures
        window(list.push(item), offset, stop) == if offset <= list.len() <= stop {
            window(list, offset, stop).push(item)
        } else {
            window(list, offset, stop)
        },
{
    if offset <= list.len() <= stop {
        assert(window(list.push(item), offset, stop) =~= window(list, offset, stop).push(item));
    } else {
        assert(window(list.push(item), offset, stop) =~= window(list, offset, stop));
    }
}

/// A ranged read returns the items in the order of the list: its item at
/// position `i` is the list's at position `offset + i`.
pub proof fn lemma_window_in_order<T>(list: Seq<T>, offset: nat, stop: nat, i: int)
    requires
        0 <= i < window(list, offset, stop).len(),
    ensures
        offset + i <= stop,
        offset + i < list.len(),
        window(list, offset, stop)[i] == list[offset + i],
{
}

/// A ranged read from position 0 that stops at the last position, or
/// beyond it, returns the whole list.
pub proof fn lemma_window_whole<T>(list: Seq<T>, stop: nat)
    requires
        list.len() <= stop + 1,
    ensures
        window(list, 0, stop) == list,
{
    assert(window(list, 0, stop) =~= list);
}

/// A ranged read that stops where it begins returns the one item at that
/// position, where the list has one.
pub proof fn lemma_window_one<T>(list: Seq<T>, at: nat)
    requires
        at < list.len(),
    ensures
        window(list, at, at) == seq![list[at as int]],
{
    assert(window(list, at, at) =~= seq![list[at as int]]);
}

struct Entry {
    key: StreamId,
    value: Value,
}

/// The values of `entries` that were appended under `key`, in order.
spec fn stream_of(entries: Seq<Entry>, key: Seq<u8>) -> Seq<Option<Seq<u8>>>
    decreases entries.len(),
{
    if entries.len() == 0 {
        Seq::empty()
    } else {
        let before = stream_of(entries.drop_last(), key);
        if entries.last().key@ == key {
            before.push(entries.last().value@)
        } else {
            before
        }
    }
}

fn same_key(a: &StreamId, b: &StreamId) -> (same: bool)
    ensures
        same == (a@ == b@),
{
    let mut i: usize = 0;
    while i < 8
        invariant
            i <= 8,
            forall|k: int| 0 <= k < i ==> a@[k] == b@[k],
        decreases 8 - i,
    {
        if a[i] != b[i] {
            return false;
        }
        i += 1;
    }
    assert(a@ =~= b@);
    true
}

/// The log: every value that was appended, with the key of its stream, in
/// the order of the appends.
pub struct MessageLog {
    entries: Vec<Entry>,
}

impl MessageLog {
    /// The values appended under `key` so far, oldest first. A key that
    /// nothing was appended under has the empty list.
    pub closed spec fn stream(&self, key: Seq<u8>) -> Seq<Option<Seq<u8>>> {
        stream_of(self.entries@, key)
    }

    /// A log without any stream.
    pub fn new() -> (log: MessageLog)
        ensures
            forall|key: Seq<u8>| log.stream(key) == Seq::<Option<Seq<u8>>>::empty(),
    {
        MessageLog { entries: Vec::new() }
    }

    /// Appends `value` to the end of the list under `key`. The other lists
    /// stay as they are.
    pub fn append(&mut self, key: &StreamId, value: Value)
        ensures
            final(self).stream(key@) == old(self).stream(key@).push(value@),
            forall|other: Seq<u8>| other != key@ ==> final(self).stream(other) == old(self).stream(other),
    {
        let ghost before = self.entries@;
        self.entries.push(Entry { key: *key, value });
        proof {
            assert(self.entries@.drop_last() =~= before);
        }
    }

    /// Reads the list under `key` from position `offset` to position
    /// `limit`, both included: `limit` is the position at which the
    /// reading stops, not a number of values. A key that nothing was
    /// appended under reads as the empty list.
    pub fn range(&self, key: &StreamId, offset: u32, limit: u8) -> (values: Vec<Value>)
        ensures
            views(values@) == window(self.stream(key@), offset as nat, limit as nat),
    {
        let mut values: Vec<Value> = Vec::new();
        let mut seen: usize = 0;
        let mut i: usize = 0;
        assert(self.entries@.take(0) =~= Seq::<Entry>::empty());
        while i < self.entries.len()
            invariant
                i <= self.entries@.len(),
                seen == stream_of(self.entries@.take(i as int), key@).len(),
                seen <= i,
                values@.len() == window(stream_of(self.entries@.take(i as int), key@), offset as nat, limit as nat).len(),
                forall|k: int| 0 <= k < values@.len() ==>
                    (#[trigger] values@[k])@ == window(stream_of(self.entries@.take(i as int), key@), offset as nat, limit as nat)[k],
            decreases self.entries@.len() - i,
        {
            let ghost earlier = stream_of(self.entries@.take(i as int), key@);
            proof {
                assert(self.entries@.take(i + 1).drop_last() =~= self.entries@.take(i as int));
                assert(self.entries@.take(i + 1).last() == self.entries@[i as int]);
                lemma_window_push(earlier, self.entries@[i as int].value@, offset as nat, limit as nat);
            }
            let entry = &self.entries[i];
            if same_key(&entry.key, key) {
                if offset as usize <= seen && seen <= limit as usize {
                    values.push(entry.value.clone());
                }
                seen += 1;
            }
            i += 1;
        }
        assert(self.entries@.take(i as int) =~= self.entries@);
        assert(views(values@) =~= window(self.stream(key@), offset as nat, limit as nat));
        values
    }
}

} // verus!
