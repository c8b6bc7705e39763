use vstd::prelude::*;
use vstd::arithmetic::div_mod::{lemma_small_mod, lemma_sub_mod_noop};

verus! {

/// Sequence number of the oldest message still retained, once `published`
/// messages went through a buffer of `capacity` slots.
pub open spec fn oldest_retained(published: int, capacity: int) -> int {
    if published > capacity {
        published - capacity
    } else {
        0
    }
}

/// Where a subscriber whose next sequence number is `cursor` reads next: a
/// cursor that fell out of the buffer resumes at the oldest retained message.
pub open spec fn read_position(published: int, capacity: int, cursor: int) -> int {
    if cursor < oldest_retained(published, capacity) {
        oldest_retained(published, capacity)
    } else {
        cursor
    }
}

/// Everything a subscriber at `cursor` pulls from a hub that has published
/// `history` through `capacity` slots, pulling until nothing is left.
pub open spec fn drain<T>(history: Seq<T>, capacity: nat, cursor: int) -> Seq<T>
    decreases history.len() - cursor,
{
    let pos = read_position(history.len() as int, capacity as int, cursor);
    if pos >= history.len() || pos < cursor {
        Seq::empty()
    } else {
        seq![history[pos]] + drain(history, capacity, pos + 1)
    }
}

/// Where a subscriber stands.
#[derive(Debug, Clone, Copy, PartialEq, Eq, Structural)]
pub enum SubscriberState {
    /// It reads the messages in order.
    Active,
    /// Some messages it had not read were evicted; it resumes at the oldest
    /// retained one.
    Lagging,
    /// The hub was closed and it has read everything.
    Closed,
}

/// A subscriber's cursor: the sequence number of the next message it reads.
#[derive(Debug)]
pub struct Subscription {
    cursor: u64,
}

impl Subscription {
    pub closed spec fn position(&self) -> int {
        self.cursor as int
    }
}

/// A bounded broadcast buffer: one publisher, any number of subscribers, each
/// with its own cursor. Publishing never waits: when the buffer is full the
/// oldest message is evicted.
pub struct BroadcastHub<T> {
    slots: Vec<T>,
    capacity: usize,
    published: u64,
    closed: bool,
    history: Ghost<Seq<T>>,
}

impl<T> BroadcastHub<T> {
    /// Every message published so far, in order.
    pub closed spec fn history(&self) -> Seq<T> {
        self.history@
    }

    pub closed spec fn capacity(&self) -> nat {
        self.capacity as nat
    }

    pub closed spec fn is_closed(&self) -> bool {
        self.closed
    }

    /// The retained messages are the last `capacity` ones of the history,
    /// message `s` in slot `s % capacity`.
    pub closed spec fn wf(&self) -> bool {
        &&& self.capacity > 0
        &&& self.published as int == self.history@.len()
        &&& self.slots@.len() == if self.published > self.capacity {
            self.capacity as int
        } else {
            self.published as int
        }
        &&& forall|s: int|
            oldest_retained(self.published as int, self.capacity as int) <= s < self.published
                ==> #[trigger] self.slots@[s % (self.capacity as int)] == self.history@[s]
    }

    pub fn new(capacity: usize) -> (r: Self)
        requires
            capacity > 0,
        ensures
            r.wf(),
            r.history() == Seq::<T>::empty(),
            r.capacity() == capacity,
            !r.is_closed(),
    {
        BroadcastHub {
            slots: Vec::new(),
            capacity,
            published: 0,
            closed: false,
            history: Ghost(Seq::empty()),
        }
    }

    /// Appends a message; when the buffer is full the oldest one is evicted.
    pub fn publish(&mut self, message: T)
        requires
            old(self).wf(),
            old(self).history().len() < u64::MAX,
        ensures
            final(self).wf(),
            final(self).history() == old(self).history().push(message),
            final(self).capacity() == old(self).capacity(),
            final(self).is_closed() == old(self).is_closed(),
    {
        let ghost old_history = self.history@;
        let ghost cap = self.capacity as int;
        let ghost p = self.published as int;
        self.history = Ghost(self.history@.push(message));
        if self.slots.len() < self.capacity {
            proof {
                assert forall|s: int| 0 <= s <= p implies #[trigger] (s % cap) == s by {
                    lemma_small_mod(s as nat, cap as nat);
                }
            }
            self.slots.push(message);
        } else {
            let idx = (self.published % (self.capacity as u64)) as usize;
            proof {
                assert forall|s: int| p + 1 - cap <= s < p implies #[trigger] (s % cap) != p % cap by {
                    lemma_mod_distinct(s, p, cap);
                }
                lemma_mod_bound(p, cap);
            }
            self.slots.set(idx, message);
        }
        self.published = self.published + 1;
        proof {
            assert forall|s: int|
                oldest_retained(self.published as int, cap) <= s < self.published implies #[trigger] self.slots@[s % cap] == self.history@[s] by {
                if s < p {
                    assert(old_history[s] == self.history@[s]);
                } else {
                    assert(s == p);
                    if p < cap {
                        lemma_small_mod(p as nat, cap as nat);
                    }
                }
            }
        }
    }

    /// Marks the stream as ended; subscribers still read what is retained.
    pub fn close(&mut self)
        requires
            old(self).wf(),
        ensures
            final(self).wf(),
            final(self).history() == old(self).history(),
            final(self).capacity() == old(self).capacity(),
            final(self).is_closed(),
    {
        self.closed = true;
    }

    /// How many messages were published so far.
    pub fn published(&self) -> (r: u64)
        requires
            self.wf(),
        ensures
            r == self.history().len(),
    {
        self.published
    }

    pub fn closed(&self) -> (r: bool)
        ensures
            r == self.is_closed(),
    {
        self.closed
    }

    /// A new subscriber, which sees only what is published from now on.
    pub fn subscribe(&self) -> (r: Subscription)
        requires
            self.wf(),
        ensures
            r.position() == self.history().len(),
    {
        Subscription { cursor: self.published }
    }

    /// Where a subscriber stands.
    pub fn state(&self, sub: &Subscription) -> (r: SubscriberState)
        requires
            self.wf(),
        ensures
            r == (if sub.position() < oldest_retained(self.history().len() as int, self.capacity() as int) {
                SubscriberState::Lagging
            } else if self.is_closed() && sub.position() >= self.history().len() {
                SubscriberState::Closed
            } else {
                SubscriberState::Active
            }),
    {
        let oldest = if self.published > self.capacity as u64 {
            self.published - self.capacity as u64
        } else {
            0
        };
        if sub.cursor < oldest {
            SubscriberState::Lagging
        } else if self.closed && sub.cursor >= self.published {
            SubscriberState::Closed
        } else {
            SubscriberState::Active
        }
    }

    /// The next message for a subscriber, if one was published that it has
    /// not read. A subscriber that fell behind skips to the oldest retained
    /// message.
    pub fn next<'a>(&'a self, sub: &mut Subscription) -> (r: Option<&'a T>)
        requires
            self.wf(),
            old(sub).position() <= self.history().len(),
        ensures
            final(sub).position() <= self.history().len(),
            ({
                let pos = read_position(
                    self.history().len() as int,
                    self.capacity() as int,
                    old(sub).position(),
                );
                if old(sub).position() < self.history().len() {
                    r matches Some(m) && *m == self.history()[pos] && final(sub).position() == pos + 1
                } else {
                    r is None && final(sub).position() == old(sub).position()
                }
            }),
    {
        if sub.cursor >= self.published {
            return None;
        }
        let oldest = if self.published > self.capacity as u64 {
            self.published - self.capacity as u64
        } else {
            0
        };
        let pos = if sub.cursor < oldest {
            oldest
        } else {
            sub.cursor
        };
        let idx = (pos % (self.capacity as u64)) as usize;
        proof {
            lemma_mod_bound(pos as int, self.capacity as int);
            assert(self.slots@[pos as int % (self.capacity as int)] == self.history@[pos as int]);
            if self.published <= self.capacity {
                lemma_small_mod(pos as nat, self.capacity as nat);
            }
        }
        sub.cursor = pos + 1;
        Some(&self.slots[idx])
    }
}

/// What a subscriber pulls until nothing is left is the history from its read
/// position to the end, in order.
pub proof fn lemma_drain_is_suffix<T>(history: Seq<T>, capacity: nat, cursor: int)
    requires
        capacity > 0,
        0 <= cursor <= history.len(),
    ensures
        read_position(history.len() as int, capacity as int, cursor) >= cursor,
        drain(history, capacity, cursor) =~= history.subrange(
            read_position(history.len() as int, capacity as int, cursor),
            history.len() as int,
        ),
    decreases history.len() - cursor,
{
    let pos = read_position(history.len() as int, capacity as int, cursor);
    if pos < history.len() {
        lemma_drain_is_suffix(history, capacity, pos + 1);
        assert(read_position(history.len() as int, capacity as int, pos + 1) == pos + 1);
    }
}

/// Each pull takes the message at the read position and moves past it, so
/// the messages pulled one by one are those of `drain`.
pub proof fn lemma_pull_then_drain<T>(history: Seq<T>, capacity: nat, cursor: int)
    requires
        capacity > 0,
        0 <= cursor < history.len(),
    ensures
        drain(history, capacity, cursor) == seq![
            history[read_position(history.len() as int, capacity as int, cursor)],
        ] + drain(
            history,
            capacity,
            read_position(history.len() as int, capacity as int, cursor) + 1,
        ),
{
}

/// A subscriber that was created before `history.len()` messages were
/// published, more than the buffer holds, and that pulls only afterwards,
/// receives exactly the last `capacity` messages, in their original order.
pub proof fn lemma_late_reader_gets_last_capacity<T>(history: Seq<T>, capacity: nat, cursor: int)
    requires
        capacity > 0,
        history.len() > capacity,
        0 <= cursor <= history.len() - capacity,
    ensures
        drain(history, capacity, cursor) =~= history.subrange(
            history.len() - capacity,
            history.len() as int,
        ),
        drain(history, capacity, cursor).len() == capacity,
{
    lemma_drain_is_suffix(history, capacity, cursor);
}

/// Two subscribers created at different times each pull only messages
/// published after their own creation, and the later one pulls a tail of what
/// the earlier one pulls, in the same order.
pub proof fn lemma_subscribers_agree<T>(history: Seq<T>, capacity: nat, early: int, late: int)
    requires
        capacity > 0,
        0 <= early <= late <= history.len(),
    ensures
        read_position(history.len() as int, capacity as int, early) >= early,
        drain(history, capacity, early) =~= history.subrange(
            read_position(history.len() as int, capacity as int, early),
            history.len() as int,
        ),
        read_position(history.len() as int, capacity as int, late) >= late,
        drain(history, capacity, late) =~= history.subrange(
            read_position(history.len() as int, capacity as int, late),
            history.len() as int,
        ),
        drain(history, capacity, late).len() <= drain(history, capacity, early).len(),
        drain(history, capacity, late) =~= drain(history, capacity, early).subrange(
            drain(history, capacity, early).len() - drain(history, capacity, late).len(),
            drain(history, capacity, early).len() as int,
        ),
{
    lemma_drain_is_suffix(history, capacity, early);
    lemma_drain_is_suffix(history, capacity, late);
}

proof fn lemma_mod_bound(a: int, m: int)
    requires
        0 <= a,
        0 < m,
    ensures
        0 <= a % m < m,
{
}

proof fn lemma_mod_distinct(s: int, p: int, m: int)
    requires
        0 <= s < p,
        p - s < m,
        0 < m,
    ensures
        s % m != p % m,
{
    lemma_sub_mod_noop(p, s, m);
    lemma_small_mod((p - s) as nat, m as nat);
    if s % m == p % m {
        lemma_small_mod(0, m as nat);
        assert(p % m - s % m == 0);
    }
}

} // verus!
