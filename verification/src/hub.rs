//! Broadcast hub: fans every published entity out to all attached
//! subscribers. Each subscriber owns a bounded delivery buffer; when it is
//! full, the oldest undelivered entity is dropped in favour of the newest,
//! so a slow consumer never blocks the publisher.

use vstd::prelude::*;

use crate::component::Component;

verus! {

/// One attached local listener: its handle and its pending deliveries,
/// oldest first.
struct Subscriber {
    handle: u64,
    buf: Vec<Component>,
}

/// What one publish does to one subscriber's buffer: append when there is
/// room, else drop the oldest entry to make room for the newest.
pub open spec fn push_lossy(buf: Seq<Component>, c: Component, cap: nat) -> Seq<Component> {
    if buf.len() < cap {
        buf.push(c)
    } else {
        buf.drop_first().push(c)
    }
}

/// A whole publish sequence applied to one subscriber's buffer, in order.
pub open spec fn push_lossy_seq(buf: Seq<Component>, cs: Seq<Component>, cap: nat) -> Seq<
    Component,
>
    decreases cs.len(),
{
    if cs.len() == 0 {
        buf
    } else {
        push_lossy_seq(push_lossy(buf, cs.first(), cap), cs.drop_first(), cap)
    }
}

/// The fan-out hub: the set of currently attached subscribers and the
/// per-subscriber buffer bound. Handles are never reused.
pub struct Hub {
    subs: Vec<Subscriber>,
    next_handle: u64,
    capacity: usize,
}

impl Hub {
    /// The per-subscriber delivery buffer bound.
    pub closed spec fn capacity(self) -> nat {
        self.capacity as nat
    }

    /// Whether the subscriber with this handle is currently attached.
    pub closed spec fn attached(self, h: u64) -> bool {
        exists|i: int| 0 <= i < self.subs@.len() && self.subs@[i].handle == h
    }

    spec fn index_of(self, h: u64) -> int {
        choose|i: int| 0 <= i < self.subs@.len() && self.subs@[i].handle == h
    }

    /// The pending deliveries of an attached subscriber, oldest first;
    /// empty for a handle that is not attached.
    pub closed spec fn buffer_of(self, h: u64) -> Seq<Component> {
        if self.attached(h) {
            self.subs@[self.index_of(h)].buf@
        } else {
            Seq::empty()
        }
    }

    pub closed spec fn wf(self) -> bool {
        &&& self.capacity >= 1
        &&& forall|i: int, j: int|
            0 <= i < j < self.subs@.len() ==> self.subs@[i].handle != self.subs@[j].handle
        &&& forall|i: int|
            0 <= i < self.subs@.len() ==> self.subs@[i].buf@.len() <= self.capacity
        &&& forall|i: int| 0 <= i < self.subs@.len() ==> self.subs@[i].handle < self.next_handle
    }

    /// Whether another subscriber can still be given a fresh handle.
    pub closed spec fn can_attach(self) -> bool {
        self.next_handle < u64::MAX
    }

    pub fn new(capacity: usize) -> (r: Hub)
        requires
            capacity >= 1,
        ensures
            r.wf(),
            r.can_attach(),
            r.capacity() == capacity,
            forall|h: u64| !r.attached(h),
    {
        Hub { subs: Vec::new(), next_handle: 0, capacity }
    }

    /// Whether a fresh handle remains available; handles are never reused.
    pub fn has_free_handle(&self) -> (r: bool)
        ensures
            r == self.can_attach(),
    {
        self.next_handle < u64::MAX
    }

    /// Registers a new subscriber under a fresh handle. It starts with an
    /// empty buffer: no historical backlog, only entities published later.
    pub fn attach(&mut self) -> (h: u64)
        requires
            old(self).wf(),
            old(self).can_attach(),
        ensures
            final(self).wf(),
            !old(self).attached(h),
            final(self).attached(h),
            final(self).buffer_of(h) == Seq::<Component>::empty(),
            forall|h2: u64| h2 != h ==> final(self).attached(h2) == old(self).attached(h2),
            forall|h2: u64| h2 != h ==> final(self).buffer_of(h2) == old(self).buffer_of(h2),
            final(self).capacity() == old(self).capacity(),
    {
        let h = self.next_handle;
        self.next_handle = self.next_handle + 1;
        self.subs.push(Subscriber { handle: h, buf: Vec::new() });
        proof {
            let pre = *old(self);
            let post = *self;
            let n = pre.subs@.len() as int;
            assert(post.subs@[n].handle == h);
            assert(post.attached(h));
            lemma_hub_index(post, n);
            assert(post.buffer_of(h) =~= Seq::<Component>::empty());
            assert forall|h2: u64| h2 != h && pre.attached(h2) implies post.attached(h2)
                && post.buffer_of(h2) == pre.buffer_of(h2) by {
                let i = pre.index_of(h2);
                assert(0 <= i < n && pre.subs@[i].handle == h2);
                assert(post.subs@[i].handle == h2);
                lemma_hub_index(post, i);
                lemma_hub_index_pre(pre, i);
            }
            assert forall|h2: u64| h2 != h && post.attached(h2) implies pre.attached(h2) by {
                let i = post.index_of(h2);
                assert(0 <= i < n + 1 && post.subs@[i].handle == h2);
                assert(i != n);
                assert(pre.subs@[i].handle == h2);
            }
        }
        h
    }

    /// Sends `c` to every attached subscriber: each buffer takes one lossy
    /// push. The call never blocks and never fails the caller's loop.
    pub fn publish(&mut self, c: &Component)
        requires
            old(self).wf(),
        ensures
            final(self).wf(),
            final(self).capacity() == old(self).capacity(),
            final(self).can_attach() == old(self).can_attach(),
            forall|h: u64| final(self).attached(h) == old(self).attached(h),
            forall|h: u64|
                old(self).attached(h) ==> final(self).buffer_of(h) == push_lossy(
                    old(self).buffer_of(h),
                    *c,
                    old(self).capacity(),
                ),
    {
        let ghost pre = *old(self);
        let n = self.subs.len();
        let mut i: usize = 0;
        while i < n
            invariant
                0 <= i <= n,
                n == pre.subs@.len(),
                self.subs@.len() == n,
                self.capacity == pre.capacity,
                self.next_handle == pre.next_handle,
                pre.wf(),
                self.capacity >= 1,
                forall|j: int|
                    0 <= j < i ==> self.subs@[j].handle == pre.subs@[j].handle
                        && self.subs@[j].buf@ == push_lossy(
                        pre.subs@[j].buf@,
                        *c,
                        pre.capacity as nat,
                    ),
                forall|j: int| i <= j < n ==> self.subs@[j] == pre.subs@[j],
            decreases n - i,
        {
            let mut sub = self.subs.remove(i);
            proof {
                assert(pre.subs@[i as int].buf@.len() <= pre.capacity);
            }
            if sub.buf.len() >= self.capacity {
                let _oldest = sub.buf.remove(0);
                proof {
                    assert(sub.buf@ =~= pre.subs@[i as int].buf@.drop_first());
                }
            }
            sub.buf.push(c.clone());
            self.subs.insert(i, sub);
            proof {
                assert forall|j: int| 0 <= j < i + 1 implies self.subs@[j].handle
                    == pre.subs@[j].handle && self.subs@[j].buf@ == push_lossy(
                    pre.subs@[j].buf@,
                    *c,
                    pre.capacity as nat,
                ) by {
                    if j < i {
                        assert(self.subs@[j] == self.subs@.remove(i as int).insert(
                            i as int,
                            sub,
                        )[j]);
                    }
                }
            }
            i = i + 1;
        }
        proof {
            let post = *self;
            assert forall|p: int, q: int| 0 <= p < q < n implies post.subs@[p].handle
                != post.subs@[q].handle by {
                assert(pre.subs@[p].handle != pre.subs@[q].handle);
            }
            assert forall|j: int| 0 <= j < n implies post.subs@[j].buf@.len() <= post.capacity
                && post.subs@[j].handle < post.next_handle by {
                assert(pre.subs@[j].buf@.len() <= pre.capacity);
                assert(pre.subs@[j].handle < pre.next_handle);
            }
            assert(post.wf());
            assert forall|h: u64| post.attached(h) == pre.attached(h) && (pre.attached(h)
                ==> post.buffer_of(h) == push_lossy(
                pre.buffer_of(h),
                *c,
                pre.capacity as nat,
            )) by {
                if pre.attached(h) {
                    let ii = pre.index_of(h);
                    assert(0 <= ii < n && pre.subs@[ii].handle == h);
                    assert(post.subs@[ii].handle == h);
                    assert(post.attached(h));
                    lemma_hub_index(post, ii);
                    lemma_hub_index(pre, ii);
                }
                if post.attached(h) {
                    let ii = post.index_of(h);
                    assert(0 <= ii < n && post.subs@[ii].handle == h);
                    assert(pre.subs@[ii].handle == h);
                    assert(pre.attached(h));
                }
            }
        }
    }

    /// Releases the subscriber's registration; idempotent: detaching a
    /// handle that is not attached changes nothing.
    pub fn detach(&mut self, h: u64)
        requires
            old(self).wf(),
        ensures
            final(self).wf(),
            final(self).capacity() == old(self).capacity(),
            final(self).can_attach() == old(self).can_attach(),
            !final(self).attached(h),
            forall|h2: u64| h2 != h ==> final(self).attached(h2) == old(self).attached(h2),
            forall|h2: u64| h2 != h ==> final(self).buffer_of(h2) == old(self).buffer_of(h2),
    {
        let found = self.find_index(h);
        match found {
            Option::Some(i) => {
                let ghost pre = *self;
                let removed = self.subs.remove(i);
                proof {
                    let post = *self;
                    let n = pre.subs@.len() as int;
                    assert forall|h2: u64| h2 != h && pre.attached(h2) implies post.attached(h2)
                        && post.buffer_of(h2) == pre.buffer_of(h2) by {
                        let j = pre.index_of(h2);
                        assert(0 <= j < n && pre.subs@[j].handle == h2);
                        let j2 = if j < i as int {
                            j
                        } else {
                            j - 1
                        };
                        assert(post.subs@[j2].handle == h2);
                        assert(post.attached(h2));
                        lemma_hub_index(post, j2);
                        lemma_hub_index_pre(pre, j);
                    }
                    assert forall|h2: u64| post.attached(h2) implies h2 != h && pre.attached(
                        h2,
                    ) by {
                        let j = post.index_of(h2);
                        assert(0 <= j < n - 1 && post.subs@[j].handle == h2);
                        let j2 = if j < i as int {
                            j
                        } else {
                            j + 1
                        };
                        assert(pre.subs@[j2].handle == h2);
                        assert(j2 != i as int);
                        assert(pre.subs@[i as int].handle == h);
                    }
                }
            },
            Option::None => {
            },
        }
    }

    /// Hands out the oldest pending delivery for this subscriber, if any:
    /// entities leave the buffer in publish order.
    pub fn try_next(&mut self, h: u64) -> (r: Option<Component>)
        requires
            old(self).wf(),
        ensures
            final(self).wf(),
            final(self).capacity() == old(self).capacity(),
            final(self).can_attach() == old(self).can_attach(),
            forall|h2: u64| final(self).attached(h2) == old(self).attached(h2),
            forall|h2: u64| h2 != h ==> final(self).buffer_of(h2) == old(self).buffer_of(h2),
            old(self).attached(h) && old(self).buffer_of(h).len() > 0 ==> r == Some(
                old(self).buffer_of(h).first(),
            ) && final(self).buffer_of(h) == old(self).buffer_of(h).drop_first(),
            !(old(self).attached(h) && old(self).buffer_of(h).len() > 0) ==> r is None
                && final(self).buffer_of(h) == old(self).buffer_of(h),
    {
        let found = self.find_index(h);
        match found {
            Option::Some(i) => {
                proof {
                    lemma_hub_index_pre(*self, i as int);
                }
                if self.subs[i].buf.len() > 0 {
                    let ghost pre = *self;
                    let mut sub = self.subs.remove(i);
                    let front = sub.buf.remove(0);
                    self.subs.insert(i, sub);
                    proof {
                        let post = *self;
                        let n = pre.subs@.len() as int;
                        assert(post.subs@ =~= pre.subs@.update(
                            i as int,
                            post.subs@[i as int],
                        ));
                        assert(post.subs@[i as int].handle == h);
                        assert(post.subs@[i as int].buf@ =~= pre.subs@[
                            i as int
                        ].buf@.drop_first());
                        lemma_hub_index(post, i as int);
                        assert forall|h2: u64|
                            post.attached(h2) == pre.attached(h2) && (h2 != h ==> post.buffer_of(
                                h2,
                            ) == pre.buffer_of(h2)) by {
                            if pre.attached(h2) {
                                let j = pre.index_of(h2);
                                assert(0 <= j < n && pre.subs@[j].handle == h2);
                                assert(post.subs@[j].handle == h2);
                                lemma_hub_index(post, j);
                                lemma_hub_index_pre(pre, j);
                            }
                            if post.attached(h2) {
                                let j = post.index_of(h2);
                                assert(0 <= j < n && post.subs@[j].handle == h2);
                                assert(pre.subs@[j].handle == h2);
                            }
                        }
                    }
                    Option::Some(front)
                } else {
                    Option::None
                }
            },
            Option::None => Option::None,
        }
    }

    fn find_index(&self, h: u64) -> (r: Option<usize>)
        requires
            self.wf(),
        ensures
            match r {
                Option::Some(i) => 0 <= i < self.subs@.len() && self.subs@[i as int].handle == h
                    && self.attached(h) && self.index_of(h) == i,
                Option::None => !self.attached(h),
            },
    {
        let n = self.subs.len();
        let mut i: usize = 0;
        while i < n
            invariant
                0 <= i <= n,
                n == self.subs@.len(),
                self.wf(),
                forall|j: int| 0 <= j < i ==> self.subs@[j].handle != h,
            decreases n - i,
        {
            if self.subs[i].handle == h {
                proof {
                    lemma_hub_index_pre(*self, i as int);
                }
                return Option::Some(i);
            }
            i = i + 1;
        }
        Option::None
    }
}

/// An index into the subscriber vector is recovered exactly by handle
/// lookup: handles are pairwise distinct.
proof fn lemma_hub_index(hub: Hub, i: int)
    requires
        0 <= i < hub.subs@.len(),
        forall|p: int, q: int|
            0 <= p < q < hub.subs@.len() ==> hub.subs@[p].handle != hub.subs@[q].handle,
    ensures
        hub.attached(hub.subs@[i].handle),
        hub.index_of(hub.subs@[i].handle) == i,
{
    let h = hub.subs@[i].handle;
    assert(hub.attached(h));
    let k = choose|k: int| 0 <= k < hub.subs@.len() && hub.subs@[k].handle == h;
    assert(0 <= k < hub.subs@.len() && hub.subs@[k].handle == h);
    if k != i {
        if k < i {
            assert(hub.subs@[k].handle != hub.subs@[i].handle);
        } else {
            assert(hub.subs@[i].handle != hub.subs@[k].handle);
        }
    }
}

proof fn lemma_hub_index_pre(hub: Hub, i: int)
    requires
        hub.wf(),
        0 <= i < hub.subs@.len(),
    ensures
        hub.attached(hub.subs@[i].handle),
        hub.index_of(hub.subs@[i].handle) == i,
        hub.buffer_of(hub.subs@[i].handle) == hub.subs@[i].buf@,
{
    lemma_hub_index(hub, i);
}

/// Law: a subscriber attached before a publish sequence, with room for all
/// of it, receives every published entity, in publish order, after whatever
/// it already held; a freshly attached subscriber (empty buffer) therefore
/// receives exactly the sequence, and nothing published before attachment.
pub proof fn lemma_subscriber_receives_all_in_order(
    buf: Seq<Component>,
    cs: Seq<Component>,
    cap: nat,
)
    requires
        buf.len() + cs.len() <= cap,
    ensures
        push_lossy_seq(buf, cs, cap) == buf + cs,
    decreases cs.len(),
{
    if cs.len() == 0 {
        assert(buf + cs =~= buf);
    } else {
        assert(push_lossy(buf, cs.first(), cap) == buf.push(cs.first()));
        lemma_subscriber_receives_all_in_order(buf.push(cs.first()), cs.drop_first(), cap);
        assert(buf.push(cs.first()) + cs.drop_first() =~= buf + cs);
    }
}

/// Law: once deliveries saturate a buffer, each newly published entity takes
/// the place of the oldest buffered one: afterwards the buffer holds exactly
/// the newest `cap` of the entities seen, still in publish order.
pub proof fn lemma_saturated_buffer_keeps_newest(buf: Seq<Component>, cs: Seq<Component>, cap: nat)
    requires
        cap >= 1,
        buf.len() <= cap,
        buf.len() + cs.len() >= cap,
    ensures
        push_lossy_seq(buf, cs, cap) == (buf + cs).skip(buf.len() + cs.len() - cap),
    decreases cs.len(),
{
    if cs.len() == 0 {
        assert((buf + cs).skip(buf.len() + cs.len() - cap) =~= buf);
    } else {
        let stepped = push_lossy(buf, cs.first(), cap);
        if buf.len() < cap {
            assert(stepped == buf.push(cs.first()));
            lemma_saturated_buffer_keeps_newest(stepped, cs.drop_first(), cap);
            assert(stepped + cs.drop_first() =~= buf + cs);
        } else {
            assert(stepped =~= buf.drop_first().push(cs.first()));
            lemma_saturated_buffer_keeps_newest(stepped, cs.drop_first(), cap);
            assert(stepped + cs.drop_first() =~= (buf + cs).skip(1));
            assert((buf + cs).skip(1).skip(stepped.len() + cs.drop_first().len() - cap) =~= (buf
                + cs).skip(buf.len() + cs.len() - cap));
        }
    }
}

} // verus!
