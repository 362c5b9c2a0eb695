//! The resend buffer (grams waiting for their answer) and the events that
//! travel through the servers' queues.
use std::collections::{HashMap, VecDeque};
use std::sync::Arc;

use bytes::Bytes;
use vstd::prelude::*;

use crate::object::gram::hookup::S2SHookupGram;
use crate::object::gram::message::MessageGram;
use crate::object::gram::receipt::ReceiptGram;

verus! {

broadcast use vstd::std_specs::hash::group_hash_axioms;

/// Default length of an event queue.
pub const EVENT_QUEUE_LEN: usize = 1024;

/// An event on a queue: a gram and the buffer it came in.
#[allow(inconsistent_fields)]
pub enum GramEvent {
    MessagGramEvent { data_buff: Arc<Bytes>, data_gram: Arc<MessageGram> },
    ReceiptGramEvent { data_buff: Arc<Bytes>, data_gram: Arc<ReceiptGram> },
    S2SHookupGramEvent { data_buff: Arc<Bytes>, data_gram: Arc<S2SHookupGram> },
}

/// What a resend buffer holds: the keys in the order they were pushed (the
/// oldest first), the buffers stored under keys, and the capacity.
pub struct GramPoolState {
    pub order: Seq<u128>,
    pub stored: Map<u128, Arc<Bytes>>,
    pub capacity: usize,
}

/// The most keys a pool of capacity `capacity` holds in its order.
pub open spec fn pool_bound(capacity: usize) -> nat {
    if capacity == 0 {
        1
    } else {
        capacity as nat
    }
}

/// The order after pushing `key`: when the order is full (and not empty),
/// its oldest key leaves first.
pub open spec fn order_after_push(order: Seq<u128>, capacity: usize, key: u128) -> Seq<u128> {
    if order.len() >= capacity && order.len() > 0 {
        order.drop_first().push(key)
    } else {
        order.push(key)
    }
}

/// What a key looks up to in the stored buffers.
pub open spec fn lookup(stored: Map<u128, Arc<Bytes>>, key: u128) -> Option<Arc<Bytes>> {
    if stored.contains_key(key) {
        Some(stored[key])
    } else {
        None
    }
}

/// A buffer of grams waiting for their answer, with a first-in first-out
/// order of keys. A key that leaves the order (evicted when the order is
/// full) keeps its stored buffer; a buffer removed by key keeps its key in the
/// order.
#[derive(Debug)]
pub struct GramBufferPool {
    buffer: VecDeque<u128>,
    hashsto: HashMap<u128, Arc<Bytes>>,
    capacity: usize,
}

impl View for GramBufferPool {
    type V = GramPoolState;

    closed spec fn view(&self) -> GramPoolState {
        GramPoolState { order: self.buffer@, stored: self.hashsto@, capacity: self.capacity }
    }
}

impl GramBufferPool {
    /// The order never holds more than `pool_bound(capacity)` keys.
    pub open spec fn wf(&self) -> bool {
        self@.order.len() <= pool_bound(self@.capacity)
    }

    /// An empty pool.
    pub fn new(capacity: usize) -> (r: Self)
        ensures
            r@.order == Seq::<u128>::empty(),
            r@.stored == Map::<u128, Arc<Bytes>>::empty(),
            r@.capacity == capacity,
            r.wf(),
    {
        GramBufferPool {
            buffer: VecDeque::with_capacity(capacity),
            hashsto: HashMap::with_capacity(capacity),
            capacity,
        }
    }

    /// Stores `data` under `key` and appends `key` to the order; when the order
    /// is full, its oldest key leaves it first.
    pub fn push(&mut self, data: Arc<Bytes>, key: u128)
        requires
            old(self).wf(),
        ensures
            final(self)@.order == order_after_push(old(self)@.order, old(self)@.capacity, key),
            final(self)@.stored == old(self)@.stored.insert(key, data),
            final(self)@.capacity == old(self)@.capacity,
            final(self).wf(),
    {
        if self.buffer.len() >= self.capacity {
            self.buffer.pop_front();
        }
        self.buffer.push_back(key);
        self.hashsto.insert(key, data);
    }

    /// Takes the oldest key out of the order and returns the buffer stored
    /// under it, removing it; `None` when the order is empty, or when nothing
    /// is stored under that key any more.
    pub fn pop(&mut self) -> (r: Option<Arc<Bytes>>)
        requires
            old(self).wf(),
        ensures
            old(self)@.order.len() == 0 ==> r.is_none() && final(self)@ == old(self)@,
            old(self)@.order.len() > 0 ==> {
                let key = old(self)@.order[0];
                &&& final(self)@.order == old(self)@.order.drop_first()
                &&& final(self)@.stored == old(self)@.stored.remove(key)
                &&& r == lookup(old(self)@.stored, key)
            },
            final(self)@.capacity == old(self)@.capacity,
            final(self).wf(),
    {
        if let Some(key) = self.buffer.pop_front() {
            self.hashsto.remove(&key)
        } else {
            None
        }
    }

    /// Removes and returns the buffer stored under `key`; the order is unchanged.
    pub fn remove(&mut self, key: &u128) -> (r: Option<Arc<Bytes>>)
        requires
            old(self).wf(),
        ensures
            final(self)@.order == old(self)@.order,
            final(self)@.stored == old(self)@.stored.remove(*key),
            final(self)@.capacity == old(self)@.capacity,
            r == lookup(old(self)@.stored, *key),
            final(self).wf(),
    {
        self.hashsto.remove(key)
    }

    /// The number of keys in the order.
    pub fn get_buffer_size(&self) -> (r: usize)
        requires
            self.wf(),
        ensures
            r == self@.order.len(),
            r <= pool_bound(self@.capacity),
    {
        self.buffer.len()
    }

    pub fn capacity(&self) -> (r: usize)
        ensures
            r == self@.capacity,
    {
        self.capacity
    }
}

/// What the resend loop does next.
pub enum ResendStep {
    /// Send this buffer again, then wait.
    Resend(Arc<Bytes>),
    /// The oldest key was answered meanwhile: go on at once.
    Skip,
    /// Nothing waits: wait.
    Wait,
}

/// One turn of the resend loop: when keys wait, take the oldest out; resend
/// its buffer if it is still stored, else skip it.
pub fn resend_buffer_step(pool: &mut GramBufferPool) -> (r: ResendStep)
    requires
        old(pool).wf(),
    ensures
        final(pool).wf(),
        old(pool)@.order.len() == 0 ==> r is Wait && final(pool)@ == old(pool)@,
        old(pool)@.order.len() > 0 ==> {
            let key = old(pool)@.order[0];
            &&& final(pool)@.order == old(pool)@.order.drop_first()
            &&& final(pool)@.stored == old(pool)@.stored.remove(key)
            &&& final(pool)@.capacity == old(pool)@.capacity
            &&& match lookup(old(pool)@.stored, key) {
                Some(data) => r == ResendStep::Resend(data),
                None => r is Skip,
            }
        },
{
    if pool.get_buffer_size() > 0 {
        match pool.pop() {
            Some(data_buff) => ResendStep::Resend(data_buff),
            None => ResendStep::Skip,
        }
    } else {
        ResendStep::Wait
    }
}

} // verus!
