use vstd::prelude::*;

use crate::errors::{prefixed, WebMQError};
use crate::queue::{create_memory_queue, AsyncQueue, MemoryQueue};

verus! {

/// The registry seen as a map from queue name to the messages it holds, head first.
pub type QueueMap = Map<Seq<char>, Seq<Seq<u8>>>;

/// The messages of a queue as byte sequences.
pub open spec fn messages_of(q: Seq<Vec<u8>>) -> Seq<Seq<u8>> {
    q.map_values(|m: Vec<u8>| m@)
}

/// The messages held under `name`; none when no queue has that name.
pub open spec fn held(m: QueueMap, name: Seq<char>) -> Seq<Seq<u8>> {
    if m.contains_key(name) {
        m[name]
    } else {
        Seq::empty()
    }
}

/// The registry after `msg` is published to `name`: the queue is created when absent
/// and the message goes to its tail.
pub open spec fn publish_spec(m: QueueMap, name: Seq<char>, msg: Seq<u8>) -> QueueMap {
    m.insert(name, held(m, name).push(msg))
}

/// Whether a consume of `name` has a message to deliver.
pub open spec fn can_consume(m: QueueMap, name: Seq<char>) -> bool {
    m.contains_key(name) && m[name].len() > 0
}

/// The registry after a successful consume of `name`: its head is gone.
pub open spec fn consume_spec(m: QueueMap, name: Seq<char>) -> QueueMap {
    if can_consume(m, name) {
        m.insert(name, m[name].drop_first())
    } else {
        m
    }
}

/// What a consume of `name` delivers: the head message, or nothing.
pub open spec fn consumed(m: QueueMap, name: Seq<char>) -> Option<Seq<u8>> {
    if can_consume(m, name) {
        Some(m[name][0])
    } else {
        None
    }
}

/// The text of the error that a consume with nothing to deliver gives.
pub open spec fn nothing_to_consume_text(name: Seq<char>) -> Seq<char> {
    "No messages in queue "@ + name
}

/// Publishing to and consuming from named queues.
pub trait MessagingDispatcher<Q, D> {
    /// The dispatcher's internal invariant.
    spec fn wf(&self) -> bool;

    /// Appends `data` to the queue named `queue`, creating the queue first when absent.
    fn publish(&mut self, queue: Q, data: D) -> (r: Option<WebMQError>)
        requires
            old(self).wf(),
        ensures
            final(self).wf(),
    ;

    /// Removes and returns the head message of the queue named `queue`.
    fn consume(&mut self, queue: Q) -> (r: Result<D, WebMQError>)
        requires
            old(self).wf(),
        ensures
            final(self).wf(),
    ;
}

struct QueueEntry {
    name: String,
    queue: MemoryQueue<Vec<u8>>,
}

/// The registry of named in-memory queues. Each name has at most one queue, created on
/// its first publish and kept for the registry's lifetime. Exclusive access (`&mut`)
/// makes each publish and consume one indivisible step.
pub struct BaseMessagingDispatcher {
    queues: Vec<QueueEntry>,
}

impl BaseMessagingDispatcher {
    spec fn has_name(&self, name: Seq<char>) -> bool {
        exists|i: int| 0 <= i < self.queues@.len() && self.queues@[i].name@ == name
    }

    spec fn index_of(&self, name: Seq<char>) -> int {
        choose|i: int| 0 <= i < self.queues@.len() && self.queues@[i].name@ == name
    }

    proof fn lemma_index_of(&self, i: int)
        requires
            self.wf(),
            0 <= i < self.queues@.len(),
        ensures
            self.has_name(self.queues@[i].name@),
            self.index_of(self.queues@[i].name@) == i,
    {
        let k = self.queues@[i].name@;
        assert(self.has_name(k));
        let j = self.index_of(k);
        if j < i {
            assert(self.queues@[j].name@ != self.queues@[i].name@);
        } else if i < j {
            assert(self.queues@[i].name@ != self.queues@[j].name@);
        }
    }

    /// Replacing the queue of the entry at `i`, names kept, replaces that name's messages.
    proof fn lemma_replace_queue(old_d: &Self, new_d: &Self, i: int)
        requires
            old_d.wf(),
            0 <= i < old_d.queues@.len(),
            new_d.queues@.len() == old_d.queues@.len(),
            new_d.queues@[i].name@ == old_d.queues@[i].name@,
            forall|j: int| 0 <= j < old_d.queues@.len() && j != i ==> new_d.queues@[j] == old_d.queues@[j],
        ensures
            new_d.wf(),
            new_d@ == old_d@.insert(old_d.queues@[i].name@, messages_of(new_d.queues@[i].queue@)),
    {
        assert forall|j: int| 0 <= j < new_d.queues@.len() implies #[trigger] new_d.queues@[j].name@
            == old_d.queues@[j].name@ by {
            if j != i {
                assert(new_d.queues@[j] == old_d.queues@[j]);
            }
        }
        assert(new_d.wf());
        old_d.lemma_index_of(i);
        assert forall|k: Seq<char>| #[trigger] new_d.has_name(k) == old_d.has_name(k) by {
            if old_d.has_name(k) {
                let j = old_d.index_of(k);
                assert(new_d.queues@[j].name@ == k);
            }
            if new_d.has_name(k) {
                let j = new_d.index_of(k);
                assert(old_d.queues@[j].name@ == k);
            }
        }
        assert forall|k: Seq<char>| new_d.has_name(k) implies #[trigger] new_d.index_of(k)
            == old_d.index_of(k) by {
            let j = new_d.index_of(k);
            new_d.lemma_index_of(j);
            old_d.lemma_index_of(j);
        }
        assert(new_d@ =~= old_d@.insert(old_d.queues@[i].name@, messages_of(new_d.queues@[i].queue@)));
    }

    /// An empty registry.
    pub fn new() -> (r: BaseMessagingDispatcher)
        ensures
            r.wf(),
            r@ == QueueMap::empty(),
    {
        let r = BaseMessagingDispatcher { queues: Vec::new() };
        assert(r@ =~= QueueMap::empty());
        r
    }

    fn find(&self, name: &String) -> (r: Option<usize>)
        ensures
            match r {
                Some(i) => i < self.queues@.len() && self.queues@[i as int].name@ == name@,
                None => !self.has_name(name@),
            },
    {
        let mut i: usize = 0;
        while i < self.queues.len()
            invariant
                i <= self.queues@.len(),
                forall|j: int| 0 <= j < i ==> self.queues@[j].name@ != name@,
            decreases self.queues@.len() - i,
        {
            if self.queues[i].name == *name {
                return Some(i);
            }
            i += 1;
        }
        None
    }
}

impl View for BaseMessagingDispatcher {
    type V = QueueMap;

    closed spec fn view(&self) -> QueueMap {
        Map::new(
            |k: Seq<char>| self.has_name(k),
            |k: Seq<char>| messages_of(self.queues@[self.index_of(k)].queue@),
        )
    }
}

impl MessagingDispatcher<String, Vec<u8>> for BaseMessagingDispatcher {
    /// Each name has at most one queue.
    closed spec fn wf(&self) -> bool {
        forall|i: int, j: int|
            0 <= i < j < self.queues@.len() ==> self.queues@[i].name@ != self.queues@[j].name@
    }

    fn publish(&mut self, queue: String, data: Vec<u8>) -> (r: Option<WebMQError>)
        ensures
            final(self)@ == publish_spec(old(self)@, queue@, data@),
            r is None,
    {
        let ghost old_self = *self;
        let ghost msg = data;
        match self.find(&queue) {
            Some(i) => {
                self.queues[i].queue.push(data);
                proof {
                    Self::lemma_replace_queue(&old_self, self, i as int);
                    assert(messages_of(old_self.queues@[i as int].queue@.push(msg)) =~= messages_of(
                        old_self.queues@[i as int].queue@,
                    ).push(msg@));
                }
            },
            None => {
                let mut q = create_memory_queue();
                q.push(data);
                let ghost name = queue@;
                self.queues.push(QueueEntry { name: queue, queue: q });
                proof {
                    let n = old_self.queues@.len() as int;
                    assert(self.queues@.len() == n + 1);
                    assert(self.queues@[n].name@ == name);
                    assert forall|j: int| 0 <= j < n implies #[trigger] self.queues@[j] == old_self.queues@[j] by {}
                    assert(self.wf());
                    assert forall|k: Seq<char>| #[trigger] self.has_name(k) == (old_self.has_name(k) || k == name) by {
                        if old_self.has_name(k) {
                            let j = old_self.index_of(k);
                            assert(self.queues@[j].name@ == k);
                        }
                        if k == name {
                            assert(self.queues@[n].name@ == k);
                        }
                        if self.has_name(k) && k != name {
                            let j = self.index_of(k);
                            assert(old_self.queues@[j].name@ == k);
                        }
                    }
                    assert forall|k: Seq<char>| old_self.has_name(k) implies #[trigger] self.index_of(k)
                        == old_self.index_of(k) by {
                        let j = old_self.index_of(k);
                        old_self.lemma_index_of(j);
                        self.lemma_index_of(j);
                    }
                    self.lemma_index_of(n);
                    assert(messages_of(Seq::<Vec<u8>>::empty().push(msg)) =~= seq![msg@]);
                    assert(self@ =~= publish_spec(old_self@, name, msg@));
                }
            },
        }
        None
    }

    fn consume(&mut self, queue: String) -> (r: Result<Vec<u8>, WebMQError>)
        ensures
            final(self)@ == consume_spec(old(self)@, queue@),
            match r {
                Ok(data) => consumed(old(self)@, queue@) == Some(data@),
                Err(e) => {
                    &&& consumed(old(self)@, queue@) is None
                    &&& e is Data
                    &&& e.message_spec() == nothing_to_consume_text(queue@)
                },
            },
    {
        let ghost old_self = *self;
        let text = prefixed("No messages in queue ", queue.as_str());
        match self.find(&queue) {
            Some(i) => {
                let popped = self.queues[i].queue.pop();
                proof {
                    Self::lemma_replace_queue(&old_self, self, i as int);
                    old_self.lemma_index_of(i as int);
                    let q = old_self.queues@[i as int].queue@;
                    if q.len() > 0 {
                        assert(messages_of(q.drop_first()) =~= messages_of(q).drop_first());
                    } else {
                        assert(self@ =~= old_self@);
                    }
                }
                match popped {
                    Ok(data) => Ok(data),
                    Err(_) => Err(WebMQError::Data(text)),
                }
            },
            None => Err(WebMQError::Data(text)),
        }
    }
}

/// The registry after each of `msgs` is published to `name`, in order.
pub open spec fn publish_all(m: QueueMap, name: Seq<char>, msgs: Seq<Seq<u8>>) -> QueueMap
    decreases msgs.len(),
{
    if msgs.len() == 0 {
        m
    } else {
        publish_spec(publish_all(m, name, msgs.drop_last()), name, msgs.last())
    }
}

/// What `n` consumes of `name` in a row deliver, in order.
pub open spec fn consume_n(m: QueueMap, name: Seq<char>, n: nat) -> Seq<Option<Seq<u8>>>
    decreases n,
{
    if n == 0 {
        Seq::empty()
    } else {
        seq![consumed(m, name)] + consume_n(consume_spec(m, name), name, (n - 1) as nat)
    }
}

/// Publishing a non-empty sequence of messages appends them, in order, to what the queue
/// held, and touches no other queue.
pub proof fn lemma_publish_all(m: QueueMap, name: Seq<char>, msgs: Seq<Seq<u8>>)
    requires
        msgs.len() > 0,
    ensures
        publish_all(m, name, msgs) == m.insert(name, held(m, name) + msgs),
    decreases msgs.len(),
{
    let prefix = msgs.drop_last();
    if prefix.len() == 0 {
        assert(publish_all(m, name, prefix) == m);
        assert(held(m, name).push(msgs.last()) =~= held(m, name) + msgs);
    } else {
        lemma_publish_all(m, name, prefix);
        let p = publish_all(m, name, prefix);
        assert(held(p, name) == held(m, name) + prefix);
        assert((held(m, name) + prefix).push(msgs.last()) =~= held(m, name) + msgs);
        assert(publish_all(m, name, msgs) =~= m.insert(name, held(m, name) + msgs));
    }
}

/// The `i`-th of `n` consumes in a row delivers the `i`-th message held, while there is one,
/// and nothing after that.
pub proof fn lemma_consume_n(m: QueueMap, name: Seq<char>, n: nat)
    ensures
        consume_n(m, name, n).len() == n,
        forall|i: int|
            0 <= i < n ==> #[trigger] consume_n(m, name, n)[i] == if i < held(m, name).len() {
                Some(held(m, name)[i])
            } else {
                None::<Seq<u8>>
            },
    decreases n,
{
    if n > 0 {
        let rest = consume_spec(m, name);
        lemma_consume_n(rest, name, (n - 1) as nat);
        if can_consume(m, name) {
            assert(held(rest, name) == held(m, name).drop_first());
        } else {
            assert(held(m, name).len() == 0);
            assert(rest == m);
        }
        assert forall|i: int| 0 <= i < n implies #[trigger] consume_n(m, name, n)[i] == if i < held(
            m,
            name,
        ).len() {
            Some(held(m, name)[i])
        } else {
            None::<Seq<u8>>
        } by {
            if i > 0 {
                assert(consume_n(m, name, n)[i] == consume_n(rest, name, (n - 1) as nat)[i - 1]);
            }
        }
    }
}

/// First in, first out: messages published to a queue that holds nothing are delivered by
/// as many consumes, in the order they were published.
pub proof fn lemma_fifo(m: QueueMap, name: Seq<char>, msgs: Seq<Seq<u8>>)
    requires
        held(m, name).len() == 0,
    ensures
        consume_n(publish_all(m, name, msgs), name, msgs.len()) == msgs.map_values(
            |x: Seq<u8>| Some(x),
        ),
{
    let p = publish_all(m, name, msgs);
    if msgs.len() > 0 {
        lemma_publish_all(m, name, msgs);
        assert(held(p, name) =~= msgs);
    } else {
        assert(p == m);
    }
    lemma_consume_n(p, name, msgs.len());
    assert(consume_n(p, name, msgs.len()) =~= msgs.map_values(|x: Seq<u8>| Some(x)));
}

/// A consume of a queue that was never published to, or that has been drained, delivers
/// nothing and changes nothing.
pub proof fn lemma_nothing_to_deliver(m: QueueMap, name: Seq<char>, msgs: Seq<Seq<u8>>)
    requires
        held(m, name).len() == 0,
    ensures
        consumed(m, name) is None,
        consume_spec(m, name) == m,
        consume_n(publish_all(m, name, msgs), name, msgs.len() + 1)[msgs.len() as int] is None,
{
    let p = publish_all(m, name, msgs);
    if msgs.len() > 0 {
        lemma_publish_all(m, name, msgs);
        assert(held(p, name) =~= msgs);
    } else {
        assert(p == m);
    }
    lemma_consume_n(p, name, msgs.len() + 1);
}

/// Publishing to a name that has no queue creates exactly one queue, which holds all the
/// messages in publish order; every other queue is left as it was.
pub proof fn lemma_lazy_creation(m: QueueMap, name: Seq<char>, msgs: Seq<Seq<u8>>)
    requires
        !m.contains_key(name),
        msgs.len() > 0,
    ensures
        publish_all(m, name, msgs).dom() == m.dom().insert(name),
        publish_all(m, name, msgs)[name] == msgs,
        forall|k: Seq<char>|
            m.contains_key(k) ==> #[trigger] publish_all(m, name, msgs)[k] == m[k],
{
    lemma_publish_all(m, name, msgs);
    assert(held(m, name) + msgs =~= msgs);
}

/// Publishers racing on a name that has no queue: in whatever order the exclusive access
/// admits them, the registry ends with one new queue that holds exactly their messages,
/// none lost and none repeated.
pub proof fn lemma_racing_publishers(
    m: QueueMap,
    name: Seq<char>,
    published: Seq<Seq<u8>>,
    admitted: Seq<Seq<u8>>,
)
    requires
        !m.contains_key(name),
        published.len() > 0,
        admitted.to_multiset() == published.to_multiset(),
    ensures
        publish_all(m, name, admitted).dom() == m.dom().insert(name),
        publish_all(m, name, admitted)[name].len() == published.len(),
        publish_all(m, name, admitted)[name].to_multiset() == published.to_multiset(),
{
    vstd::seq_lib::to_multiset_len(admitted);
    vstd::seq_lib::to_multiset_len(published);
    lemma_lazy_creation(m, name, admitted);
}

} // verus!
