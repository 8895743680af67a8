//! The broker registry: the single owner of topic subscriptions and of the
//! FIFO queue of pending dispatch work.
//!
//! The registry is modelled by three quantities: `topic_subs` (the ordered
//! subscriber list recorded under each topic), `jobs_model` (the pending
//! jobs, oldest first) and `counter` (the next job id). All operations keep
//! the well-formedness predicate `wf`: topics are unique, no recorded list
//! is empty, and queued job ids strictly increase and stay below the
//! counter.

use vstd::prelude::*;

use crate::packets::{GrantedLevel, Packet, PublishPacket, SubackPacket, SubscribePacket};

verus! {

/// One unit of pending outbound work: the packet to deliver, the subscriber
/// snapshot taken when the job was created, and the session that caused it.
pub struct WorkerJob {
    pub job_id: u32,
    pub packet: Packet,
    pub subscribers: Vec<u64>,
    pub sender: u64,
}

struct TopicEntry {
    topic: String,
    subscribers: Vec<u64>,
}

/// How often a topic occurs in a subscription request, by exact string
/// match.
pub open spec fn count_topic(ts: Seq<String>, t: Seq<char>) -> nat
    decreases ts.len(),
{
    if ts.len() == 0 {
        0
    } else {
        count_topic(ts.drop_last(), t) + (if ts.last()@ == t {
            1nat
        } else {
            0nat
        })
    }
}

/// How often a session id occurs in a subscriber list: the number of
/// deliveries the list stands for.
pub open spec fn count_session(subs: Seq<u64>, s: u64) -> nat
    decreases subs.len(),
{
    if subs.len() == 0 {
        0
    } else {
        count_session(subs.drop_last(), s) + (if subs.last() == s {
            1nat
        } else {
            0nat
        })
    }
}

spec fn has_entry(entries: Seq<TopicEntry>, t: Seq<char>) -> bool {
    exists|i: int| 0 <= i < entries.len() && entries[i].topic@ == t
}

/// The subscriber list recorded under `t`: the first entry whose topic is
/// `t`, or the empty list when there is none.
spec fn entry_subs(entries: Seq<TopicEntry>, t: Seq<char>) -> Seq<u64>
    decreases entries.len(),
{
    if entries.len() == 0 {
        Seq::empty()
    } else if entries[0].topic@ == t {
        entries[0].subscribers@
    } else {
        entry_subs(entries.drop_first(), t)
    }
}

proof fn lemma_entry_subs_absent(entries: Seq<TopicEntry>, t: Seq<char>)
    requires
        !has_entry(entries, t),
    ensures
        entry_subs(entries, t) == Seq::<u64>::empty(),
    decreases entries.len(),
{
    if entries.len() > 0 {
        assert(entries[0].topic@ != t);
        assert(forall|i: int|
            0 <= i < entries.drop_first().len() ==> entries.drop_first()[i] == entries[i + 1]);
        lemma_entry_subs_absent(entries.drop_first(), t);
    }
}

proof fn lemma_entry_subs_first_match(entries: Seq<TopicEntry>, i: int)
    requires
        0 <= i < entries.len(),
        forall|j: int| 0 <= j < i ==> entries[j].topic@ != entries[i].topic@,
    ensures
        entry_subs(entries, entries[i].topic@) == entries[i].subscribers@,
    decreases i,
{
    if i > 0 {
        assert(entries.drop_first()[i - 1] == entries[i]);
        assert(forall|j: int|
            0 <= j < entries.drop_first().len() ==> entries.drop_first()[j] == entries[j + 1]);
        lemma_entry_subs_first_match(entries.drop_first(), i - 1);
    }
}

/// Replacing the first entry of a topic by one with the same topic changes
/// exactly that topic's recorded list and nothing else.
proof fn lemma_entry_subs_update(pre: Seq<TopicEntry>, post: Seq<TopicEntry>, idx: int)
    requires
        pre.len() == post.len(),
        0 <= idx < pre.len(),
        forall|j: int| 0 <= j < pre.len() && j != idx ==> post[j] == pre[j],
        post[idx].topic@ == pre[idx].topic@,
        forall|j: int| 0 <= j < idx ==> pre[j].topic@ != pre[idx].topic@,
    ensures
        forall|t: Seq<char>| #[trigger] entry_subs(post, t) == (if t == pre[idx].topic@ {
            post[idx].subscribers@
        } else {
            entry_subs(pre, t)
        }),
    decreases pre.len(),
{
    assert(forall|j: int|
        0 <= j < pre.drop_first().len() ==> pre.drop_first()[j] == pre[j + 1]);
    assert(forall|j: int|
        0 <= j < post.drop_first().len() ==> post.drop_first()[j] == post[j + 1]);
    if idx == 0 {
        assert(post.drop_first() =~= pre.drop_first());
        assert forall|t: Seq<char>| #[trigger] entry_subs(post, t) == (if t == pre[0].topic@ {
            post[0].subscribers@
        } else {
            entry_subs(pre, t)
        }) by {
            if t != pre[0].topic@ {
                assert(entry_subs(post, t) == entry_subs(post.drop_first(), t));
            }
        }
    } else {
        lemma_entry_subs_update(pre.drop_first(), post.drop_first(), idx - 1);
        assert forall|t: Seq<char>| #[trigger] entry_subs(post, t) == (if t == pre[idx].topic@ {
            post[idx].subscribers@
        } else {
            entry_subs(pre, t)
        }) by {
            assert(post[0] == pre[0]);
            assert(pre[0].topic@ != pre[idx].topic@);
            assert(pre.drop_first()[idx - 1] == pre[idx]);
            assert(post.drop_first()[idx - 1] == post[idx]);
            if t == pre[0].topic@ {
                assert(entry_subs(post, t) == post[0].subscribers@);
                assert(entry_subs(pre, t) == pre[0].subscribers@);
            } else {
                assert(entry_subs(post, t) == entry_subs(post.drop_first(), t));
                assert(entry_subs(pre, t) == entry_subs(pre.drop_first(), t));
                assert(entry_subs(post.drop_first(), t) == (if t == pre.drop_first()[idx
                    - 1].topic@ {
                    post.drop_first()[idx - 1].subscribers@
                } else {
                    entry_subs(pre.drop_first(), t)
                }));
            }
        }
    }
}

/// Appending an entry for a fresh topic records its list under that topic
/// and leaves every other topic's list as it was.
proof fn lemma_entry_subs_push(pre: Seq<TopicEntry>, e: TopicEntry)
    ensures
        forall|t: Seq<char>| #[trigger] entry_subs(pre.push(e), t) == (if has_entry(pre, t) {
            entry_subs(pre, t)
        } else if t == e.topic@ {
            e.subscribers@
        } else {
            Seq::<u64>::empty()
        }),
        forall|t: Seq<char>| #[trigger] has_entry(pre.push(e), t) <==> (has_entry(pre, t) || t
            == e.topic@),
    decreases pre.len(),
{
    let post = pre.push(e);
    assert forall|t: Seq<char>| #[trigger] has_entry(post, t) <==> (has_entry(pre, t) || t
        == e.topic@) by {
        if has_entry(pre, t) {
            let i = choose|i: int| 0 <= i < pre.len() && pre[i].topic@ == t;
            assert(post[i].topic@ == t);
        }
        if t == e.topic@ {
            assert(post[pre.len() as int].topic@ == t);
        }
        if has_entry(post, t) && !has_entry(pre, t) {
            let i = choose|i: int| 0 <= i < post.len() && post[i].topic@ == t;
            assert(i == pre.len());
        }
    }
    if pre.len() == 0 {
        assert forall|t: Seq<char>| #[trigger] entry_subs(post, t) == (if has_entry(pre, t) {
            entry_subs(pre, t)
        } else if t == e.topic@ {
            e.subscribers@
        } else {
            Seq::<u64>::empty()
        }) by {
            assert(post[0] == e);
            if t != e.topic@ {
                assert(entry_subs(post, t) == entry_subs(post.drop_first(), t));
                assert(post.drop_first().len() == 0);
            }
        }
    } else {
        lemma_entry_subs_push(pre.drop_first(), e);
        assert(forall|j: int|
            0 <= j < pre.drop_first().len() ==> pre.drop_first()[j] == pre[j + 1]);
        assert(post.drop_first() =~= pre.drop_first().push(e));
        assert forall|t: Seq<char>| #[trigger] entry_subs(post, t) == (if has_entry(pre, t) {
            entry_subs(pre, t)
        } else if t == e.topic@ {
            e.subscribers@
        } else {
            Seq::<u64>::empty()
        }) by {
            if pre[0].topic@ == t {
                assert(has_entry(pre, t));
                assert(post[0] == pre[0]);
            } else {
                assert(entry_subs(post, t) == entry_subs(post.drop_first(), t));
                assert(entry_subs(pre, t) == entry_subs(pre.drop_first(), t));
                if has_entry(pre, t) {
                    let i = choose|i: int| 0 <= i < pre.len() && pre[i].topic@ == t;
                    assert(pre.drop_first()[i - 1].topic@ == t);
                    assert(has_entry(pre.drop_first(), t));
                }
                if has_entry(pre.drop_first(), t) {
                    let i = choose|i: int|
                        0 <= i < pre.drop_first().len() && pre.drop_first()[i].topic@ == t;
                    assert(pre[i + 1].topic@ == t);
                }
            }
        }
    }
}

/// A plain element-wise copy of a subscriber snapshot.
pub(crate) fn copy_ids(v: &Vec<u64>) -> (r: Vec<u64>)
    ensures
        r@ == v@,
{
    let mut r: Vec<u64> = Vec::new();
    let mut i: usize = 0;
    while i < v.len()
        invariant
            i <= v@.len(),
            r@ =~= v@.take(i as int),
        decreases v@.len() - i,
    {
        r.push(v[i]);
        proof {
            assert(v@.take(i as int).push(v@[i as int]) =~= v@.take(i + 1));
        }
        i += 1;
    }
    proof {
        assert(v@.take(v@.len() as int) =~= v@);
    }
    r
}

proof fn lemma_has_entry_iff_nonempty(entries: Seq<TopicEntry>)
    requires
        forall|i: int|
            0 <= i < entries.len() ==> #[trigger] entries[i].subscribers@.len() > 0,
    ensures
        forall|t: Seq<char>| #[trigger] has_entry(entries, t) <==> entry_subs(entries, t).len()
            > 0,
    decreases entries.len(),
{
    if entries.len() > 0 {
        assert(forall|j: int|
            0 <= j < entries.drop_first().len() ==> entries.drop_first()[j] == entries[j + 1]);
        lemma_has_entry_iff_nonempty(entries.drop_first());
        assert forall|t: Seq<char>| #[trigger] has_entry(entries, t) <==> entry_subs(
            entries,
            t,
        ).len() > 0 by {
            if entries[0].topic@ == t {
                assert(has_entry(entries, t));
            } else {
                assert(entry_subs(entries, t) == entry_subs(entries.drop_first(), t));
                if has_entry(entries, t) {
                    let i = choose|i: int| 0 <= i < entries.len() && entries[i].topic@ == t;
                    assert(entries.drop_first()[i - 1].topic@ == t);
                    assert(has_entry(entries.drop_first(), t));
                }
                if has_entry(entries.drop_first(), t) {
                    let i = choose|i: int|
                        0 <= i < entries.drop_first().len() && entries.drop_first()[i].topic@
                            == t;
                    assert(entries[i + 1].topic@ == t);
                }
            }
        }
    }
}

/// The broker registry's state: topic subscriptions, the pending-job queue
/// and the strictly increasing job counter.
pub struct MessageQueue {
    topic_subscriptions: Vec<TopicEntry>,
    jobs: Vec<WorkerJob>,
    job_counter: u32,
}

impl MessageQueue {
    /// The ordered subscriber list recorded under topic `t` (empty when the
    /// topic is unknown).
    pub closed spec fn topic_subs(&self, t: Seq<char>) -> Seq<u64> {
        entry_subs(self.topic_subscriptions@, t)
    }

    /// Whether the registry holds an entry for topic `t`.
    pub closed spec fn is_subscribed(&self, t: Seq<char>) -> bool {
        has_entry(self.topic_subscriptions@, t)
    }

    /// The pending jobs, oldest first.
    pub closed spec fn jobs_model(&self) -> Seq<WorkerJob> {
        self.jobs@
    }

    /// The id the next created job will get.
    pub closed spec fn counter(&self) -> u32 {
        self.job_counter
    }

    /// Well-formedness: topics unique, no empty subscriber list, queued job
    /// ids strictly increasing and below the counter.
    pub closed spec fn wf(&self) -> bool {
        &&& forall|i: int, j: int|
            0 <= i < j < self.topic_subscriptions@.len()
                ==> self.topic_subscriptions@[i].topic@ != self.topic_subscriptions@[j].topic@
        &&& forall|i: int|
            0 <= i < self.topic_subscriptions@.len()
                ==> #[trigger] self.topic_subscriptions@[i].subscribers@.len() > 0
        &&& forall|i: int, j: int|
            0 <= i < j < self.jobs@.len() ==> self.jobs@[i].job_id < self.jobs@[j].job_id
        &&& forall|i: int|
            0 <= i < self.jobs@.len() ==> #[trigger] self.jobs@[i].job_id < self.job_counter
    }

    /// A fresh registry: no subscriptions, no pending jobs, counter at zero.
    pub fn new() -> (r: Self)
        ensures
            r.wf(),
            r.counter() == 0,
            r.jobs_model() == Seq::<WorkerJob>::empty(),
            forall|t: Seq<char>| #[trigger] r.topic_subs(t) == Seq::<u64>::empty(),
            forall|t: Seq<char>| !(#[trigger] r.is_subscribed(t)),
    {
        let r = MessageQueue { topic_subscriptions: Vec::new(), jobs: Vec::new(), job_counter: 0 };
        proof {
            assert(r.jobs@ =~= Seq::<WorkerJob>::empty());
        }
        r
    }

    /// Index of the first entry recorded for `topic`, with what that means
    /// for the model.
    fn find_topic(&self, topic: &String) -> (r: Option<usize>)
        ensures
            match r {
                Some(i) => {
                    &&& i < self.topic_subscriptions@.len()
                    &&& self.topic_subscriptions@[i as int].topic@ == topic@
                    &&& forall|j: int|
                        0 <= j < i ==> self.topic_subscriptions@[j].topic@ != topic@
                    &&& self.topic_subs(topic@) == self.topic_subscriptions@[
                        i as int
                    ].subscribers@
                    &&& self.is_subscribed(topic@)
                },
                None => {
                    &&& !self.is_subscribed(topic@)
                    &&& self.topic_subs(topic@) == Seq::<u64>::empty()
                },
            },
    {
        let n = self.topic_subscriptions.len();
        let mut i: usize = 0;
        while i < n
            invariant
                i <= n,
                n == self.topic_subscriptions@.len(),
                forall|j: int| 0 <= j < i ==> self.topic_subscriptions@[j].topic@ != topic@,
            decreases n - i,
        {
            if self.topic_subscriptions[i].topic == *topic {
                proof {
                    lemma_entry_subs_first_match(self.topic_subscriptions@, i as int);
                }
                return Some(i);
            }
            i += 1;
        }
        proof {
            lemma_entry_subs_absent(self.topic_subscriptions@, topic@);
        }
        None
    }

    /// Records `sender` under every topic of the request, in request order,
    /// grants the lowest service level for each, and queues one job that
    /// carries the acknowledgement back to `sender` alone.
    pub fn subscribe(&mut self, packet: SubscribePacket, sender: u64) -> (r: bool)
        requires
            old(self).wf(),
            old(self).counter() < u32::MAX,
        ensures
            r == true,
            final(self).wf(),
            final(self).counter() == old(self).counter() + 1,
            forall|t: Seq<char>| #[trigger] final(self).topic_subs(t) =~= old(self).topic_subs(t)
                + Seq::new(count_topic(packet.topics@, t), |_k: int| sender),
            final(self).jobs_model().len() == old(self).jobs_model().len() + 1,
            final(self).jobs_model() =~= old(self).jobs_model().push(
                final(self).jobs_model().last(),
            ),
            ({
                let j = final(self).jobs_model().last();
                &&& j.job_id == old(self).counter()
                &&& j.sender == sender
                &&& j.subscribers@ =~= Seq::<u64>::empty()
                &&& j.packet matches Packet::Suback(s) && s.message_id == packet.message_id
                    && s.granted@ =~= Seq::new(
                    packet.topics@.len(),
                    |_k: int| GrantedLevel::QoS0,
                )
            }),
    {
        let mut granted: Vec<GrantedLevel> = Vec::new();
        let n = packet.topics.len();
        let mut i: usize = 0;
        while i < n
            invariant
                i <= n,
                n == packet.topics@.len(),
                old(self).wf(),
                granted@ =~= Seq::new(i as nat, |_k: int| GrantedLevel::QoS0),
                self.job_counter == old(self).job_counter,
                self.jobs == old(self).jobs,
                forall|a: int, b: int|
                    0 <= a < b < self.topic_subscriptions@.len()
                        ==> self.topic_subscriptions@[a].topic@
                        != self.topic_subscriptions@[b].topic@,
                forall|a: int|
                    0 <= a < self.topic_subscriptions@.len()
                        ==> #[trigger] self.topic_subscriptions@[a].subscribers@.len() > 0,
                forall|t: Seq<char>| #[trigger] entry_subs(self.topic_subscriptions@, t)
                    =~= entry_subs(old(self).topic_subscriptions@, t) + Seq::new(
                    count_topic(packet.topics@.take(i as int), t),
                    |_k: int| sender,
                ),
            decreases n - i,
        {
            let ghost entries0 = self.topic_subscriptions@;
            let ghost ts = packet.topics@;
            match self.find_topic(&packet.topics[i]) {
                Some(idx) => {
                    self.topic_subscriptions[idx].subscribers.push(sender);
                    proof {
                        lemma_entry_subs_update(entries0, self.topic_subscriptions@, idx as int);
                    }
                },
                None => {
                    let mut subs: Vec<u64> = Vec::new();
                    subs.push(sender);
                    let entry = TopicEntry { topic: packet.topics[i].clone(), subscribers: subs };
                    proof {
                        lemma_entry_subs_push(entries0, entry);
                    }
                    self.topic_subscriptions.push(entry);
                },
            }
            proof {
                assert(ts.take(i + 1).drop_last() =~= ts.take(i as int));
                assert(ts.take(i + 1).last() == ts[i as int]);
                let ghost t0 = ts[i as int]@;
                assert forall|t: Seq<char>| #[trigger] entry_subs(self.topic_subscriptions@, t)
                    =~= entry_subs(old(self).topic_subscriptions@, t) + Seq::new(
                    count_topic(ts.take(i + 1), t),
                    |_k: int| sender,
                ) by {
                    if t == t0 {
                        assert(entry_subs(self.topic_subscriptions@, t) =~= entry_subs(
                            entries0,
                            t,
                        ).push(sender));
                        assert(count_topic(ts.take(i + 1), t) == count_topic(ts.take(i as int), t)
                            + 1);
                    } else {
                        if !has_entry(entries0, t) {
                            lemma_entry_subs_absent(entries0, t);
                        }
                        assert(entry_subs(self.topic_subscriptions@, t) == entry_subs(
                            entries0,
                            t,
                        ));
                        assert(count_topic(ts.take(i + 1), t) == count_topic(
                            ts.take(i as int),
                            t,
                        ));
                    }
                }
            }
            granted.push(GrantedLevel::QoS0);
            i += 1;
        }
        proof {
            assert(packet.topics@.take(n as int) =~= packet.topics@);
        }
        let job_id = self.get_job_id();
        let suback = SubackPacket { message_id: packet.message_id, granted };
        let job = WorkerJob { job_id, packet: Packet::Suback(suback), subscribers: Vec::new(), sender };
        self.jobs.push(job);
        proof {
            assert(forall|k: int|
                0 <= k < old(self).jobs@.len() ==> #[trigger] old(self).jobs@[k].job_id
                    < old(self).job_counter);
        }
        true
    }

    /// Routes a published message: when the topic has subscribers, queues
    /// one job carrying the message, a snapshot of the current subscriber
    /// list and the publishing session; a publish to an unknown topic
    /// creates no job. The job counter advances either way.
    pub fn publish(&mut self, packet: PublishPacket, sender: u64) -> (r: bool)
        requires
            old(self).wf(),
            old(self).counter() < u32::MAX,
        ensures
            r == false,
            final(self).wf(),
            final(self).counter() == old(self).counter() + 1,
            forall|t: Seq<char>| #[trigger] final(self).topic_subs(t) == old(self).topic_subs(t),
            forall|t: Seq<char>| #[trigger] final(self).is_subscribed(t) <==> old(self).is_subscribed(t),
            !old(self).is_subscribed(packet.topic@) ==> final(self).jobs_model() == old(self).jobs_model(),
            old(self).is_subscribed(packet.topic@) ==> {
                &&& final(self).jobs_model().len() == old(self).jobs_model().len() + 1
                &&& final(self).jobs_model() =~= old(self).jobs_model().push(
                    final(self).jobs_model().last(),
                )
                &&& ({
                    let j = final(self).jobs_model().last();
                    &&& j.job_id == old(self).counter()
                    &&& j.sender == sender
                    &&& j.subscribers@ == old(self).topic_subs(packet.topic@)
                    &&& j.packet == Packet::Publish(packet)
                })
            },
    {
        let job_id = self.get_job_id();
        match self.find_topic(&packet.topic) {
            Some(idx) => {
                let subs = copy_ids(&self.topic_subscriptions[idx].subscribers);
                let job = WorkerJob { job_id, packet: Packet::Publish(packet), subscribers: subs, sender };
                self.jobs.push(job);
            },
            None => {},
        }
        false
    }

    /// Removes and returns the oldest pending job; returns nothing, and
    /// changes nothing, when the queue is empty.
    pub fn get_next_job(&mut self) -> (r: Option<WorkerJob>)
        requires
            old(self).wf(),
        ensures
            final(self).wf(),
            final(self).counter() == old(self).counter(),
            forall|t: Seq<char>| #[trigger] final(self).topic_subs(t) == old(self).topic_subs(t),
            forall|t: Seq<char>| #[trigger] final(self).is_subscribed(t) <==> old(self).is_subscribed(t),
            old(self).jobs_model().len() == 0 ==> r is None && final(self).jobs_model() == old(self).jobs_model(),
            old(self).jobs_model().len() > 0 ==> r == Some(old(self).jobs_model()[0]) && final(self).jobs_model() =~= old(self).jobs_model().drop_first(),
    {
        if self.jobs.len() == 0 {
            None
        } else {
            let job = self.jobs.remove(0);
            proof {
                assert(self.jobs@ =~= old(self).jobs@.drop_first());
            }
            Some(job)
        }
    }

    /// The id the next created job will be stamped with; callers read it to
    /// see that the counter has room before subscribing or publishing.
    pub fn next_job_id(&self) -> (r: u32)
        ensures
            r == self.counter(),
    {
        self.job_counter
    }

    /// Hands out the next job id and advances the counter, so that no two
    /// jobs ever share an id.
    fn get_job_id(&mut self) -> (r: u32)
        requires
            old(self).job_counter < u32::MAX,
        ensures
            r == old(self).job_counter,
            final(self).job_counter == old(self).job_counter + 1,
            final(self).topic_subscriptions == old(self).topic_subscriptions,
            final(self).jobs == old(self).jobs,
    {
        let job_id = self.job_counter;
        self.job_counter = self.job_counter + 1;
        job_id
    }
}

/// Law: a topic is subscribed exactly when its recorded subscriber list is
/// non-empty, so a publish creates a job exactly when the list the job
/// would carry is non-empty.
pub proof fn lemma_subscribed_iff_nonempty(q: MessageQueue)
    requires
        q.wf(),
    ensures
        forall|t: Seq<char>| #[trigger] q.is_subscribed(t) <==> q.topic_subs(t).len() > 0,
{
    lemma_has_entry_iff_nonempty(q.topic_subscriptions@);
}

/// Law: every job a well-formed registry holds carries an id strictly below
/// the counter. A job created next is stamped with the counter itself, so
/// its id differs from every id already queued: ids are never reused.
pub proof fn lemma_job_ids_fresh(q: MessageQueue)
    requires
        q.wf(),
    ensures
        forall|i: int| 0 <= i < q.jobs_model().len() ==> #[trigger] q.jobs_model()[i].job_id
            < q.counter(),
{
}

/// Law: queued job ids strictly increase from the front of the queue to the
/// back, so the job at the front — the one `get_next_job` hands out — is
/// always the earliest-created job still pending (FIFO order).
pub proof fn lemma_fifo_order(q: MessageQueue)
    requires
        q.wf(),
    ensures
        forall|i: int, j: int|
            0 <= i < j < q.jobs_model().len() ==> q.jobs_model()[i].job_id < q.jobs_model()[
                j
            ].job_id,
{
}

} // verus!
