//! The IPC bus: components subscribe to topics and receive every message
//! published on them.
//!
//! The bus keeps the subscriptions; each subscriber is named by an
//! identifier, and the platform layer keeps the channel behind each one.
use vstd::prelude::*;
use crate::text;

pub mod protocol;

verus! {

/// A message on the bus.
#[derive(Debug, Clone)]
pub enum IpcMessage {
    ProcessEvent { pid: i32, status: i32 },
    ContainerStart { id: String },
    ContainerStop { id: String },
    FilesystemEvent { path: String, kind: String },
    NetworkEvent { interface: String, event: String },
    UserNotification { title: String, body: String },
    Shutdown,
}

/// The subscriptions of the bus: subscriber `i` subscribed to `topics[i]`.
pub struct IpcBus {
    pub topics: Vec<String>,
}

/// The subscribers among the first `n` of `s` that subscribed to `t`, in
/// the order they subscribed.
pub open spec fn subscribers_upto(s: Seq<Seq<char>>, t: Seq<char>, n: int) -> Seq<usize>
    decreases n,
{
    if n <= 0 {
        Seq::empty()
    } else {
        let rest = subscribers_upto(s, t, n - 1);
        if s[n - 1] == t {
            rest.push((n - 1) as usize)
        } else {
            rest
        }
    }
}

/// The subscribers of topic `t`, in the order they subscribed.
pub open spec fn subscribers_of(s: Seq<Seq<char>>, t: Seq<char>) -> Seq<usize> {
    subscribers_upto(s, t, s.len() as int)
}

proof fn lemma_subscribers_prefix(s: Seq<Seq<char>>, x: Seq<char>, t: Seq<char>, n: int)
    requires
        0 <= n <= s.len(),
    ensures
        subscribers_upto(s.push(x), t, n) == subscribers_upto(s, t, n),
    decreases n,
{
    if n > 0 {
        lemma_subscribers_prefix(s, x, t, n - 1);
        assert(s.push(x)[n - 1] == s[n - 1]);
    }
}

impl IpcBus {
    /// The topic of each subscriber.
    pub open spec fn view(&self) -> Seq<Seq<char>> {
        text::views(self.topics@)
    }

    /// A bus without subscriptions.
    pub fn new() -> (r: Self)
        ensures
            r.view() == Seq::<Seq<char>>::empty(),
    {
        let r = Self { topics: Vec::new() };
        assert(r.view() =~= Seq::<Seq<char>>::empty());
        r
    }

    /// Subscribe to `topic`, and return the new subscriber, which is
    /// numbered after every earlier one.
    pub fn subscribe(&mut self, topic: &str) -> (id: usize)
        ensures
            final(self).view() == old(self).view().push(topic@),
            id == old(self).view().len(),
    {
        let id = self.topics.len();
        let ghost before = self.view();
        self.topics.push(text::owned(topic));
        assert(self.view() =~= before.push(topic@));
        id
    }

    /// The subscribers that a message published on `topic` reaches, in the
    /// order they subscribed.
    pub fn recipients(&self, topic: &str) -> (r: Vec<usize>)
        ensures
            r@ == subscribers_of(self.view(), topic@),
    {
        let ghost s = self.view();
        let mut r: Vec<usize> = Vec::new();
        let mut i: usize = 0;
        while i < self.topics.len()
            invariant
                s == self.view(),
                s.len() == self.topics@.len(),
                i <= s.len(),
                r@ == subscribers_upto(s, topic@, i as int),
            decreases s.len() - i,
        {
            if text::str_eq(self.topics[i].as_str(), topic) {
                r.push(i);
            }
            i = i + 1;
        }
        r
    }
}

/// A message published on a topic reaches every subscriber of that topic:
/// after a new subscription to `t`, the new subscriber is the last
/// recipient on `t`, after those already there, and no other topic's
/// recipients change.
pub proof fn law_publish_reaches_subscribers(s: Seq<Seq<char>>, t: Seq<char>, other: Seq<char>)
    ensures
        subscribers_of(s.push(t), t) == subscribers_of(s, t).push(s.len() as usize),
        other != t ==> subscribers_of(s.push(t), other) == subscribers_of(s, other),
{
    lemma_subscribers_prefix(s, t, t, s.len() as int);
    lemma_subscribers_prefix(s, t, other, s.len() as int);
}

/// Every recipient on a topic subscribed to it, and every subscriber of the
/// topic is a recipient.
pub proof fn law_recipients_are_subscribers(s: Seq<Seq<char>>, t: Seq<char>, i: int)
    requires
        0 <= i < s.len(),
        s.len() <= usize::MAX,
    ensures
        subscribers_of(s, t).contains(i as usize) <==> s[i] == t,
{
    lemma_recipients_upto(s, t, s.len() as int, i);
}

proof fn lemma_recipients_upto(s: Seq<Seq<char>>, t: Seq<char>, n: int, i: int)
    requires
        0 <= n <= s.len(),
        0 <= i < s.len(),
        s.len() <= usize::MAX,
    ensures
        subscribers_upto(s, t, n).contains(i as usize) <==> (i < n && s[i] == t),
        forall|k: int| 0 <= k < subscribers_upto(s, t, n).len() ==> subscribers_upto(s, t, n)[k] < n,
    decreases n,
{
    if n > 0 {
        lemma_recipients_upto(s, t, n - 1, i);
        let rest = subscribers_upto(s, t, n - 1);
        if s[n - 1] == t {
            let cur = rest.push((n - 1) as usize);
            if i == n - 1 {
                assert(cur[rest.len() as int] == (n - 1) as usize);
            } else {
                if cur.contains(i as usize) {
                    let k = choose|k: int| 0 <= k < cur.len() && cur[k] == i as usize;
                    if k < rest.len() {
                        assert(rest[k] == i as usize);
                    }
                }
                if rest.contains(i as usize) {
                    let k = choose|k: int| 0 <= k < rest.len() && rest[k] == i as usize;
                    assert(cur[k] == i as usize);
                }
            }
        }
    }
}

} // verus!
