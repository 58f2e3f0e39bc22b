//! The command bus: a typed publish/subscribe dispatcher.
//!
//! Producers publish commands tagged with a topic; every registered
//! subscriber interested in that topic receives the command synchronously, in
//! registration order, before `publish` returns.  Publishing without a topic
//! deliberately delivers to nobody: the bus's policy is "no topic, no
//! delivery", so no command is ever broadcast by accident.  Subscribers are
//! registered for the lifetime of the bus; there is no unsubscribe.

use crate::entity_sharing::EntitySharing;
use vstd::prelude::*;

verus! {

/// The commands the hub publishes: a sharing was created, or an existing one
/// was updated.  Each carries the full feed definition.
#[derive(Debug)]
pub enum Commands {
    EntitySharingCreated { entity_sharing: EntitySharing },
    EntitySharingUpdated { entity_sharing: EntitySharing },
}

/// The topics commands are published under.
#[derive(Clone, Copy, Debug, PartialEq, Eq, Structural)]
pub enum TopicIds {
    EntitySharingCreated,
    EntitySharingUpdated,
}

/// A bus subscriber.  Its observable state is its view; `next_view` is its
/// transition function, and `on_event` must realise exactly that transition.
pub trait Subscriber: Sized + View {
    /// Which topics this subscriber wants delivered.
    spec fn interested(&self, topic: TopicIds) -> bool;

    /// The subscriber's state after handling one command.
    spec fn next_view(&self, c: Commands) -> Self::V;

    fn is_subscribed_to(&self, topic: &TopicIds) -> (r: bool)
        ensures
            r == self.interested(*topic),
    ;

    fn on_event(&mut self, c: &Commands)
        ensures
            final (self)@ == old(self).next_view(*c),
    ;
}

/// The state a subscriber is left in by one publish: unchanged without a
/// topic or without interest in it, otherwise advanced by the command.
pub open spec fn delivered_view<S: Subscriber>(s: S, c: Commands, topic: Option<TopicIds>) -> S::V {
    match topic {
        None => s@,
        Some(t) => if s.interested(t) {
            s.next_view(c)
        } else {
            s@
        },
    }
}

/// One publish turned the subscriber list `pre` into `post`: same
/// subscribers in the same order, each delivered to exactly once.
pub open spec fn published<S: Subscriber>(
    pre: Seq<S>,
    post: Seq<S>,
    c: Commands,
    topic: Option<TopicIds>,
) -> bool {
    &&& post.len() == pre.len()
    &&& forall|i: int|
        0 <= i < pre.len() ==> (#[trigger] post[i])@ == delivered_view(pre[i], c, topic)
}

/// An explicitly constructed bus object: no process-wide singleton.  It holds
/// nothing but the subscriber list.
pub struct Bus<S: Subscriber> {
    pub subscribers: Vec<S>,
}

impl<S: Subscriber> Bus<S> {
    pub fn new() -> (r: Self)
        ensures
            r.subscribers@ == Seq::<S>::empty(),
    {
        Bus { subscribers: Vec::new() }
    }

    /// Registers a subscriber for the lifetime of the bus.
    pub fn subscribe(&mut self, s: S)
        ensures
            final (self).subscribers@ == old(self).subscribers@.push(s),
    {
        self.subscribers.push(s);
    }

    /// Delivers `c` synchronously to every subscriber whose
    /// `is_subscribed_to(topic)` holds, in registration order.  Without a
    /// topic, nothing is delivered.
    pub fn publish(&mut self, c: &Commands, topic: Option<TopicIds>)
        ensures
            published(old(self).subscribers@, final (self).subscribers@, *c, topic),
    {
        match topic {
            None => {},
            Some(t) => {
                let ghost pre = self.subscribers@;
                let n = self.subscribers.len();
                let mut i: usize = 0;
                while i < n
                    invariant
                        i <= n,
                        n == self.subscribers@.len(),
                        pre.len() == n,
                        forall|j: int|
                            0 <= j < i ==> (#[trigger] self.subscribers@[j])@ == delivered_view(
                                pre[j],
                                *c,
                                Some(t),
                            ),
                        forall|j: int| i <= j < n ==> self.subscribers@[j] == pre[j],
                    decreases n - i,
                {
                    let ghost before = self.subscribers@;
                    let mut s = self.subscribers.remove(i);
                    if s.is_subscribed_to(&t) {
                        s.on_event(c);
                    }
                    self.subscribers.insert(i, s);
                    proof {
                        assert(self.subscribers@ =~= before.update(i as int, s));
                    }
                    i = i + 1;
                }
            },
        }
    }
}

} // verus!
