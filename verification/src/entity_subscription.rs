//! Entity subscriptions and the fan-out notifier.
//!
//! A subscription registers a consumer app on a feed, with an optional
//! per-consumer transformation script.  Fan-out delivers one feed payload to
//! every subscription of the feed; each delivery's failure is captured in its
//! own result and neither cancels nor delays the others.  The embedder runs
//! the per-subscription scripts concurrently and hands each outcome back
//! here, where the per-subscriber results are formed; the aggregate fails
//! only where the subscription lookup itself fails.

use crate::connected_app::ConnectedAppRepository;
use crate::entity_sharing::{EntitySharingCore, EntitySharingRepository};
use crate::errors::Error;
use vstd::prelude::*;

verus! {

/// A consumer's registration on a feed.
#[derive(Debug)]
pub struct EntitySubscription {
    pub id: String,
    pub entity_sharing_id: String,
    pub created_at: i64,
    pub updated_at: i64,
    pub connected_app_id: String,
    pub jdm_transform: Option<serde_json::Value>,
    pub python_script: Option<String>,
}

impl Clone for EntitySubscription {
    fn clone(&self) -> (r: Self)
        ensures
            r == *self,
    {
        EntitySubscription {
            id: self.id.clone(),
            entity_sharing_id: self.entity_sharing_id.clone(),
            created_at: self.created_at,
            updated_at: self.updated_at,
            connected_app_id: self.connected_app_id.clone(),
            jdm_transform: match &self.jdm_transform {
                Some(v) => Some(v.clone()),
                None => None,
            },
            python_script: match &self.python_script {
                Some(s) => Some(s.clone()),
                None => None,
            },
        }
    }
}

/// The parameters a caller supplies to register a subscription.
#[derive(Debug)]
pub struct CreateEntitySubscriptionParams {
    pub id: String,
    pub entity_sharing_id: String,
    pub connected_app_id: String,
    pub jdm_transform: Option<serde_json::Value>,
    pub python_script: Option<String>,
}

/// The subscription a successful creation stores: the given fields with both
/// timestamps at the creation time.
pub open spec fn subscription_from_params(
    p: CreateEntitySubscriptionParams,
    now: i64,
) -> EntitySubscription {
    EntitySubscription {
        id: p.id,
        entity_sharing_id: p.entity_sharing_id,
        created_at: now,
        updated_at: now,
        connected_app_id: p.connected_app_id,
        jdm_transform: p.jdm_transform,
        python_script: p.python_script,
    }
}

/// The subscription store's abstract contents, as repository contracts
/// speak of them.
pub type StoredSubscriptions = Map<Seq<char>, EntitySubscription>;

/// Storage for subscriptions.  Implementations live outside the verified
/// core; these contracts are what the core relies on.
pub trait EntitySubscriptionRepository: Sized {
    /// The stored subscriptions, keyed by id.
    spec fn subscriptions(&self) -> StoredSubscriptions;

    fn create_entity_subscription(
        &mut self,
        params: &CreateEntitySubscriptionParams,
        now: i64,
    ) -> (r: Result<EntitySubscription, Error>)
        ensures
            match r {
                Ok(sub) => sub == subscription_from_params(*params, now)
                    && final (self).subscriptions() == old(self).subscriptions().insert(
                    sub.id@,
                    sub,
                ),
                Err(e) => final (self).subscriptions() == old(self).subscriptions()
                    && e is DatabaseError,
            },
    ;

    fn get_entity_subscription_by_id(&self, id: &String) -> (r: Result<EntitySubscription, Error>)
        ensures
            match r {
                Ok(sub) => self.subscriptions().contains_key(id@) && sub
                    == self.subscriptions()[id@],
                Err(e) => e is DatabaseError || (e is NotFoundError
                    && !self.subscriptions().contains_key(id@)),
            },
    ;

    /// All stored subscriptions of one feed, in some storage order.
    fn get_all_entity_subscriptions_for_entity_sharing(&self, entity_sharing_id: &String) -> (r:
        Result<Vec<EntitySubscription>, Error>)
        ensures
            match r {
                Ok(subs) => {
                    &&& forall|i: int|
                        0 <= i < subs@.len() ==> {
                            &&& self.subscriptions().contains_key((#[trigger] subs@[i]).id@)
                            &&& subs@[i] == self.subscriptions()[subs@[i].id@]
                            &&& subs@[i].entity_sharing_id@ == entity_sharing_id@
                        }
                    &&& forall|id: Seq<char>|
                        self.subscriptions().contains_key(id) && (
                        #[trigger] self.subscriptions()[id]).entity_sharing_id@
                            == entity_sharing_id@ ==> exists|i: int|
                            0 <= i < subs@.len() && (#[trigger] subs@[i]).id@ == id
                },
                Err(e) => e is DatabaseError,
            },
    ;
}

/// The outcome of one delivery attempt: which subscription it was for, and
/// whether it succeeded.
#[derive(Debug)]
pub struct DeliveryResult {
    pub subscription_id: String,
    pub outcome: Result<(), Error>,
}

/// The result one subscription's delivery attempt yields, given its script
/// run's outcome (`None` where it has no script): a failed script is the
/// only failure; no script, or a successful one, is a completed delivery.
pub open spec fn spec_delivery_result(
    sub: EntitySubscription,
    script_outcome: Option<Result<serde_json::Value, Error>>,
) -> DeliveryResult {
    DeliveryResult {
        subscription_id: sub.id,
        outcome: match script_outcome {
            None => Ok(()),
            Some(Ok(_)) => Ok(()),
            Some(Err(e)) => Err(e),
        },
    }
}

/// The full fan-out result: one [`spec_delivery_result`] per subscription,
/// in order.
pub open spec fn spec_delivery_results(
    subs: Seq<EntitySubscription>,
    outcomes: Seq<Option<Result<serde_json::Value, Error>>>,
) -> Seq<DeliveryResult> {
    Seq::new(subs.len(), |i: int| spec_delivery_result(subs[i], outcomes[i]))
}

/// How many deliveries in a fan-out result succeeded.
pub open spec fn success_count(rs: Seq<DeliveryResult>) -> int
    decreases rs.len(),
{
    if rs.len() == 0 {
        0
    } else {
        success_count(rs.drop_last()) + if rs.last().outcome is Ok {
            1int
        } else {
            0int
        }
    }
}

proof fn lemma_success_count_all_ok(rs: Seq<DeliveryResult>)
    requires
        forall|i: int| 0 <= i < rs.len() ==> (#[trigger] rs[i]).outcome is Ok,
    ensures
        success_count(rs) == rs.len(),
    decreases rs.len(),
{
    if rs.len() > 0 {
        lemma_success_count_all_ok(rs.drop_last());
    }
}

proof fn lemma_success_count_one_failure(rs: Seq<DeliveryResult>, k: int)
    requires
        0 <= k < rs.len(),
        !((rs[k]).outcome is Ok),
        forall|i: int| 0 <= i < rs.len() && i != k ==> (#[trigger] rs[i]).outcome is Ok,
    ensures
        success_count(rs) == rs.len() - 1,
    decreases rs.len(),
{
    if k == rs.len() - 1 {
        lemma_success_count_all_ok(rs.drop_last());
    } else {
        lemma_success_count_one_failure(rs.drop_last(), k);
    }
}

/// Fan-out isolation: with `n` subscriptions of which exactly the `k`-th
/// one's script fails, the fan-out still yields `n` results — one per
/// subscription, delivery attempted for all — of which `n - 1` succeeded and
/// only the `k`-th failed.
pub proof fn lemma_fanout_isolation(
    subs: Seq<EntitySubscription>,
    outcomes: Seq<Option<Result<serde_json::Value, Error>>>,
    k: int,
)
    requires
        outcomes.len() == subs.len(),
        0 <= k < subs.len(),
        outcomes[k] is Some && outcomes[k]->0 is Err,
        forall|i: int|
            0 <= i < subs.len() && i != k ==> !((#[trigger] outcomes[i]) is Some
                && outcomes[i]->0 is Err),
    ensures
        ({
            let rs = spec_delivery_results(subs, outcomes);
            &&& rs.len() == subs.len()
            &&& !(rs[k].outcome is Ok)
            &&& forall|i: int|
                0 <= i < subs.len() ==> (#[trigger] rs[i]).subscription_id == subs[i].id
            &&& success_count(rs) == subs.len() - 1
        }),
{
    let rs = spec_delivery_results(subs, outcomes);
    assert forall|i: int| 0 <= i < rs.len() && i != k implies (#[trigger] rs[i]).outcome is Ok by {
        assert(rs[i] == spec_delivery_result(subs[i], outcomes[i]));
    }
    lemma_success_count_one_failure(rs, k);
}

/// Thin orchestration over the subscription repository, guarding referential
/// integrity through the sharing core it holds.
pub struct EntitySubscriptionCore<
    A: ConnectedAppRepository,
    RS: EntitySharingRepository,
    R: EntitySubscriptionRepository,
> {
    pub entity_subscription_repository: R,
    pub entity_sharing_core: EntitySharingCore<A, RS>,
}

impl<
    A: ConnectedAppRepository,
    RS: EntitySharingRepository,
    R: EntitySubscriptionRepository,
> EntitySubscriptionCore<A, RS, R> {
    /// The stored subscriptions this core sees.
    pub open spec fn subscriptions(&self) -> Map<Seq<char>, EntitySubscription> {
        self.entity_subscription_repository.subscriptions()
    }

    /// Registers a subscription after checking that the subscribed feed
    /// exists; a missing feed aborts the call with its error and nothing is
    /// written.
    pub fn create_entity_subscription(
        &mut self,
        params: &CreateEntitySubscriptionParams,
        now: i64,
    ) -> (r: Result<EntitySubscription, Error>)
        ensures
            final (self).entity_sharing_core == old(self).entity_sharing_core,
            match r {
                Ok(sub) => {
                    &&& old(self).entity_sharing_core.sharings().contains_key(
                        params.entity_sharing_id@,
                    )
                    &&& sub == subscription_from_params(*params, now)
                    &&& final (self).subscriptions() == old(self).subscriptions().insert(
                        sub.id@,
                        sub,
                    )
                },
                Err(e) => {
                    &&& final (self).subscriptions() == old(self).subscriptions()
                    &&& (e is NotFoundError ==> !old(self).entity_sharing_core.sharings().contains_key(
                        params.entity_sharing_id@,
                    ))
                    &&& (e is DatabaseError || e is NotFoundError)
                },
            },
    {
        match self.entity_sharing_core.get_entity_sharing(&params.entity_sharing_id) {
            Err(e) => Err(e),
            Ok(_) => self.entity_subscription_repository.create_entity_subscription(params, now),
        }
    }

    /// The current subscriptions of one feed, read fresh from storage.
    pub fn get_all_entity_subscriptions_for_entity_sharing(&self, entity_sharing_id: &String) -> (r:
        Result<Vec<EntitySubscription>, Error>)
        ensures
            match r {
                Ok(subs) => {
                    &&& forall|i: int|
                        0 <= i < subs@.len() ==> {
                            &&& self.subscriptions().contains_key((#[trigger] subs@[i]).id@)
                            &&& subs@[i] == self.subscriptions()[subs@[i].id@]
                            &&& subs@[i].entity_sharing_id@ == entity_sharing_id@
                        }
                    &&& forall|id: Seq<char>|
                        self.subscriptions().contains_key(id) && (
                        #[trigger] self.subscriptions()[id]).entity_sharing_id@
                            == entity_sharing_id@ ==> exists|i: int|
                            0 <= i < subs@.len() && (#[trigger] subs@[i]).id@ == id
                },
                Err(e) => e is DatabaseError,
            },
    {
        self.entity_subscription_repository.get_all_entity_subscriptions_for_entity_sharing(
            entity_sharing_id,
        )
    }

    /// One delivery: forms the subscription's result from its script run's
    /// outcome.  The embedder passes `None` exactly where the subscription
    /// has no script to run.
    pub fn notify_subscription_of_new_entity_list(
        &self,
        entity_subscription: &EntitySubscription,
        script_outcome: Option<Result<serde_json::Value, Error>>,
    ) -> (r: DeliveryResult)
        requires
            script_outcome is Some <==> entity_subscription.python_script is Some,
        ensures
            r == spec_delivery_result(*entity_subscription, script_outcome),
    {
        DeliveryResult {
            subscription_id: entity_subscription.id.clone(),
            outcome: match script_outcome {
                None => Ok(()),
                Some(Ok(_)) => Ok(()),
                Some(Err(e)) => Err(e),
            },
        }
    }

    /// The fan-out's aggregation: one result per subscription, each formed
    /// from its own script outcome, no failure cancelling a sibling.  The
    /// embedder runs the scripts concurrently and hands the outcomes over in
    /// subscription order, `None` exactly where a subscription has no
    /// script.
    pub fn notify_all_subscriptions_of_new_entity_list(
        &self,
        entity_subscriptions: &Vec<EntitySubscription>,
        script_outcomes: Vec<Option<Result<serde_json::Value, Error>>>,
    ) -> (r: Vec<DeliveryResult>)
        requires
            script_outcomes@.len() == entity_subscriptions@.len(),
            forall|i: int|
                0 <= i < entity_subscriptions@.len() ==> ((#[trigger] script_outcomes@[i]) is Some
                    <==> entity_subscriptions@[i].python_script is Some),
        ensures
            r@ == spec_delivery_results(entity_subscriptions@, script_outcomes@),
            r@.len() == entity_subscriptions@.len(),
    {
        let ghost outcomes0 = script_outcomes@;
        let mut outcomes = script_outcomes;
        let mut results: Vec<DeliveryResult> = Vec::new();
        let n = entity_subscriptions.len();
        let mut i: usize = 0;
        while i < n
            invariant
                i <= n,
                n == entity_subscriptions@.len(),
                outcomes0.len() == n,
                outcomes@ == outcomes0.skip(i as int),
                results@.len() == i,
                forall|j: int|
                    0 <= j < i ==> (#[trigger] results@[j]) == spec_delivery_result(
                        entity_subscriptions@[j],
                        outcomes0[j],
                    ),
                forall|j: int|
                    0 <= j < n ==> ((#[trigger] outcomes0[j]) is Some
                        <==> entity_subscriptions@[j].python_script is Some),
            decreases n - i,
        {
            let oc = outcomes.remove(0);
            let sub = &entity_subscriptions[i];
            let dr = self.notify_subscription_of_new_entity_list(sub, oc);
            results.push(dr);
            proof {
                assert(outcomes@ =~= outcomes0.skip(i + 1));
            }
            i = i + 1;
        }
        proof {
            assert(results@ =~= spec_delivery_results(entity_subscriptions@, outcomes0));
        }
        results
    }
}

} // verus!
