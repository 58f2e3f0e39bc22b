//! Entity sharings: the data feeds connected apps register.  A sharing
//! carries an optional polling configuration — its presence is the sole
//! trigger for background polling — an optional transformation script, and an
//! opaque JSON schema.  Updates are merge patches: only fields present in the
//! patch overwrite, and `updated_at` always advances to the merge time.

use crate::bus::{published, Bus, Commands, Subscriber, TopicIds};
use crate::connected_app::{ConnectedApp, ConnectedAppCore, ConnectedAppRepository};
use crate::errors::Error;
use crate::json::{json_field, json_is_null_of, json_u64_of, json_value_of};
use crate::json::{json_as_u64, json_is_null, json_object_field, try_parse_json};
use vstd::prelude::*;
use vstd::string::StringExecFns;

verus! {

/// Polling configuration of a sharing: how often the polling worker
/// re-evaluates the feed, in milliseconds.  A zero interval is a
/// configuration error, rejected by [`validate_polling_infos`].
#[derive(Clone, Copy, Debug, PartialEq, Eq, Structural)]
pub struct EntitySharingPollingInfos {
    pub polling_interval: u64,
}

/// Whether an (optional) polling configuration is acceptable: absent, or
/// present with a positive interval.
pub open spec fn polling_config_valid(p: Option<EntitySharingPollingInfos>) -> bool {
    match p {
        None => true,
        Some(cfg) => cfg.polling_interval > 0,
    }
}

/// Rejects a polling configuration with a non-positive interval.
pub fn validate_polling_infos(p: &Option<EntitySharingPollingInfos>) -> (r: bool)
    ensures
        r == polling_config_valid(*p),
{
    match p {
        None => true,
        Some(cfg) => cfg.polling_interval > 0,
    }
}

/// A registered data feed.
#[derive(Debug)]
pub struct EntitySharing {
    pub id: String,
    pub name: String,
    pub connected_app_id: String,
    pub created_at: i64,
    pub updated_at: i64,
    pub polling_infos: Option<EntitySharingPollingInfos>,
    pub json_schema: serde_json::Value,
    pub is_array: bool,
    pub python_script: Option<String>,
}

impl Clone for EntitySharing {
    fn clone(&self) -> (r: Self)
        ensures
            r == *self,
    {
        EntitySharing {
            id: self.id.clone(),
            name: self.name.clone(),
            connected_app_id: self.connected_app_id.clone(),
            created_at: self.created_at,
            updated_at: self.updated_at,
            polling_infos: self.polling_infos,
            json_schema: self.json_schema.clone(),
            is_array: self.is_array,
            python_script: match &self.python_script {
                Some(s) => Some(s.clone()),
                None => None,
            },
        }
    }
}

/// A merge patch for a sharing: a present field overwrites, an absent one
/// keeps the prior value.
#[derive(Debug)]
pub struct UpdateEntitySharingParams {
    pub name: Option<String>,
    pub polling_infos: Option<EntitySharingPollingInfos>,
    pub python_script: Option<String>,
    pub is_array: Option<bool>,
    pub json_schema: Option<serde_json::Value>,
}

/// The feed that merging `p` into `e` at time `now` yields: patched fields
/// overwritten, identity and `created_at` kept, `updated_at` set to `now`.
pub open spec fn spec_merge(e: EntitySharing, p: UpdateEntitySharingParams, now: i64) -> EntitySharing {
    EntitySharing {
        id: e.id,
        connected_app_id: e.connected_app_id,
        created_at: e.created_at,
        updated_at: now,
        name: match p.name {
            Some(n) => n,
            None => e.name,
        },
        polling_infos: match p.polling_infos {
            Some(cfg) => Some(cfg),
            None => e.polling_infos,
        },
        python_script: match p.python_script {
            Some(s) => Some(s),
            None => e.python_script,
        },
        is_array: match p.is_array {
            Some(b) => b,
            None => e.is_array,
        },
        json_schema: match p.json_schema {
            Some(v) => v,
            None => e.json_schema,
        },
    }
}

impl EntitySharing {
    /// Merge-patch semantics: only fields explicitly present in `patch`
    /// overwrite; omitted fields retain their prior values; `updated_at`
    /// advances to the time of the merge.
    pub fn merge(self, patch: UpdateEntitySharingParams, now: i64) -> (r: EntitySharing)
        ensures
            r == spec_merge(self, patch, now),
    {
        EntitySharing {
            id: self.id,
            connected_app_id: self.connected_app_id,
            created_at: self.created_at,
            updated_at: now,
            name: match patch.name {
                Some(n) => n,
                None => self.name,
            },
            polling_infos: match patch.polling_infos {
                Some(cfg) => Some(cfg),
                None => self.polling_infos,
            },
            python_script: match patch.python_script {
                Some(s) => Some(s),
                None => self.python_script,
            },
            is_array: match patch.is_array {
                Some(b) => b,
                None => self.is_array,
            },
            json_schema: match patch.json_schema {
                Some(v) => v,
                None => self.json_schema,
            },
        }
    }
}

/// Applying the same merge patch twice yields the same feed as applying it
/// once at the later time: nothing changes on the second application apart
/// from `updated_at` taking that merge's time.
pub proof fn lemma_merge_idempotent(
    e: EntitySharing,
    p: UpdateEntitySharingParams,
    t1: i64,
    t2: i64,
)
    ensures
        spec_merge(spec_merge(e, p, t1), p, t2) == spec_merge(e, p, t2),
{
}

/// The parameters a caller supplies to register a sharing.
#[derive(Debug)]
pub struct CreateEntitySharingParams {
    pub id: String,
    pub name: String,
    pub connected_app_id: String,
    pub json_schema: serde_json::Value,
    pub polling_infos: Option<EntitySharingPollingInfos>,
    pub is_array: bool,
    pub python_script: Option<String>,
}

/// The sharing a successful creation stores: the given fields with both
/// timestamps at the creation time.
pub open spec fn sharing_from_params(p: CreateEntitySharingParams, now: i64) -> EntitySharing {
    EntitySharing {
        id: p.id,
        name: p.name,
        connected_app_id: p.connected_app_id,
        created_at: now,
        updated_at: now,
        polling_infos: p.polling_infos,
        json_schema: p.json_schema,
        is_array: p.is_array,
        python_script: p.python_script,
    }
}

} // verus!

verus! {

/// The sharing store's abstract contents, as repository contracts speak of
/// them.
pub type StoredSharings = Map<Seq<char>, EntitySharing>;

/// Storage for entity sharings.  Implementations live outside the verified
/// core (the hub ships one over SQLite); these contracts are what the core
/// relies on: reads do not change the store, a successful creation stores
/// exactly the described sharing, a lookup succeeds only on a stored id, and
/// an update overwrites exactly the addressed row, reporting how many rows
/// were affected.
pub trait EntitySharingRepository: Sized {
    /// The stored sharings, keyed by id.
    spec fn sharings(&self) -> StoredSharings;

    fn create_entity_sharing(&mut self, params: &CreateEntitySharingParams, now: i64) -> (r: Result<
        EntitySharing,
        Error,
    >)
        ensures
            match r {
                Ok(e) => e == sharing_from_params(*params, now) && final (self).sharings() == old(
                    self,
                ).sharings().insert(e.id@, e),
                Err(err) => final (self).sharings() == old(self).sharings()
                    && err is DatabaseError,
            },
    ;

    fn get_entity_sharing(&self, id: &String) -> (r: Result<EntitySharing, Error>)
        ensures
            match r {
                Ok(e) => self.sharings().contains_key(id@) && e == self.sharings()[id@] && e.id@
                    == id@,
                Err(err) => err is DatabaseError || (err is NotFoundError
                    && !self.sharings().contains_key(id@)),
            },
    ;

    fn get_all_entity_sharings(&self) -> (r: Result<Vec<EntitySharing>, Error>)
        ensures
            match r {
                Ok(es) => {
                    &&& forall|i: int|
                        0 <= i < es@.len() ==> self.sharings().contains_key(
                            (#[trigger] es@[i]).id@,
                        ) && es@[i] == self.sharings()[es@[i].id@]
                    &&& forall|id: Seq<char>|
                        self.sharings().contains_key(id) ==> exists|i: int|
                            0 <= i < es@.len() && (#[trigger] es@[i]).id@ == id
                },
                Err(err) => err is DatabaseError,
            },
    ;

    /// The sharings that have a polling configuration, and only those.
    fn get_all_polling_entity_sharings(&self) -> (r: Result<Vec<EntitySharing>, Error>)
        ensures
            match r {
                Ok(es) => {
                    &&& forall|i: int|
                        0 <= i < es@.len() ==> {
                            &&& self.sharings().contains_key((#[trigger] es@[i]).id@)
                            &&& es@[i] == self.sharings()[es@[i].id@]
                            &&& es@[i].polling_infos is Some
                        }
                    &&& forall|id: Seq<char>|
                        self.sharings().contains_key(id) && (
                        #[trigger] self.sharings()[id]).polling_infos is Some ==> exists|i: int|
                            0 <= i < es@.len() && (#[trigger] es@[i]).id@ == id
                },
                Err(err) => err is DatabaseError,
            },
    ;

    fn update_entity_sharing(&mut self, entity_sharing: &EntitySharing) -> (r: Result<u64, Error>)
        ensures
            match r {
                Ok(n) => if old(self).sharings().contains_key(entity_sharing.id@) {
                    n == 1 && final (self).sharings() == old(self).sharings().insert(
                        entity_sharing.id@,
                        *entity_sharing,
                    )
                } else {
                    n == 0 && final (self).sharings() == old(self).sharings()
                },
                Err(err) => final (self).sharings() == old(self).sharings()
                    && err is DatabaseError,
            },
    ;
}

} // verus!

verus! {

/// Thin orchestration over the sharing repository: validates configuration
/// and referential integrity (the owning app must exist) before delegating
/// to storage, and publishes a bus command on every successful creation or
/// update.
pub struct EntitySharingCore<A: ConnectedAppRepository, R: EntitySharingRepository> {
    pub connected_app_core: ConnectedAppCore<A>,
    pub entity_sharing_repository: R,
}

impl<A: ConnectedAppRepository, R: EntitySharingRepository> EntitySharingCore<A, R> {
    pub fn new(connected_app_core: ConnectedAppCore<A>, entity_sharing_repository: R) -> (r: Self)
        ensures
            r.connected_app_core == connected_app_core,
            r.entity_sharing_repository == entity_sharing_repository,
    {
        EntitySharingCore { connected_app_core, entity_sharing_repository }
    }

    /// The stored sharings this core sees.
    pub open spec fn sharings(&self) -> Map<Seq<char>, EntitySharing> {
        self.entity_sharing_repository.sharings()
    }

    /// The stored apps this core sees.
    pub open spec fn apps(&self) -> Map<Seq<char>, ConnectedApp> {
        self.connected_app_core.apps()
    }

    /// Registers a sharing: rejects a non-positive polling interval, aborts
    /// with the lookup's error when the owning app does not exist (no
    /// partial write), stores the sharing otherwise and publishes
    /// `EntitySharingCreated` so the polling manager reacts to it.
    pub fn create_entity_sharing<S: Subscriber>(
        &mut self,
        params: &CreateEntitySharingParams,
        now: i64,
        bus: &mut Bus<S>,
    ) -> (r: Result<EntitySharing, Error>)
        ensures
            final (self).connected_app_core == old(self).connected_app_core,
            match r {
                Ok(e) => {
                    &&& polling_config_valid(params.polling_infos)
                    &&& old(self).apps().contains_key(params.connected_app_id@)
                    &&& e == sharing_from_params(*params, now)
                    &&& final (self).sharings() == old(self).sharings().insert(e.id@, e)
                    &&& published(
                        old(bus).subscribers@,
                        final (bus).subscribers@,
                        Commands::EntitySharingCreated { entity_sharing: e },
                        Some(TopicIds::EntitySharingCreated),
                    )
                },
                Err(err) => {
                    &&& final (self).sharings() == old(self).sharings()
                    &&& final (bus).subscribers@ == old(bus).subscribers@
                    &&& (!polling_config_valid(params.polling_infos) <==> err is ConfigurationError)
                    &&& (err is NotFoundError ==> !old(self).apps().contains_key(
                        params.connected_app_id@,
                    ))
                    &&& (err is DatabaseError || err is NotFoundError || err is ConfigurationError)
                },
            },
    {
        if !validate_polling_infos(&params.polling_infos) {
            return Err(
                Error::ConfigurationError(String::from_str("polling interval must be positive")),
            );
        }
        match self.connected_app_core.get_connected_app(&params.connected_app_id) {
            Err(e) => Err(e),
            Ok(_) => {
                match self.entity_sharing_repository.create_entity_sharing(params, now) {
                    Err(e) => Err(e),
                    Ok(e) => {
                        bus.publish(
                            &Commands::EntitySharingCreated { entity_sharing: e.clone() },
                            Some(TopicIds::EntitySharingCreated),
                        );
                        Ok(e)
                    },
                }
            },
        }
    }

    /// Merge-patches a stored sharing: loads it, merges the patch at `now`,
    /// rejects a resulting non-positive polling interval, stores the merged
    /// feed and publishes `EntitySharingUpdated` so the running worker is
    /// reconfigured without restarting.
    pub fn update_entity_sharing<S: Subscriber>(
        &mut self,
        id: &String,
        params: UpdateEntitySharingParams,
        now: i64,
        bus: &mut Bus<S>,
    ) -> (r: Result<EntitySharing, Error>)
        ensures
            final (self).connected_app_core == old(self).connected_app_core,
            match r {
                Ok(e) => {
                    &&& old(self).sharings().contains_key(id@)
                    &&& e == spec_merge(old(self).sharings()[id@], params, now)
                    &&& polling_config_valid(e.polling_infos)
                    &&& final (self).sharings() == old(self).sharings().insert(id@, e)
                    &&& published(
                        old(bus).subscribers@,
                        final (bus).subscribers@,
                        Commands::EntitySharingUpdated { entity_sharing: e },
                        Some(TopicIds::EntitySharingUpdated),
                    )
                },
                Err(err) => {
                    &&& final (self).sharings() == old(self).sharings()
                    &&& final (bus).subscribers@ == old(bus).subscribers@
                    &&& (err is NotFoundError ==> !old(self).sharings().contains_key(id@))
                    &&& (err is ConfigurationError ==> old(self).sharings().contains_key(id@)
                        && !polling_config_valid(
                        spec_merge(old(self).sharings()[id@], params, now).polling_infos,
                    ))
                    &&& (err is DatabaseError || err is NotFoundError || err is ConfigurationError)
                },
            },
    {
        let current = match self.entity_sharing_repository.get_entity_sharing(id) {
            Err(e) => {
                return Err(e);
            },
            Ok(c) => c,
        };
        let merged = current.merge(params, now);
        if !validate_polling_infos(&merged.polling_infos) {
            return Err(
                Error::ConfigurationError(String::from_str("polling interval must be positive")),
            );
        }
        match self.entity_sharing_repository.update_entity_sharing(&merged) {
            Err(e) => Err(e),
            Ok(_rows_affected) => {
                bus.publish(
                    &Commands::EntitySharingUpdated { entity_sharing: merged.clone() },
                    Some(TopicIds::EntitySharingUpdated),
                );
                Ok(merged)
            },
        }
    }

    pub fn get_entity_sharing(&self, id: &String) -> (r: Result<EntitySharing, Error>)
        ensures
            match r {
                Ok(e) => self.sharings().contains_key(id@) && e == self.sharings()[id@] && e.id@
                    == id@,
                Err(err) => err is DatabaseError || (err is NotFoundError
                    && !self.sharings().contains_key(id@)),
            },
    {
        self.entity_sharing_repository.get_entity_sharing(id)
    }

    pub fn get_all_entity_sharings(&self) -> (r: Result<Vec<EntitySharing>, Error>)
        ensures
            match r {
                Ok(es) => {
                    &&& forall|i: int|
                        0 <= i < es@.len() ==> self.sharings().contains_key(
                            (#[trigger] es@[i]).id@,
                        ) && es@[i] == self.sharings()[es@[i].id@]
                    &&& forall|id: Seq<char>|
                        self.sharings().contains_key(id) ==> exists|i: int|
                            0 <= i < es@.len() && (#[trigger] es@[i]).id@ == id
                },
                Err(err) => err is DatabaseError,
            },
    {
        self.entity_sharing_repository.get_all_entity_sharings()
    }

    pub fn get_all_polling_entity_sharings(&self) -> (r: Result<Vec<EntitySharing>, Error>)
        ensures
            match r {
                Ok(es) => {
                    &&& forall|i: int|
                        0 <= i < es@.len() ==> {
                            &&& self.sharings().contains_key((#[trigger] es@[i]).id@)
                            &&& es@[i] == self.sharings()[es@[i].id@]
                            &&& es@[i].polling_infos is Some
                        }
                    &&& forall|id: Seq<char>|
                        self.sharings().contains_key(id) && (
                        #[trigger] self.sharings()[id]).polling_infos is Some ==> exists|i: int|
                            0 <= i < es@.len() && (#[trigger] es@[i]).id@ == id
                },
                Err(err) => err is DatabaseError,
            },
    {
        self.entity_sharing_repository.get_all_polling_entity_sharings()
    }
}

} // verus!

verus! {

/// A sharing as the SQLite storage rows it: structured values held as JSON
/// text.  `polling_infos` is absent (no polling), or JSON that is either
/// `null` (also no polling) or an object carrying the interval.
#[derive(Debug)]
pub struct EntitySharingDTO {
    pub id: String,
    pub name: String,
    pub connected_app_id: String,
    pub created_at: i64,
    pub updated_at: i64,
    pub polling_infos: Option<String>,
    pub json_schema: String,
    pub is_array: bool,
    pub python_script: Option<String>,
}

/// The polling configuration a stored JSON text denotes: `None` where the
/// text is not a usable configuration document, `Some(None)` where it is
/// JSON `null`, and `Some(Some(cfg))` where it is an object whose
/// `polling_interval` member is an unsigned 64-bit number.
pub open spec fn spec_polling_infos_of_json(s: Seq<char>) -> Option<
    Option<EntitySharingPollingInfos>,
> {
    match json_value_of(s) {
        None => None,
        Some(v) => if json_is_null_of(v) {
            Some(None)
        } else {
            match json_field(v, "polling_interval"@) {
                None => None,
                Some(f) => match json_u64_of(f) {
                    None => None,
                    Some(n) => Some(Some(EntitySharingPollingInfos { polling_interval: n })),
                },
            }
        },
    }
}

/// Reads an optional polling configuration out of its stored JSON text, as
/// [`spec_polling_infos_of_json`] defines it.
pub fn parse_polling_infos(s: &str) -> (r: Option<Option<EntitySharingPollingInfos>>)
    ensures
        r == spec_polling_infos_of_json(s@),
{
    match try_parse_json(s) {
        None => None,
        Some(v) => {
            if json_is_null(&v) {
                Some(None)
            } else {
                match json_object_field(&v, "polling_interval") {
                    None => None,
                    Some(f) => match json_as_u64(f) {
                        None => None,
                        Some(n) => Some(Some(EntitySharingPollingInfos { polling_interval: n })),
                    },
                }
            }
        },
    }
}

/// The sharing a storage row denotes, or `None` where its JSON schema or
/// polling text does not parse.
pub open spec fn spec_sharing_of_dto(dto: EntitySharingDTO) -> Option<EntitySharing> {
    let schema = json_value_of(dto.json_schema@);
    let infos = match dto.polling_infos {
        None => Some(None),
        Some(s) => spec_polling_infos_of_json(s@),
    };
    if schema is Some && infos is Some {
        Some(
            EntitySharing {
                id: dto.id,
                name: dto.name,
                connected_app_id: dto.connected_app_id,
                created_at: dto.created_at,
                updated_at: dto.updated_at,
                polling_infos: infos->0,
                json_schema: schema->0,
                is_array: dto.is_array,
                python_script: dto.python_script,
            },
        )
    } else {
        None
    }
}

/// Turns a storage row into a sharing, failing with `JsonError` exactly
/// where the row's JSON schema or polling text does not parse.
pub fn entity_sharing_dto_to_entity_sharing(entity_sharing_dto: EntitySharingDTO) -> (r: Result<
    EntitySharing,
    Error,
>)
    ensures
        match r {
            Ok(e) => spec_sharing_of_dto(entity_sharing_dto) == Some(e),
            Err(err) => spec_sharing_of_dto(entity_sharing_dto) is None && err is JsonError,
        },
{
    let schema = match try_parse_json(entity_sharing_dto.json_schema.as_str()) {
        None => {
            return Err(Error::JsonError(String::from_str("malformed json schema")));
        },
        Some(v) => v,
    };
    let infos = match &entity_sharing_dto.polling_infos {
        None => None,
        Some(s) => {
            match parse_polling_infos(s.as_str()) {
                None => {
                    return Err(
                        Error::JsonError(String::from_str("malformed polling configuration")),
                    );
                },
                Some(p) => p,
            }
        },
    };
    Ok(
        EntitySharing {
            id: entity_sharing_dto.id,
            name: entity_sharing_dto.name,
            connected_app_id: entity_sharing_dto.connected_app_id,
            created_at: entity_sharing_dto.created_at,
            updated_at: entity_sharing_dto.updated_at,
            polling_infos: infos,
            json_schema: schema,
            is_array: entity_sharing_dto.is_array,
            python_script: entity_sharing_dto.python_script,
        },
    )
}

} // verus!
