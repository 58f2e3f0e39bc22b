//! Connected apps: the registered parties that own entity sharings and hold
//! subscriptions.  An app is a plain registry entry; the core only ever asks
//! whether one exists.

use crate::errors::Error;
use vstd::prelude::*;

verus! {

#[derive(Debug)]
pub struct ConnectedApp {
    pub id: String,
    pub name: String,
    pub created_at: i64,
    pub updated_at: i64,
}

impl Clone for ConnectedApp {
    fn clone(&self) -> (r: Self)
        ensures
            r == *self,
    {
        ConnectedApp {
            id: self.id.clone(),
            name: self.name.clone(),
            created_at: self.created_at,
            updated_at: self.updated_at,
        }
    }
}

#[derive(Debug)]
pub struct CreateConnectedAppParams {
    pub id: String,
    pub name: String,
}

/// The app a successful creation stores: the given identity with both
/// timestamps at the creation time.
pub open spec fn app_from_params(p: CreateConnectedAppParams, now: i64) -> ConnectedApp {
    ConnectedApp { id: p.id, name: p.name, created_at: now, updated_at: now }
}

/// The app store's abstract contents, as repository contracts speak of
/// them.
pub type StoredApps = Map<Seq<char>, ConnectedApp>;

/// Storage for connected apps.  Implementations live outside the verified
/// core (the hub ships one over SQLite); the contracts here are what the
/// core relies on: reads do not change the store, a successful creation
/// stores exactly the described app, and a lookup succeeds only on a stored
/// id and fails with `NotFoundError` only on a missing one.
pub trait ConnectedAppRepository: Sized {
    /// The stored apps, keyed by id.
    spec fn apps(&self) -> StoredApps;

    fn create_connected_app(&mut self, params: &CreateConnectedAppParams, now: i64) -> (r: Result<
        ConnectedApp,
        Error,
    >)
        ensures
            match r {
                Ok(app) => app == app_from_params(*params, now) && final (self).apps() == old(
                    self,
                ).apps().insert(app.id@, app),
                Err(e) => final (self).apps() == old(self).apps() && e is DatabaseError,
            },
    ;

    fn get_connected_app(&self, id: &String) -> (r: Result<ConnectedApp, Error>)
        ensures
            match r {
                Ok(app) => self.apps().contains_key(id@) && app == self.apps()[id@],
                Err(e) => e is DatabaseError || (e is NotFoundError && !self.apps().contains_key(
                    id@,
                )),
            },
    ;

    fn get_all_connected_apps(&self) -> (r: Result<Vec<ConnectedApp>, Error>)
        ensures
            match r {
                Ok(apps) => {
                    &&& forall|i: int|
                        0 <= i < apps@.len() ==> self.apps().contains_key(
                            (#[trigger] apps@[i]).id@,
                        ) && apps@[i] == self.apps()[apps@[i].id@]
                    &&& forall|id: Seq<char>|
                        self.apps().contains_key(id) ==> exists|i: int|
                            0 <= i < apps@.len() && (#[trigger] apps@[i]).id@ == id
                },
                Err(e) => e is DatabaseError,
            },
    ;
}

/// Thin orchestration over the app repository.
pub struct ConnectedAppCore<A: ConnectedAppRepository> {
    pub connected_app_repository: A,
}

impl<A: ConnectedAppRepository> ConnectedAppCore<A> {
    /// The stored apps this core sees.
    pub open spec fn apps(&self) -> Map<Seq<char>, ConnectedApp> {
        self.connected_app_repository.apps()
    }

    pub fn create_connected_app(&mut self, params: &CreateConnectedAppParams, now: i64) -> (r:
        Result<ConnectedApp, Error>)
        ensures
            match r {
                Ok(app) => app == app_from_params(*params, now) && final (self).apps() == old(
                    self,
                ).apps().insert(app.id@, app),
                Err(e) => final (self).apps() == old(self).apps() && e is DatabaseError,
            },
    {
        self.connected_app_repository.create_connected_app(params, now)
    }

    pub fn get_connected_app(&self, id: &String) -> (r: Result<ConnectedApp, Error>)
        ensures
            match r {
                Ok(app) => self.apps().contains_key(id@) && app == self.apps()[id@],
                Err(e) => e is DatabaseError || (e is NotFoundError && !self.apps().contains_key(
                    id@,
                )),
            },
    {
        self.connected_app_repository.get_connected_app(id)
    }
}

} // verus!
