//! The state that every operation works on.

use vstd::prelude::*;
use crate::account::database::Database;
use crate::config::AppConfig;

verus! {

/// The configuration and the store.
#[derive(Debug)]
pub struct AppState {
    pub config: AppConfig,
    pub db: Database,
}

impl AppState {
    /// The configuration is valid and the store meets its constraints.
    pub open spec fn wf(&self) -> bool {
        self.config.wf() && self.db@.wf()
    }

    /// Whether the configuration is valid and the store meets its
    /// constraints.
    pub fn is_well_formed(&self) -> (r: bool)
        ensures
            r == self.wf(),
    {
        self.config.is_valid() && self.db.is_well_formed()
    }

    /// A state with an empty store.
    pub fn new(config: AppConfig) -> (r: Self)
        requires
            config.wf(),
        ensures
            r.wf(),
            r.config == config,
            r.db@.users.len() == 0,
            r.db@.sessions.len() == 0,
            r.db@.transactions.len() == 0,
    {
        AppState { config, db: Database::new() }
    }
}

} // verus!
