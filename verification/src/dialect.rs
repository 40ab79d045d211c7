//! Dialect descriptor: which engine's semantics apply during lowering.

use vstd::prelude::*;

verus! {

/// The database engine whose coercion and builtin-function rules govern a
/// lowering call.
#[derive(Clone, Copy, Debug, PartialEq, Eq, Structural)]
pub enum SqlEngine {
    MySQL,
    PostgreSQL,
    MongoDB,
}

/// Engine tag plus the per-engine defaults that lowering consults.
#[derive(Clone, Copy, Debug, PartialEq, Eq, Structural)]
pub struct Dialect {
    pub engine: SqlEngine,
}

impl Dialect {
    /// The default MySQL dialect.
    pub fn default_mysql() -> (d: Dialect)
        ensures
            d.engine == SqlEngine::MySQL,
    {
        Dialect { engine: SqlEngine::MySQL }
    }

    /// The default PostgreSQL dialect.
    pub fn default_postgresql() -> (d: Dialect)
        ensures
            d.engine == SqlEngine::PostgreSQL,
    {
        Dialect { engine: SqlEngine::PostgreSQL }
    }

    /// The default MongoDB dialect.
    pub fn default_mongodb() -> (d: Dialect)
        ensures
            d.engine == SqlEngine::MongoDB,
    {
        Dialect { engine: SqlEngine::MongoDB }
    }

    /// The engine this dialect selects.
    pub fn engine(&self) -> (e: SqlEngine)
        ensures
            e == self.engine,
    {
        self.engine
    }

    /// Default number of subsecond digits for time and timestamp types
    /// produced under this dialect.
    pub open spec fn spec_default_subsecond_digits(&self) -> u16 {
        match self.engine {
            SqlEngine::MySQL => 0,
            SqlEngine::PostgreSQL => 6,
            SqlEngine::MongoDB => 0,
        }
    }

    /// Default number of subsecond digits for time and timestamp types
    /// produced under this dialect.
    #[verifier::when_used_as_spec(spec_default_subsecond_digits)]
    pub fn default_subsecond_digits(&self) -> (d: u16)
        ensures
            d == self.spec_default_subsecond_digits(),
    {
        match self.engine {
            SqlEngine::MySQL => 0,
            SqlEngine::PostgreSQL => 6,
            SqlEngine::MongoDB => 0,
        }
    }
}

} // verus!
