use vstd::prelude::*;

verus! {

/// The pool size that both backends run with unless told otherwise.
pub const DEFAULT_MAX_SIZE: u32 = 10;

/// Why a pool configuration was refused.
#[derive(Clone, Copy, Debug, PartialEq, Eq, Structural)]
pub enum ConfigError {
    EmptyPath,
    ZeroSize,
}

/// Static parameters of a connection pool: the database file and the most
/// connections that may be live at once.
#[derive(Clone, Debug)]
pub struct PoolConfig {
    database_path: String,
    max_size: u32,
}

impl PoolConfig {
    /// A configuration holds a non-empty path and a positive size.
    pub open spec fn wf(&self) -> bool {
        self.path_view().len() > 0 && self.size_view() > 0
    }

    pub closed spec fn path_view(&self) -> Seq<char> {
        self.database_path@
    }

    pub closed spec fn size_view(&self) -> u32 {
        self.max_size
    }

    /// Checks the parameters: the path must not be empty (checked first) and
    /// the size must be positive.
    pub fn new(database_path: &str, max_size: u32) -> (r: Result<PoolConfig, ConfigError>)
        ensures
            database_path@.len() == 0 ==> r == Err::<PoolConfig, ConfigError>(ConfigError::EmptyPath),
            database_path@.len() > 0 && max_size == 0 ==> r == Err::<PoolConfig, ConfigError>(ConfigError::ZeroSize),
            database_path@.len() > 0 && max_size > 0 ==> r is Ok,
            r matches Ok(c) ==> c.wf() && c.path_view() == database_path@ && c.size_view() == max_size,
    {
        if database_path.unicode_len() == 0 {
            return Err(ConfigError::EmptyPath);
        }
        if max_size == 0 {
            return Err(ConfigError::ZeroSize);
        }
        Ok(PoolConfig { database_path: String::from_str(database_path), max_size })
    }

    /// A configuration at the default size.
    pub fn with_default_size(database_path: &str) -> (r: Result<PoolConfig, ConfigError>)
        ensures
            database_path@.len() == 0 <==> r is Err,
            r matches Ok(c) ==> c.path_view() == database_path@ && c.size_view() == DEFAULT_MAX_SIZE,
    {
        PoolConfig::new(database_path, DEFAULT_MAX_SIZE)
    }

    pub fn database_path(&self) -> (r: &str)
        ensures
            r@ == self.path_view(),
    {
        self.database_path.as_str()
    }

    pub fn max_size(&self) -> (r: u32)
        ensures
            r == self.size_view(),
    {
        self.max_size
    }
}

/// What the asynchronous engine's pool needs to open connections: the path
/// of the database file, kept as given.
pub struct LimboConnectionManager {
    database_path: String,
}

impl LimboConnectionManager {
    pub closed spec fn path_view(&self) -> Seq<char> {
        self.database_path@
    }

    /// A manager for the database at `database_path`; no file is touched here,
    /// connections are opened on demand.
    pub fn new(database_path: &str) -> (r: LimboConnectionManager)
        ensures
            r.path_view() == database_path@,
    {
        LimboConnectionManager { database_path: String::from_str(database_path) }
    }

    pub fn database_path(&self) -> (r: &str)
        ensures
            r@ == self.path_view(),
    {
        self.database_path.as_str()
    }

    /// A connection is never reported broken on hand-back: a dead one is
    /// caught by the liveness probe when it is next checked out.
    pub fn has_broken(&self) -> (r: bool)
        ensures
            !r,
    {
        false
    }
}

} // verus!
