//! Settings and errors of the metadata databases, and the decisions a SQLite store makes from
//! them: which configuration applies, which statements set it up, and whether the engine's
//! version is recent enough.
use vstd::prelude::*;
use vstd::std_specs::convert::FromSpecImpl;
use crate::error::{error_text, holds_utf8_error, ElucidatorError, ElucidatorErrorV};
use crate::text::{decimal, parse_u64, parse_u64_chars, chars_of, push_decimal, push_str, split_on, split_str, str_views};

verus! {

/// Extra configuration settings for a SQLite store.
#[derive(Debug, Clone, Copy, PartialEq, Eq, Structural)]
pub struct SqliteConfig {
    pub use_rtree: bool,
    pub use_wal: bool,
    pub page_size: u16,
    pub synchronous_off: bool,
    pub use_memory_temp_store: bool,
    pub threads: u32,
    pub cached_pages: u32,
}

/// Configuration of an R*-tree store (it has no settings yet).
#[derive(Debug, Clone, Copy, PartialEq, Eq, Structural)]
pub struct RTreeConfig {
    pub _config: u8,
}

/// A configuration for one of the storage backends.
#[derive(Debug, Clone, Copy, PartialEq, Eq, Structural)]
pub enum DatabaseConfig {
    RTreeConfig(RTreeConfig),
    SqliteConfig(SqliteConfig),
}

/// Configurations that have default settings.
pub trait Config {
    fn new() -> Self where Self: Sized;
}

/// The default SQLite settings: an R-tree index, 4096-byte pages, everything else off.
pub open spec fn default_sqlite_config() -> SqliteConfig {
    SqliteConfig {
        use_rtree: true,
        use_wal: false,
        page_size: 4096,
        synchronous_off: false,
        use_memory_temp_store: false,
        threads: 0,
        cached_pages: 0,
    }
}

impl Config for SqliteConfig {
    fn new() -> (c: Self)
        ensures
            c == default_sqlite_config(),
    {
        SqliteConfig {
            use_rtree: true,
            use_wal: false,
            page_size: 4096,
            synchronous_off: false,
            use_memory_temp_store: false,
            threads: 0,
            cached_pages: 0,
        }
    }
}

/// Errors of the metadata databases.
#[derive(Debug, PartialEq)]
pub enum DatabaseError {
    RusqliteError { reason: String },
    ElucidatorError { reason: ElucidatorError },
    IOError { reason: String },
    VersionError { reason: String },
    ConfigError { reason: String },
    LockError { reason: String },
}

pub enum DatabaseErrorV {
    RusqliteError { reason: Seq<char> },
    ElucidatorError { reason: ElucidatorErrorV },
    IOError { reason: Seq<char> },
    VersionError { reason: Seq<char> },
    ConfigError { reason: Seq<char> },
    LockError { reason: Seq<char> },
}

impl View for DatabaseError {
    type V = DatabaseErrorV;

    open spec fn view(&self) -> DatabaseErrorV {
        match self {
            DatabaseError::RusqliteError { reason } => DatabaseErrorV::RusqliteError { reason: reason@ },
            DatabaseError::ElucidatorError { reason } => DatabaseErrorV::ElucidatorError { reason: reason@ },
            DatabaseError::IOError { reason } => DatabaseErrorV::IOError { reason: reason@ },
            DatabaseError::VersionError { reason } => DatabaseErrorV::VersionError { reason: reason@ },
            DatabaseError::ConfigError { reason } => DatabaseErrorV::ConfigError { reason: reason@ },
            DatabaseError::LockError { reason } => DatabaseErrorV::LockError { reason: reason@ },
        }
    }
}

/// How a database error is written.
pub open spec fn database_error_text(e: DatabaseErrorV) -> Seq<char> {
    match e {
        DatabaseErrorV::RusqliteError { reason } => "SQL Error: "@ + reason,
        DatabaseErrorV::ElucidatorError { reason } => "Elucidator Error: "@ + error_text(reason),
        DatabaseErrorV::IOError { reason } => "IO Error: "@ + reason,
        DatabaseErrorV::VersionError { reason } => "Version Error: "@ + reason,
        DatabaseErrorV::ConfigError { reason } => "Config Error: "@ + reason,
        DatabaseErrorV::LockError { reason } => "Lock Error: "@ + reason,
    }
}

pub open spec fn holds_utf8_failure(e: DatabaseErrorV) -> bool {
    match e {
        DatabaseErrorV::ElucidatorError { reason } => holds_utf8_error(reason),
        _ => false,
    }
}

fn copy_string(s: &String) -> (r: String)
    ensures
        r@ == s@,
{
    s.as_str().to_owned()
}

impl DatabaseError {
    /// A copy of this error.
    pub fn duplicate(&self) -> (r: DatabaseError)
        ensures
            r@ == self@,
    {
        match self {
            DatabaseError::RusqliteError { reason } => DatabaseError::RusqliteError { reason: copy_string(reason) },
            DatabaseError::ElucidatorError { reason } => DatabaseError::ElucidatorError { reason: reason.duplicate() },
            DatabaseError::IOError { reason } => DatabaseError::IOError { reason: copy_string(reason) },
            DatabaseError::VersionError { reason } => DatabaseError::VersionError { reason: copy_string(reason) },
            DatabaseError::ConfigError { reason } => DatabaseError::ConfigError { reason: copy_string(reason) },
            DatabaseError::LockError { reason } => DatabaseError::LockError { reason: copy_string(reason) },
        }
    }

    /// The error as text; a UTF-8 failure inside is written as std writes it.
    pub fn to_display_string(&self) -> (s: String)
        ensures
            !holds_utf8_failure(self@) ==> s@ == database_error_text(self@),
    {
        let mut s = String::new();
        match self {
            DatabaseError::RusqliteError { reason } => {
                push_str(&mut s, "SQL Error: ");
                push_str(&mut s, reason.as_str());
            },
            DatabaseError::ElucidatorError { reason } => {
                push_str(&mut s, "Elucidator Error: ");
                let t = reason.to_display_string();
                push_str(&mut s, t.as_str());
            },
            DatabaseError::IOError { reason } => {
                push_str(&mut s, "IO Error: ");
                push_str(&mut s, reason.as_str());
            },
            DatabaseError::VersionError { reason } => {
                push_str(&mut s, "Version Error: ");
                push_str(&mut s, reason.as_str());
            },
            DatabaseError::ConfigError { reason } => {
                push_str(&mut s, "Config Error: ");
                push_str(&mut s, reason.as_str());
            },
            DatabaseError::LockError { reason } => {
                push_str(&mut s, "Lock Error: ");
                push_str(&mut s, reason.as_str());
            },
        }
        s
    }
}

impl From<ElucidatorError> for DatabaseError {
    fn from(error: ElucidatorError) -> (r: Self) {
        DatabaseError::ElucidatorError { reason: error }
    }
}

impl FromSpecImpl<ElucidatorError> for DatabaseError {
    open spec fn obeys_from_spec() -> bool {
        true
    }

    open spec fn from_spec(v: ElucidatorError) -> Self {
        DatabaseError::ElucidatorError { reason: v }
    }
}

/// The settings a SQLite store uses: the given ones, the defaults when none are given, and an
/// error when the configuration is for another backend.
pub open spec fn spec_sqlite_config(config: Option<DatabaseConfig>) -> Result<SqliteConfig, DatabaseErrorV> {
    match config {
        Some(DatabaseConfig::SqliteConfig(c)) => Ok(c),
        Some(_) => Err(
            DatabaseErrorV::ConfigError { reason: "Sqlite given config for incorrect backend."@ },
        ),
        None => Ok(default_sqlite_config()),
    }
}

pub open spec fn given_config(c: Option<&DatabaseConfig>) -> Option<DatabaseConfig> {
    match c {
        Some(x) => Some(*x),
        None => None,
    }
}

/// Chooses the settings of a new SQLite store.
pub fn select_sqlite_config(config: Option<&DatabaseConfig>) -> (r: Result<SqliteConfig, DatabaseError>)
    ensures
        r matches Ok(c) ==> spec_sqlite_config(given_config(config)) == Ok::<
            SqliteConfig,
            DatabaseErrorV,
        >(c),
        r matches Err(e) ==> spec_sqlite_config(given_config(config)) == Err::<
            SqliteConfig,
            DatabaseErrorV,
        >(e@),
{
    match config {
        Some(DatabaseConfig::SqliteConfig(sqlcfg)) => Ok(*sqlcfg),
        Some(_) => Err(
            DatabaseError::ConfigError { reason: "Sqlite given config for incorrect backend.".to_owned() },
        ),
        None => Ok(SqliteConfig::new()),
    }
}

/// The statements that set up a new SQLite store, in order: the pragmas its settings ask for,
/// the table of designations, the metadata tables (located through an R-tree, or holding their
/// own bounds), and a final optimization.
pub open spec fn init_statements(c: SqliteConfig) -> Seq<Seq<char>> {
    pragma_statements(c) + table_statements(c)
}

/// The pragmas that the settings ask for.
pub open spec fn pragma_statements(c: SqliteConfig) -> Seq<Seq<char>> {
    let wal = if c.use_wal {
        seq!["PRAGMA journal_mode=WAL"@]
    } else {
        Seq::empty()
    };
    let page = seq!["PRAGMA page_size = "@ + decimal(c.page_size as nat)];
    let sync = if c.synchronous_off {
        seq!["PRAGMA synchronous = OFF"@]
    } else {
        Seq::empty()
    };
    let temp = if c.use_memory_temp_store {
        seq!["PRAGMA temp_store = MEMORY"@]
    } else {
        Seq::empty()
    };
    let threads = if c.threads > 0 {
        seq!["PRAGMA threads = "@ + decimal(c.threads as nat)]
    } else {
        Seq::empty()
    };
    let cache = if c.cached_pages > 0 {
        seq!["PRAGMA cache_size = "@ + decimal(c.cached_pages as nat)]
    } else {
        Seq::empty()
    };
    wal + page + sync + temp + threads + cache
}

/// The tables, then the final optimization.
pub open spec fn table_statements(c: SqliteConfig) -> Seq<Seq<char>> {
    seq![designation_table()] + (if c.use_rtree {
        seq![location_table(), metadata_by_id_table()]
    } else {
        seq![metadata_table()]
    }) + seq!["PRAGMA optimize"@]
}

pub open spec fn designation_table() -> Seq<char> {
    "CREATE TABLE designation_spec (designation TEXT NOT NULL PRIMARY KEY, spec TEXT NOT NULL)"@
}

pub open spec fn location_table() -> Seq<char> {
    "CREATE VIRTUAL TABLE MetadataLocations USING rtree(id INTEGER PRIMARY KEY, xmin, xmax, ymin, ymax, zmin, zmax, tmin, tmax)"@
}

pub open spec fn metadata_by_id_table() -> Seq<char> {
    "CREATE TABLE Metadata (id INTEGER PRIMARY KEY, designation TEXT, buffer BLOB)"@
}

pub open spec fn metadata_table() -> Seq<char> {
    "CREATE TABLE Metadata (xmin REAL, xmax REAL, ymin REAL, ymax REAL, zmin REAL, zmax REAL, tmin REAL, tmax REAL, designation TEXT NOT NULL, buffer BLOB)"@
}

pub open spec fn string_views(v: Seq<String>) -> Seq<Seq<char>> {
    Seq::new(v.len(), |i: int| v[i]@)
}

fn push_statement(out: &mut Vec<String>, text: &str)
    ensures
        string_views(final(out)@) == string_views(old(out)@).push(text@),
{
    let ghost before = string_views(out@);
    out.push(text.to_owned());
    assert(string_views(out@) =~= before.push(text@));
}

fn push_numbered_statement(out: &mut Vec<String>, text: &str, n: u64)
    ensures
        string_views(final(out)@) == string_views(old(out)@).push(text@ + decimal(n as nat)),
{
    let ghost before = string_views(out@);
    let mut s = String::new();
    push_str(&mut s, text);
    push_decimal(&mut s, n);
    out.push(s);
    assert(string_views(out@) =~= before.push(text@ + decimal(n as nat)));
}

fn push_pragmas(out: &mut Vec<String>, c: &SqliteConfig)
    ensures
        string_views(final(out)@) == string_views(old(out)@) + pragma_statements(*c),
{
    let ghost start = string_views(out@);
    let ghost wal = if c.use_wal {
        seq!["PRAGMA journal_mode=WAL"@]
    } else {
        Seq::empty()
    };
    if c.use_wal {
        push_statement(out, "PRAGMA journal_mode=WAL");
    }
    assert(string_views(out@) =~= start + wal);
    push_numbered_statement(out, "PRAGMA page_size = ", c.page_size as u64);
    let ghost s1 = string_views(out@);
    if c.synchronous_off {
        push_statement(out, "PRAGMA synchronous = OFF");
    }
    let ghost s2 = string_views(out@);
    if c.use_memory_temp_store {
        push_statement(out, "PRAGMA temp_store = MEMORY");
    }
    let ghost s3 = string_views(out@);
    if c.threads > 0 {
        push_numbered_statement(out, "PRAGMA threads = ", c.threads as u64);
    }
    let ghost s4 = string_views(out@);
    if c.cached_pages > 0 {
        push_numbered_statement(out, "PRAGMA cache_size = ", c.cached_pages as u64);
    }
    proof {
        let p = pragma_statements(*c);
        assert(string_views(out@) =~= start + p);
    }
}

fn push_tables(out: &mut Vec<String>, c: &SqliteConfig)
    ensures
        string_views(final(out)@) == string_views(old(out)@) + table_statements(*c),
{
    let ghost start = string_views(out@);
    push_statement(
        out,
        "CREATE TABLE designation_spec (designation TEXT NOT NULL PRIMARY KEY, spec TEXT NOT NULL)",
    );
    if c.use_rtree {
        push_statement(
            out,
            "CREATE VIRTUAL TABLE MetadataLocations USING rtree(id INTEGER PRIMARY KEY, xmin, xmax, ymin, ymax, zmin, zmax, tmin, tmax)",
        );
        push_statement(out, "CREATE TABLE Metadata (id INTEGER PRIMARY KEY, designation TEXT, buffer BLOB)");
    } else {
        push_statement(
            out,
            "CREATE TABLE Metadata (xmin REAL, xmax REAL, ymin REAL, ymax REAL, zmin REAL, zmax REAL, tmin REAL, tmax REAL, designation TEXT NOT NULL, buffer BLOB)",
        );
    }
    push_statement(out, "PRAGMA optimize");
    assert(string_views(out@) =~= start + table_statements(*c));
}

impl SqliteConfig {
    /// The statements that set up a new store with these settings.
    pub fn initialization_statements(&self) -> (r: Vec<String>)
        ensures
            string_views(r@) == init_statements(*self),
    {
        let mut out: Vec<String> = Vec::new();
        push_pragmas(&mut out, self);
        push_tables(&mut out, self);
        assert(string_views(out@) =~= init_statements(*self));
        out
    }
}

/// The oldest SQLite version the stores work with.
pub open spec fn min_version() -> Seq<nat> {
    seq![3, 7, 0]
}

/// A part of a version number: its decimal value when it reads as a `u32`, else 0.
pub open spec fn version_part(s: Seq<char>) -> nat {
    match parse_u64(s) {
        Some(v) => if v <= u32::MAX {
            v as nat
        } else {
            0
        },
        None => 0,
    }
}

/// The numbers of a dotted version text.
pub open spec fn version_numbers(text: Seq<char>) -> Seq<nat> {
    split_on(text, '.').map_values(|p: Seq<char>| version_part(p))
}

/// A version is below the minimum when, at the first place where the two differ (among the
/// places both have), its number is smaller.
pub open spec fn version_below(v: Seq<nat>, min: Seq<nat>) -> bool {
    exists|j: int|
        0 <= j < v.len() && j < min.len() && #[trigger] v[j] < min[j] && forall|i: int|
            0 <= i < j ==> v[i] == min[i]
}

/// A list of numbers as `Debug` writes it: `[a, b, c]`.
pub open spec fn number_list_text(v: Seq<nat>) -> Seq<char> {
    "["@ + number_list_inner(v) + "]"@
}

pub open spec fn number_list_inner(v: Seq<nat>) -> Seq<char>
    decreases v.len(),
{
    if v.len() == 0 {
        Seq::empty()
    } else if v.len() == 1 {
        decimal(v[0])
    } else {
        number_list_inner(v.drop_last()) + ", "@ + decimal(v.last())
    }
}

/// What `check_version` gives: an error naming both versions when the engine's is too old.
pub open spec fn spec_check_version(text: Seq<char>) -> Result<(), DatabaseErrorV> {
    let v = version_numbers(text);
    if version_below(v, min_version()) {
        Err(
            DatabaseErrorV::VersionError {
                reason: "Expected sqlite version of at least "@ + number_list_text(min_version())
                    + ", found "@ + number_list_text(v),
            },
        )
    } else {
        Ok(())
    }
}

fn push_number_list(s: &mut String, v: &Vec<u32>)
    ensures
        final(s)@ == old(s)@ + number_list_text(v@.map_values(|x: u32| x as nat)),
{
    let ghost nv = v@.map_values(|x: u32| x as nat);
    push_str(s, "[");
    let ghost base = s@;
    let mut i: usize = 0;
    while i < v.len()
        invariant
            i <= v@.len(),
            nv == v@.map_values(|x: u32| x as nat),
            s@ == base + number_list_inner(nv.subrange(0, i as int)),
        decreases v.len() - i,
    {
        let ghost before = s@;
        if i > 0 {
            push_str(s, ", ");
        }
        push_decimal(s, v[i] as u64);
        proof {
            let part = nv.subrange(0, i + 1);
            assert(part.drop_last() =~= nv.subrange(0, i as int));
            assert(part.last() == v@[i as int] as nat);
            if i == 0 {
                assert(part.len() == 1);
            }
        }
        i = i + 1;
    }
    assert(nv.subrange(0, nv.len() as int) =~= nv);
    push_str(s, "]");
}

/// Checks that the engine's version, as `SELECT SQLITE_VERSION()` gives it, is at least the
/// minimum.
pub fn check_version(version_text: &str) -> (r: Result<(), DatabaseError>)
    ensures
        r matches Ok(_) ==> spec_check_version(version_text@) is Ok,
        r matches Err(e) ==> spec_check_version(version_text@) == Err::<(), DatabaseErrorV>(e@),
{
    let pieces = split_str(version_text, '.');
    let ghost raw = str_views(pieces@);
    let mut version: Vec<u32> = Vec::new();
    let mut i: usize = 0;
    while i < pieces.len()
        invariant
            i <= pieces@.len(),
            raw == str_views(pieces@),
            version@.map_values(|x: u32| x as nat) == raw.subrange(0, i as int).map_values(
                |p: Seq<char>| version_part(p),
            ),
        decreases pieces.len() - i,
    {
        let cs = chars_of(pieces[i]);
        let n = cs.len();
        proof {
            assert(cs@.subrange(0, n as int) =~= cs@);
        }
        let part: u32 = match parse_u64_chars(cs.as_slice(), 0, n) {
            Some(x) => if x <= u32::MAX as u64 {
                x as u32
            } else {
                0
            },
            None => 0,
        };
        let ghost before = version@.map_values(|x: u32| x as nat);
        version.push(part);
        proof {
            assert(version@.map_values(|x: u32| x as nat) =~= before.push(version_part(raw[i as int])));
            assert(raw.subrange(0, i + 1).map_values(|p: Seq<char>| version_part(p)) =~= raw.subrange(
                0,
                i as int,
            ).map_values(|p: Seq<char>| version_part(p)).push(version_part(raw[i as int])));
        }
        i = i + 1;
    }
    assert(raw.subrange(0, raw.len() as int) =~= raw);
    let ghost v = version@.map_values(|x: u32| x as nat);
    assert(v == version_numbers(version_text@));
    let min: [u32; 3] = [3, 7, 0];
    let ghost mv = min_version();
    let mut k: usize = 0;
    while k < version.len() && k < 3
        invariant
            k <= version@.len(),
            k <= 3,
            v == version@.map_values(|x: u32| x as nat),
            v == version_numbers(version_text@),
            mv == min_version(),
            min@ == seq![3u32, 7u32, 0u32],
            forall|i: int| 0 <= i < k ==> v[i] == mv[i],
        decreases 3 - k,
    {
        if version[k] > min[k] {
            proof {
                assert(!version_below(v, mv)) by {
                    if version_below(v, mv) {
                        let j = choose|j: int|
                            0 <= j < v.len() && j < mv.len() && #[trigger] v[j] < mv[j] && forall|i: int|
                                0 <= i < j ==> v[i] == mv[i];
                        if j < k {
                        } else if j == k {
                        } else {
                            assert(v[k as int] == mv[k as int]);
                        }
                    }
                }
            }
            return Ok(());
        }
        if version[k] < min[k] {
            let mut reason = String::new();
            push_str(&mut reason, "Expected sqlite version of at least ");
            let min_vec: Vec<u32> = vec![3, 7, 0];
            push_number_list(&mut reason, &min_vec);
            push_str(&mut reason, ", found ");
            push_number_list(&mut reason, &version);
            proof {
                assert(min_vec@.map_values(|x: u32| x as nat) =~= mv);
                assert(v[k as int] < mv[k as int]);
                assert(version_below(v, mv));
            }
            return Err(DatabaseError::VersionError { reason });
        }
        k = k + 1;
    }
    proof {
        assert(!version_below(v, mv)) by {
            if version_below(v, mv) {
                let j = choose|j: int|
                    0 <= j < v.len() && j < mv.len() && #[trigger] v[j] < mv[j] && forall|i: int|
                        0 <= i < j ==> v[i] == mv[i];
                assert(j < k);
            }
        }
    }
    Ok(())
}

/// Law: versions compare with the minimum 3.7.0 part by part, the first part first: a major
/// number above 3, or 3 with a minor number above 7, or 3.7 with any patch number, is recent
/// enough; a major number below 3, or 3 with a minor number below 7, is too old.
pub proof fn lemma_version_order(v: Seq<nat>)
    ensures
        v.len() >= 1 && v[0] > 3 ==> !version_below(v, min_version()),
        v.len() >= 1 && v[0] < 3 ==> version_below(v, min_version()),
        v.len() >= 2 && v[0] == 3 && v[1] > 7 ==> !version_below(v, min_version()),
        v.len() >= 2 && v[0] == 3 && v[1] < 7 ==> version_below(v, min_version()),
        v.len() >= 2 && v[0] == 3 && v[1] == 7 ==> !version_below(v, min_version()),
{
    let m = min_version();
    assert(m[0] == 3 && m[1] == 7 && m[2] == 0 && m.len() == 3);
    if v.len() >= 1 && v[0] < 3 {
        assert(v[0] < m[0]);
    }
    if v.len() >= 2 && v[0] == 3 && v[1] < 7 {
        assert(v[0] == m[0]);
        assert(v[1] < m[1]);
    }
}

} // verus!
