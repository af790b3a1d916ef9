use elucidator::capi::{not_found_from, ApiError, ElucidatorStatus, Handle, SessionHandle, ErrorHandle};
use elucidator::db::{check_version, select_sqlite_config, Config, DatabaseConfig, DatabaseError, RTreeConfig, SqliteConfig};
use elucidator::error::ElucidatorError;

#[test]
fn default_sqlite_config_statements() {
    let config = SqliteConfig::new();
    let statements = config.initialization_statements();
    assert_eq!(statements.len(), 5);
    assert_eq!(statements[0], "PRAGMA page_size = 4096");
    assert!(statements[2].starts_with("CREATE VIRTUAL TABLE MetadataLocations USING rtree"));
    assert_eq!(statements[4], "PRAGMA optimize");
}

#[test]
fn custom_sqlite_config_statements() {
    let mut config = SqliteConfig::new();
    config.use_wal = true;
    config.use_rtree = false;
    config.threads = 4;
    config.cached_pages = 100;
    let statements = config.initialization_statements();
    assert_eq!(
        statements,
        vec![
            "PRAGMA journal_mode=WAL".to_string(),
            "PRAGMA page_size = 4096".to_string(),
            "PRAGMA threads = 4".to_string(),
            "PRAGMA cache_size = 100".to_string(),
            "CREATE TABLE designation_spec (designation TEXT NOT NULL PRIMARY KEY, spec TEXT NOT NULL)".to_string(),
            "CREATE TABLE Metadata (xmin REAL, xmax REAL, ymin REAL, ymax REAL, zmin REAL, zmax REAL, tmin REAL, tmax REAL, designation TEXT NOT NULL, buffer BLOB)".to_string(),
            "PRAGMA optimize".to_string(),
        ]
    );
}

#[test]
fn config_selection() {
    assert_eq!(select_sqlite_config(None), Ok(SqliteConfig::new()));
    let mut c = SqliteConfig::new();
    c.page_size = 512;
    assert_eq!(select_sqlite_config(Some(&DatabaseConfig::SqliteConfig(c))), Ok(c));
    assert_eq!(
        select_sqlite_config(Some(&DatabaseConfig::RTreeConfig(RTreeConfig { _config: 0 }))),
        Err(DatabaseError::ConfigError { reason: "Sqlite given config for incorrect backend.".to_string() })
    );
}

#[test]
fn version_checks() {
    assert_eq!(check_version("3.45.1"), Ok(()));
    assert_eq!(check_version("3.7.0"), Ok(()));
    assert_eq!(check_version("4"), Ok(()));
    assert_eq!(
        check_version("3.6.23"),
        Err(DatabaseError::VersionError {
            reason: "Expected sqlite version of at least [3, 7, 0], found [3, 6, 23]".to_string()
        })
    );
    assert_eq!(
        check_version("x.9"),
        Err(DatabaseError::VersionError {
            reason: "Expected sqlite version of at least [3, 7, 0], found [0, 9]".to_string()
        })
    );
}

#[test]
fn database_error_text() {
    let e = DatabaseError::from(ElucidatorError::BufferSizing { expected: 1, found: 0 });
    assert_eq!(e.to_display_string(), "Elucidator Error: Buffer expected size of 1 bytes, found 0 instead");
    assert_eq!(DatabaseError::IOError { reason: "disk".to_string() }.to_display_string(), "IO Error: disk");
}

#[test]
fn status_and_handles() {
    assert_eq!(ElucidatorStatus::ok(), ElucidatorStatus::ELUCIDATOR_OK);
    assert_eq!(ElucidatorStatus::err(), ElucidatorStatus::ELUCIDATOR_ERROR);
    let h = SessionHandle::from_id(7);
    assert_eq!(h.id(), 7);
    assert_eq!(SessionHandle::htype(), "SessionHandle");
    assert_eq!(ErrorHandle::htype(), "ErrorHandle");
    let e = not_found_from(&h, "0x10");
    assert_eq!(e.to_display_string(), "Handle 7 not found: type SessionHandle at address 0x10");
    let d = ApiError::DesignationNotFound { session: 2, designation: "pdf".to_string() };
    assert_eq!(d.to_display_string(), "Cannot find designation pdf in session 2");
}
