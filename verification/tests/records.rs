use datatool::connections::ConnectionInfo;
use datatool::metadata::{MetadataError, SavedConnection, SavedQuery};
use datatool::queries::SavedQueryInfo;

fn sample_connection() -> SavedConnection {
    SavedConnection {
        id: String::from("c1"),
        name: String::from("local"),
        host: String::from("localhost"),
        port: 5432,
        database: String::from("shop"),
        user: String::from("bob"),
        encrypted_password: String::from("AAAA"),
        created_at: String::from("2024-01-01T00:00:00+00:00"),
    }
}

#[test]
fn connection_info_drops_the_sealed_password() {
    let info = ConnectionInfo::from(sample_connection());
    assert_eq!(info.id, "c1");
    assert_eq!(info.name, "local");
    assert_eq!(info.host, "localhost");
    assert_eq!(info.port, 5432);
    assert_eq!(info.database, "shop");
    assert_eq!(info.user, "bob");
    assert_eq!(info.created_at, "2024-01-01T00:00:00+00:00");
}

#[test]
fn saved_query_info_keeps_every_field() {
    let q = SavedQuery {
        id: String::from("q1"),
        connection_id: Some(String::from("c1")),
        name: String::from("all users"),
        sql: String::from("SELECT * FROM users"),
        created_at: String::from("2024-01-02T00:00:00+00:00"),
    };
    let info = SavedQueryInfo::from(q);
    assert_eq!(info.id, "q1");
    assert_eq!(info.connection_id.as_deref(), Some("c1"));
    assert_eq!(info.name, "all users");
    assert_eq!(info.sql, "SELECT * FROM users");
    assert_eq!(info.created_at, "2024-01-02T00:00:00+00:00");
}

#[test]
fn metadata_errors_render_their_messages() {
    assert_eq!(
        MetadataError::Database(String::from("locked")).message(),
        "Database error: locked"
    );
    assert_eq!(
        MetadataError::NoAppDataDir.message(),
        "Failed to get app data directory"
    );
    assert_eq!(MetadataError::NotInitialized.message(), "Database not initialized");
    assert_eq!(MetadataError::ConnectionNotFound.message(), "Connection not found");
}
