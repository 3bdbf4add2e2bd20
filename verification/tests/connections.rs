use supertable::assets::app_icon_path;
use supertable::data::{connections_file_path, ConfigRoot, Connection, ConnectionKind};
use supertable::i18n::Locale;

fn sample_connection(kind: ConnectionKind) -> Connection {
    Connection {
        kind,
        name: "Local".to_string(),
        host: "db.example".to_string(),
        port: 4000,
        database: "shop".to_string(),
        username: "admin".to_string(),
        password: "SECRET-REDACTED".to_string(),
        file_path: String::new(),
        active: false,
    }
}

#[test]
fn kinds_have_labels_badges_and_ports() {
    let expected = [
        (ConnectionKind::MySql, "MySQL", "MYSQL", 3306u16),
        (ConnectionKind::Sqlite, "SQLite", "SQLITE", 0),
        (ConnectionKind::PostgreSql, "PostgreSQL", "PG", 5432),
        (ConnectionKind::Redis, "Redis", "REDIS", 6379),
        (ConnectionKind::MongoDb, "MongoDB", "MONGO", 27017),
    ];
    for (kind, label, badge, port) in expected {
        assert_eq!(kind.label(), label);
        assert_eq!(kind.badge(), badge);
        assert_eq!(kind.default_port(), port);
    }
    assert_eq!(ConnectionKind::ALL.len(), 5);
    assert_eq!(ConnectionKind::ALL[2], ConnectionKind::PostgreSql);
}

#[test]
fn endpoints_per_kind() {
    assert_eq!(sample_connection(ConnectionKind::MySql).endpoint(), "mysql://db.example:4000");
    assert_eq!(sample_connection(ConnectionKind::PostgreSql).endpoint(), "postgres://db.example:4000");
    assert_eq!(sample_connection(ConnectionKind::Redis).endpoint(), "redis://db.example:4000");
    assert_eq!(sample_connection(ConnectionKind::MongoDb).endpoint(), "mongodb://db.example:4000");
    let mut sqlite = sample_connection(ConnectionKind::Sqlite);
    assert_eq!(sqlite.endpoint(), "sqlite:///choose-a-file.db");
    sqlite.file_path = "/tmp/app.db".to_string();
    assert_eq!(sqlite.endpoint(), "sqlite:///tmp/app.db");
}

#[test]
fn meta_per_kind() {
    let mut sqlite = sample_connection(ConnectionKind::Sqlite);
    assert_eq!(sqlite.meta(Locale::EnUs), "Local database file");
    assert_eq!(sqlite.meta(Locale::ZhCn), "本地数据库文件");
    sqlite.file_path = "C:\\data\\app.db".to_string();
    assert_eq!(sqlite.meta(Locale::EnUs), "C:\\data\\app.db");

    let mut redis = sample_connection(ConnectionKind::Redis);
    assert_eq!(redis.meta(Locale::EnUs), "db shop");
    redis.database.clear();
    assert_eq!(redis.meta(Locale::ZhCn), "内存缓存");

    let mut pg = sample_connection(ConnectionKind::PostgreSql);
    assert_eq!(pg.meta(Locale::EnUs), "shop");
    pg.database.clear();
    assert_eq!(pg.meta(Locale::EnUs), "PostgreSQL endpoint");
    assert_eq!(pg.meta(Locale::ZhCn), "PostgreSQL 端点");
}

#[test]
fn connections_file_location() {
    let (root, segments) = connections_file_path(true, true);
    assert_eq!(root, ConfigRoot::AppData);
    assert_eq!(segments, vec!["SuperTable".to_string(), "connections.json".to_string()]);
    let (root, segments) = connections_file_path(false, true);
    assert_eq!(root, ConfigRoot::Home);
    assert_eq!(segments, vec![".config", "supertable", "connections.json"]);
    let (root, segments) = connections_file_path(false, false);
    assert_eq!(root, ConfigRoot::WorkingDirectory);
    assert_eq!(segments, vec!["connections.json"]);
}

#[test]
fn icon_path_is_in_the_package_directory() {
    assert_eq!(app_icon_path("/opt/supertable"), "/opt/supertable/icon.png");
}
