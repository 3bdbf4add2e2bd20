use supertable::data::{Connection, ConnectionKind};
use supertable::db::{
    decode_common_cell, first_table_query, mongodb_connect, mongodb_document_row,
    mongodb_preview_header, mysql_url, postgres_url, redis_database_to_select,
    redis_keys_to_inspect, redis_preview, redis_read, redis_rows, redis_url, redis_value_preview,
    sql_columns, sql_preview_header, sqlite_file_check,
    table_list_query, DataPreview, MongoConnect, PreviewError, RedisRead, RedisReply, SqlDialect,
};

fn server_connection(kind: ConnectionKind) -> Connection {
    Connection {
        kind,
        name: "Local".to_string(),
        host: "127.0.0.1".to_string(),
        port: 3306,
        database: "shop".to_string(),
        username: "root".to_string(),
        password: "pw".to_string(),
        file_path: String::new(),
        active: true,
    }
}

fn strings(items: &[&str]) -> Vec<String> {
    items.iter().map(|s| s.to_string()).collect()
}

#[test]
fn server_urls() {
    assert_eq!(mysql_url(&server_connection(ConnectionKind::MySql)), "mysql://root:pw@127.0.0.1:3306/shop");
    let mut pg = server_connection(ConnectionKind::PostgreSql);
    pg.port = 5432;
    assert_eq!(postgres_url(&pg), "postgres://root:pw@127.0.0.1:5432/shop");
    let mut redis = server_connection(ConnectionKind::Redis);
    redis.port = 6379;
    assert_eq!(redis_url(&redis), "redis://127.0.0.1:6379/");
}

#[test]
fn sqlite_needs_a_file() {
    let mut c = server_connection(ConnectionKind::Sqlite);
    match sqlite_file_check(&c) {
        Err(PreviewError(m)) => assert_eq!(m, "SQLite file path is empty"),
        Ok(()) => panic!("an empty path must be refused"),
    }
    c.file_path = "a.db".to_string();
    assert!(sqlite_file_check(&c).is_ok());
}

#[test]
fn table_listing_statements() {
    assert_eq!(table_list_query(SqlDialect::MySql), "SHOW TABLES");
    assert_eq!(
        table_list_query(SqlDialect::Sqlite),
        "SELECT name FROM sqlite_master WHERE type='table' ORDER BY name"
    );
    assert!(table_list_query(SqlDialect::PostgreSql).contains("information_schema.tables"));
}

#[test]
fn sql_preview_headers() {
    let tables = strings(&["orders", "users", "items"]);
    let p = sql_preview_header(SqlDialect::MySql, &server_connection(ConnectionKind::MySql), &tables);
    assert_eq!(p.source_label, "MySQL / shop");
    assert_eq!(p.status_label, "3 tables");
    assert_eq!(p.schema_items.len(), 1);
    assert_eq!(p.schema_items[0].name, "Tables");
    assert_eq!(p.schema_items[0].count, 3);
    assert!(p.schema_items[0].active);
    assert!(p.columns.is_empty() && p.rows.is_empty());
    let p = sql_preview_header(SqlDialect::Sqlite, &server_connection(ConnectionKind::Sqlite), &Vec::new());
    assert_eq!(p.source_label, "SQLite / Local");
    assert_eq!(p.status_label, "0 tables");
    let p = sql_preview_header(SqlDialect::PostgreSql, &server_connection(ConnectionKind::PostgreSql), &tables);
    assert_eq!(p.source_label, "PostgreSQL / shop");
}

#[test]
fn first_table_statement_quotes_per_dialect() {
    let tables = strings(&["orders", "users"]);
    assert_eq!(
        first_table_query(SqlDialect::MySql, &tables).unwrap(),
        "SELECT * FROM `orders` LIMIT 50"
    );
    assert_eq!(
        first_table_query(SqlDialect::PostgreSql, &tables).unwrap(),
        "SELECT * FROM \"orders\" LIMIT 50"
    );
    assert_eq!(
        first_table_query(SqlDialect::Sqlite, &tables).unwrap(),
        "SELECT * FROM \"orders\" LIMIT 50"
    );
    assert_eq!(first_table_query(SqlDialect::MySql, &Vec::new()), None);
}

#[test]
fn redis_reads_by_type() {
    assert_eq!(redis_read("string"), RedisRead::Get);
    assert_eq!(redis_read("list"), RedisRead::ListRange { start: 0, stop: 4 });
    assert_eq!(redis_read("set"), RedisRead::SetMembers);
    assert_eq!(redis_read("hash"), RedisRead::HashEntries);
    assert_eq!(redis_read("zset"), RedisRead::Nothing);
    assert_eq!(redis_read("none"), RedisRead::Nothing);
}

#[test]
fn redis_value_previews() {
    assert_eq!(redis_value_preview("string", &RedisReply::Text("hi".to_string())), "hi");
    assert_eq!(redis_value_preview("string", &RedisReply::Failed), "<binary>");
    let items = strings(&["1", "2", "3", "4", "5", "6", "7", "8", "9", "10", "11", "12"]);
    assert_eq!(redis_value_preview("list", &RedisReply::Items(strings(&["a", "b"]))), "a, b");
    assert_eq!(redis_value_preview("set", &RedisReply::Items(items.clone())), "1, 2, 3, 4, 5");
    assert_eq!(
        redis_value_preview("hash", &RedisReply::Items(items.clone())),
        "1, 2, 3, 4, 5, 6, 7, 8, 9, 10"
    );
    assert_eq!(redis_value_preview("list", &RedisReply::Failed), "<unavailable>");
    assert_eq!(redis_value_preview("zset", &RedisReply::Failed), "<zset>");
    assert_eq!(redis_value_preview("stream", &RedisReply::Text("x".to_string())), "<stream>");
}

#[test]
fn redis_previews() {
    let mut c = server_connection(ConnectionKind::Redis);
    assert_eq!(redis_database_to_select(&c), Some("shop".to_string()));
    let keys = strings(&["k", "n"]);
    let kinds = strings(&["string", "list"]);
    let replies = vec![
        RedisReply::Text("v".to_string()),
        RedisReply::Items(strings(&["a", "b"])),
    ];
    let p = redis_preview(&c, &keys, &kinds, &replies);
    assert_eq!(p.source_label, "Redis / db shop");
    assert_eq!(p.status_label, "2 keys");
    assert_eq!(p.schema_items.len(), 1);
    assert_eq!(p.schema_items[0].name, "Keys");
    assert_eq!(p.schema_items[0].count, 2);
    assert!(p.schema_items[0].active);
    assert_eq!(p.columns, strings(&["Key", "Type", "Value Preview"]));
    assert_eq!(p.rows, vec![strings(&["k", "string", "v"]), strings(&["n", "list", "a, b"])]);
    c.database.clear();
    assert_eq!(redis_database_to_select(&c), None);
    let empty: Vec<String> = Vec::new();
    let p = redis_preview(&c, &empty, &Vec::new(), &Vec::new());
    assert_eq!(p.source_label, "Redis / db 0");
    assert_eq!(p.status_label, "0 keys");
    assert!(p.rows.is_empty());
}

#[test]
fn redis_preview_inspects_the_first_fifty_keys() {
    let c = server_connection(ConnectionKind::Redis);
    let keys: Vec<String> = (0..60).map(|i| format!("key{}", i)).collect();
    assert_eq!(redis_keys_to_inspect(&keys), 50);
    assert_eq!(redis_keys_to_inspect(&keys[..7].to_vec()), 7);
    let kinds: Vec<String> = (0..50).map(|_| "zset".to_string()).collect();
    let replies: Vec<RedisReply> = (0..50).map(|_| RedisReply::Failed).collect();
    let p = redis_preview(&c, &keys, &kinds, &replies);
    assert_eq!(p.status_label, "60 keys");
    assert_eq!(p.schema_items[0].count, 60);
    assert_eq!(p.rows.len(), 50);
    assert_eq!(p.rows[0], strings(&["key0", "zset", "<zset>"]));
    assert_eq!(p.rows[49], strings(&["key49", "zset", "<zset>"]));
}

#[test]
fn redis_rows_follow_the_keys() {
    let keys = strings(&["a", "b", "c"]);
    let kinds = strings(&["hash", "set", "string"]);
    let replies = vec![
        RedisReply::Items(strings(&["f", "1"])),
        RedisReply::Failed,
        RedisReply::Failed,
    ];
    assert_eq!(
        redis_rows(&keys, &kinds, &replies),
        vec![
            strings(&["a", "hash", "f, 1"]),
            strings(&["b", "set", "<unavailable>"]),
            strings(&["c", "string", "<binary>"]),
        ]
    );
}

#[test]
fn sql_columns_come_from_the_first_row() {
    assert_eq!(sql_columns(Some(strings(&["id", "name"]))), strings(&["id", "name"]));
    assert!(sql_columns(None).is_empty());
}

#[test]
fn mongodb_addresses_and_previews() {
    let mut c = server_connection(ConnectionKind::MongoDb);
    c.port = 27017;
    match mongodb_connect(&c) {
        MongoConnect::WithCredentials(u) => assert_eq!(u, "mongodb://root:pw@127.0.0.1:27017/"),
        MongoConnect::Address(_) => panic!("credentials expected"),
    }
    c.username.clear();
    match mongodb_connect(&c) {
        MongoConnect::Address(u) => assert_eq!(u, "mongodb://127.0.0.1:27017/"),
        MongoConnect::WithCredentials(_) => panic!("plain address expected"),
    }
    let p = mongodb_preview_header(&c, &strings(&["events", "users"]));
    assert_eq!(p.source_label, "MongoDB / shop");
    assert_eq!(p.status_label, "2 collections");
    assert_eq!(p.schema_items[0].name, "Collections");
    assert_eq!(p.columns, strings(&["_id", "document"]));
    assert_eq!(
        mongodb_document_row(Some("ObjectId(\"1\")".to_string()), "{}".to_string()),
        strings(&["ObjectId(\"1\")", "{}"])
    );
    assert_eq!(mongodb_document_row(None, "{ a: 1 }".to_string()), strings(&["", "{ a: 1 }"]));
}

#[test]
fn cells_decode_in_priority_order() {
    let s = |v: &str| Some(Some(v.to_string()));
    assert_eq!(decode_common_cell(s("text"), Some(Some(1)), None, None, None, None, None, None), "text");
    assert_eq!(decode_common_cell(Some(None), Some(Some(1)), None, None, None, None, None, None), "NULL");
    assert_eq!(decode_common_cell(None, Some(Some(-42)), Some(Some(7)), None, None, None, None, None), "-42");
    assert_eq!(decode_common_cell(None, None, Some(Some(i32::MIN)), None, None, None, None, None), "-2147483648");
    assert_eq!(decode_common_cell(None, None, None, Some(Some(-5)), None, None, None, None), "-5");
    assert_eq!(decode_common_cell(None, None, None, None, Some(Some(u64::MAX)), None, None, None), "18446744073709551615");
    assert_eq!(decode_common_cell(None, None, None, None, None, s("1.5"), None, None), "1.5");
    assert_eq!(decode_common_cell(None, None, None, None, None, None, Some(Some(true)), None), "true");
    assert_eq!(decode_common_cell(None, None, None, None, None, None, Some(Some(false)), None), "false");
    assert_eq!(decode_common_cell(None, None, None, None, None, None, None, Some(Some(vec![1, 2, 3]))), "<3 bytes>");
    assert_eq!(decode_common_cell(None, None, None, None, None, None, None, Some(None)), "NULL");
    assert_eq!(decode_common_cell(None, None, None, None, None, None, None, None), "<value>");
}

#[test]
fn default_preview_is_empty() {
    let p = DataPreview::default();
    assert!(p.source_label.is_empty() && p.status_label.is_empty());
    assert!(p.schema_items.is_empty() && p.columns.is_empty() && p.rows.is_empty());
    assert_eq!(PreviewError("boom".to_string()).message(), "boom");
}
