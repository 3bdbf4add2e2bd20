use supertable::data::ConnectionKind;
use supertable::db::{DataPreview, SchemaEntry};
use supertable::i18n::Locale;
use supertable::ui::app::EditorMode;
use supertable::ui::present::{
    aux_panel, badge_tone, column_header_label, database_field_label, form_layout, grid_body,
    grid_row_shade, kind_tone, object_count, query_line_tone, row_number_label,
    sample_row_shade, selected_row_number, status_line, status_tone, tree_arrow, GridBody,
    RowShade, Tone,
};

#[test]
fn tones() {
    assert_eq!(kind_tone(ConnectionKind::MySql), Tone::Danger);
    assert_eq!(kind_tone(ConnectionKind::MongoDb), Tone::Blue);
    assert_eq!(kind_tone(ConnectionKind::PostgreSql), Tone::Blue);
    assert_eq!(kind_tone(ConnectionKind::Redis), Tone::Warning);
    assert_eq!(badge_tone("PROD"), Tone::Danger);
    assert_eq!(badge_tone("LIVE"), Tone::Blue);
    assert_eq!(badge_tone("STAGE"), Tone::Warning);
    assert_eq!(status_tone("paid"), Tone::Accent);
    assert_eq!(status_tone("refunded"), Tone::Warning);
    assert_eq!(status_tone("pending"), Tone::Pending);
    assert_eq!(status_tone("cancelled"), Tone::Danger);
    assert_eq!(status_tone("Paid"), Tone::Muted);
    assert_eq!(query_line_tone(0, "SELECT"), Tone::Blue);
    assert_eq!(query_line_tone(6, "FROM orders o"), Tone::Blue);
    assert_eq!(query_line_tone(7, "WHERE o.status IN ('paid', 'refunded')"), Tone::Accent);
    assert_eq!(query_line_tone(2, "    o.customer_name,"), Tone::Text);
}

#[test]
fn row_shades() {
    assert_eq!(sample_row_shade(0), RowShade::Selected);
    assert_eq!(sample_row_shade(1), RowShade::Alternate);
    assert_eq!(sample_row_shade(2), RowShade::Plain);
    assert_eq!(grid_row_shade(true, 3), RowShade::Selected);
    assert_eq!(grid_row_shade(false, 0), RowShade::Plain);
    assert_eq!(grid_row_shade(false, 5), RowShade::Alternate);
}

#[test]
fn grid_labels() {
    assert_eq!(row_number_label(0), "01");
    assert_eq!(row_number_label(8), "09");
    assert_eq!(row_number_label(9), "10");
    assert_eq!(row_number_label(122), "123");
    for i in 0..200usize {
        assert_eq!(row_number_label(i), format!("{:02}", i + 1));
    }
    assert_eq!(selected_row_number(None), 0);
    assert_eq!(selected_row_number(Some(4)), 5);
    assert_eq!(column_header_label("name", 1, Some(1), false), "name ↑");
    assert_eq!(column_header_label("name", 1, Some(1), true), "name ↓");
    assert_eq!(column_header_label("name", 1, Some(0), true), "name");
    assert_eq!(column_header_label("name", 1, None, false), "name");
}

#[test]
fn status_lines_and_bodies() {
    let mut p = DataPreview::default();
    assert_eq!(status_line(Locale::EnUs, &p), "Returned from source");
    assert_eq!(status_line(Locale::ZhCn, &p), "数据库源返回");
    p.status_label = "3 tables".to_string();
    assert_eq!(status_line(Locale::EnUs, &p), "3 tables");
    assert_eq!(grid_body(true, 4), GridBody::LoadFailed);
    assert_eq!(grid_body(false, 0), GridBody::NoData);
    assert_eq!(grid_body(false, 2), GridBody::Rows);
}

#[test]
fn object_counts() {
    let mut p = DataPreview::default();
    assert_eq!(object_count(&p), Some(0));
    p.schema_items.push(SchemaEntry { name: "Tables".to_string(), count: 23, active: true });
    p.schema_items.push(SchemaEntry { name: "Views".to_string(), count: 5, active: false });
    assert_eq!(object_count(&p), Some(28));
    p.schema_items.push(SchemaEntry { name: "Huge".to_string(), count: usize::MAX, active: false });
    assert_eq!(object_count(&p), None);
}

#[test]
fn form_fields_per_kind() {
    let sqlite = form_layout(ConnectionKind::Sqlite);
    assert!(sqlite.file_field && !sqlite.server_fields && !sqlite.credential_fields);
    let mysql = form_layout(ConnectionKind::MySql);
    assert!(!mysql.file_field && mysql.server_fields && mysql.credential_fields);
    assert_eq!(database_field_label(ConnectionKind::Sqlite), "标签 / 备注");
    assert_eq!(database_field_label(ConnectionKind::Redis), "数据库");
    assert_eq!(database_field_label(ConnectionKind::MySql), "数据库");
    assert_eq!(tree_arrow(true), "v");
    assert_eq!(tree_arrow(false), ">");
}

#[test]
fn editor_panels() {
    let mut p = DataPreview::default();
    p.columns = vec!["a".to_string(), "b".to_string()];
    p.rows = vec![vec!["1".to_string(), "2".to_string()]];
    p.status_label = "1 tables".to_string();
    assert!(aux_panel(EditorMode::Query, &p).is_none());
    let results = aux_panel(EditorMode::InEditorResults, &p).unwrap();
    assert_eq!(results.title, "RESULTS");
    assert_eq!(results.lines, vec!["rows: 1", "columns: 2", "1 tables"]);
    let explain = aux_panel(EditorMode::Explain, &p).unwrap();
    assert_eq!(explain.title, "EXPLAIN");
    assert_eq!(explain.lines.len(), 3);
    let params = aux_panel(EditorMode::Params, &p).unwrap();
    assert_eq!(params.lines[0], "limit = 50");
    let history = aux_panel(EditorMode::History, &p).unwrap();
    assert_eq!(history.title, "HISTORY");
    assert!(history.lines.is_empty());
}
