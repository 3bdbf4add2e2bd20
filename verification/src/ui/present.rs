//! Presentation decisions of the window: which tone a badge, pill or row
//! takes, and the small texts put together around the grid and the editor.
use vstd::prelude::*;

use crate::data::ConnectionKind;
use crate::db::DataPreview;
use crate::i18n::Locale;
use crate::text::{chars_of, contains_chars, decimal, seq_contains, str_eq, u64_to_decimal, views};
use crate::ui::app::EditorMode;

verus! {

/// The colour roles of the palette.
#[derive(Clone, Copy, Debug, PartialEq, Eq, Structural)]
pub enum Tone {
    Accent,
    Warning,
    Pending,
    Danger,
    Blue,
    Muted,
    Text,
}

/// The background of a grid row.
#[derive(Clone, Copy, Debug, PartialEq, Eq, Structural)]
pub enum RowShade {
    Selected,
    Plain,
    Alternate,
}

/// The tone of the badge beside a connection in the sidebar: MySQL red,
/// PostgreSQL and MongoDB blue, the others amber.
pub fn kind_tone(kind: ConnectionKind) -> (r: Tone)
    ensures
        r == (match kind {
            ConnectionKind::MySql => Tone::Danger,
            ConnectionKind::PostgreSql | ConnectionKind::MongoDb => Tone::Blue,
            _ => Tone::Warning,
        }),
{
    match kind {
        ConnectionKind::MySql => Tone::Danger,
        ConnectionKind::PostgreSql | ConnectionKind::MongoDb => Tone::Blue,
        _ => Tone::Warning,
    }
}

/// The tone of an environment badge: `PROD` red, `LIVE` blue, others amber.
pub fn badge_tone(badge: &str) -> (r: Tone)
    ensures
        r == (if badge@ == "PROD"@ {
            Tone::Danger
        } else if badge@ == "LIVE"@ {
            Tone::Blue
        } else {
            Tone::Warning
        }),
{
    if str_eq(badge, "PROD") {
        Tone::Danger
    } else if str_eq(badge, "LIVE") {
        Tone::Blue
    } else {
        Tone::Warning
    }
}

/// The tone of an order status pill.
pub open spec fn status_tone_of(status: Seq<char>) -> Tone {
    if status == "paid"@ {
        Tone::Accent
    } else if status == "refunded"@ {
        Tone::Warning
    } else if status == "pending"@ {
        Tone::Pending
    } else if status == "cancelled"@ {
        Tone::Danger
    } else {
        Tone::Muted
    }
}

pub fn status_tone(status: &str) -> (r: Tone)
    ensures
        r == status_tone_of(status@),
{
    if str_eq(status, "paid") {
        Tone::Accent
    } else if str_eq(status, "refunded") {
        Tone::Warning
    } else if str_eq(status, "pending") {
        Tone::Pending
    } else if str_eq(status, "cancelled") {
        Tone::Danger
    } else {
        Tone::Muted
    }
}

/// The tone of a line of the sample query: keywords on the first and
/// seventh line blue, lines naming a status green, the rest plain.
pub fn query_line_tone(index: usize, line: &str) -> (r: Tone)
    ensures
        r == (if index == 0 || index == 6 {
            Tone::Blue
        } else if seq_contains(line@, "paid"@) || seq_contains(line@, "refunded"@) {
            Tone::Accent
        } else {
            Tone::Text
        }),
{
    if index == 0 || index == 6 {
        return Tone::Blue;
    }
    let chars = chars_of(line);
    if contains_chars(&chars, &chars_of("paid")) || contains_chars(&chars, &chars_of("refunded")) {
        Tone::Accent
    } else {
        Tone::Text
    }
}

/// The background of a row of the sample grid: the first row selected, then
/// alternating.
pub fn sample_row_shade(index: usize) -> (r: RowShade)
    ensures
        r == (if index == 0 {
            RowShade::Selected
        } else if index % 2 == 0 {
            RowShade::Plain
        } else {
            RowShade::Alternate
        }),
{
    if index == 0 {
        RowShade::Selected
    } else if index % 2 == 0 {
        RowShade::Plain
    } else {
        RowShade::Alternate
    }
}

/// The background of a row of the result grid: the selected row stands out,
/// the others alternate by their position on screen.
pub fn grid_row_shade(is_selected: bool, position: usize) -> (r: RowShade)
    ensures
        r == (if is_selected {
            RowShade::Selected
        } else if position % 2 == 0 {
            RowShade::Plain
        } else {
            RowShade::Alternate
        }),
{
    if is_selected {
        RowShade::Selected
    } else if position % 2 == 0 {
        RowShade::Plain
    } else {
        RowShade::Alternate
    }
}

/// The row number shown in the grid: counted from one, at least two digits.
pub open spec fn row_number_text(row_index: nat) -> Seq<char> {
    if row_index + 1 < 10 {
        seq!['0'] + decimal(row_index + 1)
    } else {
        decimal(row_index + 1)
    }
}

pub fn row_number_label(row_index: usize) -> (r: String)
    requires
        row_index < usize::MAX,
    ensures
        r@ == row_number_text(row_index as nat),
{
    let n = row_index + 1;
    let digits = u64_to_decimal(n as u64);
    if n < 10 {
        let mut s = String::from_str("0");
        proof {
            reveal_strlit("0");
        }
        s.append(digits.as_str());
        s
    } else {
        digits
    }
}

/// The selected row as the summary counts it: from one, zero when none.
pub fn selected_row_number(selected: Option<usize>) -> (r: usize)
    requires
        selected matches Some(row) ==> row < usize::MAX,
    ensures
        r == (match selected {
            Some(row) => row + 1,
            None => 0,
        }),
{
    match selected {
        Some(row) => row + 1,
        None => 0,
    }
}

/// The header of a grid column: its name, with an arrow when the grid is
/// sorted by it (down when descending).
pub open spec fn column_header_text(
    name: Seq<char>,
    index: usize,
    sort_column: Option<usize>,
    sort_desc: bool,
) -> Seq<char> {
    if sort_column == Some(index) {
        if sort_desc {
            name + " ↓"@
        } else {
            name + " ↑"@
        }
    } else {
        name
    }
}

pub fn column_header_label(
    name: &str,
    index: usize,
    sort_column: Option<usize>,
    sort_desc: bool,
) -> (r: String)
    ensures
        r@ == column_header_text(name@, index, sort_column, sort_desc),
{
    let mut s = name.to_owned();
    if sort_column == Some(index) {
        if sort_desc {
            s.append(" ↓");
        } else {
            s.append(" ↑");
        }
    }
    s
}

/// The line under the source label: the preview's status, or a generic
/// note when it has none.
pub fn status_line(locale: Locale, preview: &DataPreview) -> (r: String)
    ensures
        preview.status_label@.len() > 0 ==> r@ == preview.status_label@,
        preview.status_label@.len() == 0 && locale == Locale::ZhCn ==> r@ == "数据库源返回"@,
        preview.status_label@.len() == 0 && locale == Locale::EnUs ==> r@
            == "Returned from source"@,
{
    if preview.status_label.as_str().is_empty() {
        locale.result_stats().to_owned()
    } else {
        preview.status_label.clone()
    }
}

/// The number of objects across the schema groups.
pub open spec fn count_sum(items: Seq<(Seq<char>, usize, bool)>) -> nat
    decreases items.len(),
{
    if items.len() == 0 {
        0
    } else {
        count_sum(items.drop_last()) + items.last().1 as nat
    }
}

/// Adds up the objects of all schema groups of a preview; `None` when the
/// total does not fit in `usize` (where summing would overflow).
pub fn object_count(preview: &DataPreview) -> (r: Option<usize>)
    ensures
        r matches Some(n) ==> n == count_sum(preview@.schema_items),
        r is None ==> count_sum(preview@.schema_items) > usize::MAX,
{
    let ghost items = preview@.schema_items;
    let mut total: usize = 0;
    let mut i: usize = 0;
    while i < preview.schema_items.len()
        invariant
            items == preview@.schema_items,
            i <= items.len(),
            total == count_sum(items.take(i as int)),
        decreases items.len() - i,
    {
        assert(items.take(i + 1).drop_last() =~= items.take(i as int));
        let count = preview.schema_items[i].count;
        if total > usize::MAX - count {
            proof {
                lemma_count_sum_prefix(items, i + 1);
            }
            return None;
        }
        total = total + count;
        i = i + 1;
    }
    assert(items.take(items.len() as int) =~= items);
    Some(total)
}

proof fn lemma_count_sum_prefix(items: Seq<(Seq<char>, usize, bool)>, k: int)
    requires
        0 <= k <= items.len(),
    ensures
        count_sum(items.take(k)) <= count_sum(items),
    decreases items.len(),
{
    if k < items.len() {
        assert(items.drop_last().take(k) =~= items.take(k));
        lemma_count_sum_prefix(items.drop_last(), k);
    } else {
        assert(items.take(k) =~= items);
    }
}

/// What the body of the grid shows.
#[derive(Clone, Copy, Debug, PartialEq, Eq, Structural)]
pub enum GridBody {
    /// The error of the last read.
    LoadFailed,
    /// A note that there is nothing to show.
    NoData,
    /// The visible rows.
    Rows,
}

/// An error wins over rows; without rows to show, a note says so.
pub fn grid_body(has_error: bool, visible_count: usize) -> (r: GridBody)
    ensures
        r == (if has_error {
            GridBody::LoadFailed
        } else if visible_count == 0 {
            GridBody::NoData
        } else {
            GridBody::Rows
        }),
{
    if has_error {
        GridBody::LoadFailed
    } else if visible_count == 0 {
        GridBody::NoData
    } else {
        GridBody::Rows
    }
}

/// Which fields the connection form shows: SQLite takes a file and no
/// server, user or password.
#[derive(Clone, Copy, Debug, PartialEq, Eq, Structural)]
pub struct FormLayout {
    pub server_fields: bool,
    pub file_field: bool,
    pub credential_fields: bool,
}

pub fn form_layout(kind: ConnectionKind) -> (r: FormLayout)
    ensures
        r.server_fields == (kind != ConnectionKind::Sqlite),
        r.file_field == (kind == ConnectionKind::Sqlite),
        r.credential_fields == (kind != ConnectionKind::Sqlite),
{
    let is_sqlite = kind == ConnectionKind::Sqlite;
    FormLayout { server_fields: !is_sqlite, file_field: is_sqlite, credential_fields: !is_sqlite }
}

/// The label of the database field of the connection form, which the form
/// always shows in Chinese: a tag or note for SQLite, the database otherwise.
pub fn database_field_label(kind: ConnectionKind) -> (r: &'static str)
    ensures
        kind == ConnectionKind::Sqlite ==> r@ == "标签 / 备注"@,
        kind != ConnectionKind::Sqlite ==> r@ == "数据库"@,
{
    if kind == ConnectionKind::Sqlite {
        "标签 / 备注"
    } else {
        "数据库"
    }
}

/// The arrow in front of a connection in the tree.
pub fn tree_arrow(open: bool) -> (r: &'static str)
    ensures
        open ==> r@ == "v"@,
        !open ==> r@ == ">"@,
{
    if open {
        "v"
    } else {
        ">"
    }
}

/// The panel under the editor: its title and lines.
pub struct AuxPanel {
    pub title: String,
    pub lines: Vec<String>,
}

/// The panel for the editor mode: the query mode shows nothing (the
/// preview lists no objects to join), history lists nothing (the preview
/// holds no query lines), explain and parameters show fixed notes, and the
/// results panel counts rows and columns and repeats the status.
pub open spec fn aux_panel_text(mode: EditorMode, rows: nat, columns: nat, status: Seq<char>) -> Option<
    (Seq<char>, Seq<Seq<char>>),
> {
    match mode {
        EditorMode::Query => None,
        EditorMode::Explain => Some(
            (
                "EXPLAIN"@,
                seq!["Seq Scan / Index Scan preview"@, "Join strategy"@, "Estimated cost"@],
            ),
        ),
        EditorMode::History => Some(("HISTORY"@, Seq::empty())),
        EditorMode::Params => Some(
            (
                "PARAMS"@,
                seq!["limit = 50"@, "schema = public"@, "source = current connection"@],
            ),
        ),
        EditorMode::InEditorResults => Some(
            (
                "RESULTS"@,
                seq!["rows: "@ + decimal(rows), "columns: "@ + decimal(columns), status],
            ),
        ),
    }
}

fn labelled_count(label: &str, n: usize) -> (r: String)
    ensures
        r@ == label@ + decimal(n as nat),
{
    let mut s = label.to_owned();
    let digits = u64_to_decimal(n as u64);
    s.append(digits.as_str());
    s
}

fn panel(title: &str, a: String, b: String, c: String) -> (r: AuxPanel)
    ensures
        r.title@ == title@,
        views(r.lines@) == seq![a@, b@, c@],
{
    let mut lines: Vec<String> = Vec::new();
    lines.push(a);
    lines.push(b);
    lines.push(c);
    let r = AuxPanel { title: title.to_owned(), lines };
    assert(views(r.lines@) =~= seq![a@, b@, c@]);
    r
}

pub fn aux_panel(mode: EditorMode, preview: &DataPreview) -> (r: Option<AuxPanel>)
    ensures
        match aux_panel_text(
            mode,
            preview.rows@.len(),
            preview.columns@.len(),
            preview.status_label@,
        ) {
            None => r is None,
            Some((title, lines)) => r matches Some(p) && p.title@ == title && views(p.lines@)
                == lines,
        },
{
    match mode {
        EditorMode::Query => None,
        EditorMode::Explain => Some(
            panel(
                "EXPLAIN",
                String::from_str("Seq Scan / Index Scan preview"),
                String::from_str("Join strategy"),
                String::from_str("Estimated cost"),
            ),
        ),
        EditorMode::History => {
            let lines: Vec<String> = Vec::new();
            assert(views(lines@) =~= Seq::<Seq<char>>::empty());
            Some(AuxPanel { title: String::from_str("HISTORY"), lines })
        },
        EditorMode::Params => Some(
            panel(
                "PARAMS",
                String::from_str("limit = 50"),
                String::from_str("schema = public"),
                String::from_str("source = current connection"),
            ),
        ),
        EditorMode::InEditorResults => Some(
            panel(
                "RESULTS",
                labelled_count("rows: ", preview.rows.len()),
                labelled_count("columns: ", preview.columns.len()),
                preview.status_label.clone(),
            ),
        ),
    }
}

} // verus!
