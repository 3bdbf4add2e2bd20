//! The state of the workspace window and how each user action changes it.
//! Reading from databases and saving the connections file happen outside;
//! the functions here decide what to read or save and take back the outcome.
use vstd::prelude::*;

use crate::data::{Connection, ConnectionKind};
use crate::db::{empty_preview, DataPreview, PreviewError, PreviewView};
use crate::grid::{visible_rows, visible_rows_spec};
use crate::i18n::Locale;
use crate::db::row_views;
use crate::text::{decimal, parse_u16, parse_u16_spec, trim, trim_str, u64_to_decimal, views};

verus! {

/// The panel shown below the query editor.
#[derive(Clone, Copy, Debug, PartialEq, Eq, Structural)]
pub enum EditorMode {
    Query,
    Explain,
    History,
    Params,
    InEditorResults,
}

/// The text in each field of the connection form.
#[derive(Debug)]
pub struct ConnectionForm {
    pub name: String,
    pub host: String,
    pub port: String,
    pub database: String,
    pub username: String,
    pub password: String,
    pub file_path: String,
}

/// The fields of a form as plain texts, in the order name, host, port,
/// database, username, password, file path.
pub open spec fn form_view(f: ConnectionForm) -> Seq<Seq<char>> {
    seq![f.name@, f.host@, f.port@, f.database@, f.username@, f.password@, f.file_path@]
}

/// A cleared form: host `127.0.0.1`, the port text given, all else empty.
pub open spec fn cleared_form(port: Seq<char>) -> Seq<Seq<char>> {
    seq![
        Seq::empty(),
        "127.0.0.1"@,
        port,
        Seq::empty(),
        Seq::empty(),
        Seq::empty(),
        Seq::empty(),
    ]
}

fn cleared(port: String) -> (r: ConnectionForm)
    ensures
        form_view(r) == cleared_form(port@),
{
    let r = ConnectionForm {
        name: String::new(),
        host: String::from_str("127.0.0.1"),
        port,
        database: String::new(),
        username: String::new(),
        password: String::new(),
        file_path: String::new(),
    };
    assert(form_view(r) =~= cleared_form(port@));
    r
}

/// The port text a kind fills into the form: its default port, or nothing
/// for SQLite, which has none.
pub open spec fn preset_port_text(kind: ConnectionKind) -> Seq<char> {
    if kind == ConnectionKind::Sqlite {
        Seq::empty()
    } else {
        decimal(kind.spec_default_port() as nat)
    }
}

/// The port text of MySQL's default port.
proof fn lemma_mysql_port_text()
    ensures
        decimal(ConnectionKind::MySql.spec_default_port() as nat) == "3306"@,
{
    reveal_strlit("3306");
    reveal_with_fuel(decimal, 5);
    assert(decimal(3306) =~= "3306"@);
}

/// `i` is the first connection marked active.
pub open spec fn is_first_active(connections: Seq<Connection>, i: int) -> bool {
    &&& 0 <= i < connections.len()
    &&& connections[i].active
    &&& forall|j: int| 0 <= j < i ==> !#[trigger] connections[j].active
}

/// No connection is marked active.
pub open spec fn none_active(connections: Seq<Connection>) -> bool {
    forall|j: int| 0 <= j < connections.len() ==> !#[trigger] connections[j].active
}

/// Finds the active connection: the first one marked active.
pub fn active_connection(connections: &Vec<Connection>) -> (r: Option<usize>)
    ensures
        match r {
            Some(i) => is_first_active(connections@, i as int),
            None => none_active(connections@),
        },
{
    let mut i: usize = 0;
    while i < connections.len()
        invariant
            i <= connections@.len(),
            forall|j: int| 0 <= j < i ==> !#[trigger] connections@[j].active,
        decreases connections@.len() - i,
    {
        if connections[i].active {
            return Some(i);
        }
        i = i + 1;
    }
    None
}

/// The preview and error to show for the active connection, from what
/// reading it gave: the preview, or on failure an empty preview that names
/// the connection's endpoint, with the error's text. Without an active
/// connection nothing is read and both are empty.
pub open spec fn preview_state(
    connections: Seq<Connection>,
    loaded: Option<Result<DataPreview, PreviewError>>,
    r: (DataPreview, Option<String>),
) -> bool {
    if none_active(connections) {
        r.0@ == empty_preview() && r.1 is None
    } else {
        match loaded {
            Some(Ok(p)) => r.0 == p && r.1 is None,
            Some(Err(e)) => exists|i: int|
                #[trigger] is_first_active(connections, i) && r.0@ == (PreviewView {
                    source_label: connections[i].endpoint_text(),
                    ..empty_preview()
                }) && (r.1 matches Some(m) && m@ == e.0@),
            None => false,
        }
    }
}

/// Puts together the preview state for the active connection; `loaded` is
/// what reading the active connection gave, and is needed only when there is
/// one.
pub fn preview_for_active_connection(
    connections: &Vec<Connection>,
    loaded: Option<Result<DataPreview, PreviewError>>,
) -> (r: (DataPreview, Option<String>))
    requires
        !none_active(connections@) ==> loaded is Some,
    ensures
        preview_state(connections@, loaded, r),
{
    match active_connection(connections) {
        None => (DataPreview::default(), None),
        Some(i) => {
            assert(connections@[i as int].active);
            match loaded {
                Some(Ok(p)) => (p, None),
                Some(Err(e)) => {
                    let mut p = DataPreview::default();
                    p.source_label = connections[i].endpoint();
                    (p, Some(e.0))
                },
                None => (DataPreview::default(), None),
            }
        },
    }
}

/// The connections with only the one at `index` marked active (none when
/// `index` is `None` or out of range).
pub open spec fn with_active(connections: Seq<Connection>, index: Option<usize>) -> Seq<
    Connection,
> {
    connections.map(|i: int, c: Connection| Connection { active: index == Some(i as usize), ..c })
}

/// The sort column and direction after a click on the header of `column`.
pub open spec fn sort_after_click(sort: (Option<usize>, bool), column: usize) -> (
    Option<usize>,
    bool,
) {
    if sort.0 == Some(column) {
        (sort.0, !sort.1)
    } else {
        (Some(column), false)
    }
}

/// The preview has a cell at `row`, `column`.
pub open spec fn has_cell(rows: Seq<Vec<String>>, row: usize, column: usize) -> bool {
    row < rows.len() && column < rows[row as int]@.len()
}

/// Why a query cannot be run: no active connection, or a blank query.
pub open spec fn query_refusal(connections: Seq<Connection>, editor_text: Seq<char>) -> Seq<char> {
    if none_active(connections) {
        "No active connection"@
    } else {
        "Query is empty"@
    }
}

/// A query is run, on the first active connection, exactly when there is
/// one and the trimmed editor text is not empty; it is the trimmed text.
pub open spec fn query_request(
    connections: Seq<Connection>,
    editor_text: Seq<char>,
    r: Option<(usize, String)>,
) -> bool {
    if none_active(connections) || trim(editor_text).len() == 0 {
        r is None
    } else {
        r matches Some((i, q)) && is_first_active(connections, i as int) && q@ == trim(editor_text)
    }
}

/// The history after running `query`: it comes first, followed by the
/// older queries, the newest twenty kept.
pub open spec fn history_after(history: Seq<String>, query: String) -> Seq<String> {
    let h = seq![query] + history;
    if h.len() <= QUERY_HISTORY_LIMIT {
        h
    } else {
        h.take(QUERY_HISTORY_LIMIT as int)
    }
}

/// A cell to write back to the database.
pub struct CellWrite {
    /// The index of the connection to write through.
    pub connection: usize,
    pub row: usize,
    pub column: usize,
    pub value: String,
}

/// What the window shows and remembers.
pub struct SuperTableApp {
    pub connections: Vec<Connection>,
    pub locale: Locale,
    pub preview: DataPreview,
    pub preview_error: Option<String>,
    /// The text in the cell editor.
    pub cell_editor: String,
    pub editing_cell: Option<(usize, usize)>,
    pub dirty_cell: Option<(usize, usize)>,
    pub selected_row: Option<usize>,
    pub sort_column: Option<usize>,
    pub sort_desc: bool,
    pub selected_object: Option<String>,
    pub selected_editor_tab: usize,
    pub editor_mode: EditorMode,
    /// Queries run, newest first.
    pub query_history: Vec<String>,
    pub form: ConnectionForm,
    pub show_connection_form: bool,
    pub selected_connection_kind: ConnectionKind,
}

/// How many queries the history keeps.
pub const QUERY_HISTORY_LIMIT: usize = 20;

impl SuperTableApp {
    /// The window as it opens: the saved connections, the preview of the
    /// active one, Chinese texts, a MySQL form with host `127.0.0.1` and port
    /// `3306`, and nothing selected.
    pub fn new(connections: Vec<Connection>, preview: (DataPreview, Option<String>)) -> (r: Self)
        ensures
            r.connections@ == connections@,
            r.locale == Locale::ZhCn,
            r.preview == preview.0,
            r.preview_error == preview.1,
            r.cell_editor@ == Seq::<char>::empty(),
            r.editing_cell is None,
            r.dirty_cell is None,
            r.selected_row is None,
            r.sort_column is None,
            !r.sort_desc,
            r.selected_object is None,
            r.selected_editor_tab == 0,
            r.editor_mode == EditorMode::Query,
            r.query_history@.len() == 0,
            form_view(r.form) == cleared_form("3306"@),
            !r.show_connection_form,
            r.selected_connection_kind == ConnectionKind::MySql,
    {
        SuperTableApp {
            connections,
            locale: Locale::ZhCn,
            preview: preview.0,
            preview_error: preview.1,
            cell_editor: String::new(),
            editing_cell: None,
            dirty_cell: None,
            selected_row: None,
            sort_column: None,
            sort_desc: false,
            selected_object: None,
            selected_editor_tab: 0,
            editor_mode: EditorMode::Query,
            query_history: Vec::new(),
            form: cleared(String::from_str("3306")),
            show_connection_form: false,
            selected_connection_kind: ConnectionKind::MySql,
        }
    }

    /// Opens the connection form, set for MySQL and cleared.
    pub fn open_connection_form(&mut self)
        ensures
            form_view(final(self).form) == cleared_form("3306"@),
            *final(self) == (SuperTableApp {
                show_connection_form: true,
                selected_connection_kind: ConnectionKind::MySql,
                form: final(self).form,
                ..*old(self)
            }),
    {
        self.show_connection_form = true;
        self.selected_connection_kind = ConnectionKind::MySql;
        self.reset_connection_form();
        proof {
            lemma_mysql_port_text();
        }
    }

    /// Hides the connection form; nothing else changes.
    pub fn close_connection_form(&mut self)
        ensures
            *final(self) == (SuperTableApp { show_connection_form: false, ..*old(self) }),
    {
        self.show_connection_form = false;
    }

    /// Chooses the kind of the new connection and fills in its default port
    /// (none for SQLite).
    pub fn set_connection_kind(&mut self, kind: ConnectionKind)
        ensures
            final(self).form.port@ == preset_port_text(kind),
            *final(self) == (SuperTableApp {
                selected_connection_kind: kind,
                form: ConnectionForm { port: final(self).form.port, ..old(self).form },
                ..*old(self)
            }),
    {
        self.selected_connection_kind = kind;
        self.form.port = if kind == ConnectionKind::Sqlite {
            String::new()
        } else {
            u64_to_decimal(kind.default_port() as u64)
        };
    }

    /// Clears the form, with the port of the selected kind.
    fn reset_connection_form(&mut self)
        ensures
            form_view(final(self).form) == cleared_form(
                decimal(old(self).selected_connection_kind.spec_default_port() as nat),
            ),
            *final(self) == (SuperTableApp { form: final(self).form, ..*old(self) }),
    {
        let port = u64_to_decimal(self.selected_connection_kind.default_port() as u64);
        self.form = cleared(port);
    }

    /// Marks every connection inactive but the one at `index` (none when
    /// `index` is out of range).
    fn set_active_only(&mut self, index: Option<usize>)
        ensures
            final(self).connections@ == with_active(old(self).connections@, index),
            *final(self) == (SuperTableApp { connections: final(self).connections, ..*old(self) }),
    {
        let mut i: usize = 0;
        while i < self.connections.len()
            invariant
                i <= self.connections@.len(),
                self.connections@.len() == old(self).connections@.len(),
                forall|k: int|
                    0 <= k < i ==> #[trigger] self.connections@[k] == (Connection {
                        active: index == Some(k as usize),
                        ..old(self).connections@[k]
                    }),
                forall|k: int|
                    i <= k < self.connections@.len() ==> #[trigger] self.connections@[k]
                        == old(self).connections@[k],
                *self == (SuperTableApp { connections: self.connections, ..*old(self) }),
            decreases self.connections@.len() - i,
        {
            let mut c = self.connections[i].clone();
            c.active = match index {
                Some(j) => j == i,
                None => false,
            };
            self.connections.set(i, c);
            i = i + 1;
        }
        assert(self.connections@ =~= with_active(old(self).connections@, index));
    }

    /// Adds the connection described by the form, active and alone so, when
    /// the form has a name; the name is trimmed, and a port that does not
    /// parse falls back to the kind's default. The form then closes and
    /// clears. Returns whether a connection was added: the caller then saves
    /// the connections and reads the preview of the new one.
    pub fn save_connection(&mut self) -> (added: bool)
        ensures
            added == (trim(old(self).form.name@).len() > 0),
            !added ==> *final(self) == *old(self),
            added ==> {
                let n = old(self).connections@.len();
                let c = final(self).connections@[n as int];
                let kind = old(self).selected_connection_kind;
                &&& final(self).connections@ == with_active(old(self).connections@, None).push(c)
                &&& c.kind == kind
                &&& c.name@ == trim(old(self).form.name@)
                &&& c.host == old(self).form.host
                &&& c.port == (match parse_u16_spec(old(self).form.port@) {
                    Some(p) => p,
                    None => kind.spec_default_port(),
                })
                &&& c.database == old(self).form.database
                &&& c.username == old(self).form.username
                &&& c.password == old(self).form.password
                &&& c.file_path == old(self).form.file_path
                &&& c.active
                &&& form_view(final(self).form) == cleared_form(
                    decimal(kind.spec_default_port() as nat),
                )
                &&& *final(self) == (SuperTableApp {
                    connections: final(self).connections,
                    selected_object: None,
                    show_connection_form: false,
                    form: final(self).form,
                    ..*old(self)
                })
            },
    {
        let name = trim_str(self.form.name.as_str());
        if name.as_str().is_empty() {
            return false;
        }
        let kind = self.selected_connection_kind;
        let port = match parse_u16(self.form.port.as_str()) {
            Some(p) => p,
            None => kind.default_port(),
        };
        self.set_active_only(None);
        let connection = Connection {
            kind,
            name,
            host: self.form.host.clone(),
            port,
            database: self.form.database.clone(),
            username: self.form.username.clone(),
            password: self.form.password.clone(),
            file_path: self.form.file_path.clone(),
            active: true,
        };
        self.connections.push(connection);
        self.selected_object = None;
        self.close_connection_form();
        self.reset_connection_form();
        true
    }

    /// Makes the connection at `index` the only active one and forgets the
    /// selected object; the caller then saves and reads the new preview.
    pub fn activate_connection(&mut self, index: usize)
        ensures
            final(self).connections@ == with_active(old(self).connections@, Some(index)),
            *final(self) == (SuperTableApp {
                connections: final(self).connections,
                selected_object: None,
                ..*old(self)
            }),
    {
        self.set_active_only(Some(index));
        self.selected_object = None;
    }

    /// Takes what reading the preview gave: shows it, and drops any
    /// selection or edit of the old rows.
    pub fn apply_preview(&mut self, loaded: (DataPreview, Option<String>))
        ensures
            *final(self) == (SuperTableApp {
                preview: loaded.0,
                preview_error: loaded.1,
                editing_cell: None,
                dirty_cell: None,
                selected_row: None,
                ..*old(self)
            }),
    {
        self.preview = loaded.0;
        self.preview_error = loaded.1;
        self.editing_cell = None;
        self.dirty_cell = None;
        self.selected_row = None;
    }

    /// Marks every connection inactive and clears the preview, its error and
    /// every selection and edit; the caller then saves the connections.
    pub fn deactivate_active_connection(&mut self)
        ensures
            final(self).connections@ == with_active(old(self).connections@, None),
            final(self).preview@ == empty_preview(),
            *final(self) == (SuperTableApp {
                connections: final(self).connections,
                preview: final(self).preview,
                preview_error: None,
                selected_object: None,
                selected_row: None,
                dirty_cell: None,
                editing_cell: None,
                ..*old(self)
            }),
    {
        self.set_active_only(None);
        self.preview = DataPreview::default();
        self.preview_error = None;
        self.selected_object = None;
        self.selected_row = None;
        self.dirty_cell = None;
        self.editing_cell = None;
    }

    /// Selects an object of the database; the caller then reads its preview.
    pub fn select_object(&mut self, name: String)
        ensures
            *final(self) == (SuperTableApp { selected_object: Some(name), ..*old(self) }),
    {
        self.selected_object = Some(name);
    }

    /// Sorts by `column`: ascending on the first click, then each click on the
    /// same column reverses the direction.
    pub fn toggle_sort(&mut self, column: usize)
        ensures
            (final(self).sort_column, final(self).sort_desc) == sort_after_click(
                (old(self).sort_column, old(self).sort_desc),
                column,
            ),
            *final(self) == (SuperTableApp {
                sort_column: final(self).sort_column,
                sort_desc: final(self).sort_desc,
                ..*old(self)
            }),
    {
        if self.sort_column == Some(column) {
            self.sort_desc = !self.sort_desc;
        } else {
            self.sort_column = Some(column);
            self.sort_desc = false;
        }
    }

    /// Selects a row of the grid.
    pub fn select_row(&mut self, row: usize)
        ensures
            *final(self) == (SuperTableApp { selected_row: Some(row), ..*old(self) }),
    {
        self.selected_row = Some(row);
    }

    /// Switches the panel below the editor.
    pub fn set_editor_mode(&mut self, mode: EditorMode)
        ensures
            *final(self) == (SuperTableApp { editor_mode: mode, ..*old(self) }),
    {
        self.editor_mode = mode;
    }

    /// Starts editing a cell: the editor gets its text. Nothing happens when
    /// the preview has no such cell.
    pub fn begin_cell_edit(&mut self, row: usize, column: usize)
        ensures
            has_cell(old(self).preview.rows@, row, column) ==> *final(self) == (SuperTableApp {
                cell_editor: old(self).preview.rows@[row as int]@[column as int],
                editing_cell: Some((row, column)),
                ..*old(self)
            }),
            !has_cell(old(self).preview.rows@, row, column) ==> *final(self) == *old(self),
    {
        if row < self.preview.rows.len() && column < self.preview.rows[row].len() {
            self.cell_editor = self.preview.rows[row][column].clone();
            self.editing_cell = Some((row, column));
        }
    }

    /// Writes the editor's text into the cell being edited (when it still
    /// exists) and marks it changed but unsaved. Nothing happens when no cell
    /// is being edited.
    pub fn apply_cell_edit(&mut self)
        ensures
            old(self).editing_cell is None ==> *final(self) == *old(self),
            old(self).editing_cell matches Some((row, column)) ==> {
                &&& row_views(final(self).preview.rows@) == (if has_cell(
                    old(self).preview.rows@,
                    row,
                    column,
                ) {
                    row_views(old(self).preview.rows@).update(
                        row as int,
                        row_views(old(self).preview.rows@)[row as int].update(
                            column as int,
                            old(self).cell_editor@,
                        ),
                    )
                } else {
                    row_views(old(self).preview.rows@)
                })
                &&& *final(self) == (SuperTableApp {
                    preview: DataPreview { rows: final(self).preview.rows, ..old(self).preview },
                    editing_cell: None,
                    dirty_cell: Some((row, column)),
                    ..*old(self)
                })
            },
    {
        match self.editing_cell {
            None => {},
            Some((row, column)) => {
                if row < self.preview.rows.len() && column < self.preview.rows[row].len() {
                    let value = self.cell_editor.clone();
                    let ghost before = self.preview.rows@;
                    let mut cells = self.preview.rows[row].clone();
                    assert(views(cells@) =~= views(before[row as int]@)) by {
                        assert forall|k: int| 0 <= k < cells@.len() implies cells@[k]@ == before[row as int]@[k]@ by {
                            assert(cloned::<String>(before[row as int]@[k], cells@[k]));
                        }
                    }
                    cells.set(column, value);
                    self.preview.rows.set(row, cells);
                    assert(views(self.preview.rows@[row as int]@) =~= views(
                        before[row as int]@,
                    ).update(column as int, value@));
                    assert(row_views(self.preview.rows@) =~= row_views(before).update(
                        row as int,
                        row_views(before)[row as int].update(column as int, value@),
                    ));
                }
                self.editing_cell = None;
                self.dirty_cell = Some((row, column));
            },
        }
    }

    /// Stops editing without writing; the cell keeps its text.
    pub fn cancel_cell_edit(&mut self)
        ensures
            *final(self) == (SuperTableApp { editing_cell: None, ..*old(self) }),
    {
        self.editing_cell = None;
    }

    /// The first step of running the query in the editor: the index of the
    /// active connection and the trimmed query, for the caller to run; or,
    /// when there is no active connection or the query is blank, the error
    /// is shown and nothing is to be run.
    pub fn run_query_preview(&mut self, editor_text: &str) -> (r: Option<(usize, String)>)
        ensures
            query_request(old(self).connections@, editor_text@, r),
            r is None ==> *final(self) == (SuperTableApp {
                preview_error: final(self).preview_error,
                ..*old(self)
            }) && (final(self).preview_error matches Some(e) && e@ == query_refusal(
                old(self).connections@,
                editor_text@,
            )),
            r is Some ==> *final(self) == *old(self),
    {
        self.query_request(editor_text)
    }

    /// The first step of explaining the query in the editor; as for running it.
    pub fn explain_current_query(&mut self, editor_text: &str) -> (r: Option<(usize, String)>)
        ensures
            query_request(old(self).connections@, editor_text@, r),
            r is None ==> *final(self) == (SuperTableApp {
                preview_error: final(self).preview_error,
                ..*old(self)
            }) && (final(self).preview_error matches Some(e) && e@ == query_refusal(
                old(self).connections@,
                editor_text@,
            )),
            r is Some ==> *final(self) == *old(self),
    {
        self.query_request(editor_text)
    }

    fn query_request(&mut self, editor_text: &str) -> (r: Option<(usize, String)>)
        ensures
            query_request(old(self).connections@, editor_text@, r),
            r is None ==> *final(self) == (SuperTableApp {
                preview_error: final(self).preview_error,
                ..*old(self)
            }) && (final(self).preview_error matches Some(e) && e@ == query_refusal(
                old(self).connections@,
                editor_text@,
            )),
            r is Some ==> *final(self) == *old(self),
    {
        match active_connection(&self.connections) {
            None => {
                self.preview_error = Some(String::from_str("No active connection"));
                None
            },
            Some(i) => {
                let query = trim_str(editor_text);
                if query.as_str().is_empty() {
                    self.preview_error = Some(String::from_str("Query is empty"));
                    None
                } else {
                    Some((i, query))
                }
            },
        }
    }

    /// The second step of running a query: on success its result becomes the
    /// preview and the query goes to the front of the history, which keeps
    /// the newest twenty; on failure the error is shown.
    pub fn finish_query_preview(&mut self, query: String, outcome: Result<DataPreview, PreviewError>)
        ensures
            match outcome {
                Ok(p) => {
                    &&& final(self).query_history@ == history_after(old(self).query_history@, query)
                    &&& *final(self) == (SuperTableApp {
                        preview: p,
                        preview_error: None,
                        editor_mode: EditorMode::Query,
                        query_history: final(self).query_history,
                        ..*old(self)
                    })
                },
                Err(e) => {
                    &&& final(self).preview_error matches Some(m) && m@ == e.0@
                    &&& *final(self) == (SuperTableApp {
                        preview_error: final(self).preview_error,
                        ..*old(self)
                    })
                },
            },
    {
        match outcome {
            Ok(p) => {
                self.preview = p;
                self.preview_error = None;
                self.editor_mode = EditorMode::Query;
                self.query_history.insert(0, query);
                self.query_history.truncate(QUERY_HISTORY_LIMIT);
            },
            Err(e) => {
                self.preview_error = Some(e.0);
            },
        }
    }

    /// The second step of explaining a query: the plan becomes the preview
    /// and the explain panel opens, or the error is shown.
    pub fn finish_explain(&mut self, outcome: Result<DataPreview, PreviewError>)
        ensures
            match outcome {
                Ok(p) => *final(self) == (SuperTableApp {
                    preview: p,
                    preview_error: None,
                    editor_mode: EditorMode::Explain,
                    ..*old(self)
                }),
                Err(e) => {
                    &&& final(self).preview_error matches Some(m) && m@ == e.0@
                    &&& *final(self) == (SuperTableApp {
                        preview_error: final(self).preview_error,
                        ..*old(self)
                    })
                },
            },
    {
        match outcome {
            Ok(p) => {
                self.preview = p;
                self.preview_error = None;
                self.editor_mode = EditorMode::Explain;
            },
            Err(e) => {
                self.preview_error = Some(e.0);
            },
        }
    }

    /// The first step of saving the changed cell: which connection, cell and
    /// text to write. Nothing happens when no cell is changed; without an
    /// active connection, or when the changed cell is gone, the error is
    /// shown instead.
    pub fn save_grid_changes(&mut self) -> (r: Option<CellWrite>)
        ensures
            old(self).dirty_cell is None ==> r is None && *final(self) == *old(self),
            old(self).dirty_cell matches Some((row, column)) ==> {
                if none_active(old(self).connections@) {
                    &&& r is None
                    &&& final(self).preview_error matches Some(e) && e@ == "No active connection"@
                    &&& *final(self) == (SuperTableApp {
                        preview_error: final(self).preview_error,
                        ..*old(self)
                    })
                } else if !has_cell(old(self).preview.rows@, row, column) {
                    &&& r is None
                    &&& final(self).preview_error matches Some(e) && e@
                        == "Edited cell was not found"@
                    &&& *final(self) == (SuperTableApp {
                        preview_error: final(self).preview_error,
                        ..*old(self)
                    })
                } else {
                    &&& r matches Some(w) && is_first_active(old(self).connections@, w.connection as int)
                        && w.row == row && w.column == column && w.value
                        == old(self).preview.rows@[row as int]@[column as int]
                    &&& *final(self) == *old(self)
                }
            },
    {
        let (row, column) = match self.dirty_cell {
            None => {
                return None;
            },
            Some(cell) => cell,
        };
        let connection = match active_connection(&self.connections) {
            None => {
                self.preview_error = Some(String::from_str("No active connection"));
                return None;
            },
            Some(i) => i,
        };
        if row < self.preview.rows.len() && column < self.preview.rows[row].len() {
            Some(CellWrite { connection, row, column, value: self.preview.rows[row][column].clone() })
        } else {
            self.preview_error = Some(String::from_str("Edited cell was not found"));
            None
        }
    }

    /// The second step of saving the changed cell: on success the cell is no
    /// longer marked changed and the error clears; on failure the error is
    /// shown.
    pub fn finish_grid_save(&mut self, outcome: Result<(), PreviewError>)
        ensures
            match outcome {
                Ok(()) => *final(self) == (SuperTableApp {
                    preview_error: None,
                    dirty_cell: None,
                    ..*old(self)
                }),
                Err(e) => {
                    &&& final(self).preview_error matches Some(m) && m@ == e.0@
                    &&& *final(self) == (SuperTableApp {
                        preview_error: final(self).preview_error,
                        ..*old(self)
                    })
                },
            },
    {
        match outcome {
            Ok(()) => {
                self.preview_error = None;
                self.dirty_cell = None;
            },
            Err(e) => {
                self.preview_error = Some(e.0);
            },
        }
    }

    /// The rows the grid shows for the filter text, in display order.
    pub fn visible_row_indices(&self, filter_text: &str) -> (r: Vec<usize>)
        ensures
            visible_rows_spec(
                row_views(self.preview.rows@),
                filter_text@,
                self.sort_column,
                self.sort_desc,
                r@,
            ),
    {
        visible_rows(&self.preview.rows, filter_text, self.sort_column, self.sort_desc)
    }
}


/// Activating a listed connection leaves exactly that connection active, so
/// the preview that follows is read from it.
pub proof fn law_activation_selects_one(connections: Seq<Connection>, index: usize)
    requires
        index < connections.len() <= usize::MAX,
    ensures
        is_first_active(with_active(connections, Some(index)), index as int),
        forall|j: int|
            0 <= j < connections.len() && j != index ==> !(#[trigger] with_active(
                connections,
                Some(index),
            )[j]).active,
{
    let after = with_active(connections, Some(index));
    assert forall|j: int| 0 <= j < connections.len() && j != index implies !(
    #[trigger] after[j]).active by {
        assert(Some(j as usize) != Some(index));
    }
}

/// After deactivation no connection is active, and there is no preview to
/// read.
pub proof fn law_deactivation_leaves_none(connections: Seq<Connection>)
    ensures
        none_active(with_active(connections, None)),
{
}

/// A saved connection is the only active one afterwards.
pub proof fn law_saved_connection_is_the_active_one(connections: Seq<Connection>, c: Connection)
    requires
        c.active,
    ensures
        is_first_active(with_active(connections, None).push(c), connections.len() as int),
        forall|j: int|
            0 <= j < connections.len() ==> !(#[trigger] with_active(connections, None).push(
                c,
            )[j]).active,
{
}

/// Choosing a kind in the form fills in the port that saving then records:
/// the kind's default port (for SQLite, whose field stays empty, the
/// fallback is its default as well).
pub proof fn law_preset_port_is_saved(kind: ConnectionKind)
    ensures
        (match parse_u16_spec(preset_port_text(kind)) {
            Some(p) => p,
            None => kind.spec_default_port(),
        }) == kind.spec_default_port(),
{
    if kind != ConnectionKind::Sqlite {
        crate::text::lemma_parse_decimal_u16(kind.spec_default_port());
    }
}

/// A second click on the sorted column reverses the direction; a click on
/// any other column sorts ascending by it.
pub proof fn law_sort_clicks(sort: (Option<usize>, bool), column: usize)
    ensures
        sort_after_click(sort_after_click(sort, column), column) == (
            Some(column),
            !sort_after_click(sort, column).1,
        ),
        sort.0 != Some(column) ==> sort_after_click(sort, column) == (Some(column), false),
        sort.0 == Some(column) ==> sort_after_click(sort_after_click(sort, column), column)
            == sort,
{
}

/// Writing a cell's own text back into it leaves the rows as they were: an
/// edit that is applied unchanged changes nothing.
pub proof fn law_unchanged_edit_keeps_rows(rows: Seq<Vec<String>>, row: usize, column: usize)
    requires
        has_cell(rows, row, column),
    ensures
        row_views(rows).update(
            row as int,
            row_views(rows)[row as int].update(column as int, rows[row as int]@[column as int]@),
        ) == row_views(rows),
{
    assert(row_views(rows)[row as int].update(column as int, rows[row as int]@[column as int]@)
        =~= row_views(rows)[row as int]);
    assert(row_views(rows).update(
        row as int,
        row_views(rows)[row as int].update(column as int, rows[row as int]@[column as int]@),
    ) =~= row_views(rows));
}

/// The history holds the newest query first, then the older ones in order,
/// and never more than twenty.
pub proof fn law_history_keeps_newest(history: Seq<String>, query: String)
    requires
        history.len() <= QUERY_HISTORY_LIMIT,
    ensures
        history_after(history, query).len() <= QUERY_HISTORY_LIMIT,
        history_after(history, query)[0] == query,
        forall|i: int|
            0 < i < history_after(history, query).len() ==> #[trigger] history_after(
                history,
                query,
            )[i] == history[i - 1],
{
}

} // verus!
