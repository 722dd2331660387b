//! The persisted schema: one table of mappings, described as plain data so
//! that whatever creates it in a database reads it from here.

use vstd::prelude::*;
use vstd::string::*;

verus! {

/// The kind of value that a column holds.
#[derive(Clone, Copy, Debug, PartialEq, Eq, Structural)]
pub enum ColumnKind {
    Integer,
    Text,
    Timestamp,
}

/// One column and its constraints.
#[derive(Debug)]
pub struct ColumnSpec {
    pub name: String,
    pub kind: ColumnKind,
    pub not_null: bool,
    pub unique: bool,
    pub primary_key: bool,
    pub auto_increment: bool,
    /// The column defaults to the time at which the row is written.
    pub default_now: bool,
}

/// What a column is, mathematically.
pub struct ColumnView {
    pub name: Seq<char>,
    pub kind: ColumnKind,
    pub not_null: bool,
    pub unique: bool,
    pub primary_key: bool,
    pub auto_increment: bool,
    pub default_now: bool,
}

impl View for ColumnSpec {
    type V = ColumnView;

    open spec fn view(&self) -> ColumnView {
        ColumnView {
            name: self.name@,
            kind: self.kind,
            not_null: self.not_null,
            unique: self.unique,
            primary_key: self.primary_key,
            auto_increment: self.auto_increment,
            default_now: self.default_now,
        }
    }
}

/// A table: its name and its columns in order.
#[derive(Debug)]
pub struct TableSpec {
    pub name: String,
    pub columns: Vec<ColumnSpec>,
}

/// What a table is, mathematically.
pub struct TableView {
    pub name: Seq<char>,
    pub columns: Seq<ColumnView>,
}

impl View for TableSpec {
    type V = TableView;

    open spec fn view(&self) -> TableView {
        TableView {
            name: self.name@,
            columns: Seq::new(self.columns@.len(), |i: int| self.columns@[i]@),
        }
    }
}

/// A column that must be present and carries no other constraint.
pub open spec fn required_column(name: Seq<char>, kind: ColumnKind) -> ColumnView {
    ColumnView {
        name,
        kind,
        not_null: true,
        unique: false,
        primary_key: false,
        auto_increment: false,
        default_now: false,
    }
}

/// The surrogate key: an integer that the database assigns.
pub open spec fn id_column() -> ColumnView {
    ColumnView {
        primary_key: true,
        auto_increment: true,
        ..required_column("id"@, ColumnKind::Integer)
    }
}

/// The short code. Its uniqueness is the database's to enforce, so that two
/// writers racing for one code cannot both succeed.
pub open spec fn short_url_column() -> ColumnView {
    ColumnView { unique: true, ..required_column("short_url"@, ColumnKind::Text) }
}

/// The URL that the code stands for.
pub open spec fn target_url_column() -> ColumnView {
    required_column("target_url"@, ColumnKind::Text)
}

/// The creation time, set by the database when the row is written.
pub open spec fn created_at_column() -> ColumnView {
    ColumnView { default_now: true, ..required_column("created_at"@, ColumnKind::Timestamp) }
}

/// The table of mappings.
pub open spec fn url_store_view() -> TableView {
    TableView {
        name: "url_store"@,
        columns: seq![
            id_column(),
            short_url_column(),
            target_url_column(),
            created_at_column(),
        ],
    }
}

/// Builds a column that must be present and carries no other constraint.
fn required(name: &str, kind: ColumnKind) -> (column: ColumnSpec)
    ensures
        column@ == required_column(name@, kind),
{
    ColumnSpec {
        name: String::from_str(name),
        kind,
        not_null: true,
        unique: false,
        primary_key: false,
        auto_increment: false,
        default_now: false,
    }
}

/// The table of mappings: `id`, `short_url`, `target_url`, `created_at`.
pub fn url_store_table() -> (table: TableSpec)
    ensures
        table@ == url_store_view(),
{
    let mut id = required("id", ColumnKind::Integer);
    id.primary_key = true;
    id.auto_increment = true;
    let mut short_url = required("short_url", ColumnKind::Text);
    short_url.unique = true;
    let target_url = required("target_url", ColumnKind::Text);
    let mut created_at = required("created_at", ColumnKind::Timestamp);
    created_at.default_now = true;
    let mut columns: Vec<ColumnSpec> = Vec::new();
    columns.push(id);
    columns.push(short_url);
    columns.push(target_url);
    columns.push(created_at);
    let table = TableSpec { name: String::from_str("url_store"), columns };
    assert(table@.columns =~= url_store_view().columns);
    table
}

} // verus!
