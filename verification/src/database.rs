//! The database tables that `substreams_database_change` builds, as the library sees them.
use vstd::prelude::*;
use vstd::string::StringExecFns;
use substreams_database_change::pb::sf::substreams::sink::database::v1::TableChange;
use substreams_database_change::tables::{Row, Tables};

verus! {

#[verifier::external_type_specification]
#[verifier::external_body]
pub struct ExTables(Tables);

#[verifier::external_type_specification]
#[verifier::external_body]
pub struct ExRow(Row);

#[verifier::external_type_specification]
#[verifier::external_body]
pub struct ExTableChange(TableChange);

#[verifier::external_type_specification]
#[verifier::external_body]
pub struct ExError(substreams::errors::Error);

/// The operation for which a row is scheduled.
pub enum RowOperation {
    Unspecified,
    Create,
    Upsert,
    Update,
    Delete,
}

/// A primary key: one value, or a value for each of several columns.
pub enum PrimaryKeyModel {
    Single(Seq<char>),
    Composite(Map<Seq<char>, Seq<char>>),
}

/// A row: its table, its primary key, its fields (column to text) and its operation.
pub type RowModel = (Seq<char>, PrimaryKeyModel, Map<Seq<char>, Seq<char>>, RowOperation);

/// The rows that a `Tables` holds, every table's together, in the order in which they were
/// first scheduled (the order of their ordinals).
pub uninterp spec fn tables_rows(tables: Tables) -> Seq<RowModel>;

/// What a `Row` holds: its fields (column to text) and its operation.
pub uninterp spec fn row_contents(row: Row) -> (Map<Seq<char>, Seq<char>>, RowOperation);

/// What a `TableChange` records: its table, its primary key, its fields (column to text) and
/// its operation.
pub uninterp spec fn table_change_row(change: TableChange) -> RowModel;

/// Every row is scheduled for creation.
pub open spec fn all_created(rows: Seq<RowModel>) -> bool {
    forall|i: int| 0 <= i < rows.len() ==> (#[trigger] rows[i]).3 is Create
}

/// The row of `table` with `key` is absent, or is scheduled for creation or for nothing:
/// the rows on which `create_row` does not panic.
pub open spec fn creatable(rows: Seq<RowModel>, table: Seq<char>, key: PrimaryKeyModel) -> bool {
    match row_position(rows, table, key) {
        Some(i) => rows[i].3 is Create || rows[i].3 is Unspecified,
        None => true,
    }
}

/// The decimal text of a number, without leading zeros.
pub open spec fn decimal(n: nat) -> Seq<char>
    decreases n,
{
    if n < 10 {
        seq![digit(n)]
    } else {
        decimal(n / 10).push(digit(n % 10))
    }
}

pub open spec fn digit(d: nat) -> char {
    if d == 0 { '0' }
    else if d == 1 { '1' }
    else if d == 2 { '2' }
    else if d == 3 { '3' }
    else if d == 4 { '4' }
    else if d == 5 { '5' }
    else if d == 6 { '6' }
    else if d == 7 { '7' }
    else if d == 8 { '8' }
    else { '9' }
}

/// The texts joined by commas.
pub open spec fn comma_joined(values: Seq<Seq<char>>) -> Seq<char>
    decreases values.len(),
{
    if values.len() == 0 {
        Seq::empty()
    } else if values.len() == 1 {
        values[0]
    } else {
        comma_joined(values.drop_last()) + ","@ + values.last()
    }
}

/// An array column's text for ClickHouse: the values joined by commas, in square brackets.
pub open spec fn clickhouse_array(values: Seq<Seq<char>>) -> Seq<char> {
    "["@ + comma_joined(values) + "]"@
}

/// The position of the row of `table` with primary key `key`, if there is one.
pub open spec fn row_position(rows: Seq<RowModel>, table: Seq<char>, key: PrimaryKeyModel) -> Option<int> {
    if exists|i: int| 0 <= i < rows.len() && rows[i].0 == table && rows[i].1 == key {
        Some(choose|i: int| 0 <= i < rows.len() && rows[i].0 == table && rows[i].1 == key)
    } else {
        None
    }
}

/// The fields of the row of `table` with primary key `key`: none where there is no such row.
pub open spec fn row_fields_in(rows: Seq<RowModel>, table: Seq<char>, key: PrimaryKeyModel) -> Map<Seq<char>, Seq<char>> {
    match row_position(rows, table, key) {
        Some(i) => rows[i].2,
        None => Map::empty(),
    }
}

/// The rows with the row of `table` and key `key` holding `contents`; where there is no such
/// row, it is added after the others.
pub open spec fn rows_with(
    rows: Seq<RowModel>,
    table: Seq<char>,
    key: PrimaryKeyModel,
    contents: (Map<Seq<char>, Seq<char>>, RowOperation),
) -> Seq<RowModel> {
    match row_position(rows, table, key) {
        Some(i) => rows.update(i, (table, key, contents.0, contents.1)),
        None => rows.push((table, key, contents.0, contents.1)),
    }
}

/// The composite primary key of two columns.
pub open spec fn two_column_key(
    first_name: Seq<char>,
    first_value: Seq<char>,
    second_name: Seq<char>,
    second_value: Seq<char>,
) -> PrimaryKeyModel {
    PrimaryKeyModel::Composite(Map::empty().insert(first_name, first_value).insert(second_name, second_value))
}

/// Calls `Tables::new()`.
/// Trusted: a new `Tables` holds no row.
#[verifier::external_body]
pub(crate) fn new_tables() -> (tables: Tables)
    ensures
        tables_rows(tables) == Seq::<RowModel>::empty(),
{
    Tables::new()
}

/// Calls `Tables::create_row` with a key of two columns.
/// Trusted: the returned row is the row of that table and key, with the fields it had, or a
/// new one without fields, which comes after the others; either way it is scheduled for
/// creation, and what the caller leaves in it is what the tables hold for it. `create_row`
/// panics on a row scheduled for an upsert, an update or a deletion, which `requires` leaves out.
#[verifier::external_body]
pub(crate) fn create_row<'a>(
    tables: &'a mut Tables,
    table: &str,
    first_key: (&str, String),
    second_key: (&str, String),
) -> (row: &'a mut Row)
    requires
        first_key.0@ != second_key.0@,
        creatable(
            tables_rows(*old(tables)),
            table@,
            two_column_key(first_key.0@, first_key.1@, second_key.0@, second_key.1@),
        ),
    ensures
        row_contents(*row) == (
            row_fields_in(
                tables_rows(*old(tables)),
                table@,
                two_column_key(first_key.0@, first_key.1@, second_key.0@, second_key.1@),
            ),
            RowOperation::Create,
        ),
        tables_rows(*final(tables)) == rows_with(
            tables_rows(*old(tables)),
            table@,
            two_column_key(first_key.0@, first_key.1@, second_key.0@, second_key.1@),
            row_contents(*final(row)),
        ),
{
    tables.create_row(table, [first_key, second_key])
}

/// Calls `Row::set` with a `String`.
/// Trusted: the column `name` of the row holds `value` (a `String` is written as it is); the
/// row's operation is unchanged. `set` panics on a row scheduled for deletion, which
/// `requires` leaves out.
#[verifier::external_body]
pub(crate) fn set_column(row: &mut Row, name: &str, value: String)
    requires
        !(row_contents(*old(row)).1 is Delete),
    ensures
        row_contents(*final(row)) == (row_contents(*old(row)).0.insert(name@, value@), row_contents(*old(row)).1),
{
    row.set(name, value);
}

/// Calls `Row::set_clickhouse_array` with `String` values.
/// Trusted: the column `name` of the row holds the values joined by commas in square
/// brackets (a `String` is written as it is); the row's operation is unchanged. It panics on
/// a row scheduled for deletion, which `requires` leaves out.
#[verifier::external_body]
pub(crate) fn set_clickhouse_array_column(row: &mut Row, name: &str, values: Vec<String>)
    requires
        !(row_contents(*old(row)).1 is Delete),
    ensures
        row_contents(*final(row)) == (
            row_contents(*old(row)).0.insert(name@, clickhouse_array(values.deep_view())),
            row_contents(*old(row)).1,
        ),
{
    row.set_clickhouse_array(name, values);
}

/// Calls `Tables::to_database_changes` and takes its `table_changes`.
/// Trusted: where no row is scheduled for nothing (such rows are left out), one change for
/// each row, in the order of the rows' ordinals, each with the row's table, primary key,
/// fields and operation. Left unsaid: the ordinals' values, each field's update operation,
/// and the order of a change's fields, which follows a `HashMap`.
#[verifier::external_body]
pub(crate) fn into_table_changes(tables: Tables) -> (changes: Vec<TableChange>)
    requires
        forall|i: int| 0 <= i < tables_rows(tables).len() ==> !(#[trigger] tables_rows(tables)[i].3 is Unspecified),
    ensures
        changes@.len() == tables_rows(tables).len(),
        forall|i: int| 0 <= i < changes@.len() ==> table_change_row(#[trigger] changes@[i]) == tables_rows(tables)[i],
{
    tables.to_database_changes().table_changes
}

/// The text of a digit.
fn digit_text(d: u64) -> (text: &'static str)
    requires
        d < 10,
    ensures
        text@ == seq![digit(d as nat)],
{
    proof {
        reveal_strlit("0");
        reveal_strlit("1");
        reveal_strlit("2");
        reveal_strlit("3");
        reveal_strlit("4");
        reveal_strlit("5");
        reveal_strlit("6");
        reveal_strlit("7");
        reveal_strlit("8");
        reveal_strlit("9");
    }
    if d == 0 { "0" }
    else if d == 1 { "1" }
    else if d == 2 { "2" }
    else if d == 3 { "3" }
    else if d == 4 { "4" }
    else if d == 5 { "5" }
    else if d == 6 { "6" }
    else if d == 7 { "7" }
    else if d == 8 { "8" }
    else { "9" }
}

/// The decimal text of a number, as `to_string` writes it.
pub(crate) fn decimal_text(n: u64) -> (text: String)
    ensures
        text@ == decimal(n as nat),
    decreases n,
{
    if n < 10 {
        String::from_str(digit_text(n))
    } else {
        let mut text = decimal_text(n / 10);
        text.append(digit_text(n % 10));
        text
    }
}

} // verus!
