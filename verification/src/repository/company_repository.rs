//! The SQL of the company store.
use vstd::prelude::*;
use crate::entity::company::Company;
use crate::sql::{binds_view, fixed, BindValue, BindView, Statement, StatementView};

verus! {

/// Every company.
pub const FIND_ALL_SQL: &'static str = "SELECT id, name, address FROM company";

/// One company by id.
pub const FIND_BY_ID_SQL: &'static str = "SELECT id, name, address FROM company WHERE id = ?";

/// A new company.
pub const CREATE_SQL: &'static str = "INSERT INTO company (name, address) VALUES (?, ?)";

/// Replaces the name and address of a company.
pub const UPDATE_SQL: &'static str = "\n            UPDATE company\n            SET\n                name = COALESCE(?, name),\n                address = COALESCE(?, address)\n            WHERE id = ?\n            ";

/// Removes a company.
pub const DELETE_SQL: &'static str = "DELETE FROM company WHERE id = ?";

/// The statement that reads company `id`, by value.
pub open spec fn find_by_id_statement(id: i64) -> StatementView {
    StatementView { sql: FIND_BY_ID_SQL@, binds: seq![BindView::BigInt(id)] }
}

/// The statement that inserts a company named `name` at `address`, by value.
pub open spec fn create_statement(name: Seq<char>, address: Seq<char>) -> StatementView {
    StatementView { sql: CREATE_SQL@, binds: seq![BindView::Text(name), BindView::Text(address)] }
}

/// The statement that gives company `id` the name `name` and the address `address`, by
/// value.
pub open spec fn update_statement(id: i64, name: Seq<char>, address: Seq<char>) -> StatementView {
    StatementView {
        sql: UPDATE_SQL@,
        binds: seq![BindView::Text(name), BindView::Text(address), BindView::BigInt(id)],
    }
}

/// The statement that removes company `id`, by value.
pub open spec fn delete_statement(id: i64) -> StatementView {
    StatementView { sql: DELETE_SQL@, binds: seq![BindView::BigInt(id)] }
}

/// What a write of this module does to the company table, kept as a map from id to name
/// and address: an insertion adds a row under `new_id`, the id that the database gives
/// it; an update sets both columns of an existing row (its parameters are never null,
/// so `COALESCE` keeps neither old value); a deletion removes the row. Any other
/// statement leaves the table as it was.
pub open spec fn company_table_after(
    table: Map<i64, (Seq<char>, Seq<char>)>,
    st: StatementView,
    new_id: i64,
) -> Map<i64, (Seq<char>, Seq<char>)> {
    if st.sql == CREATE_SQL@ && st.binds.len() == 2 {
        match (st.binds[0], st.binds[1]) {
            (BindView::Text(name), BindView::Text(address)) => table.insert(new_id, (name, address)),
            _ => table,
        }
    } else if st.sql == UPDATE_SQL@ && st.binds.len() == 3 {
        match (st.binds[0], st.binds[1], st.binds[2]) {
            (BindView::Text(name), BindView::Text(address), BindView::BigInt(id)) => if table.dom().contains(
                id,
            ) {
                table.insert(id, (name, address))
            } else {
                table
            },
            _ => table,
        }
    } else if st.sql == DELETE_SQL@ && st.binds.len() == 1 {
        match st.binds[0] {
            BindView::BigInt(id) => table.remove(id),
            _ => table,
        }
    } else {
        table
    }
}

/// What the read of one company finds in the company table: the name and address of the
/// row under the id bound, none when there is no such row.
pub open spec fn company_found(
    table: Map<i64, (Seq<char>, Seq<char>)>,
    st: StatementView,
) -> Option<(Seq<char>, Seq<char>)> {
    if st.sql == FIND_BY_ID_SQL@ && st.binds.len() == 1 {
        match st.binds[0] {
            BindView::BigInt(id) => if table.dom().contains(id) {
                Some(table[id])
            } else {
                None
            },
            _ => None,
        }
    } else {
        None
    }
}

/// Read after write: a company inserted under a fresh id is then found by that id with
/// the name and address it was given, and no other row changes; an updated company is
/// found with its new name and address; a deleted company is no longer found.
pub proof fn lemma_company_read_after_write(
    table: Map<i64, (Seq<char>, Seq<char>)>,
    name: Seq<char>,
    address: Seq<char>,
    new_id: i64,
    id: i64,
)
    requires
        !table.dom().contains(new_id),
    ensures
        company_found(
            company_table_after(table, create_statement(name, address), new_id),
            find_by_id_statement(new_id),
        ) == Some((name, address)),
        id != new_id ==> company_found(
            company_table_after(table, create_statement(name, address), new_id),
            find_by_id_statement(id),
        ) == company_found(table, find_by_id_statement(id)),
        table.dom().contains(id) ==> company_found(
            company_table_after(table, update_statement(id, name, address), new_id),
            find_by_id_statement(id),
        ) == Some((name, address)),
        company_found(
            company_table_after(table, delete_statement(id), new_id),
            find_by_id_statement(id),
        ) is None,
{
    reveal_strlit("SELECT id, name, address FROM company WHERE id = ?");
    reveal_strlit("INSERT INTO company (name, address) VALUES (?, ?)");
    reveal_strlit("\n            UPDATE company\n            SET\n                name = COALESCE(?, name),\n                address = COALESCE(?, address)\n            WHERE id = ?\n            ");
    reveal_strlit("DELETE FROM company WHERE id = ?");
    assert(CREATE_SQL@[0] != UPDATE_SQL@[0]);
    assert(CREATE_SQL@[0] != DELETE_SQL@[0]);
    assert(UPDATE_SQL@[0] != DELETE_SQL@[0]);
    assert(FIND_BY_ID_SQL@[0] != CREATE_SQL@[0]);
}

/// The statement that reads every company.
pub fn find_all() -> (st: Statement)
    ensures
        st.sql@ == FIND_ALL_SQL@,
        st.binds@.len() == 0,
{
    fixed(FIND_ALL_SQL)
}

/// The statement that reads company `id`.
pub fn find_by_id(id: i64) -> (st: Statement)
    ensures
        st.sql@ == FIND_BY_ID_SQL@,
        binds_view(st.binds@) == seq![BindView::BigInt(id)],
        st@ == find_by_id_statement(id),
{
    let mut binds: Vec<BindValue> = Vec::new();
    binds.push(BindValue::BigInt(id));
    assert(binds_view(binds@) =~= seq![BindView::BigInt(id)]);
    Statement { sql: String::from_str(FIND_BY_ID_SQL), binds }
}

/// The statement that inserts `data` (its id is the database's to give).
pub fn create(data: Company) -> (st: Statement)
    ensures
        st.sql@ == CREATE_SQL@,
        binds_view(st.binds@) == seq![BindView::Text(data.name@), BindView::Text(data.address@)],
        st@ == create_statement(data.name@, data.address@),
{
    let mut binds: Vec<BindValue> = Vec::new();
    binds.push(BindValue::Text(data.name));
    binds.push(BindValue::Text(data.address));
    assert(binds_view(binds@) =~= seq![BindView::Text(data.name@), BindView::Text(data.address@)]);
    Statement { sql: String::from_str(CREATE_SQL), binds }
}

/// The statement that gives company `id` the name and address of `data`.
pub fn update(id: i64, data: Company) -> (st: Statement)
    ensures
        st.sql@ == UPDATE_SQL@,
        binds_view(st.binds@) == seq![
            BindView::Text(data.name@),
            BindView::Text(data.address@),
            BindView::BigInt(id),
        ],
        st@ == update_statement(id, data.name@, data.address@),
{
    let mut binds: Vec<BindValue> = Vec::new();
    binds.push(BindValue::Text(data.name));
    binds.push(BindValue::Text(data.address));
    binds.push(BindValue::BigInt(id));
    assert(binds_view(binds@) =~= seq![
        BindView::Text(data.name@),
        BindView::Text(data.address@),
        BindView::BigInt(id),
    ]);
    Statement { sql: String::from_str(UPDATE_SQL), binds }
}

/// The statement that removes company `id`.
pub fn delete(id: i64) -> (st: Statement)
    ensures
        st.sql@ == DELETE_SQL@,
        binds_view(st.binds@) == seq![BindView::BigInt(id)],
        st@ == delete_statement(id),
{
    let mut binds: Vec<BindValue> = Vec::new();
    binds.push(BindValue::BigInt(id));
    assert(binds_view(binds@) =~= seq![BindView::BigInt(id)]);
    Statement { sql: String::from_str(DELETE_SQL), binds }
}

} // verus!
