//! The SQL that the warrant store sends, and the decisions taken on what comes back.
//!
//! Each function here builds the statements of one store operation; the caller runs
//! them, in the order given, and hands the results back to the deciding functions.
use vstd::prelude::*;
use crate::error::ApiError;
use crate::sql::{
    binds_view, build, fixed, lemma_one_placeholder_per_parameter,
    lemma_texts_without_placeholder_concat, no_placeholder, occurrences, opt_text_view,
    parts_view, texts_without_placeholder, push_bind, push_sql, render, BindValue, BindView, PartView, SqlPart,
    Statement,
};
use crate::text::{chars_of, push_all, trim, trim_chars, replace_spaces, spaces_to_wildcards, string_of, to_uppercase, uppercase};
use crate::warrant::dto::{SaveWarrant, WarrantFilter};
use crate::warrant::model::{converted, Warrant, WarrantRow};

verus! {

/// The pattern that a `LIKE` filter on `value` binds: `%`, the value with each space
/// made a `%`, then `%`.
pub open spec fn like_pattern_of(value: Seq<char>) -> Seq<char> {
    seq!['%'] + spaces_to_wildcards(value) + seq!['%']
}

/// The value a text filter compares: upper-cased where the column is compared upper-cased.
pub open spec fn compared_text(value: Seq<char>, upper: bool) -> Seq<char> {
    if upper {
        uppercase(value)
    } else {
        value
    }
}

/// A `LIKE` condition on `column` for an optional filter value.
pub open spec fn text_clause(column: Seq<char>, value: Option<String>, upper: bool) -> Seq<
    PartView,
> {
    match value {
        Some(v) => seq![
            PartView::Sql(column),
            PartView::Bind(BindView::Text(like_pattern_of(compared_text(v@, upper)))),
        ],
        None => Seq::empty(),
    }
}

/// The parameters of an `IN (...)` list: the ids separated by `, `.
pub open spec fn id_list(ids: Seq<i32>) -> Seq<PartView>
    decreases ids.len(),
{
    if ids.len() == 0 {
        Seq::empty()
    } else if ids.len() == 1 {
        seq![PartView::Bind(BindView::Int(ids[0]))]
    } else {
        id_list(ids.drop_last()) + seq![
            PartView::Sql(", "@),
            PartView::Bind(BindView::Int(ids.last())),
        ]
    }
}

/// The warrant-type condition: present only for a non-empty list of type ids.
pub open spec fn type_clause(ids: Option<Vec<i32>>) -> Seq<PartView> {
    match ids {
        Some(v) => if v@.len() > 0 {
            seq![PartView::Sql(" AND warrant_type_id IN ("@)] + id_list(v@) + seq![
                PartView::Sql(")"@),
            ]
        } else {
            Seq::empty()
        },
        None => Seq::empty(),
    }
}

/// A condition on the due date for an optional date.
pub open spec fn date_clause(column: Seq<char>, day: Option<i32>) -> Seq<PartView> {
    match day {
        Some(d) => seq![PartView::Sql(column), PartView::Bind(BindView::Date(d))],
        None => Seq::empty(),
    }
}

/// Which due window a listing asks for.
pub enum DueWindow {
    /// Falling due in one to five days.
    Soon,
    /// Already due.
    Overdue,
    /// No condition on the due date.
    Any,
}

/// `danger`, or `faltan` equal to 1, asks for warrants falling due soon; otherwise a
/// negative `faltan` asks for those already due.
pub open spec fn due_window(danger: Option<bool>, faltan: Option<i32>) -> DueWindow {
    let danger = match danger {
        Some(d) => d,
        None => false,
    };
    let faltan = match faltan {
        Some(x) => x,
        None => 0,
    };
    if danger || faltan == 1 {
        DueWindow::Soon
    } else if faltan < 0 {
        DueWindow::Overdue
    } else {
        DueWindow::Any
    }
}

pub open spec fn due_clause(danger: Option<bool>, faltan: Option<i32>) -> Seq<PartView> {
    match due_window(danger, faltan) {
        DueWindow::Soon => seq![
            PartView::Sql(" AND DATEDIFF(fecha_vencimiento, CURDATE()) BETWEEN 1 AND 5 "@),
        ],
        DueWindow::Overdue => seq![
            PartView::Sql(" AND DATEDIFF(fecha_vencimiento, CURDATE()) <= 0 "@),
        ],
        DueWindow::Any => Seq::empty(),
    }
}

/// The `WHERE` part that a listing filter makes: live warrants only, then one condition
/// per filter that is given, in a fixed order.
pub open spec fn filter_parts(f: WarrantFilter) -> Seq<PartView> {
    seq![PartView::Sql(" WHERE canceled = 0 "@)] + text_clause(
        " AND LPAD(expediente, 3, '0') LIKE "@,
        f.expediente,
        false,
    ) + text_clause(" AND UPPER(entidad) LIKE "@, f.entidad, true) + text_clause(
        " AND UPPER(obra) LIKE "@,
        f.obra,
        true,
    ) + text_clause(" AND UPPER(nro_carta) LIKE "@, f.code, true) + text_clause(
        " AND UPPER(proveedor) LIKE "@,
        f.provider,
        true,
    ) + type_clause(f.warrant_type) + date_clause(
        " AND DATE(fecha_vencimiento) >= "@,
        f.fecha_ini,
    ) + date_clause(" AND DATE(fecha_vencimiento) <= "@, f.fecha_fin) + due_clause(
        f.danger,
        f.faltan,
    )
}

/// The pattern bound for a `LIKE` filter on `value`.
pub fn like_pattern(value: &str, upper: bool) -> (p: String)
    ensures
        p@ == like_pattern_of(compared_text(value@, upper)),
{
    let compared = if upper {
        to_uppercase(value)
    } else {
        String::from_str(value)
    };
    let cs = chars_of(compared.as_str());
    let replaced = replace_spaces(&cs);
    let mut out: Vec<char> = Vec::new();
    out.push('%');
    push_all(&mut out, &replaced);
    out.push('%');
    assert(out@ =~= like_pattern_of(compared_text(value@, upper)));
    string_of(&out)
}

fn push_text_clause(parts: &mut Vec<SqlPart>, column: &str, value: &Option<String>, upper: bool)
    ensures
        parts_view(final(parts)@) == parts_view(old(parts)@) + text_clause(column@, *value, upper),
{
    match value {
        Some(v) => {
            push_sql(parts, column);
            push_bind(parts, BindValue::Text(like_pattern(v.as_str(), upper)));
        },
        None => {},
    }
    assert(parts_view(parts@) =~= parts_view(old(parts)@) + text_clause(column@, *value, upper));
}

fn push_type_clause(parts: &mut Vec<SqlPart>, ids: &Option<Vec<i32>>)
    ensures
        parts_view(final(parts)@) == parts_view(old(parts)@) + type_clause(*ids),
{
    match ids {
        Some(v) => {
            if v.len() > 0 {
                push_sql(parts, " AND warrant_type_id IN (");
                let ghost head = parts_view(parts@);
                let mut i: usize = 0;
                while i < v.len()
                    invariant
                        i <= v@.len(),
                        parts_view(parts@) == head + id_list(v@.take(i as int)),
                    decreases v@.len() - i,
                {
                    assert(v@.take(i + 1).drop_last() =~= v@.take(i as int));
                    if i > 0 {
                        push_sql(parts, ", ");
                    }
                    push_bind(parts, BindValue::Int(v[i]));
                    proof {
                        if i == 0 {
                            assert(id_list(v@.take(1)) == seq![
                                PartView::Bind(BindView::Int(v@[0])),
                            ]);
                        }
                        assert(parts_view(parts@) =~= head + id_list(v@.take(i + 1)));
                    }
                    i = i + 1;
                }
                assert(v@.take(v@.len() as int) =~= v@);
                push_sql(parts, ")");
            }
        },
        None => {},
    }
    assert(parts_view(parts@) =~= parts_view(old(parts)@) + type_clause(*ids));
}

fn push_date_clause(parts: &mut Vec<SqlPart>, column: &str, day: Option<i32>)
    ensures
        parts_view(final(parts)@) == parts_view(old(parts)@) + date_clause(column@, day),
{
    match day {
        Some(d) => {
            push_sql(parts, column);
            push_bind(parts, BindValue::Date(d));
        },
        None => {},
    }
    assert(parts_view(parts@) =~= parts_view(old(parts)@) + date_clause(column@, day));
}

/// The due window that a listing asks for.
pub fn due_window_of(danger: Option<bool>, faltan: Option<i32>) -> (w: DueWindow)
    ensures
        w == due_window(danger, faltan),
{
    let danger = match danger {
        Some(d) => d,
        None => false,
    };
    let faltan = match faltan {
        Some(x) => x,
        None => 0,
    };
    if danger || faltan == 1 {
        DueWindow::Soon
    } else if faltan < 0 {
        DueWindow::Overdue
    } else {
        DueWindow::Any
    }
}

/// The text conditions of a filter.
pub open spec fn text_clauses(f: WarrantFilter) -> Seq<PartView> {
    text_clause(" AND LPAD(expediente, 3, '0') LIKE "@, f.expediente, false) + text_clause(
        " AND UPPER(entidad) LIKE "@,
        f.entidad,
        true,
    ) + text_clause(" AND UPPER(obra) LIKE "@, f.obra, true) + text_clause(
        " AND UPPER(nro_carta) LIKE "@,
        f.code,
        true,
    ) + text_clause(" AND UPPER(proveedor) LIKE "@, f.provider, true)
}

/// The type, date and due-window conditions of a filter.
pub open spec fn other_clauses(f: WarrantFilter) -> Seq<PartView> {
    type_clause(f.warrant_type) + date_clause(" AND DATE(fecha_vencimiento) >= "@, f.fecha_ini)
        + date_clause(" AND DATE(fecha_vencimiento) <= "@, f.fecha_fin) + due_clause(
        f.danger,
        f.faltan,
    )
}

proof fn lemma_filter_parts_split(f: WarrantFilter)
    ensures
        filter_parts(f) =~= seq![PartView::Sql(" WHERE canceled = 0 "@)] + text_clauses(f)
            + other_clauses(f),
{
}

fn push_text_clauses(parts: &mut Vec<SqlPart>, f: &WarrantFilter)
    ensures
        parts_view(final(parts)@) == parts_view(old(parts)@) + text_clauses(*f),
{
    let ghost o = parts_view(parts@);
    push_text_clause(parts, " AND LPAD(expediente, 3, '0') LIKE ", &f.expediente, false);
    let ghost a = text_clause(" AND LPAD(expediente, 3, '0') LIKE "@, f.expediente, false);
    push_text_clause(parts, " AND UPPER(entidad) LIKE ", &f.entidad, true);
    let ghost b = text_clause(" AND UPPER(entidad) LIKE "@, f.entidad, true);
    assert(parts_view(parts@) =~= o + (a + b));
    push_text_clause(parts, " AND UPPER(obra) LIKE ", &f.obra, true);
    let ghost c = text_clause(" AND UPPER(obra) LIKE "@, f.obra, true);
    assert(parts_view(parts@) =~= o + (a + b + c));
    push_text_clause(parts, " AND UPPER(nro_carta) LIKE ", &f.code, true);
    let ghost d = text_clause(" AND UPPER(nro_carta) LIKE "@, f.code, true);
    assert(parts_view(parts@) =~= o + (a + b + c + d));
    push_text_clause(parts, " AND UPPER(proveedor) LIKE ", &f.provider, true);
    let ghost e = text_clause(" AND UPPER(proveedor) LIKE "@, f.provider, true);
    assert(parts_view(parts@) =~= o + (a + b + c + d + e));
}

fn push_other_clauses(parts: &mut Vec<SqlPart>, f: &WarrantFilter)
    ensures
        parts_view(final(parts)@) == parts_view(old(parts)@) + other_clauses(*f),
{
    let ghost o = parts_view(parts@);
    push_type_clause(parts, &f.warrant_type);
    let ghost a = type_clause(f.warrant_type);
    push_date_clause(parts, " AND DATE(fecha_vencimiento) >= ", f.fecha_ini);
    let ghost b = date_clause(" AND DATE(fecha_vencimiento) >= "@, f.fecha_ini);
    assert(parts_view(parts@) =~= o + (a + b));
    push_date_clause(parts, " AND DATE(fecha_vencimiento) <= ", f.fecha_fin);
    let ghost c = date_clause(" AND DATE(fecha_vencimiento) <= "@, f.fecha_fin);
    assert(parts_view(parts@) =~= o + (a + b + c));
    let ghost before_due = parts_view(parts@);
    match due_window_of(f.danger, f.faltan) {
        DueWindow::Soon => {
            push_sql(parts, " AND DATEDIFF(fecha_vencimiento, CURDATE()) BETWEEN 1 AND 5 ");
        },
        DueWindow::Overdue => {
            push_sql(parts, " AND DATEDIFF(fecha_vencimiento, CURDATE()) <= 0 ");
        },
        DueWindow::Any => {},
    }
    let ghost d = due_clause(f.danger, f.faltan);
    assert(parts_view(parts@) =~= before_due + d);
    assert(parts_view(parts@) =~= o + (a + b + c + d));
}

/// Appends to `parts` the `WHERE` part that the filter `f` makes.
pub fn apply_filters(parts: &mut Vec<SqlPart>, f: &WarrantFilter)
    ensures
        parts_view(final(parts)@) == parts_view(old(parts)@) + filter_parts(*f),
{
    let ghost o = parts_view(parts@);
    push_sql(parts, " WHERE canceled = 0 ");
    push_text_clauses(parts, f);
    push_other_clauses(parts, f);
    proof {
        lemma_filter_parts_split(*f);
        assert(parts_view(parts@) =~= o + (seq![PartView::Sql(" WHERE canceled = 0 "@)]
            + text_clauses(*f) + other_clauses(*f)));
    }
}

} // verus!

verus! {

/// The head of a listing page: the columns of a warrant and its days to the due date.
pub const LIST_SELECT_SQL: &'static str = "SELECT id, expediente, numero, nro_carta, obra, proveedor, entidad, warrant_type_id, process_type, fecha_registro, fecha_vencimiento, fecha_renovacion, canceled, renovated, DATEDIFF(fecha_vencimiento, CURDATE()) AS diff FROM warrant";

/// The head of a range listing: the columns of a warrant joined with its type.
pub const RANGE_SELECT_SQL: &'static str = "\n        SELECT\n            w.id,\n            w.provider_id,\n            w.process_type,\n            w.extension,\n            w.proveedor,\n            w.expediente,\n            w.entidad,\n            w.numero,\n            w.obra,\n            w.warrant_type_id,\n            w.total,\n            w.fecha_renovacion,\n            w.nro_carta,\n            w.fecha_emision,\n            w.fecha_vencimiento,\n            w.fecha_registro,\n            w.observacion,\n            w.confirmacion_banco,\n            w.renovated,\n            w.status,\n            w.canceled,\n            w.upload,\n\n            DATEDIFF(\n                w.fecha_vencimiento,\n                CURDATE()\n            ) AS diff,\n\n            wt.id AS wt_id,\n            wt.name AS wt_name\n\n        FROM warrant w\n\n        LEFT JOIN warrant_type wt\n            ON wt.id = w.warrant_type_id\n        ";

/// One warrant by id.
pub const FIND_SQL: &'static str = "\n        SELECT\n            id,\n            provider_id,\n            process_type,\n            extension,\n            proveedor,\n            expediente,\n            entidad,\n            numero,\n            obra,\n            warrant_type_id,\n            total,\n            fecha_renovacion,\n            nro_carta,\n            fecha_emision,\n            fecha_vencimiento,\n            fecha_registro,\n            observacion,\n            confirmacion_banco,\n            renovated,\n            status,\n            canceled,\n            upload,\n            DATEDIFF(fecha_vencimiento, CURDATE()) AS diff\n        FROM warrant\n        WHERE id = ?\n        ";

/// The next number within a file (`expediente`), locking the rows read.
pub const NEXT_NUMERO_SQL: &'static str = "\n        SELECT COALESCE(MAX(numero), 0) + 1\n        FROM warrant\n        WHERE expediente = ?\n        FOR UPDATE\n        ";

/// A new warrant, registered now, neither canceled nor renovated.
pub const INSERT_SQL: &'static str = "\n        INSERT INTO warrant (\n            expediente,\n            numero,\n            nro_carta,\n            obra,\n            proveedor,\n            entidad,\n            warrant_type_id,\n            process_type,\n            fecha_registro,\n            fecha_vencimiento,\n            fecha_renovacion,\n            canceled,\n            renovated\n        )\n        VALUES (?, ?, ?, ?, ?, ?, ?, ?, NOW(), ?, ?, 0, 0)\n        ";

/// Marks as renovated the live warrants of the same file and type that fall due before a date.
pub const RENOVATE_SQL: &'static str = "\n            UPDATE warrant\n            SET renovated = 1\n            WHERE expediente = ?\n              AND warrant_type_id = ?\n              AND fecha_vencimiento < ?\n              AND DATEDIFF(fecha_vencimiento, CURDATE()) > 0\n            ";

/// Replaces the editable fields of a warrant.
pub const UPDATE_SQL: &'static str = "\n        UPDATE warrant\n        SET expediente = ?,\n            nro_carta = ?,\n            obra = ?,\n            proveedor = ?,\n            entidad = ?,\n            warrant_type_id = ?,\n            process_type = ?,\n            fecha_vencimiento = ?,\n            fecha_renovacion = ?\n        WHERE id = ?\n        ";

/// Sets the process type of every warrant of a file and work (`obra`, null-safe).
pub const PROPAGATE_SQL: &'static str = "\n                UPDATE warrant\n                SET process_type = ?\n                WHERE expediente = ?\n                  AND obra <=> ?\n                ";

/// Cancels a warrant; warrants are never removed.
pub const DELETE_SQL: &'static str = "UPDATE warrant SET canceled = 1 WHERE id = ?";

/// The highest file number in use.
pub const MAX_EXPEDIENTE_SQL: &'static str = "SELECT MAX(expediente) FROM warrant";

/// The number of live warrants that fall due in one to five days.
pub const NOTIFICATION_COUNT_SQL: &'static str = "SELECT COUNT(*) FROM warrant WHERE canceled = 0 AND DATEDIFF(fecha_vencimiento, CURDATE()) BETWEEN 1 AND 5";

/// The largest page a listing returns.
pub const MAX_PAGE_SIZE: u32 = 500;

/// The page size when none is asked for.
pub const DEFAULT_PAGE_SIZE: u32 = 50;

/// The page size of a listing: the one asked for (50 when none), at most 500.
pub open spec fn page_size(f: WarrantFilter) -> u32 {
    let asked = match f.size {
        Some(s) => s,
        None => DEFAULT_PAGE_SIZE,
    };
    if asked < MAX_PAGE_SIZE {
        asked
    } else {
        MAX_PAGE_SIZE
    }
}

/// The page number of a listing: the one asked for, 0 when none.
pub open spec fn page_number(f: WarrantFilter) -> u32 {
    match f.page {
        Some(p) => p,
        None => 0,
    }
}

/// A listing is ordered by file number first when its `order` is `"e"`.
pub open spec fn orders_by_expediente(f: WarrantFilter) -> bool {
    f.order matches Some(o) && o@ == seq!['e']
}

/// The pieces of a listing page: the head, the filter, the order, then the page window.
pub open spec fn list_page_parts(f: WarrantFilter) -> Seq<PartView> {
    seq![PartView::Sql(LIST_SELECT_SQL@)] + filter_parts(f) + seq![
        PartView::Sql(
            if orders_by_expediente(f) {
                " ORDER BY expediente DESC, fecha_vencimiento DESC "@
            } else {
                " ORDER BY fecha_vencimiento DESC "@
            },
        ),
        PartView::Sql(" LIMIT "@),
        PartView::Bind(BindView::UInt(page_size(f))),
        PartView::Sql(" OFFSET "@),
        PartView::Bind(BindView::UInt((page_number(f) * page_size(f)) as u32)),
    ]
}

/// The pieces of the count that goes with a listing: the same filter.
pub open spec fn list_count_parts(f: WarrantFilter) -> Seq<PartView> {
    seq![PartView::Sql("SELECT COUNT(*) FROM warrant"@)] + filter_parts(f)
}

/// The pieces of a range listing: rows `from` on, at most `to` of them.
pub open spec fn range_page_parts(f: WarrantFilter, from: u64, to: u64) -> Seq<PartView> {
    seq![PartView::Sql(RANGE_SELECT_SQL@)] + filter_parts(f) + seq![
        PartView::Sql(
            if orders_by_expediente(f) {
                " ORDER BY w.expediente DESC, w.fecha_vencimiento DESC "@
            } else {
                " ORDER BY w.fecha_vencimiento DESC "@
            },
        ),
        PartView::Sql(" LIMIT "@),
        PartView::Bind(BindView::BigUInt(to)),
        PartView::Sql(" OFFSET "@),
        PartView::Bind(BindView::BigUInt(from)),
    ]
}

/// The pieces of the count that goes with a range listing: the same filter.
pub open spec fn range_count_parts(f: WarrantFilter) -> Seq<PartView> {
    seq![PartView::Sql("SELECT COUNT(*) FROM warrant w"@)] + filter_parts(f)
}

/// The statements of a listing: one page of warrants, and the count of all that match.
#[derive(Debug, Clone)]
pub struct ListStatements {
    pub page: Statement,
    pub count: Statement,
}

/// Whether `order` is `"e"`.
pub fn is_expediente_order(order: &Option<String>) -> (b: bool)
    ensures
        b == (*order matches Some(o) && o@ == seq!['e']),
{
    match order {
        Some(o) => {
            let cs = chars_of(o.as_str());
            let b = cs.len() == 1 && cs[0] == 'e';
            assert(b ==> cs@ =~= seq!['e']);
            b
        },
        None => false,
    }
}

/// The page size of a listing.
pub fn page_size_of(f: &WarrantFilter) -> (s: u32)
    ensures
        s == page_size(*f),
{
    let asked = match f.size {
        Some(s) => s,
        None => DEFAULT_PAGE_SIZE,
    };
    if asked < MAX_PAGE_SIZE {
        asked
    } else {
        MAX_PAGE_SIZE
    }
}

/// Whether the first row of the page asked for is a `u32`, as the page offset must be.
pub fn page_offset_fits(f: &WarrantFilter) -> (b: bool)
    ensures
        b == (page_number(*f) * page_size(*f) <= u32::MAX),
{
    let page: u32 = match f.page {
        Some(p) => p,
        None => 0,
    };
    let size = page_size_of(f);
    assert((page as u64) * (size as u64) <= 0xffff_ffffu64 * 0xffff_ffffu64) by (nonlinear_arith)
        requires
            page <= 0xffff_ffffu32,
            size <= 0xffff_ffffu32,
    ;
    (page as u64) * (size as u64) <= u32::MAX as u64
}

/// The statements of a warrant listing for the filter `f`.
pub fn list(f: &WarrantFilter) -> (q: ListStatements)
    requires
        page_number(*f) * page_size(*f) <= u32::MAX,
    ensures
        q.page@ == render(list_page_parts(*f)),
        q.count@ == render(list_count_parts(*f)),
{
    let mut parts: Vec<SqlPart> = Vec::new();
    push_sql(&mut parts, LIST_SELECT_SQL);
    apply_filters(&mut parts, f);
    if is_expediente_order(&f.order) {
        push_sql(&mut parts, " ORDER BY expediente DESC, fecha_vencimiento DESC ");
    } else {
        push_sql(&mut parts, " ORDER BY fecha_vencimiento DESC ");
    }
    let size = page_size_of(f);
    let page: u32 = match f.page {
        Some(p) => p,
        None => 0,
    };
    push_sql(&mut parts, " LIMIT ");
    push_bind(&mut parts, BindValue::UInt(size));
    push_sql(&mut parts, " OFFSET ");
    push_bind(&mut parts, BindValue::UInt(page * size));
    assert(parts_view(parts@) =~= list_page_parts(*f));
    let page_statement = build(parts);
    let mut count_parts: Vec<SqlPart> = Vec::new();
    push_sql(&mut count_parts, "SELECT COUNT(*) FROM warrant");
    apply_filters(&mut count_parts, f);
    assert(parts_view(count_parts@) =~= list_count_parts(*f));
    ListStatements { page: page_statement, count: build(count_parts) }
}

/// The statements of a range listing for the filter `f`: rows `from` on, at most `to`.
pub fn list_range(f: &WarrantFilter, from: u64, to: u64) -> (q: ListStatements)
    ensures
        q.page@ == render(range_page_parts(*f, from, to)),
        q.count@ == render(range_count_parts(*f)),
{
    let mut parts: Vec<SqlPart> = Vec::new();
    push_sql(&mut parts, RANGE_SELECT_SQL);
    apply_filters(&mut parts, f);
    if is_expediente_order(&f.order) {
        push_sql(&mut parts, " ORDER BY w.expediente DESC, w.fecha_vencimiento DESC ");
    } else {
        push_sql(&mut parts, " ORDER BY w.fecha_vencimiento DESC ");
    }
    push_sql(&mut parts, " LIMIT ");
    push_bind(&mut parts, BindValue::BigUInt(to));
    push_sql(&mut parts, " OFFSET ");
    push_bind(&mut parts, BindValue::BigUInt(from));
    assert(parts_view(parts@) =~= range_page_parts(*f, from, to));
    let page_statement = build(parts);
    let mut count_parts: Vec<SqlPart> = Vec::new();
    push_sql(&mut count_parts, "SELECT COUNT(*) FROM warrant w");
    apply_filters(&mut count_parts, f);
    assert(parts_view(count_parts@) =~= range_count_parts(*f));
    ListStatements { page: page_statement, count: build(count_parts) }
}

/// A copy of an optional text.
pub fn copy_text(o: &Option<String>) -> (c: Option<String>)
    ensures
        opt_text_view(c) == opt_text_view(*o),
{
    match o {
        Some(s) => Some(s.clone()),
        None => None,
    }
}

/// The statement that reads one warrant by id.
pub fn find_by_id(id: i64) -> (st: Statement)
    ensures
        st.sql@ == FIND_SQL@,
        binds_view(st.binds@) == seq![BindView::BigInt(id)],
{
    let mut binds: Vec<BindValue> = Vec::new();
    binds.push(BindValue::BigInt(id));
    assert(binds_view(binds@) =~= seq![BindView::BigInt(id)]);
    Statement { sql: String::from_str(FIND_SQL), binds }
}

/// The warrant read, or `NotFound` when there is none.
pub fn found(item: Option<Warrant>) -> (r: Result<Warrant, ApiError>)
    ensures
        item matches Some(w) ==> r == Ok::<Warrant, ApiError>(w),
        item is None ==> r matches Err(ApiError::NotFound),
{
    match item {
        Some(w) => Ok(w),
        None => Err(ApiError::NotFound),
    }
}

/// The file number that a new warrant is numbered within: its own, 0 when it has none.
pub open spec fn numbering_file(input: SaveWarrant) -> i32 {
    match input.expediente {
        Some(e) => e,
        None => 0,
    }
}

/// The statement that reads the number of a new warrant within its file.
pub fn next_numero(input: &SaveWarrant) -> (st: Statement)
    ensures
        st.sql@ == NEXT_NUMERO_SQL@,
        binds_view(st.binds@) == seq![BindView::Int(numbering_file(*input))],
{
    let expediente: i32 = match input.expediente {
        Some(e) => e,
        None => 0,
    };
    let mut binds: Vec<BindValue> = Vec::new();
    binds.push(BindValue::Int(expediente));
    assert(binds_view(binds@) =~= seq![BindView::Int(numbering_file(*input))]);
    Statement { sql: String::from_str(NEXT_NUMERO_SQL), binds }
}

/// The parameters of the insertion of `input` with number `numero`.
pub open spec fn insert_binds(input: SaveWarrant, numero: i32) -> Seq<BindView> {
    seq![
        BindView::OptInt(input.expediente),
        BindView::Int(numero),
        BindView::OptText(opt_text_view(input.nro_carta)),
        BindView::OptText(opt_text_view(input.obra)),
        BindView::OptText(opt_text_view(input.proveedor)),
        BindView::OptText(opt_text_view(input.entidad)),
        BindView::OptInt(input.warrant_type_id),
        BindView::OptText(opt_text_view(input.process_type)),
        BindView::OptDate(input.fecha_vencimiento),
        BindView::OptDate(input.fecha_renovacion),
    ]
}

/// The statement that inserts `input` as a new warrant numbered `numero`.
pub fn insert(input: &SaveWarrant, numero: i32) -> (st: Statement)
    ensures
        st.sql@ == INSERT_SQL@,
        binds_view(st.binds@) == insert_binds(*input, numero),
{
    let mut binds: Vec<BindValue> = Vec::new();
    binds.push(BindValue::OptInt(input.expediente));
    binds.push(BindValue::Int(numero));
    binds.push(BindValue::OptText(copy_text(&input.nro_carta)));
    binds.push(BindValue::OptText(copy_text(&input.obra)));
    binds.push(BindValue::OptText(copy_text(&input.proveedor)));
    binds.push(BindValue::OptText(copy_text(&input.entidad)));
    binds.push(BindValue::OptInt(input.warrant_type_id));
    binds.push(BindValue::OptText(copy_text(&input.process_type)));
    binds.push(BindValue::OptDate(input.fecha_vencimiento));
    binds.push(BindValue::OptDate(input.fecha_renovacion));
    assert(binds_view(binds@) =~= insert_binds(*input, numero));
    Statement { sql: String::from_str(INSERT_SQL), binds }
}

/// The parameters of the renovation that the creation of `input` runs: its file, its
/// type and its due date (earlier warrants of that file and type, due before that date
/// and not yet due, are marked renovated).
pub open spec fn renovation_binds(input: SaveWarrant) -> Seq<BindView> {
    seq![
        BindView::OptInt(input.expediente),
        BindView::Int(input.warrant_type_id->0),
        BindView::Date(input.fecha_vencimiento->0),
    ]
}

/// The parameters of the propagation that the creation of `input` runs: its process
/// type, then its file and its work, which pick the warrants that get it.
pub open spec fn propagation_binds(input: SaveWarrant) -> Seq<BindView> {
    seq![
        BindView::Text(input.process_type->0@),
        BindView::OptInt(input.expediente),
        BindView::OptText(opt_text_view(input.obra)),
    ]
}

/// The statement that marks earlier warrants of the same file and type as renovated:
/// there is one exactly when the new warrant has both a type and a due date.
pub fn renovation(input: &SaveWarrant) -> (st: Option<Statement>)
    ensures
        st is Some <==> (input.warrant_type_id is Some && input.fecha_vencimiento is Some),
        st matches Some(s) ==> s.sql@ == RENOVATE_SQL@ && binds_view(s.binds@)
            == renovation_binds(*input),
{
    match (input.warrant_type_id, input.fecha_vencimiento) {
        (Some(warrant_type_id), Some(fecha_vencimiento)) => {
            let mut binds: Vec<BindValue> = Vec::new();
            binds.push(BindValue::OptInt(input.expediente));
            binds.push(BindValue::Int(warrant_type_id));
            binds.push(BindValue::Date(fecha_vencimiento));
            assert(binds_view(binds@) =~= seq![
                BindView::OptInt(input.expediente),
                BindView::Int(warrant_type_id),
                BindView::Date(fecha_vencimiento),
            ]);
            Some(Statement { sql: String::from_str(RENOVATE_SQL), binds })
        },
        _ => None,
    }
}

/// Whether a text is white space only (or empty).
pub fn is_blank(s: &str) -> (b: bool)
    ensures
        b == (trim(s@).len() == 0),
{
    let cs = chars_of(s);
    let t = trim_chars(&cs);
    t.len() == 0
}

/// The statement that gives the process type of `input` to every warrant of its file and
/// work: there is one exactly when the process type is given and not blank.
pub fn propagate_process_type(input: &SaveWarrant) -> (st: Option<Statement>)
    ensures
        st is Some <==> (input.process_type matches Some(p) && trim(p@).len() > 0),
        st matches Some(s) ==> s.sql@ == PROPAGATE_SQL@ && binds_view(s.binds@)
            == propagation_binds(*input),
{
    match &input.process_type {
        Some(process_type) => {
            if is_blank(process_type.as_str()) {
                None
            } else {
                let mut binds: Vec<BindValue> = Vec::new();
                binds.push(BindValue::Text(process_type.clone()));
                binds.push(BindValue::OptInt(input.expediente));
                binds.push(BindValue::OptText(copy_text(&input.obra)));
                assert(binds_view(binds@) =~= seq![
                    BindView::Text(process_type@),
                    BindView::OptInt(input.expediente),
                    BindView::OptText(opt_text_view(input.obra)),
                ]);
                Some(Statement { sql: String::from_str(PROPAGATE_SQL), binds })
            }
        },
        None => None,
    }
}

/// The writes of a warrant creation, after its number has been read, in the order they
/// run: the insertion, then the renovation of earlier warrants, then the propagation of
/// the process type, each of the last two only when there is one.
pub open spec fn creation_writes(input: SaveWarrant, numero: i32, writes: Seq<Statement>) -> bool {
    let renovates = input.warrant_type_id is Some && input.fecha_vencimiento is Some;
    let propagates = input.process_type matches Some(p) && trim(p@).len() > 0;
    &&& writes.len() == 1 + (if renovates { 1int } else { 0 }) + (if propagates { 1int } else { 0 })
    &&& writes[0]@.sql == INSERT_SQL@
    &&& binds_view(writes[0].binds@) == insert_binds(input, numero)
    &&& renovates ==> writes[1]@.sql == RENOVATE_SQL@ && binds_view(writes[1].binds@)
        == renovation_binds(input)
    &&& propagates ==> writes[writes.len() - 1]@.sql == PROPAGATE_SQL@ && binds_view(
        writes[writes.len() - 1].binds@,
    ) == propagation_binds(input)
}

/// The writes of the creation of `input` numbered `numero`, in order.
pub fn create(input: &SaveWarrant, numero: i32) -> (writes: Vec<Statement>)
    ensures
        creation_writes(*input, numero, writes@),
{
    let mut writes: Vec<Statement> = Vec::new();
    writes.push(insert(input, numero));
    match renovation(input) {
        Some(st) => writes.push(st),
        None => {},
    }
    match propagate_process_type(input) {
        Some(st) => writes.push(st),
        None => {},
    }
    writes
}

/// The parameters of the update of warrant `id` with `input`.
pub open spec fn update_binds(id: i64, input: SaveWarrant) -> Seq<BindView> {
    seq![
        BindView::OptInt(input.expediente),
        BindView::OptText(opt_text_view(input.nro_carta)),
        BindView::OptText(opt_text_view(input.obra)),
        BindView::OptText(opt_text_view(input.proveedor)),
        BindView::OptText(opt_text_view(input.entidad)),
        BindView::OptInt(input.warrant_type_id),
        BindView::OptText(opt_text_view(input.process_type)),
        BindView::OptDate(input.fecha_vencimiento),
        BindView::OptDate(input.fecha_renovacion),
        BindView::BigInt(id),
    ]
}

/// The statement that updates warrant `id` with `input`.
pub fn update(id: i64, input: &SaveWarrant) -> (st: Statement)
    ensures
        st.sql@ == UPDATE_SQL@,
        binds_view(st.binds@) == update_binds(id, *input),
{
    let mut binds: Vec<BindValue> = Vec::new();
    binds.push(BindValue::OptInt(input.expediente));
    binds.push(BindValue::OptText(copy_text(&input.nro_carta)));
    binds.push(BindValue::OptText(copy_text(&input.obra)));
    binds.push(BindValue::OptText(copy_text(&input.proveedor)));
    binds.push(BindValue::OptText(copy_text(&input.entidad)));
    binds.push(BindValue::OptInt(input.warrant_type_id));
    binds.push(BindValue::OptText(copy_text(&input.process_type)));
    binds.push(BindValue::OptDate(input.fecha_vencimiento));
    binds.push(BindValue::OptDate(input.fecha_renovacion));
    binds.push(BindValue::BigInt(id));
    assert(binds_view(binds@) =~= update_binds(id, *input));
    Statement { sql: String::from_str(UPDATE_SQL), binds }
}

/// A write that touched no row addressed a warrant that does not exist.
pub fn require_affected(rows_affected: u64) -> (r: Result<(), ApiError>)
    ensures
        r is Ok <==> rows_affected > 0,
        r is Err ==> r matches Err(ApiError::NotFound),
{
    if rows_affected == 0 {
        Err(ApiError::NotFound)
    } else {
        Ok(())
    }
}

/// The statement that cancels warrant `id`.
pub fn delete(id: i64) -> (st: Statement)
    ensures
        st.sql@ == DELETE_SQL@,
        binds_view(st.binds@) == seq![BindView::BigInt(id)],
{
    let mut binds: Vec<BindValue> = Vec::new();
    binds.push(BindValue::BigInt(id));
    assert(binds_view(binds@) =~= seq![BindView::BigInt(id)]);
    Statement { sql: String::from_str(DELETE_SQL), binds }
}

/// The statement that reads the highest file number.
pub fn max_expediente() -> (st: Statement)
    ensures
        st.sql@ == MAX_EXPEDIENTE_SQL@,
        st.binds@.len() == 0,
{
    fixed(MAX_EXPEDIENTE_SQL)
}

/// The highest file number, 0 when there is no warrant.
pub fn max_or_zero(value: Option<i32>) -> (m: i32)
    ensures
        value matches Some(v) ==> m == v,
        value is None ==> m == 0,
{
    match value {
        Some(v) => v,
        None => 0,
    }
}

/// The statement that counts the warrants about to fall due.
pub fn notification_count() -> (st: Statement)
    ensures
        st.sql@ == NOTIFICATION_COUNT_SQL@,
        st.binds@.len() == 0,
{
    fixed(NOTIFICATION_COUNT_SQL)
}

/// The warrants of joined rows, in order.
pub fn warrants_from_rows(rows: Vec<WarrantRow>) -> (ws: Vec<Warrant>)
    ensures
        ws@.len() == rows@.len(),
        forall|i: int| 0 <= i < rows@.len() ==> converted(#[trigger] ws@[i], rows@[i]),
{
    let ghost all = rows@;
    let mut ws: Vec<Warrant> = Vec::new();
    for row in it: rows
        invariant
            it.seq() == all,
            ws@.len() == it.index(),
            forall|i: int| 0 <= i < it.index() ==> converted(#[trigger] ws@[i], all[i]),
    {
        ws.push(Warrant::from(row));
    }
    ws
}

proof fn lemma_id_list_free(ids: Seq<i32>)
    ensures
        texts_without_placeholder(id_list(ids)),
    decreases ids.len(),
{
    reveal_strlit(", ");
    if ids.len() > 1 {
        lemma_id_list_free(ids.drop_last());
        lemma_texts_without_placeholder_concat(
            id_list(ids.drop_last()),
            seq![PartView::Sql(", "@), PartView::Bind(BindView::Int(ids.last()))],
        );
    }
}

/// A column of the warrant table that a write sets or selects by.
pub enum WarrantColumn {
    Expediente,
    NroCarta,
    Obra,
    Proveedor,
    Entidad,
    WarrantTypeId,
    ProcessType,
    FechaVencimiento,
    FechaRenovacion,
    Id,
}

/// The name of a column in the warrant table.
pub open spec fn column_name(c: WarrantColumn) -> Seq<char> {
    match c {
        WarrantColumn::Expediente => "expediente"@,
        WarrantColumn::NroCarta => "nro_carta"@,
        WarrantColumn::Obra => "obra"@,
        WarrantColumn::Proveedor => "proveedor"@,
        WarrantColumn::Entidad => "entidad"@,
        WarrantColumn::WarrantTypeId => "warrant_type_id"@,
        WarrantColumn::ProcessType => "process_type"@,
        WarrantColumn::FechaVencimiento => "fecha_vencimiento"@,
        WarrantColumn::FechaRenovacion => "fecha_renovacion"@,
        WarrantColumn::Id => "id"@,
    }
}

/// The value that saving `input` as warrant `id` gives a column: the input's field of
/// that name, and the id for `id`.
pub open spec fn saved_value(id: i64, input: SaveWarrant, c: WarrantColumn) -> BindView {
    match c {
        WarrantColumn::Expediente => BindView::OptInt(input.expediente),
        WarrantColumn::NroCarta => BindView::OptText(opt_text_view(input.nro_carta)),
        WarrantColumn::Obra => BindView::OptText(opt_text_view(input.obra)),
        WarrantColumn::Proveedor => BindView::OptText(opt_text_view(input.proveedor)),
        WarrantColumn::Entidad => BindView::OptText(opt_text_view(input.entidad)),
        WarrantColumn::WarrantTypeId => BindView::OptInt(input.warrant_type_id),
        WarrantColumn::ProcessType => BindView::OptText(opt_text_view(input.process_type)),
        WarrantColumn::FechaVencimiento => BindView::OptDate(input.fecha_vencimiento),
        WarrantColumn::FechaRenovacion => BindView::OptDate(input.fecha_renovacion),
        WarrantColumn::Id => BindView::BigInt(id),
    }
}

/// An update writes every field where it belongs: `UPDATE_SQL` sets, in this order, the
/// file, letter number, work, provider, entity, type, process type, due date and renewal
/// date, and selects the row by id; parameter k of the update is the value that the
/// input gives the k-th of those columns.
pub proof fn lemma_update_sets_each_column_from_input(id: i64, input: SaveWarrant)
    ensures
        UPDATE_SQL@ == "\n        UPDATE warrant\n        SET "@ + column_name(WarrantColumn::Expediente)
            + " = ?,\n            "@ + column_name(WarrantColumn::NroCarta) + " = ?,\n            "@
            + column_name(WarrantColumn::Obra) + " = ?,\n            "@ + column_name(
            WarrantColumn::Proveedor,
        ) + " = ?,\n            "@ + column_name(WarrantColumn::Entidad) + " = ?,\n            "@
            + column_name(WarrantColumn::WarrantTypeId) + " = ?,\n            "@ + column_name(
            WarrantColumn::ProcessType,
        ) + " = ?,\n            "@ + column_name(WarrantColumn::FechaVencimiento)
            + " = ?,\n            "@ + column_name(WarrantColumn::FechaRenovacion)
            + " = ?\n        WHERE "@ + column_name(WarrantColumn::Id) + " = ?\n        "@,
        update_binds(id, input) == seq![
            saved_value(id, input, WarrantColumn::Expediente),
            saved_value(id, input, WarrantColumn::NroCarta),
            saved_value(id, input, WarrantColumn::Obra),
            saved_value(id, input, WarrantColumn::Proveedor),
            saved_value(id, input, WarrantColumn::Entidad),
            saved_value(id, input, WarrantColumn::WarrantTypeId),
            saved_value(id, input, WarrantColumn::ProcessType),
            saved_value(id, input, WarrantColumn::FechaVencimiento),
            saved_value(id, input, WarrantColumn::FechaRenovacion),
            saved_value(id, input, WarrantColumn::Id),
        ],
{
    reveal_strlit("\n        UPDATE warrant\n        SET expediente = ?,\n            nro_carta = ?,\n            obra = ?,\n            proveedor = ?,\n            entidad = ?,\n            warrant_type_id = ?,\n            process_type = ?,\n            fecha_vencimiento = ?,\n            fecha_renovacion = ?\n        WHERE id = ?\n        ");
    reveal_strlit("\n        UPDATE warrant\n        SET ");
    reveal_strlit(" = ?,\n            ");
    reveal_strlit(" = ?\n        WHERE ");
    reveal_strlit(" = ?\n        ");
    reveal_strlit("expediente");
    reveal_strlit("nro_carta");
    reveal_strlit("obra");
    reveal_strlit("proveedor");
    reveal_strlit("entidad");
    reveal_strlit("warrant_type_id");
    reveal_strlit("process_type");
    reveal_strlit("fecha_vencimiento");
    reveal_strlit("fecha_renovacion");
    reveal_strlit("id");
    assert(UPDATE_SQL@ =~= "\n        UPDATE warrant\n        SET "@ + column_name(
        WarrantColumn::Expediente,
    ) + " = ?,\n            "@ + column_name(WarrantColumn::NroCarta) + " = ?,\n            "@
        + column_name(WarrantColumn::Obra) + " = ?,\n            "@ + column_name(
        WarrantColumn::Proveedor,
    ) + " = ?,\n            "@ + column_name(WarrantColumn::Entidad) + " = ?,\n            "@
        + column_name(WarrantColumn::WarrantTypeId) + " = ?,\n            "@ + column_name(
        WarrantColumn::ProcessType,
    ) + " = ?,\n            "@ + column_name(WarrantColumn::FechaVencimiento)
        + " = ?,\n            "@ + column_name(WarrantColumn::FechaRenovacion)
        + " = ?\n        WHERE "@ + column_name(WarrantColumn::Id) + " = ?\n        "@);
}

/// The rows a listing page asks for: `LIMIT` is the size asked for (50 when none), at
/// most 500, and `OFFSET` is the page number asked for (0 when none) times that limit;
/// so page `p` holds rows `p * limit` to `(p + 1) * limit - 1` of the listing.
pub proof fn lemma_list_page_window(f: WarrantFilter)
    requires
        page_number(f) * page_size(f) <= u32::MAX,
    ensures
        ({
            let parts = list_page_parts(f);
            let n = parts.len() as int;
            let limit: int = match f.size {
                Some(s) => if s <= 500 {
                    s as int
                } else {
                    500
                },
                None => 50,
            };
            let page: int = match f.page {
                Some(p) => p as int,
                None => 0,
            };
            &&& n >= 5
            &&& parts[n - 4] == PartView::Sql(" LIMIT "@)
            &&& parts[n - 3] matches PartView::Bind(BindView::UInt(l)) && l == limit
            &&& parts[n - 2] == PartView::Sql(" OFFSET "@)
            &&& parts[n - 1] matches PartView::Bind(BindView::UInt(o)) && o == page * limit
        }),
{
}

/// Consecutive pages of one listing are adjacent: the next page starts where the page
/// before it ends.
pub proof fn lemma_next_page_follows(f: WarrantFilter, g: WarrantFilter)
    requires
        same_selection(f, g),
        f.size == g.size,
        page_number(g) == page_number(f) + 1,
        page_number(g) * page_size(g) <= u32::MAX,
    ensures
        ({
            let a = list_page_parts(f);
            let b = list_page_parts(g);
            a[a.len() - 1] matches PartView::Bind(BindView::UInt(oa)) && a[a.len() - 3]
                matches PartView::Bind(BindView::UInt(la)) && b[b.len() - 1] matches PartView::Bind(
                BindView::UInt(ob),
            ) && ob == oa + la
        }),
{
    lemma_list_page_window(g);
    assert(page_size(g) == page_size(f));
    assert(page_number(f) * page_size(f) <= page_number(g) * page_size(g)) by (nonlinear_arith)
        requires
            page_number(g) == page_number(f) + 1,
            page_size(g) == page_size(f),
    ;
    lemma_list_page_window(f);
    assert(page_number(g) * page_size(g) == page_number(f) * page_size(f) + page_size(f))
        by (nonlinear_arith)
        requires
            page_number(g) == page_number(f) + 1,
            page_size(g) == page_size(f),
    ;
}

/// A listing asked to order by file (`order` is `"e"`) orders by file number first, then
/// by due date, newest first; any other listing orders by due date alone. This holds of
/// the plain listing and of the range listing alike.
pub proof fn lemma_listings_order_as_asked(f: WarrantFilter, from: u64, to: u64)
    ensures
        ({
            let a = list_page_parts(f);
            let b = range_page_parts(f, from, to);
            let by_file = f.order matches Some(o) && o@ == seq!['e'];
            &&& a.len() >= 5 && b.len() >= 5
            &&& by_file ==> a[a.len() - 5] == PartView::Sql(
                " ORDER BY expediente DESC, fecha_vencimiento DESC "@,
            )
            &&& !by_file ==> a[a.len() - 5] == PartView::Sql(" ORDER BY fecha_vencimiento DESC "@)
            &&& by_file ==> b[b.len() - 5] == PartView::Sql(
                " ORDER BY w.expediente DESC, w.fecha_vencimiento DESC "@,
            )
            &&& !by_file ==> b[b.len() - 5] == PartView::Sql(
                " ORDER BY w.fecha_vencimiento DESC "@,
            )
        }),
{
}

/// The renovation that a creation runs marks renovated the earlier warrants of the new
/// warrant's file and type that fall due before the new warrant's due date: its three
/// parameters are the file, the type and the due date, in the order in which
/// `RENOVATE_SQL` compares `expediente = ?`, `warrant_type_id = ?` and
/// `fecha_vencimiento < ?`; the renewal date of the new warrant plays no part.
pub proof fn lemma_renovation_cuts_off_at_due_date(a: SaveWarrant, b: SaveWarrant)
    requires
        a.warrant_type_id is Some,
        a.fecha_vencimiento is Some,
        b.expediente == a.expediente,
        b.warrant_type_id == a.warrant_type_id,
        b.fecha_vencimiento == a.fecha_vencimiento,
    ensures
        RENOVATE_SQL@ == "\n            UPDATE warrant\n            SET renovated = 1\n            WHERE "@
            + column_name(WarrantColumn::Expediente) + " = ?\n              AND "@ + column_name(
            WarrantColumn::WarrantTypeId,
        ) + " = ?\n              AND "@ + column_name(WarrantColumn::FechaVencimiento)
            + " < ?\n              AND DATEDIFF(fecha_vencimiento, CURDATE()) > 0\n            "@,
        a.warrant_type_id matches Some(t) && a.fecha_vencimiento matches Some(d) && renovation_binds(
            a,
        ) == seq![BindView::OptInt(a.expediente), BindView::Int(t), BindView::Date(d)],
        renovation_binds(a) == renovation_binds(b),
{
    reveal_strlit("\n            UPDATE warrant\n            SET renovated = 1\n            WHERE expediente = ?\n              AND warrant_type_id = ?\n              AND fecha_vencimiento < ?\n              AND DATEDIFF(fecha_vencimiento, CURDATE()) > 0\n            ");
    reveal_strlit("\n            UPDATE warrant\n            SET renovated = 1\n            WHERE ");
    reveal_strlit(" = ?\n              AND ");
    reveal_strlit(" < ?\n              AND DATEDIFF(fecha_vencimiento, CURDATE()) > 0\n            ");
    reveal_strlit("expediente");
    reveal_strlit("warrant_type_id");
    reveal_strlit("fecha_vencimiento");
    assert(RENOVATE_SQL@ =~= "\n            UPDATE warrant\n            SET renovated = 1\n            WHERE "@
        + column_name(WarrantColumn::Expediente) + " = ?\n              AND "@ + column_name(
        WarrantColumn::WarrantTypeId,
    ) + " = ?\n              AND "@ + column_name(WarrantColumn::FechaVencimiento)
        + " < ?\n              AND DATEDIFF(fecha_vencimiento, CURDATE()) > 0\n            "@);
}

proof fn lemma_filter_parts_free(f: WarrantFilter)
    ensures
        texts_without_placeholder(filter_parts(f)),
{
    reveal_strlit(" WHERE canceled = 0 ");
    reveal_strlit(" AND LPAD(expediente, 3, '0') LIKE ");
    reveal_strlit(" AND UPPER(entidad) LIKE ");
    reveal_strlit(" AND UPPER(obra) LIKE ");
    reveal_strlit(" AND UPPER(nro_carta) LIKE ");
    reveal_strlit(" AND UPPER(proveedor) LIKE ");
    reveal_strlit(" AND warrant_type_id IN (");
    reveal_strlit(")");
    reveal_strlit(" AND DATE(fecha_vencimiento) >= ");
    reveal_strlit(" AND DATE(fecha_vencimiento) <= ");
    reveal_strlit(" AND DATEDIFF(fecha_vencimiento, CURDATE()) BETWEEN 1 AND 5 ");
    reveal_strlit(" AND DATEDIFF(fecha_vencimiento, CURDATE()) <= 0 ");
    let head = seq![PartView::Sql(" WHERE canceled = 0 "@)];
    let a = text_clause(" AND LPAD(expediente, 3, '0') LIKE "@, f.expediente, false);
    let b = text_clause(" AND UPPER(entidad) LIKE "@, f.entidad, true);
    let c = text_clause(" AND UPPER(obra) LIKE "@, f.obra, true);
    let d = text_clause(" AND UPPER(nro_carta) LIKE "@, f.code, true);
    let e = text_clause(" AND UPPER(proveedor) LIKE "@, f.provider, true);
    let t = type_clause(f.warrant_type);
    let g = date_clause(" AND DATE(fecha_vencimiento) >= "@, f.fecha_ini);
    let h = date_clause(" AND DATE(fecha_vencimiento) <= "@, f.fecha_fin);
    let k = due_clause(f.danger, f.faltan);
    match f.warrant_type {
        Some(v) => {
            if v@.len() > 0 {
                lemma_id_list_free(v@);
                lemma_texts_without_placeholder_concat(
                    seq![PartView::Sql(" AND warrant_type_id IN ("@)],
                    id_list(v@),
                );
                lemma_texts_without_placeholder_concat(
                    seq![PartView::Sql(" AND warrant_type_id IN ("@)] + id_list(v@),
                    seq![PartView::Sql(")"@)],
                );
            }
        },
        None => {},
    }
    lemma_texts_without_placeholder_concat(head, a);
    lemma_texts_without_placeholder_concat(head + a, b);
    lemma_texts_without_placeholder_concat(head + a + b, c);
    lemma_texts_without_placeholder_concat(head + a + b + c, d);
    lemma_texts_without_placeholder_concat(head + a + b + c + d, e);
    lemma_texts_without_placeholder_concat(head + a + b + c + d + e, t);
    lemma_texts_without_placeholder_concat(head + a + b + c + d + e + t, g);
    lemma_texts_without_placeholder_concat(head + a + b + c + d + e + t + g, h);
    lemma_texts_without_placeholder_concat(head + a + b + c + d + e + t + g + h, k);
}

proof fn lemma_list_page_free(f: WarrantFilter)
    ensures
        texts_without_placeholder(list_page_parts(f)),
{
    lemma_filter_parts_free(f);
    reveal_strlit("SELECT id, expediente, numero, nro_carta, obra, proveedor, entidad, warrant_type_id, process_type, fecha_registro, fecha_vencimiento, fecha_renovacion, canceled, renovated, DATEDIFF(fecha_vencimiento, CURDATE()) AS diff FROM warrant");
    reveal_strlit(" ORDER BY expediente DESC, fecha_vencimiento DESC ");
    reveal_strlit(" ORDER BY fecha_vencimiento DESC ");
    reveal_strlit(" LIMIT ");
    reveal_strlit(" OFFSET ");
    let fp = filter_parts(f);
    let head = seq![PartView::Sql(LIST_SELECT_SQL@)];
    let tail = list_page_parts(f).skip(1 + fp.len() as int);
    assert(list_page_parts(f) =~= head + fp + tail);
    lemma_texts_without_placeholder_concat(head, fp);
    lemma_texts_without_placeholder_concat(head + fp, tail);
}

proof fn lemma_range_page_free(f: WarrantFilter, from: u64, to: u64)
    ensures
        texts_without_placeholder(range_page_parts(f, from, to)),
{
    lemma_filter_parts_free(f);
    reveal_strlit("\n        SELECT\n            w.id,\n            w.provider_id,\n            w.process_type,\n            w.extension,\n            w.proveedor,\n            w.expediente,\n            w.entidad,\n            w.numero,\n            w.obra,\n            w.warrant_type_id,\n            w.total,\n            w.fecha_renovacion,\n            w.nro_carta,\n            w.fecha_emision,\n            w.fecha_vencimiento,\n            w.fecha_registro,\n            w.observacion,\n            w.confirmacion_banco,\n            w.renovated,\n            w.status,\n            w.canceled,\n            w.upload,\n\n            DATEDIFF(\n                w.fecha_vencimiento,\n                CURDATE()\n            ) AS diff,\n\n            wt.id AS wt_id,\n            wt.name AS wt_name\n\n        FROM warrant w\n\n        LEFT JOIN warrant_type wt\n            ON wt.id = w.warrant_type_id\n        ");
    reveal_strlit(" ORDER BY w.expediente DESC, w.fecha_vencimiento DESC ");
    reveal_strlit(" ORDER BY w.fecha_vencimiento DESC ");
    reveal_strlit(" LIMIT ");
    reveal_strlit(" OFFSET ");
    let fp = filter_parts(f);
    let head = seq![PartView::Sql(RANGE_SELECT_SQL@)];
    let tail = range_page_parts(f, from, to).skip(1 + fp.len() as int);
    assert(range_page_parts(f, from, to) =~= head + fp + tail);
    lemma_texts_without_placeholder_concat(head, fp);
    lemma_texts_without_placeholder_concat(head + fp, tail);
}

proof fn lemma_counts_free(f: WarrantFilter)
    ensures
        texts_without_placeholder(list_count_parts(f)),
        texts_without_placeholder(range_count_parts(f)),
{
    lemma_filter_parts_free(f);
    reveal_strlit("SELECT COUNT(*) FROM warrant");
    reveal_strlit("SELECT COUNT(*) FROM warrant w");
    lemma_texts_without_placeholder_concat(seq![PartView::Sql("SELECT COUNT(*) FROM warrant"@)], filter_parts(f));
    lemma_texts_without_placeholder_concat(
        seq![PartView::Sql("SELECT COUNT(*) FROM warrant w"@)],
        filter_parts(f),
    );
}

/// The statements of a listing bind one value per placeholder: no SQL text of theirs holds
/// a `?`, so each `?` stands for exactly one parameter, for every filter.
pub proof fn lemma_listing_placeholders(f: WarrantFilter, from: u64, to: u64)
    ensures
        occurrences(render(list_page_parts(f)).sql, '?') == render(list_page_parts(f)).binds.len(),
        occurrences(render(list_count_parts(f)).sql, '?') == render(list_count_parts(f)).binds.len(),
        occurrences(render(range_page_parts(f, from, to)).sql, '?') == render(
            range_page_parts(f, from, to),
        ).binds.len(),
        occurrences(render(range_count_parts(f)).sql, '?') == render(
            range_count_parts(f),
        ).binds.len(),
{
    lemma_list_page_free(f);
    lemma_range_page_free(f, from, to);
    lemma_counts_free(f);
    lemma_one_placeholder_per_parameter(list_page_parts(f));
    lemma_one_placeholder_per_parameter(list_count_parts(f));
    lemma_one_placeholder_per_parameter(range_page_parts(f, from, to));
    lemma_one_placeholder_per_parameter(range_count_parts(f));
}

/// A listing and its count filter alike: after its own head, each holds exactly the
/// pieces of the filter, so the count counts the warrants that the pages page through.
pub proof fn lemma_count_filters_like_page(f: WarrantFilter, from: u64, to: u64)
    ensures
        list_page_parts(f).subrange(1, 1 + filter_parts(f).len() as int) == filter_parts(f),
        list_count_parts(f).skip(1) == filter_parts(f),
        range_page_parts(f, from, to).subrange(1, 1 + filter_parts(f).len() as int) == filter_parts(f),
        range_count_parts(f).skip(1) == filter_parts(f),
{
    assert(list_page_parts(f).subrange(1, 1 + filter_parts(f).len() as int) =~= filter_parts(f));
    assert(list_count_parts(f).skip(1) =~= filter_parts(f));
    assert(range_page_parts(f, from, to).subrange(1, 1 + filter_parts(f).len() as int) =~= filter_parts(
        f,
    ));
    assert(range_count_parts(f).skip(1) =~= filter_parts(f));
}

/// The type ids of a filter, by value.
pub open spec fn opt_ids_view(ids: Option<Vec<i32>>) -> Option<Seq<i32>> {
    match ids {
        Some(v) => Some(v@),
        None => None,
    }
}

/// Two filters that select the same warrants: they differ at most in the page, the page
/// size and the order.
pub open spec fn same_selection(f: WarrantFilter, g: WarrantFilter) -> bool {
    &&& opt_text_view(f.code) == opt_text_view(g.code)
    &&& opt_text_view(f.obra) == opt_text_view(g.obra)
    &&& opt_text_view(f.provider) == opt_text_view(g.provider)
    &&& opt_text_view(f.expediente) == opt_text_view(g.expediente)
    &&& opt_text_view(f.entidad) == opt_text_view(g.entidad)
    &&& opt_ids_view(f.warrant_type) == opt_ids_view(g.warrant_type)
    &&& f.faltan == g.faltan
    &&& f.danger == g.danger
    &&& f.fecha_ini == g.fecha_ini
    &&& f.fecha_fin == g.fecha_fin
}

proof fn lemma_text_clause_by_view(column: Seq<char>, a: Option<String>, b: Option<String>, upper: bool)
    requires
        opt_text_view(a) == opt_text_view(b),
    ensures
        text_clause(column, a, upper) == text_clause(column, b, upper),
{
}

/// The count of a listing does not depend on its page, its page size or its order: two
/// filters that select the same warrants give the same count statement, so every page of
/// a listing reports the same total.
pub proof fn lemma_count_ignores_paging(f: WarrantFilter, g: WarrantFilter)
    requires
        same_selection(f, g),
    ensures
        filter_parts(f) == filter_parts(g),
        list_count_parts(f) == list_count_parts(g),
        range_count_parts(f) == range_count_parts(g),
        render(list_count_parts(f)) == render(list_count_parts(g)),
        render(range_count_parts(f)) == render(range_count_parts(g)),
{
    lemma_text_clause_by_view(" AND LPAD(expediente, 3, '0') LIKE "@, f.expediente, g.expediente, false);
    lemma_text_clause_by_view(" AND UPPER(entidad) LIKE "@, f.entidad, g.entidad, true);
    lemma_text_clause_by_view(" AND UPPER(obra) LIKE "@, f.obra, g.obra, true);
    lemma_text_clause_by_view(" AND UPPER(nro_carta) LIKE "@, f.code, g.code, true);
    lemma_text_clause_by_view(" AND UPPER(proveedor) LIKE "@, f.provider, g.provider, true);
    assert(type_clause(f.warrant_type) == type_clause(g.warrant_type));
    assert(filter_parts(f) =~= filter_parts(g));
    assert(list_count_parts(f) =~= list_count_parts(g));
    assert(range_count_parts(f) =~= range_count_parts(g));
}

/// The filter of a range listing of the warrants falling due soon: `danger` alone.
pub open spec fn due_soon_filter() -> WarrantFilter {
    WarrantFilter {
        code: None,
        obra: None,
        provider: None,
        expediente: None,
        entidad: None,
        warrant_type: None,
        faltan: None,
        danger: Some(true),
        fecha_ini: None,
        fecha_fin: None,
        page: None,
        size: None,
        order: None,
    }
}

/// The due-date notice counts what a range listing of the warrants falling due soon
/// counts: both count the rows of `warrant` under the same two conditions, live
/// (`canceled = 0`) and due in one to five days, with no parameter; the two texts differ
/// only in white space and in the listing's table alias `w`.
pub proof fn lemma_notification_counts_due_soon_listing()
    ensures
        range_count_parts(due_soon_filter()) == seq![
            PartView::Sql("SELECT COUNT(*) FROM warrant w"@),
            PartView::Sql(" WHERE canceled = 0 "@),
            PartView::Sql(" AND DATEDIFF(fecha_vencimiento, CURDATE()) BETWEEN 1 AND 5 "@),
        ],
        NOTIFICATION_COUNT_SQL@ == "SELECT COUNT(*) FROM warrant"@ + " WHERE canceled = 0"@
            + " AND DATEDIFF(fecha_vencimiento, CURDATE()) BETWEEN 1 AND 5"@,
{
    let f = due_soon_filter();
    assert(due_window(f.danger, f.faltan) == DueWindow::Soon);
    assert(text_clauses(f) =~= Seq::<PartView>::empty());
    assert(type_clause(f.warrant_type) =~= Seq::<PartView>::empty());
    assert(range_count_parts(f) =~= seq![
        PartView::Sql("SELECT COUNT(*) FROM warrant w"@),
        PartView::Sql(" WHERE canceled = 0 "@),
        PartView::Sql(" AND DATEDIFF(fecha_vencimiento, CURDATE()) BETWEEN 1 AND 5 "@),
    ]);
    reveal_strlit("SELECT COUNT(*) FROM warrant WHERE canceled = 0 AND DATEDIFF(fecha_vencimiento, CURDATE()) BETWEEN 1 AND 5");
    reveal_strlit("SELECT COUNT(*) FROM warrant");
    reveal_strlit(" WHERE canceled = 0");
    reveal_strlit(" AND DATEDIFF(fecha_vencimiento, CURDATE()) BETWEEN 1 AND 5");
    assert(NOTIFICATION_COUNT_SQL@ =~= "SELECT COUNT(*) FROM warrant"@ + " WHERE canceled = 0"@
        + " AND DATEDIFF(fecha_vencimiento, CURDATE()) BETWEEN 1 AND 5"@);
}

/// A page never holds more than 500 warrants; it holds 50 when no size is asked for, and
/// the size asked for when that is at most 500.
pub proof fn lemma_page_size(f: WarrantFilter)
    ensures
        page_size(f) <= MAX_PAGE_SIZE,
        f.size is None ==> page_size(f) == DEFAULT_PAGE_SIZE,
        f.size matches Some(s) ==> (s <= MAX_PAGE_SIZE ==> page_size(f) == s),
{
}

/// A listing marked dangerous asks for the warrants falling due soon, whatever `faltan`
/// says.
pub proof fn lemma_danger_wins(faltan: Option<i32>)
    ensures
        due_window(Some(true), faltan) is Soon,
{
}

/// Every listing, and its count, starts its conditions with `WHERE canceled = 0`, right
/// after its head, whatever the filter.
pub proof fn lemma_listings_exclude_canceled(f: WarrantFilter, from: u64, to: u64)
    ensures
        filter_parts(f)[0] == PartView::Sql(" WHERE canceled = 0 "@),
        list_page_parts(f)[1] == PartView::Sql(" WHERE canceled = 0 "@),
        list_count_parts(f)[1] == PartView::Sql(" WHERE canceled = 0 "@),
        range_page_parts(f, from, to)[1] == PartView::Sql(" WHERE canceled = 0 "@),
        range_count_parts(f)[1] == PartView::Sql(" WHERE canceled = 0 "@),
{
}

} // verus!
