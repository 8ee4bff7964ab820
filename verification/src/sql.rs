//! SQL statements as the service sends them.
//!
//! A statement is built from pieces, text and bound parameters in order, as a MySQL query
//! builder builds one: the text pieces in order, with a `?` placeholder at the place of
//! each parameter, and the parameters' values in the same order.
use vstd::prelude::*;

verus! {

/// A value bound to a statement parameter.
#[derive(Debug, Clone)]
pub enum BindValue {
    Text(String),
    OptText(Option<String>),
    Int(i32),
    OptInt(Option<i32>),
    BigInt(i64),
    UInt(u32),
    BigUInt(u64),
    /// A calendar date, as its number of days from 0001-01-01 (day 1).
    Date(i32),
    OptDate(Option<i32>),
}

/// One piece of a statement.
#[derive(Debug, Clone)]
pub enum SqlPart {
    /// SQL text, sent as it is.
    Sql(String),
    /// A parameter and its value.
    Bind(BindValue),
}

/// The mathematical form of a bound value: texts as character sequences.
pub enum BindView {
    Text(Seq<char>),
    OptText(Option<Seq<char>>),
    Int(i32),
    OptInt(Option<i32>),
    BigInt(i64),
    UInt(u32),
    BigUInt(u64),
    Date(i32),
    OptDate(Option<i32>),
}

/// The mathematical form of a statement piece.
pub enum PartView {
    Sql(Seq<char>),
    Bind(BindView),
}

pub open spec fn opt_text_view(o: Option<String>) -> Option<Seq<char>> {
    match o {
        Some(s) => Some(s@),
        None => None,
    }
}

impl View for BindValue {
    type V = BindView;

    open spec fn view(&self) -> BindView {
        match self {
            BindValue::Text(s) => BindView::Text(s@),
            BindValue::OptText(o) => BindView::OptText(opt_text_view(*o)),
            BindValue::Int(x) => BindView::Int(*x),
            BindValue::OptInt(x) => BindView::OptInt(*x),
            BindValue::BigInt(x) => BindView::BigInt(*x),
            BindValue::UInt(x) => BindView::UInt(*x),
            BindValue::BigUInt(x) => BindView::BigUInt(*x),
            BindValue::Date(x) => BindView::Date(*x),
            BindValue::OptDate(x) => BindView::OptDate(*x),
        }
    }
}

impl View for SqlPart {
    type V = PartView;

    open spec fn view(&self) -> PartView {
        match self {
            SqlPart::Sql(s) => PartView::Sql(s@),
            SqlPart::Bind(b) => PartView::Bind(b@),
        }
    }
}

/// A statement ready to run: its SQL text, with a `?` for each parameter, and the
/// values of its parameters, in order.
#[derive(Debug, Clone)]
pub struct Statement {
    pub sql: String,
    pub binds: Vec<BindValue>,
}

/// The mathematical form of a statement.
pub struct StatementView {
    pub sql: Seq<char>,
    pub binds: Seq<BindView>,
}

pub open spec fn binds_view(binds: Seq<BindValue>) -> Seq<BindView> {
    binds.map_values(|b: BindValue| b@)
}

impl View for Statement {
    type V = StatementView;

    open spec fn view(&self) -> StatementView {
        StatementView { sql: self.sql@, binds: binds_view(self.binds@) }
    }
}

/// The mathematical form of a sequence of pieces.
pub open spec fn parts_view(parts: Seq<SqlPart>) -> Seq<PartView> {
    parts.map_values(|p: SqlPart| p@)
}

/// The statement that a sequence of pieces makes: text pieces in order, with a `?` in
/// place of each parameter, and the parameters in order.
pub open spec fn render(parts: Seq<PartView>) -> StatementView
    decreases parts.len(),
{
    if parts.len() == 0 {
        StatementView { sql: Seq::empty(), binds: Seq::empty() }
    } else {
        let r = render(parts.drop_last());
        match parts.last() {
            PartView::Sql(t) => StatementView { sql: r.sql + t, binds: r.binds },
            PartView::Bind(b) => StatementView { sql: r.sql.push('?'), binds: r.binds.push(b) },
        }
    }
}

/// Builds the statement that `parts` make.
pub fn build(parts: Vec<SqlPart>) -> (st: Statement)
    ensures
        st@ == render(parts_view(parts@)),
{
    let ghost all = parts@;
    let mut text: Vec<char> = Vec::new();
    let mut binds: Vec<BindValue> = Vec::new();
    for p in it: parts
        invariant
            it.seq() == all,
            text@ == render(parts_view(all.take(it.index() as int))).sql,
            binds_view(binds@) == render(parts_view(all.take(it.index() as int))).binds,
    {
        let ghost i = it.index();
        assert(parts_view(all.take(i + 1)).drop_last() =~= parts_view(all.take(i)));
        assert(parts_view(all.take(i + 1)).last() == all[i]@);
        match p {
            SqlPart::Sql(t) => {
                let cs = crate::text::chars_of(t.as_str());
                crate::text::push_all(&mut text, &cs);
            },
            SqlPart::Bind(b) => {
                text.push('?');
                let ghost before = binds@;
                binds.push(b);
                assert(binds_view(binds@) =~= binds_view(before).push(b@));
            },
        }
    }
    assert(all.take(all.len() as int) =~= all);
    Statement { sql: crate::text::string_of(&text), binds }
}

/// A text piece.
pub fn text_part(s: &str) -> (p: SqlPart)
    ensures
        p@ == PartView::Sql(s@),
{
    SqlPart::Sql(String::from_str(s))
}

/// Appends a piece.
pub fn push_part(parts: &mut Vec<SqlPart>, p: SqlPart)
    ensures
        parts_view(final(parts)@) == parts_view(old(parts)@).push(p@),
{
    parts.push(p);
    assert(parts_view(parts@) =~= parts_view(old(parts)@).push(p@));
}

/// Appends a text piece.
pub fn push_sql(parts: &mut Vec<SqlPart>, s: &str)
    ensures
        parts_view(final(parts)@) == parts_view(old(parts)@).push(PartView::Sql(s@)),
{
    push_part(parts, text_part(s));
}

/// Appends a parameter.
pub fn push_bind(parts: &mut Vec<SqlPart>, b: BindValue)
    ensures
        parts_view(final(parts)@) == parts_view(old(parts)@).push(PartView::Bind(b@)),
{
    push_part(parts, SqlPart::Bind(b));
}

/// Appends the pieces of `more`.
pub fn append_parts(parts: &mut Vec<SqlPart>, more: Vec<SqlPart>)
    ensures
        parts_view(final(parts)@) == parts_view(old(parts)@) + parts_view(more@),
{
    let ghost added = more@;
    let mut more = more;
    parts.append(&mut more);
    assert(parts_view(parts@) =~= parts_view(old(parts)@) + parts_view(added));
}

/// The id of the row just inserted, from the id the database reports (as `as i64`
/// converts it).
pub fn inserted_id(last_insert_id: u64) -> (id: i64)
    ensures
        id == last_insert_id as i64,
{
    last_insert_id as i64
}

/// A statement with no parameters.
pub fn fixed(sql: &str) -> (st: Statement)
    ensures
        st.sql@ == sql@,
        st.binds@.len() == 0,
{
    Statement { sql: String::from_str(sql), binds: Vec::new() }
}

/// The number of times `c` occurs in `s`.
pub open spec fn occurrences(s: Seq<char>, c: char) -> nat
    decreases s.len(),
{
    if s.len() == 0 {
        0
    } else {
        occurrences(s.drop_last(), c) + if s.last() == c { 1nat } else { 0nat }
    }
}

/// `t` holds no `?`.
pub open spec fn no_placeholder(t: Seq<char>) -> bool {
    forall|k: int| 0 <= k < t.len() ==> #[trigger] t[k] != '?'
}

/// No text piece holds a `?`.
pub open spec fn texts_without_placeholder(parts: Seq<PartView>) -> bool {
    forall|i: int|
        0 <= i < parts.len() ==> (#[trigger] parts[i] matches PartView::Sql(t) ==> no_placeholder(
            t,
        ))
}

pub proof fn lemma_no_placeholder_occurrences(t: Seq<char>)
    requires
        no_placeholder(t),
    ensures
        occurrences(t, '?') == 0,
    decreases t.len(),
{
    if t.len() > 0 {
        assert(no_placeholder(t.drop_last())) by {
            assert forall|k: int| 0 <= k < t.drop_last().len() implies #[trigger] t.drop_last()[k]
                != '?' by {
                assert(t.drop_last()[k] == t[k]);
            }
        }
        lemma_no_placeholder_occurrences(t.drop_last());
        assert(t[t.len() - 1] != '?');
    }
}

/// Text pieces free of `?` in both halves are free of it in the whole.
pub proof fn lemma_texts_without_placeholder_concat(a: Seq<PartView>, b: Seq<PartView>)
    requires
        texts_without_placeholder(a),
        texts_without_placeholder(b),
    ensures
        texts_without_placeholder(a + b),
{
    assert forall|i: int| 0 <= i < (a + b).len() implies (#[trigger] (a + b)[i] matches PartView::Sql(
        t,
    ) ==> no_placeholder(t)) by {
        if i < a.len() {
            assert((a + b)[i] == a[i]);
        } else {
            assert((a + b)[i] == b[i - a.len()]);
        }
    }
}

pub proof fn lemma_occurrences_concat(a: Seq<char>, b: Seq<char>, c: char)
    ensures
        occurrences(a + b, c) == occurrences(a, c) + occurrences(b, c),
    decreases b.len(),
{
    if b.len() == 0 {
        assert(a + b =~= a);
    } else {
        lemma_occurrences_concat(a, b.drop_last(), c);
        assert((a + b).drop_last() =~= a + b.drop_last());
    }
}

/// When no text piece holds a `?`, the statement has exactly one placeholder per
/// parameter: its `?` marks stand one for one for its bound values.
pub proof fn lemma_one_placeholder_per_parameter(parts: Seq<PartView>)
    requires
        texts_without_placeholder(parts),
    ensures
        occurrences(render(parts).sql, '?') == render(parts).binds.len(),
    decreases parts.len(),
{
    if parts.len() > 0 {
        let p = parts.drop_last();
        assert(texts_without_placeholder(p)) by {
            assert forall|i: int| 0 <= i < p.len() implies (#[trigger] p[i] matches PartView::Sql(
                t,
            ) ==> no_placeholder(t)) by {
                assert(p[i] == parts[i]);
            }
        }
        lemma_one_placeholder_per_parameter(p);
        let r = render(p);
        match parts.last() {
            PartView::Sql(t) => {
                assert(parts[parts.len() - 1] == parts.last());
                lemma_no_placeholder_occurrences(t);
                lemma_occurrences_concat(r.sql, t, '?');
            },
            PartView::Bind(b) => {
                assert(r.sql.push('?').drop_last() =~= r.sql);
            },
        }
    }
}

} // verus!
