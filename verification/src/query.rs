//! The query builder: turn optional inclusive time-range bounds and a
//! required row limit into a parameterized retrieval statement plus the
//! ordered bind values its placeholders take. No caller-supplied value is
//! ever interpolated into the statement text: the text is a function of
//! which filters are present alone, and every variable value travels as a
//! bind value.

use vstd::prelude::*;
use vstd::string::*;

verus! {

/// Comparison operator of a time-range predicate.
#[derive(Clone, Copy)]
pub enum CompareOp {
    Ge,
    Le,
}

/// A predicate descriptor on the storage timestamp column: an operator and
/// the value its placeholder binds.
pub struct TimePredicate {
    pub op: CompareOp,
    pub value: String,
}

/// A value bound to a statement placeholder. `Num` carries the bit pattern
/// of a double sample.
#[derive(Debug, PartialEq, Eq)]
pub enum BindValue {
    Text(String),
    Int(i64),
    Num(u64),
}

/// Ghost shape of a bind value: text as a character sequence.
pub enum BindView {
    Text(Seq<char>),
    Int(int),
    Num(u64),
}

pub open spec fn bind_view(b: BindValue) -> BindView {
    match b {
        BindValue::Text(s) => BindView::Text(s@),
        BindValue::Int(i) => BindView::Int(i as int),
        BindValue::Num(n) => BindView::Num(n),
    }
}

pub open spec fn binds_view(bs: Seq<BindValue>) -> Seq<BindView> {
    bs.map_values(|b: BindValue| bind_view(b))
}

/// A built statement: its text and its bind values, in placeholder order.
pub struct BuiltQuery {
    pub text: String,
    pub binds: Vec<BindValue>,
}

/// The rendered SQL of one predicate descriptor, its value replaced by a
/// placeholder.
pub open spec fn spec_predicate_sql(op: CompareOp) -> Seq<char> {
    match op {
        CompareOp::Ge => "recTime >= ?"@,
        CompareOp::Le => "recTime <= ?"@,
    }
}

/// The rendered WHERE clause of a predicate list: empty for no predicates,
/// otherwise ` WHERE ` followed by the predicates joined with ` AND `.
pub open spec fn spec_where_clause(ops: Seq<CompareOp>) -> Seq<char>
    decreases ops.len(),
{
    if ops.len() == 0 {
        Seq::empty()
    } else if ops.len() == 1 {
        " WHERE "@ + spec_predicate_sql(ops[0])
    } else {
        spec_where_clause(ops.drop_last()) + " AND "@ + spec_predicate_sql(ops.last())
    }
}

pub open spec fn pred_ops(ps: Seq<TimePredicate>) -> Seq<CompareOp> {
    ps.map_values(|p: TimePredicate| p.op)
}

/// Render the WHERE clause of the accumulated predicate descriptors.
pub fn render_where_clause(preds: &Vec<TimePredicate>) -> (s: String)
    ensures
        s@ == spec_where_clause(pred_ops(preds@)),
{
    let mut s = String::new();
    let mut i: usize = 0;
    while i < preds.len()
        invariant
            i <= preds@.len(),
            s@ == spec_where_clause(pred_ops(preds@).take(i as int)),
        decreases preds@.len() - i,
    {
        if i == 0 {
            s.append(" WHERE ");
        } else {
            s.append(" AND ");
        }
        match preds[i].op {
            CompareOp::Ge => s.append("recTime >= ?"),
            CompareOp::Le => s.append("recTime <= ?"),
        }
        proof {
            let ops = pred_ops(preds@);
            assert(ops.take(i + 1 as int).drop_last() =~= ops.take(i as int));
            assert(ops.take(i + 1 as int).last() == ops[i as int]);
        }
        i += 1;
    }
    proof {
        assert(pred_ops(preds@).take(preds@.len() as int) =~= pred_ops(preds@));
    }
    s
}

/// The column list, table and ordering of the retrieval statement, before
/// any WHERE clause.
pub open spec fn select_base_text() -> Seq<char> {
    "SELECT id, location, recTime, temp, rH, VOC, NOx, pmass1, pmass25, pmass4, pmass10, HCHO, CO2, indoorTd FROM IAQ_SEN55"@
}

/// The tail of the retrieval statement: ordering by storage timestamp,
/// newest first, and the limit placeholder.
pub open spec fn select_tail_text() -> Seq<char> {
    " ORDER BY recTime DESC LIMIT ?"@
}

/// The predicate operators present for the given filters: start bound
/// first, then end bound.
pub open spec fn spec_select_ops(has_start: bool, has_end: bool) -> Seq<CompareOp> {
    (if has_start {
        seq![CompareOp::Ge]
    } else {
        Seq::empty()
    }) + (if has_end {
        seq![CompareOp::Le]
    } else {
        Seq::empty()
    })
}

/// The whole retrieval statement text. It depends only on which filters are
/// present, never on their values.
pub open spec fn spec_select_text(has_start: bool, has_end: bool) -> Seq<char> {
    select_base_text() + spec_where_clause(spec_select_ops(has_start, has_end)) + select_tail_text()
}

pub open spec fn spec_opt_view(o: Option<String>) -> Option<Seq<char>> {
    match o {
        Some(s) => Some(s@),
        None => None,
    }
}

/// The bind values of the retrieval statement: the start bound if present,
/// then the end bound if present, then always the limit, last.
pub open spec fn spec_select_binds(
    start: Option<Seq<char>>,
    end: Option<Seq<char>>,
    limit: i64,
) -> Seq<BindView> {
    (match start {
        Some(s) => seq![BindView::Text(s)],
        None => Seq::empty(),
    }) + (match end {
        Some(s) => seq![BindView::Text(s)],
        None => Seq::empty(),
    }) + seq![BindView::Int(limit as int)]
}

/// With no filters present the statement is the base text followed by the
/// ordering tail alone — no WHERE clause is rendered — and the only bind
/// value is the limit.
pub proof fn lemma_no_filters_no_where(limit: i64)
    ensures
        spec_select_text(false, false) == select_base_text() + select_tail_text(),
        spec_select_binds(None, None, limit) =~= seq![BindView::Int(limit as int)],
{
    assert(spec_select_ops(false, false) =~= Seq::<CompareOp>::empty());
    assert(spec_select_text(false, false) =~= select_base_text() + select_tail_text());
}

/// Whatever filters are present, the limit is always the final bind value,
/// after any range bind values.
pub proof fn lemma_limit_binds_last(start: Option<Seq<char>>, end: Option<Seq<char>>, limit: i64)
    ensures
        spec_select_binds(start, end, limit).len() >= 1,
        spec_select_binds(start, end, limit).last() == BindView::Int(limit as int),
{
}

/// Build the parameterized retrieval statement for an optional inclusive
/// start bound, an optional inclusive end bound, and a required limit.
pub fn build_select_query(
    start_date: Option<String>,
    end_date: Option<String>,
    limit: i64,
) -> (q: BuiltQuery)
    ensures
        q.text@ == spec_select_text(start_date is Some, end_date is Some),
        binds_view(q.binds@) == spec_select_binds(
            spec_opt_view(start_date),
            spec_opt_view(end_date),
            limit,
        ),
{
    let ghost has_start = start_date is Some;
    let ghost has_end = end_date is Some;
    let ghost start_view = spec_opt_view(start_date);
    let ghost end_view = spec_opt_view(end_date);

    let mut preds: Vec<TimePredicate> = Vec::new();
    match start_date {
        Some(s) => preds.push(TimePredicate { op: CompareOp::Ge, value: s }),
        None => {},
    }
    match end_date {
        Some(e) => preds.push(TimePredicate { op: CompareOp::Le, value: e }),
        None => {},
    }
    proof {
        assert(pred_ops(preds@) =~= spec_select_ops(has_start, has_end));
    }

    let clause = render_where_clause(&preds);
    let mut text = String::from_str(
        "SELECT id, location, recTime, temp, rH, VOC, NOx, pmass1, pmass25, pmass4, pmass10, HCHO, CO2, indoorTd FROM IAQ_SEN55",
    );
    text.append(clause.as_str());
    text.append(" ORDER BY recTime DESC LIMIT ?");

    let mut binds: Vec<BindValue> = Vec::new();
    let mut i: usize = 0;
    while i < preds.len()
        invariant
            i <= preds@.len(),
            binds@.len() == i,
            forall|j: int|
                0 <= j < i ==> bind_view(binds@[j]) == BindView::Text(preds@[j].value@),
        decreases preds@.len() - i,
    {
        binds.push(BindValue::Text(preds[i].value.clone()));
        i += 1;
    }
    binds.push(BindValue::Int(limit));
    proof {
        assert(binds_view(binds@) =~= spec_select_binds(start_view, end_view, limit));
    }

    BuiltQuery { text, binds }
}

} // verus!
