//! The fluent query builder: immutable INSERT and SELECT/DELETE
//! statement values that render to SQL text. Every renderable value
//! carries a mathematical view, and rendering is specified exactly over
//! that view: the WHERE predicates come out in call order, and the
//! clauses come out in the fixed order WHERE, ORDER BY, LIMIT, whatever
//! order the builder calls came in.

use vstd::prelude::*;
use vstd::string::*;

use crate::structs::{FieldNames, TableName};
use crate::text::{all_digits, check_all_digits, dec_str, join_with, usize_to_string};

verus! {

/// Entry point for building statements.
pub struct Query;

/// Comparison operator of one WHERE predicate.
#[derive(Debug, Clone, Copy, PartialEq, Eq, Structural)]
pub enum WhereExprOperator {
    Equal,
    NotEqual,
}

/// Sort direction of an ORDER BY clause.
#[derive(Debug, Clone, Copy, PartialEq, Eq, Structural)]
pub enum Order {
    Ascending,
    Descending,
}

struct WhereExpr {
    field: String,
    operator: WhereExprOperator,
    value: String,
}

/// One WHERE predicate with its leading keyword: the opening predicate
/// carries none, the others carry `OR` or `AND`.
enum WhereElement {
    First(WhereExpr),
    Or(WhereExpr),
    And(WhereExpr),
}

struct OrderBy {
    field: String,
    order: Order,
}

#[derive(Clone, Copy)]
struct Limit {
    limit_to: usize,
}

/// A renderable INSERT statement.
pub struct Insert {
    query: String,
}

/// A composable, immutable SELECT (or DELETE) statement: a fixed base,
/// the WHERE predicates in call order, and at most one ORDER BY and one
/// LIMIT.
pub struct Select {
    query: String,
    where_elements: Vec<WhereElement>,
    order_info: Option<OrderBy>,
    limit_info: Option<Limit>,
}

/// A SELECT whose WHERE clause is being built; every call appends one
/// predicate.
pub struct WhereActions {
    select: Select,
}

// ---------------------------------------------------------------------
// Mathematical views
// ---------------------------------------------------------------------
/// Mathematical image of one WHERE predicate.
#[verifier::ext_equal]
pub ghost struct WhereExprV {
    pub field: Seq<char>,
    pub operator: WhereExprOperator,
    pub value: Seq<char>,
}

/// Mathematical image of one WHERE predicate with its leading keyword.
#[verifier::ext_equal]
pub ghost enum WhereElementV {
    First(WhereExprV),
    Or(WhereExprV),
    And(WhereExprV),
}

/// Mathematical image of an ORDER BY clause.
#[verifier::ext_equal]
pub ghost struct OrderByV {
    pub field: Seq<char>,
    pub order: Order,
}

/// Mathematical image of a `Select`: base text, predicates in call
/// order, and the optional clauses.
#[verifier::ext_equal]
pub ghost struct SelectV {
    pub base: Seq<char>,
    pub wheres: Seq<WhereElementV>,
    pub order_info: Option<OrderByV>,
    pub limit_info: Option<nat>,
}

impl View for WhereExpr {
    type V = WhereExprV;

    closed spec fn view(&self) -> WhereExprV {
        WhereExprV { field: self.field@, operator: self.operator, value: self.value@ }
    }
}

impl View for WhereElement {
    type V = WhereElementV;

    closed spec fn view(&self) -> WhereElementV {
        match self {
            WhereElement::First(e) => WhereElementV::First(e@),
            WhereElement::Or(e) => WhereElementV::Or(e@),
            WhereElement::And(e) => WhereElementV::And(e@),
        }
    }
}

spec fn elems_view(es: Seq<WhereElement>) -> Seq<WhereElementV> {
    es.map_values(|e: WhereElement| e@)
}

impl View for Select {
    type V = SelectV;

    closed spec fn view(&self) -> SelectV {
        SelectV {
            base: self.query@,
            wheres: elems_view(self.where_elements@),
            order_info: match self.order_info {
                Option::None => Option::None,
                Option::Some(ob) => Option::Some(OrderByV { field: ob.field@, order: ob.order }),
            },
            limit_info: match self.limit_info {
                Option::None => Option::None,
                Option::Some(l) => Option::Some(l.limit_to as nat),
            },
        }
    }
}

impl View for WhereActions {
    type V = SelectV;

    closed spec fn view(&self) -> SelectV {
        self.select@
    }
}

impl View for Insert {
    type V = Seq<char>;

    closed spec fn view(&self) -> Seq<char> {
        self.query@
    }
}

// ---------------------------------------------------------------------
// Rendering, as mathematics
// ---------------------------------------------------------------------
/// How a comparison operator renders.
pub open spec fn spec_op_str(op: WhereExprOperator) -> Seq<char> {
    match op {
        WhereExprOperator::Equal => "="@,
        WhereExprOperator::NotEqual => "!="@,
    }
}

/// How a predicate value renders: unquoted when every character is a
/// digit, otherwise wrapped in single quotes with no escaping of
/// embedded quotes.
pub open spec fn spec_value_str(v: Seq<char>) -> Seq<char> {
    if all_digits(v) {
        v
    } else {
        seq!['\''] + v + seq!['\'']
    }
}

/// How one predicate renders: field, operator, value, single-spaced.
pub open spec fn spec_expr_str(e: WhereExprV) -> Seq<char> {
    e.field + " "@ + spec_op_str(e.operator) + " "@ + spec_value_str(e.value)
}

/// How one predicate renders together with its leading keyword.
pub open spec fn spec_element_str(e: WhereElementV) -> Seq<char> {
    match e {
        WhereElementV::First(x) => spec_expr_str(x),
        WhereElementV::Or(x) => "OR "@ + spec_expr_str(x),
        WhereElementV::And(x) => "AND "@ + spec_expr_str(x),
    }
}

/// How the WHERE clause renders: nothing when there is no predicate,
/// otherwise the predicates in order, space-separated, with no
/// parenthesization — a mixed AND/OR chain stays flat, exactly as
/// called.
pub open spec fn spec_where_str(ws: Seq<WhereElementV>) -> Seq<char> {
    if ws.len() == 0 {
        Seq::empty()
    } else {
        " WHERE "@ + join_with(ws.map_values(|e: WhereElementV| spec_element_str(e)), " "@)
    }
}

/// How the ORDER BY clause renders.
pub open spec fn spec_order_str(o: Option<OrderByV>) -> Seq<char> {
    match o {
        Option::None => Seq::empty(),
        Option::Some(ob) => " ORDER BY "@ + ob.field + (match ob.order {
            Order::Ascending => Seq::<char>::empty(),
            Order::Descending => " DESC"@,
        }),
    }
}

/// How the LIMIT clause renders.
pub open spec fn spec_limit_str(l: Option<nat>) -> Seq<char> {
    match l {
        Option::None => Seq::empty(),
        Option::Some(n) => " LIMIT "@ + dec_str(n),
    }
}

/// How a whole `Select` renders: base, then WHERE, then ORDER BY, then
/// LIMIT — this order is fixed here, independent of builder call order.
pub open spec fn spec_select_sql(v: SelectV) -> Seq<char> {
    v.base + spec_where_str(v.wheres) + spec_order_str(v.order_info) + spec_limit_str(v.limit_info)
}

/// The positional placeholder list `?1,?2,...,?k`.
pub open spec fn spec_placeholders(k: nat) -> Seq<char>
    decreases k,
{
    if k == 0 {
        Seq::empty()
    } else if k == 1 {
        seq!['?'] + dec_str(1)
    } else {
        spec_placeholders((k - 1) as nat) + seq![','] + seq!['?'] + dec_str(k)
    }
}

/// How an INSERT renders for a table and its declared columns: the
/// columns after the identifier, comma-joined, and one positional
/// placeholder per inserted column, in the same order.
pub open spec fn spec_insert_sql(table: Seq<char>, cols: Seq<Seq<char>>) -> Seq<char> {
    "INSERT INTO "@ + table + " ("@ + join_with(cols.skip(1), ","@) + ") VALUES ("@
        + spec_placeholders((cols.len() - 1) as nat) + ")"@
}

// ---------------------------------------------------------------------
// Cloning
// ---------------------------------------------------------------------
impl Clone for WhereExpr {
    fn clone(&self) -> (res: Self)
        ensures
            res@ == self@,
    {
        WhereExpr {
            field: self.field.clone(),
            operator: self.operator,
            value: self.value.clone(),
        }
    }
}

impl Clone for WhereElement {
    fn clone(&self) -> (res: Self)
        ensures
            res@ == self@,
    {
        match self {
            WhereElement::First(e) => WhereElement::First(e.clone()),
            WhereElement::Or(e) => WhereElement::Or(e.clone()),
            WhereElement::And(e) => WhereElement::And(e.clone()),
        }
    }
}

fn clone_elements(es: &Vec<WhereElement>) -> (res: Vec<WhereElement>)
    ensures
        elems_view(res@) == elems_view(es@),
{
    let mut res: Vec<WhereElement> = Vec::new();
    let mut i: usize = 0;
    while i < es.len()
        invariant
            0 <= i <= es@.len(),
            res@.len() == i,
            forall|j: int| 0 <= j < i ==> (#[trigger] res@[j])@ == es@[j]@,
        decreases es@.len() - i,
    {
        res.push(es[i].clone());
        i = i + 1;
    }
    proof {
        assert(elems_view(res@) =~= elems_view(es@));
    }
    res
}

impl Clone for Select {
    fn clone(&self) -> (res: Self)
        ensures
            res@ == self@,
    {
        let res = Select {
            query: self.query.clone(),
            where_elements: clone_elements(&self.where_elements),
            order_info: match &self.order_info {
                Option::None => Option::None,
                Option::Some(ob) => Option::Some(
                    OrderBy { field: ob.field.clone(), order: ob.order },
                ),
            },
            limit_info: match &self.limit_info {
                Option::None => Option::None,
                Option::Some(l) => Option::Some(Limit { limit_to: l.limit_to }),
            },
        };
        proof {
            assert(res@ =~~= self@);
        }
        res
    }
}

// ---------------------------------------------------------------------
// Spec-level builder steps
// ---------------------------------------------------------------------
/// Opening a WHERE clause: any predicates already present are replaced
/// by the one given.
pub open spec fn spec_with_first_where(v: SelectV, e: WhereExprV) -> SelectV {
    SelectV { wheres: seq![WhereElementV::First(e)], ..v }
}

/// Appending one predicate at the end of the clause, in call order.
pub open spec fn spec_with_appended(v: SelectV, e: WhereElementV) -> SelectV {
    SelectV { wheres: v.wheres.push(e), ..v }
}

/// Setting the LIMIT clause: at most one is active, the last call wins.
pub open spec fn spec_with_limit(v: SelectV, n: nat) -> SelectV {
    SelectV { limit_info: Option::Some(n), ..v }
}

/// Setting the ORDER BY clause: at most one is active, the last call
/// wins.
pub open spec fn spec_with_order(v: SelectV, field: Seq<char>, order: Order) -> SelectV {
    SelectV { order_info: Option::Some(OrderByV { field, order }), ..v }
}

// ---------------------------------------------------------------------
// The builders
// ---------------------------------------------------------------------
impl WhereActions {
    /// Opens a WHERE clause on `select` with the one given predicate,
    /// replacing any clause built before.
    pub fn start_where(select: &Select, field: &str, operator: WhereExprOperator, value: &str) -> (w:
        WhereActions)
        ensures
            w@ == spec_with_first_where(
                select@,
                WhereExprV { field: field@, operator, value: value@ },
            ),
    {
        let mut s = select.clone();
        let mut elems: Vec<WhereElement> = Vec::new();
        elems.push(
            WhereElement::First(
                WhereExpr { field: field.to_owned(), operator, value: value.to_owned() },
            ),
        );
        s.where_elements = elems;
        let w = WhereActions { select: s };
        proof {
            assert(w@ =~~= spec_with_first_where(
                select@,
                WhereExprV { field: field@, operator, value: value@ },
            ));
        }
        w
    }

    /// Closes the clause and hands the finished statement back.
    pub fn stop_where(&self) -> (s: Select)
        ensures
            s@ == self@,
    {
        self.select.clone()
    }

    fn new_conjunction(&self, element: WhereElement) -> (w: WhereActions)
        ensures
            w@ == spec_with_appended(self@, element@),
    {
        let mut s = self.select.clone();
        s.where_elements.push(element);
        let w = WhereActions { select: s };
        proof {
            assert(w@ =~~= spec_with_appended(self@, element@));
        }
        w
    }

    /// Appends one more predicate, preceded by the keyword `OR`, after
    /// everything appended so far.
    pub fn or(&self, field: &str, operator: WhereExprOperator, value: &str) -> (w: WhereActions)
        ensures
            w@ == spec_with_appended(
                self@,
                WhereElementV::Or(WhereExprV { field: field@, operator, value: value@ }),
            ),
    {
        self.new_conjunction(
            WhereElement::Or(
                WhereExpr { field: field.to_owned(), operator, value: value.to_owned() },
            ),
        )
    }

    /// Appends one more predicate, preceded by the keyword `AND`, after
    /// everything appended so far.
    pub fn and(&self, field: &str, operator: WhereExprOperator, value: &str) -> (w: WhereActions)
        ensures
            w@ == spec_with_appended(
                self@,
                WhereElementV::And(WhereExprV { field: field@, operator, value: value@ }),
            ),
    {
        self.new_conjunction(
            WhereElement::And(
                WhereExpr { field: field.to_owned(), operator, value: value.to_owned() },
            ),
        )
    }

    /// Renders the statement being built, clause order fixed.
    pub fn render(&self) -> (t: String)
        ensures
            t@ == spec_select_sql(self@),
    {
        self.select.render()
    }
}

impl Insert {
    fn new<T: TableName + FieldNames>() -> (ins: Insert)
        ensures
            ins@ == spec_insert_sql(T::spec_table_name(), T::spec_field_names()),
    {
        proof {
            T::field_names_at_least_id();
        }
        let names = T::get_field_names();
        let n = names.len();
        let ghost cols = T::spec_field_names();
        let mut fields = String::new();
        let mut i: usize = 1;
        while i < n
            invariant
                1 <= i <= n,
                n == names@.len(),
                names@.len() == cols.len(),
                cols == T::spec_field_names(),
                cols.len() >= 2,
                forall|j: int| 0 <= j < names@.len() ==> (#[trigger] names@[j])@ == cols[j],
                fields@ == join_with(cols.subrange(1, i as int), ","@),
            decreases n - i,
        {
            if i > 1 {
                fields.append(",");
            }
            fields.append(names[i]);
            proof {
                reveal_strlit(",");
                assert(cols.subrange(1, (i + 1) as int).drop_last() =~= cols.subrange(
                    1,
                    i as int,
                ));
                assert(cols.subrange(1, (i + 1) as int).last() == cols[i as int]);
                assert(fields@ =~= join_with(cols.subrange(1, (i + 1) as int), ","@));
            }
            i = i + 1;
        }
        let mut ph = String::new();
        let mut k: usize = 1;
        while k < n
            invariant
                1 <= k <= n,
                n == names@.len(),
                names@.len() == cols.len(),
                cols == T::spec_field_names(),
                ph@ == spec_placeholders((k - 1) as nat),
            decreases n - k,
        {
            if k > 1 {
                ph.append(",");
            }
            ph.append("?");
            let ks = usize_to_string(k);
            ph.append(ks.as_str());
            proof {
                reveal_strlit(",");
                reveal_strlit("?");
                assert(ph@ =~= spec_placeholders(k as nat));
            }
            k = k + 1;
        }
        let mut q = String::from_str("INSERT INTO ");
        q.append(T::table_name());
        q.append(" (");
        q.append(fields.as_str());
        q.append(") VALUES (");
        q.append(ph.as_str());
        q.append(")");
        proof {
            assert(cols.subrange(1, cols.len() as int) =~= cols.skip(1));
            assert(q@ =~= spec_insert_sql(T::spec_table_name(), T::spec_field_names()));
        }
        Insert { query: q }
    }

    /// Renders the finished INSERT text.
    pub fn render(&self) -> (t: String)
        ensures
            t@ == self@,
    {
        self.query.clone()
    }
}

fn op_literal(op: WhereExprOperator) -> (t: &'static str)
    ensures
        t@ == spec_op_str(op),
{
    match op {
        WhereExprOperator::Equal => "=",
        WhereExprOperator::NotEqual => "!=",
    }
}

fn render_expr(x: &WhereExpr) -> (s: String)
    ensures
        s@ == spec_expr_str(x@),
{
    let mut s = x.field.clone();
    s.append(" ");
    s.append(op_literal(x.operator));
    s.append(" ");
    if check_all_digits(x.value.as_str()) {
        s.append(x.value.as_str());
    } else {
        s.append("'");
        s.append(x.value.as_str());
        s.append("'");
        proof {
            reveal_strlit("'");
        }
    }
    proof {
        assert(s@ =~= spec_expr_str(x@));
    }
    s
}

fn render_element(e: &WhereElement) -> (s: String)
    ensures
        s@ == spec_element_str(e@),
{
    match e {
        WhereElement::First(x) => render_expr(x),
        WhereElement::Or(x) => {
            let mut s = String::from_str("OR ");
            let t = render_expr(x);
            s.append(t.as_str());
            s
        },
        WhereElement::And(x) => {
            let mut s = String::from_str("AND ");
            let t = render_expr(x);
            s.append(t.as_str());
            s
        },
    }
}

impl Select {
    fn new<T: TableName>() -> (s: Select)
        ensures
            s@ == (SelectV {
                base: "SELECT * FROM "@ + T::spec_table_name(),
                wheres: Seq::empty(),
                order_info: Option::None,
                limit_info: Option::None,
            }),
    {
        let mut q = String::from_str("SELECT * FROM ");
        q.append(T::table_name());
        let s = Select {
            query: q,
            where_elements: Vec::new(),
            order_info: Option::None,
            limit_info: Option::None,
        };
        proof {
            assert(elems_view(Seq::<WhereElement>::empty()) =~= Seq::<WhereElementV>::empty());
        }
        s
    }

    fn new_delete<T: TableName>() -> (s: Select)
        ensures
            s@ == (SelectV {
                base: "DELETE FROM "@ + T::spec_table_name(),
                wheres: Seq::empty(),
                order_info: Option::None,
                limit_info: Option::None,
            }),
    {
        let mut q = String::from_str("DELETE FROM ");
        q.append(T::table_name());
        let s = Select {
            query: q,
            where_elements: Vec::new(),
            order_info: Option::None,
            limit_info: Option::None,
        };
        proof {
            assert(elems_view(Seq::<WhereElement>::empty()) =~= Seq::<WhereElementV>::empty());
        }
        s
    }

    /// Opens a WHERE clause with the one given predicate.
    pub fn where_(&self, field: &str, operator: WhereExprOperator, value: &str) -> (w:
        WhereActions)
        ensures
            w@ == spec_with_first_where(
                self@,
                WhereExprV { field: field@, operator, value: value@ },
            ),
    {
        WhereActions::start_where(self, field, operator, value)
    }

    /// Sets the LIMIT clause; a second call replaces the first.
    pub fn limit(&self, limit_to: usize) -> (s: Select)
        ensures
            s@ == spec_with_limit(self@, limit_to as nat),
    {
        let mut s = self.clone();
        s.limit_info = Option::Some(Limit { limit_to });
        proof {
            assert(s@ =~~= spec_with_limit(self@, limit_to as nat));
        }
        s
    }

    /// Sets the ORDER BY clause; a second call replaces the first.
    pub fn order_by(&self, field: &str, order: Order) -> (s: Select)
        ensures
            s@ == spec_with_order(self@, field@, order),
    {
        let mut s = self.clone();
        s.order_info = Option::Some(OrderBy { field: field.to_owned(), order });
        proof {
            assert(s@ =~~= spec_with_order(self@, field@, order));
        }
        s
    }

    /// Renders the statement: base, then WHERE, then ORDER BY, then
    /// LIMIT, whatever order the clauses were set in.
    pub fn render(&self) -> (t: String)
        ensures
            t@ == spec_select_sql(self@),
    {
        let mut out = self.query.clone();
        let ghost mapped = self@.wheres.map_values(|e: WhereElementV| spec_element_str(e));
        if self.where_elements.len() > 0 {
            out.append(" WHERE ");
            let mut i: usize = 0;
            while i < self.where_elements.len()
                invariant
                    0 <= i <= self.where_elements@.len(),
                    mapped == self@.wheres.map_values(|e: WhereElementV| spec_element_str(e)),
                    self@.wheres.len() == self.where_elements@.len(),
                    self@.wheres == elems_view(self.where_elements@),
                    out@ == self.query@ + " WHERE "@ + join_with(
                        mapped.subrange(0, i as int),
                        " "@,
                    ),
                decreases self.where_elements@.len() - i,
            {
                if i > 0 {
                    out.append(" ");
                }
                let es = render_element(&self.where_elements[i]);
                out.append(es.as_str());
                proof {
                    reveal_strlit(" ");
                    assert(mapped.subrange(0, (i + 1) as int).drop_last() =~= mapped.subrange(
                        0,
                        i as int,
                    ));
                    assert(mapped.subrange(0, (i + 1) as int).last() == mapped[i as int]);
                    assert(out@ =~= self.query@ + " WHERE "@ + join_with(
                        mapped.subrange(0, (i + 1) as int),
                        " "@,
                    ));
                }
                i = i + 1;
            }
            proof {
                assert(mapped.subrange(0, mapped.len() as int) =~= mapped);
            }
        }
        match &self.order_info {
            Option::None => {},
            Option::Some(ob) => {
                out.append(" ORDER BY ");
                out.append(ob.field.as_str());
                match ob.order {
                    Order::Ascending => {},
                    Order::Descending => {
                        out.append(" DESC");
                    },
                }
            },
        }
        match &self.limit_info {
            Option::None => {},
            Option::Some(l) => {
                out.append(" LIMIT ");
                let ls = usize_to_string(l.limit_to);
                out.append(ls.as_str());
            },
        }
        proof {
            assert(out@ =~= spec_select_sql(self@));
        }
        out
    }
}

impl Query {
    /// An INSERT for the entity type's table and columns.
    pub fn insert<T: TableName + FieldNames>() -> (ins: Insert)
        ensures
            ins@ == spec_insert_sql(T::spec_table_name(), T::spec_field_names()),
    {
        Insert::new::<T>()
    }

    /// A bare SELECT over the entity type's table.
    pub fn select<T: TableName>() -> (s: Select)
        ensures
            s@ == (SelectV {
                base: "SELECT * FROM "@ + T::spec_table_name(),
                wheres: Seq::empty(),
                order_info: Option::None,
                limit_info: Option::None,
            }),
    {
        Select::new::<T>()
    }

    /// A bare DELETE over the entity type's table, filtered by the same
    /// WHERE builder a SELECT uses.
    pub fn delete<T: TableName>() -> (s: Select)
        ensures
            s@ == (SelectV {
                base: "DELETE FROM "@ + T::spec_table_name(),
                wheres: Seq::empty(),
                order_info: Option::None,
                limit_info: Option::None,
            }),
    {
        Select::new_delete::<T>()
    }
}

// ---------------------------------------------------------------------
// Laws of rendering
// ---------------------------------------------------------------------
/// A WHERE clause opens with its first predicate and nothing else.
pub proof fn lemma_where_starts(e: WhereElementV)
    ensures
        spec_where_str(seq![e]) == " WHERE "@ + spec_element_str(e),
{
    let mapped = seq![e].map_values(|x: WhereElementV| spec_element_str(x));
    assert(mapped =~= seq![spec_element_str(e)]);
}

/// Predicates render in call order: appending one more predicate
/// appends its text at the end of the clause and reorders nothing —
/// composition order is call order, not precedence order.
pub proof fn lemma_where_call_order(ws: Seq<WhereElementV>, e: WhereElementV)
    requires
        ws.len() > 0,
    ensures
        spec_where_str(ws.push(e)) == spec_where_str(ws) + " "@ + spec_element_str(e),
{
    let mapped = ws.map_values(|x: WhereElementV| spec_element_str(x));
    let mapped_all = ws.push(e).map_values(|x: WhereElementV| spec_element_str(x));
    assert(mapped_all =~= mapped.push(spec_element_str(e)));
    assert(mapped.push(spec_element_str(e)).drop_last() =~= mapped);
    assert(mapped.push(spec_element_str(e)).last() == spec_element_str(e));
    assert(spec_where_str(ws.push(e)) =~= spec_where_str(ws) + " "@ + spec_element_str(e));
}

/// Clause order on render is fixed, whatever order the builder calls
/// came in: setting LIMIT before ORDER BY builds the same statement as
/// setting them the other way round, and either way the render is base,
/// WHERE, ORDER BY, LIMIT. A repeated LIMIT or ORDER BY replaces the
/// earlier one — the last call wins.
pub proof fn lemma_clause_order_fixed(v: SelectV, field: Seq<char>, order: Order, n: nat, m: nat)
    ensures
        spec_with_order(spec_with_limit(v, n), field, order) == spec_with_limit(
            spec_with_order(v, field, order),
            n,
        ),
        spec_select_sql(spec_with_order(spec_with_limit(v, n), field, order)) == v.base
            + spec_where_str(v.wheres) + spec_order_str(
            Option::Some(OrderByV { field, order }),
        ) + spec_limit_str(Option::Some(n)),
        spec_with_limit(spec_with_limit(v, m), n) == spec_with_limit(v, n),
        spec_with_order(spec_with_order(v, field, order), field, order) == spec_with_order(
            v,
            field,
            order,
        ),
{
}

} // verus!
