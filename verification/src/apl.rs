//! A typestate builder for APL expressions on one line.
//!
//! The builder records tabular operators and renders them in order. The
//! comparison helpers (`where_eq` and friends) treat their right operand as
//! a string literal and quote it. Conjunction clauses (`and_*`, `or_*`) are
//! recorded for the typestate but the renderer does not emit them.

use vstd::prelude::*;

use crate::num::dec_digits;
use crate::text::{join_sep, spec_join_sep};

verus! {

/// One recorded tabular operator.
#[derive(Debug)]
pub enum TabularOperator {
    /// A `where` comparison.
    Where {
        /// The left operand.
        left: String,
        /// The comparison operator.
        op: String,
        /// The right operand.
        right: String,
    },
    /// An `and` clause extending a `where` comparison.
    And {
        /// The left operand.
        left: String,
        /// The comparison operator.
        op: String,
        /// The right operand.
        right: String,
    },
    /// An `or` clause extending a `where` comparison.
    Or {
        /// The left operand.
        left: String,
        /// The comparison operator.
        op: String,
        /// The right operand.
        right: String,
    },
    /// A `count` operator.
    Count,
    /// A `project` operator.
    Project {
        /// The projected expressions.
        exprs: Vec<String>,
    },
    /// A `project-keep` operator.
    ProjectKeep {
        /// The kept fields.
        fields: Vec<String>,
    },
    /// A `project-away` operator.
    ProjectAway {
        /// The dropped fields.
        fields: Vec<String>,
    },
    /// A `take` operator.
    Take(u32),
    /// An `extend` operator.
    Extend {
        /// The extension expressions.
        exprs: Vec<String>,
    },
    /// A `summarize` operator with its `by` grouping.
    Summarize {
        /// The aggregation expression.
        aggregation: String,
        /// The grouping expression.
        by: String,
    },
}

/// The rendering of one operator. Conjunction clauses render as nothing.
pub open spec fn spec_op_text(op: TabularOperator) -> Seq<char> {
    match op {
        TabularOperator::Where { left, op, right } => " | where "@ + left@ + " "@ + op@ + " "@
            + right@,
        TabularOperator::And { .. } => Seq::empty(),
        TabularOperator::Or { .. } => Seq::empty(),
        TabularOperator::Count => " | count"@,
        TabularOperator::Project { exprs } => " | project "@ + spec_join_sep(
            exprs.deep_view(),
            ", "@,
        ),
        TabularOperator::ProjectKeep { fields } => " | project-keep "@ + spec_join_sep(
            fields.deep_view(),
            ", "@,
        ),
        TabularOperator::ProjectAway { fields } => " | project-away "@ + spec_join_sep(
            fields.deep_view(),
            ", "@,
        ),
        TabularOperator::Take(n) => " | take "@ + dec_digits(n as nat),
        TabularOperator::Extend { exprs } => " | extend "@ + spec_join_sep(
            exprs.deep_view(),
            ", "@,
        ),
        TabularOperator::Summarize { aggregation, by } => " | summarize "@ + aggregation@ + " by "@
            + by@,
    }
}

/// The rendering of a list of operators, in order.
pub open spec fn spec_ops_text(ops: Seq<TabularOperator>) -> Seq<char>
    decreases ops.len(),
{
    if ops.len() == 0 {
        Seq::empty()
    } else {
        spec_op_text(ops[0]) + spec_ops_text(ops.drop_first())
    }
}

proof fn lemma_ops_text_push(ops: Seq<TabularOperator>, x: TabularOperator)
    ensures
        spec_ops_text(ops.push(x)) =~= spec_ops_text(ops) + spec_op_text(x),
    decreases ops.len(),
{
    let p = ops.push(x);
    if ops.len() == 0 {
        assert(p[0] == x);
        assert(p.drop_first() =~= Seq::<TabularOperator>::empty());
        assert(spec_ops_text(p) == spec_op_text(p[0]) + spec_ops_text(p.drop_first()));
        assert(spec_op_text(x) + Seq::<char>::empty() =~= spec_op_text(x));
        assert(Seq::<char>::empty() + spec_op_text(x) =~= spec_op_text(x));
    } else {
        lemma_ops_text_push(ops.drop_first(), x);
        assert(p.drop_first() =~= ops.drop_first().push(x));
        assert(p[0] == ops[0]);
        assert(spec_ops_text(p) == spec_op_text(p[0]) + spec_ops_text(p.drop_first()));
        assert(spec_op_text(ops[0]) + (spec_ops_text(ops.drop_first()) + spec_op_text(x)) =~= (
        spec_op_text(ops[0]) + spec_ops_text(ops.drop_first())) + spec_op_text(x));
    }
}

/// The whole rendered expression: the quoted dataset name, then the
/// operators.
pub open spec fn spec_apl_text(dataset: Seq<char>, ops: Seq<TabularOperator>) -> Seq<char> {
    "['"@ + dataset + "']"@ + spec_ops_text(ops)
}

/// A string wrapped in double quotes, as the comparison helpers treat their
/// right operand.
pub open spec fn spec_quoted(s: Seq<char>) -> Seq<char> {
    "\""@ + s + "\""@
}

fn quoted(s: &str) -> (r: String)
    ensures
        r@ == spec_quoted(s@),
{
    proof {
        reveal_strlit("\"");
    }
    let mut q = "\"".to_owned();
    q.append(s);
    q.append("\"");
    q
}

/// The builder before a dataset is named.
pub struct Empty;

/// The builder state after the dataset is named.
pub struct WithDataset {
    dataset_name: String,
    tabular_operators: Vec<TabularOperator>,
}

/// The builder state inside a `where` clause.
pub struct InWhereClause {
    dataset_name: String,
    tabular_operators: Vec<TabularOperator>,
}

/// The APL expression builder; its type parameter is the current state.
#[derive(Debug)]
pub struct AplBuilder<S> {
    state: S,
}

/// Starts a fresh APL expression builder.
pub fn builder() -> (r: AplBuilder<Empty>) {
    AplBuilder { state: Empty }
}

impl AplBuilder<Empty> {
    /// Names the dataset the expression runs on.
    pub fn dataset(self, dataset_name: &str) -> (r: AplBuilder<WithDataset>)
        ensures
            r.spec_dataset() == dataset_name@,
            r.spec_ops() == Seq::<TabularOperator>::empty(),
    {
        AplBuilder {
            state: WithDataset { dataset_name: dataset_name.to_owned(), tabular_operators: Vec::new() },
        }
    }
}

/// Access to the recorded parts of a builder state.
pub trait WithTabularOperators: Sized {
    /// The dataset name.
    spec fn spec_dataset(&self) -> Seq<char>;

    /// The recorded operators, in order.
    spec fn spec_ops(&self) -> Seq<TabularOperator>;

    /// Takes the builder apart into the dataset name and the operators.
    fn into_parts(self) -> (r: (String, Vec<TabularOperator>))
        ensures
            r.0@ == self.spec_dataset(),
            r.1@ == self.spec_ops(),
    ;

    /// Records one more operator.
    fn push_tabular_operator(&mut self, action: TabularOperator)
        ensures
            final(self).spec_dataset() == old(self).spec_dataset(),
            final(self).spec_ops() == old(self).spec_ops().push(action),
    ;

    /// Rebuilds the builder from the dataset name and the operators.
    fn from_parts(dataset_name: String, ops: Vec<TabularOperator>) -> (r: Self)
        ensures
            r.spec_dataset() == dataset_name@,
            r.spec_ops() == ops@,
    ;
}

impl WithTabularOperators for AplBuilder<WithDataset> {
    closed spec fn spec_dataset(&self) -> Seq<char> {
        self.state.dataset_name@
    }

    closed spec fn spec_ops(&self) -> Seq<TabularOperator> {
        self.state.tabular_operators@
    }

    fn into_parts(self) -> (r: (String, Vec<TabularOperator>)) {
        (self.state.dataset_name, self.state.tabular_operators)
    }

    fn push_tabular_operator(&mut self, action: TabularOperator) {
        self.state.tabular_operators.push(action);
    }

    fn from_parts(dataset_name: String, ops: Vec<TabularOperator>) -> (r: Self) {
        AplBuilder { state: WithDataset { dataset_name, tabular_operators: ops } }
    }
}

impl WithTabularOperators for AplBuilder<InWhereClause> {
    closed spec fn spec_dataset(&self) -> Seq<char> {
        self.state.dataset_name@
    }

    closed spec fn spec_ops(&self) -> Seq<TabularOperator> {
        self.state.tabular_operators@
    }

    fn into_parts(self) -> (r: (String, Vec<TabularOperator>)) {
        (self.state.dataset_name, self.state.tabular_operators)
    }

    fn push_tabular_operator(&mut self, action: TabularOperator) {
        self.state.tabular_operators.push(action);
    }

    fn from_parts(dataset_name: String, ops: Vec<TabularOperator>) -> (r: Self) {
        AplBuilder { state: InWhereClause { dataset_name, tabular_operators: ops } }
    }
}

impl TabularOperators for AplBuilder<WithDataset> {

}

impl TabularOperators for AplBuilder<InWhereClause> {

}

/// True when the operator is a `where` comparison with the given parts.
pub open spec fn is_where_op(op: TabularOperator, l: Seq<char>, o: Seq<char>, r: Seq<char>) -> bool {
    op matches TabularOperator::Where { left, op: cmp, right } && left@ == l && cmp@ == o
        && right@ == r
}

/// True when the operator is an `and` clause with the given parts.
pub open spec fn is_and_op(op: TabularOperator, l: Seq<char>, o: Seq<char>, r: Seq<char>) -> bool {
    op matches TabularOperator::And { left, op: cmp, right } && left@ == l && cmp@ == o && right@
        == r
}

/// True when the operator is an `or` clause with the given parts.
pub open spec fn is_or_op(op: TabularOperator, l: Seq<char>, o: Seq<char>, r: Seq<char>) -> bool {
    op matches TabularOperator::Or { left, op: cmp, right } && left@ == l && cmp@ == o && right@
        == r
}

/// The tabular operators every state accepts.
pub trait TabularOperators: WithTabularOperators + Sized {
    /// Records an `extend` operator.
    fn extend(self, exprs: Vec<String>) -> (r: AplBuilder<WithDataset>)
        ensures
            r.spec_dataset() == self.spec_dataset(),
            r.spec_ops().len() == self.spec_ops().len() + 1,
            r.spec_ops().drop_last() == self.spec_ops(),
            r.spec_ops().last() matches TabularOperator::Extend { exprs: e } && e.deep_view()
                == exprs.deep_view(),
    {
        let (dataset_name, mut tabular_operators) = self.into_parts();
        let ghost before = tabular_operators@;
        tabular_operators.push(TabularOperator::Extend { exprs });
        proof {
            assert(tabular_operators@.drop_last() =~= before);
        }
        AplBuilder { state: WithDataset { dataset_name, tabular_operators } }
    }

    /// Records a `where` comparison with an explicit operator; the right
    /// operand passes through unquoted.
    fn where_raw(self, left: &str, op: &str, right: &str) -> (r: AplBuilder<InWhereClause>)
        ensures
            r.spec_dataset() == self.spec_dataset(),
            r.spec_ops().len() == self.spec_ops().len() + 1,
            r.spec_ops().drop_last() == self.spec_ops(),
            is_where_op(r.spec_ops().last(), left@, op@, right@),
    {
        let (dataset_name, mut tabular_operators) = self.into_parts();
        let ghost before = tabular_operators@;
        tabular_operators.push(
            TabularOperator::Where {
                left: left.to_owned(),
                op: op.to_owned(),
                right: right.to_owned(),
            },
        );
        proof {
            assert(tabular_operators@.drop_last() =~= before);
        }
        AplBuilder { state: InWhereClause { dataset_name, tabular_operators } }
    }

    /// Records an equality `where` comparison against a string literal.
    fn where_eq(self, left: &str, right: &str) -> (r: AplBuilder<InWhereClause>)
        ensures
            r.spec_dataset() == self.spec_dataset(),
            r.spec_ops().len() == self.spec_ops().len() + 1,
            r.spec_ops().drop_last() == self.spec_ops(),
            is_where_op(r.spec_ops().last(), left@, "=="@, spec_quoted(right@)),
    {
        proof {
            reveal_strlit("==");
        }
        self.where_cmp(left, "==", right)
    }

    /// Records an inequality `where` comparison against a string literal.
    fn where_ne(self, left: &str, right: &str) -> (r: AplBuilder<InWhereClause>)
        ensures
            r.spec_dataset() == self.spec_dataset(),
            r.spec_ops().len() == self.spec_ops().len() + 1,
            r.spec_ops().drop_last() == self.spec_ops(),
            is_where_op(r.spec_ops().last(), left@, "!="@, spec_quoted(right@)),
    {
        proof {
            reveal_strlit("!=");
        }
        self.where_cmp(left, "!=", right)
    }

    /// Records a greater-than `where` comparison against a string literal.
    fn where_gt(self, left: &str, right: &str) -> (r: AplBuilder<InWhereClause>)
        ensures
            r.spec_dataset() == self.spec_dataset(),
            r.spec_ops().len() == self.spec_ops().len() + 1,
            r.spec_ops().drop_last() == self.spec_ops(),
            is_where_op(r.spec_ops().last(), left@, ">"@, spec_quoted(right@)),
    {
        proof {
            reveal_strlit(">");
        }
        self.where_cmp(left, ">", right)
    }

    /// Records a greater-or-equal `where` comparison against a string
    /// literal.
    fn where_ge(self, left: &str, right: &str) -> (r: AplBuilder<InWhereClause>)
        ensures
            r.spec_dataset() == self.spec_dataset(),
            r.spec_ops().len() == self.spec_ops().len() + 1,
            r.spec_ops().drop_last() == self.spec_ops(),
            is_where_op(r.spec_ops().last(), left@, ">="@, spec_quoted(right@)),
    {
        proof {
            reveal_strlit(">=");
        }
        self.where_cmp(left, ">=", right)
    }

    /// Records a less-than `where` comparison against a string literal.
    fn where_lt(self, left: &str, right: &str) -> (r: AplBuilder<InWhereClause>)
        ensures
            r.spec_dataset() == self.spec_dataset(),
            r.spec_ops().len() == self.spec_ops().len() + 1,
            r.spec_ops().drop_last() == self.spec_ops(),
            is_where_op(r.spec_ops().last(), left@, "<"@, spec_quoted(right@)),
    {
        proof {
            reveal_strlit("<");
        }
        self.where_cmp(left, "<", right)
    }

    /// Records a less-or-equal `where` comparison against a string literal.
    fn where_le(self, left: &str, right: &str) -> (r: AplBuilder<InWhereClause>)
        ensures
            r.spec_dataset() == self.spec_dataset(),
            r.spec_ops().len() == self.spec_ops().len() + 1,
            r.spec_ops().drop_last() == self.spec_ops(),
            is_where_op(r.spec_ops().last(), left@, "<="@, spec_quoted(right@)),
    {
        proof {
            reveal_strlit("<=");
        }
        self.where_cmp(left, "<=", right)
    }

    /// Records a `where` comparison whose right operand is quoted as a
    /// string literal.
    fn where_cmp(self, left: &str, op: &str, right: &str) -> (r: AplBuilder<InWhereClause>)
        ensures
            r.spec_dataset() == self.spec_dataset(),
            r.spec_ops().len() == self.spec_ops().len() + 1,
            r.spec_ops().drop_last() == self.spec_ops(),
            is_where_op(r.spec_ops().last(), left@, op@, spec_quoted(right@)),
    {
        let (dataset_name, mut tabular_operators) = self.into_parts();
        let ghost before = tabular_operators@;
        tabular_operators.push(
            TabularOperator::Where {
                left: left.to_owned(),
                op: op.to_owned(),
                right: quoted(right),
            },
        );
        proof {
            assert(tabular_operators@.drop_last() =~= before);
        }
        AplBuilder { state: InWhereClause { dataset_name, tabular_operators } }
    }

    /// Records a `count` operator.
    fn count(self) -> (r: AplBuilder<WithDataset>)
        ensures
            r.spec_dataset() == self.spec_dataset(),
            r.spec_ops() == self.spec_ops().push(TabularOperator::Count),
    {
        let (dataset_name, mut tabular_operators) = self.into_parts();
        tabular_operators.push(TabularOperator::Count);
        AplBuilder { state: WithDataset { dataset_name, tabular_operators } }
    }

    /// Records a `project` operator.
    fn project(self, exprs: Vec<String>) -> (r: Self)
        ensures
            r.spec_dataset() == self.spec_dataset(),
            r.spec_ops().len() == self.spec_ops().len() + 1,
            r.spec_ops().drop_last() == self.spec_ops(),
            r.spec_ops().last() matches TabularOperator::Project { exprs: e } && e.deep_view()
                == exprs.deep_view(),
    {
        let (dataset_name, mut tabular_operators) = self.into_parts();
        let ghost before = tabular_operators@;
        tabular_operators.push(TabularOperator::Project { exprs });
        proof {
            assert(tabular_operators@.drop_last() =~= before);
        }
        Self::from_parts(dataset_name, tabular_operators)
    }

    /// Records a `project-away` operator.
    fn project_away(self, fields: Vec<String>) -> (r: AplBuilder<WithDataset>)
        ensures
            r.spec_dataset() == self.spec_dataset(),
            r.spec_ops().len() == self.spec_ops().len() + 1,
            r.spec_ops().drop_last() == self.spec_ops(),
            r.spec_ops().last() matches TabularOperator::ProjectAway { fields: f } && f.deep_view()
                == fields.deep_view(),
    {
        let (dataset_name, mut tabular_operators) = self.into_parts();
        let ghost before = tabular_operators@;
        tabular_operators.push(TabularOperator::ProjectAway { fields });
        proof {
            assert(tabular_operators@.drop_last() =~= before);
        }
        AplBuilder { state: WithDataset { dataset_name, tabular_operators } }
    }

    /// Records a `project-keep` operator.
    fn project_keep(self, fields: Vec<String>) -> (r: AplBuilder<WithDataset>)
        ensures
            r.spec_dataset() == self.spec_dataset(),
            r.spec_ops().len() == self.spec_ops().len() + 1,
            r.spec_ops().drop_last() == self.spec_ops(),
            r.spec_ops().last() matches TabularOperator::ProjectKeep { fields: f } && f.deep_view()
                == fields.deep_view(),
    {
        let (dataset_name, mut tabular_operators) = self.into_parts();
        let ghost before = tabular_operators@;
        tabular_operators.push(TabularOperator::ProjectKeep { fields });
        proof {
            assert(tabular_operators@.drop_last() =~= before);
        }
        AplBuilder { state: WithDataset { dataset_name, tabular_operators } }
    }

    /// Records a `take` operator.
    fn take(self, n: u32) -> (r: AplBuilder<WithDataset>)
        ensures
            r.spec_dataset() == self.spec_dataset(),
            r.spec_ops() == self.spec_ops().push(TabularOperator::Take(n)),
    {
        let (dataset_name, mut tabular_operators) = self.into_parts();
        tabular_operators.push(TabularOperator::Take(n));
        AplBuilder { state: WithDataset { dataset_name, tabular_operators } }
    }

    /// Records a `summarize` operator with its grouping.
    fn summarize(self, aggregation: &str, by: &str) -> (r: AplBuilder<WithDataset>)
        ensures
            r.spec_dataset() == self.spec_dataset(),
            r.spec_ops().len() == self.spec_ops().len() + 1,
            r.spec_ops().drop_last() == self.spec_ops(),
            r.spec_ops().last() matches TabularOperator::Summarize { aggregation: a, by: b }
                && a@ == aggregation@ && b@ == by@,
    {
        let (dataset_name, mut tabular_operators) = self.into_parts();
        let ghost before = tabular_operators@;
        tabular_operators.push(
            TabularOperator::Summarize { aggregation: aggregation.to_owned(), by: by.to_owned() },
        );
        proof {
            assert(tabular_operators@.drop_last() =~= before);
        }
        AplBuilder { state: WithDataset { dataset_name, tabular_operators } }
    }

    /// Renders the recorded expression.
    fn build(self) -> (r: String)
        ensures
            r@ == spec_apl_text(self.spec_dataset(), self.spec_ops()),
    {
        proof {
            reveal_strlit("['");
            reveal_strlit("']");
        }
        let (dataset_name, ops) = self.into_parts();
        let mut apl = "['".to_owned();
        apl.append(dataset_name.as_str());
        apl.append("']");
        let n = ops.len();
        let mut i: usize = 0;
        proof {
            assert(spec_ops_text(ops@.subrange(0, 0)) =~= Seq::<char>::empty());
            assert(apl@ + spec_ops_text(ops@.subrange(0, 0)) =~= apl@);
        }
        let ghost head = apl@;
        while i < n
            invariant
                0 <= i <= n == ops@.len(),
                apl@ =~= head + spec_ops_text(ops@.subrange(0, i as int)),
            decreases n - i,
        {
            append_op(&mut apl, &ops[i]);
            proof {
                assert(ops@.subrange(0, i + 1) =~= ops@.subrange(0, i as int).push(
                    ops@[i as int],
                ));
                lemma_ops_text_push(ops@.subrange(0, i as int), ops@[i as int]);
            }
            i = i + 1;
        }
        proof {
            assert(ops@.subrange(0, n as int) =~= ops@);
        }
        apl
    }
}

/// Appends the rendering of one operator.
fn append_op(out: &mut String, op: &TabularOperator)
    ensures
        final(out)@ == old(out)@ + spec_op_text(*op),
{
    proof {
        reveal_strlit(" | where ");
        reveal_strlit(" ");
        reveal_strlit(" | count");
        reveal_strlit(" | project ");
        reveal_strlit(" | project-keep ");
        reveal_strlit(" | project-away ");
        reveal_strlit(" | take ");
        reveal_strlit(" | extend ");
        reveal_strlit(" | summarize ");
        reveal_strlit(" by ");
        reveal_strlit(", ");
    }
    match op {
        TabularOperator::Where { left, op, right } => {
            out.append(" | where ");
            out.append(left.as_str());
            out.append(" ");
            out.append(op.as_str());
            out.append(" ");
            out.append(right.as_str());
        },
        TabularOperator::And { .. } => {},
        TabularOperator::Or { .. } => {},
        TabularOperator::Count => {
            out.append(" | count");
        },
        TabularOperator::Project { exprs } => {
            out.append(" | project ");
            let joined = join_sep(exprs, ", ");
            out.append(joined.as_str());
        },
        TabularOperator::ProjectKeep { fields } => {
            out.append(" | project-keep ");
            let joined = join_sep(fields, ", ");
            out.append(joined.as_str());
        },
        TabularOperator::ProjectAway { fields } => {
            out.append(" | project-away ");
            let joined = join_sep(fields, ", ");
            out.append(joined.as_str());
        },
        TabularOperator::Take(n) => {
            out.append(" | take ");
            let digits = crate::num::u64_to_string(*n as u64);
            out.append(digits.as_str());
        },
        TabularOperator::Extend { exprs } => {
            out.append(" | extend ");
            let joined = join_sep(exprs, ", ");
            out.append(joined.as_str());
        },
        TabularOperator::Summarize { aggregation, by } => {
            out.append(" | summarize ");
            out.append(aggregation.as_str());
            out.append(" by ");
            out.append(by.as_str());
        },
    }
}

impl AplBuilder<InWhereClause> {
    /// Records an `and` clause with an explicit operator.
    pub fn and_raw(self, left: &str, op: &str, right: &str) -> (r: AplBuilder<InWhereClause>)
        ensures
            r.spec_dataset() == self.spec_dataset(),
            r.spec_ops().len() == self.spec_ops().len() + 1,
            r.spec_ops().drop_last() == self.spec_ops(),
            is_and_op(r.spec_ops().last(), left@, op@, right@),
    {
        let (dataset_name, mut tabular_operators) = self.into_parts();
        let ghost before = tabular_operators@;
        tabular_operators.push(
            TabularOperator::And {
                left: left.to_owned(),
                op: op.to_owned(),
                right: right.to_owned(),
            },
        );
        proof {
            assert(tabular_operators@.drop_last() =~= before);
        }
        AplBuilder { state: InWhereClause { dataset_name, tabular_operators } }
    }

    /// Records an `and` clause whose right operand is quoted as a string
    /// literal.
    pub fn and_cmp(self, left: &str, op: &str, right: &str) -> (r: AplBuilder<InWhereClause>)
        ensures
            r.spec_dataset() == self.spec_dataset(),
            r.spec_ops().len() == self.spec_ops().len() + 1,
            r.spec_ops().drop_last() == self.spec_ops(),
            is_and_op(r.spec_ops().last(), left@, op@, spec_quoted(right@)),
    {
        let (dataset_name, mut tabular_operators) = self.into_parts();
        let ghost before = tabular_operators@;
        tabular_operators.push(
            TabularOperator::And { left: left.to_owned(), op: op.to_owned(), right: quoted(right) },
        );
        proof {
            assert(tabular_operators@.drop_last() =~= before);
        }
        AplBuilder { state: InWhereClause { dataset_name, tabular_operators } }
    }

    /// Records an equality `and` clause against a string literal.
    pub fn and_eq(self, left: &str, right: &str) -> (r: AplBuilder<InWhereClause>)
        ensures
            r.spec_dataset() == self.spec_dataset(),
            r.spec_ops().len() == self.spec_ops().len() + 1,
            r.spec_ops().drop_last() == self.spec_ops(),
            is_and_op(r.spec_ops().last(), left@, "=="@, spec_quoted(right@)),
    {
        proof {
            reveal_strlit("==");
        }
        self.and_cmp(left, "==", right)
    }

    /// Records an inequality `and` clause against a string literal.
    pub fn and_ne(self, left: &str, right: &str) -> (r: AplBuilder<InWhereClause>)
        ensures
            r.spec_dataset() == self.spec_dataset(),
            r.spec_ops().len() == self.spec_ops().len() + 1,
            r.spec_ops().drop_last() == self.spec_ops(),
            is_and_op(r.spec_ops().last(), left@, "!="@, spec_quoted(right@)),
    {
        proof {
            reveal_strlit("!=");
        }
        self.and_cmp(left, "!=", right)
    }

    /// Records a greater-than `and` clause against a string literal.
    pub fn and_gt(self, left: &str, right: &str) -> (r: AplBuilder<InWhereClause>)
        ensures
            r.spec_dataset() == self.spec_dataset(),
            r.spec_ops().len() == self.spec_ops().len() + 1,
            r.spec_ops().drop_last() == self.spec_ops(),
            is_and_op(r.spec_ops().last(), left@, ">"@, spec_quoted(right@)),
    {
        proof {
            reveal_strlit(">");
        }
        self.and_cmp(left, ">", right)
    }

    /// Records a greater-or-equal `and` clause against a string literal.
    pub fn and_ge(self, left: &str, right: &str) -> (r: AplBuilder<InWhereClause>)
        ensures
            r.spec_dataset() == self.spec_dataset(),
            r.spec_ops().len() == self.spec_ops().len() + 1,
            r.spec_ops().drop_last() == self.spec_ops(),
            is_and_op(r.spec_ops().last(), left@, ">="@, spec_quoted(right@)),
    {
        proof {
            reveal_strlit(">=");
        }
        self.and_cmp(left, ">=", right)
    }

    /// Records a less-than `and` clause against a string literal.
    pub fn and_lt(self, left: &str, right: &str) -> (r: AplBuilder<InWhereClause>)
        ensures
            r.spec_dataset() == self.spec_dataset(),
            r.spec_ops().len() == self.spec_ops().len() + 1,
            r.spec_ops().drop_last() == self.spec_ops(),
            is_and_op(r.spec_ops().last(), left@, "<"@, spec_quoted(right@)),
    {
        proof {
            reveal_strlit("<");
        }
        self.and_cmp(left, "<", right)
    }

    /// Records a less-or-equal `and` clause against a string literal.
    pub fn and_le(self, left: &str, right: &str) -> (r: AplBuilder<InWhereClause>)
        ensures
            r.spec_dataset() == self.spec_dataset(),
            r.spec_ops().len() == self.spec_ops().len() + 1,
            r.spec_ops().drop_last() == self.spec_ops(),
            is_and_op(r.spec_ops().last(), left@, "<="@, spec_quoted(right@)),
    {
        proof {
            reveal_strlit("<=");
        }
        self.and_cmp(left, "<=", right)
    }

    /// Records an `or` clause with an explicit operator.
    pub fn or_raw(self, left: &str, op: &str, right: &str) -> (r: AplBuilder<InWhereClause>)
        ensures
            r.spec_dataset() == self.spec_dataset(),
            r.spec_ops().len() == self.spec_ops().len() + 1,
            r.spec_ops().drop_last() == self.spec_ops(),
            is_or_op(r.spec_ops().last(), left@, op@, right@),
    {
        let (dataset_name, mut tabular_operators) = self.into_parts();
        let ghost before = tabular_operators@;
        tabular_operators.push(
            TabularOperator::Or {
                left: left.to_owned(),
                op: op.to_owned(),
                right: right.to_owned(),
            },
        );
        proof {
            assert(tabular_operators@.drop_last() =~= before);
        }
        AplBuilder { state: InWhereClause { dataset_name, tabular_operators } }
    }

    /// Records an `or` clause whose right operand is quoted as a string
    /// literal.
    pub fn or_cmp(self, left: &str, op: &str, right: &str) -> (r: AplBuilder<InWhereClause>)
        ensures
            r.spec_dataset() == self.spec_dataset(),
            r.spec_ops().len() == self.spec_ops().len() + 1,
            r.spec_ops().drop_last() == self.spec_ops(),
            is_or_op(r.spec_ops().last(), left@, op@, spec_quoted(right@)),
    {
        let (dataset_name, mut tabular_operators) = self.into_parts();
        let ghost before = tabular_operators@;
        tabular_operators.push(
            TabularOperator::Or { left: left.to_owned(), op: op.to_owned(), right: quoted(right) },
        );
        proof {
            assert(tabular_operators@.drop_last() =~= before);
        }
        AplBuilder { state: InWhereClause { dataset_name, tabular_operators } }
    }

    /// Records an equality `or` clause against a string literal.
    pub fn or_eq(self, left: &str, right: &str) -> (r: AplBuilder<InWhereClause>)
        ensures
            r.spec_dataset() == self.spec_dataset(),
            r.spec_ops().len() == self.spec_ops().len() + 1,
            r.spec_ops().drop_last() == self.spec_ops(),
            is_or_op(r.spec_ops().last(), left@, "=="@, spec_quoted(right@)),
    {
        proof {
            reveal_strlit("==");
        }
        self.or_cmp(left, "==", right)
    }

    /// Records an inequality `or` clause against a string literal.
    pub fn or_ne(self, left: &str, right: &str) -> (r: AplBuilder<InWhereClause>)
        ensures
            r.spec_dataset() == self.spec_dataset(),
            r.spec_ops().len() == self.spec_ops().len() + 1,
            r.spec_ops().drop_last() == self.spec_ops(),
            is_or_op(r.spec_ops().last(), left@, "!="@, spec_quoted(right@)),
    {
        proof {
            reveal_strlit("!=");
        }
        self.or_cmp(left, "!=", right)
    }

    /// Records a greater-than `or` clause against a string literal.
    pub fn or_gt(self, left: &str, right: &str) -> (r: AplBuilder<InWhereClause>)
        ensures
            r.spec_dataset() == self.spec_dataset(),
            r.spec_ops().len() == self.spec_ops().len() + 1,
            r.spec_ops().drop_last() == self.spec_ops(),
            is_or_op(r.spec_ops().last(), left@, ">"@, spec_quoted(right@)),
    {
        proof {
            reveal_strlit(">");
        }
        self.or_cmp(left, ">", right)
    }

    /// Records a greater-or-equal `or` clause against a string literal.
    pub fn or_ge(self, left: &str, right: &str) -> (r: AplBuilder<InWhereClause>)
        ensures
            r.spec_dataset() == self.spec_dataset(),
            r.spec_ops().len() == self.spec_ops().len() + 1,
            r.spec_ops().drop_last() == self.spec_ops(),
            is_or_op(r.spec_ops().last(), left@, ">="@, spec_quoted(right@)),
    {
        proof {
            reveal_strlit(">=");
        }
        self.or_cmp(left, ">=", right)
    }

    /// Records a less-than `or` clause against a string literal.
    pub fn or_lt(self, left: &str, right: &str) -> (r: AplBuilder<InWhereClause>)
        ensures
            r.spec_dataset() == self.spec_dataset(),
            r.spec_ops().len() == self.spec_ops().len() + 1,
            r.spec_ops().drop_last() == self.spec_ops(),
            is_or_op(r.spec_ops().last(), left@, "<"@, spec_quoted(right@)),
    {
        proof {
            reveal_strlit("<");
        }
        self.or_cmp(left, "<", right)
    }

    /// Records a less-or-equal `or` clause against a string literal.
    pub fn or_le(self, left: &str, right: &str) -> (r: AplBuilder<InWhereClause>)
        ensures
            r.spec_dataset() == self.spec_dataset(),
            r.spec_ops().len() == self.spec_ops().len() + 1,
            r.spec_ops().drop_last() == self.spec_ops(),
            is_or_op(r.spec_ops().last(), left@, "<="@, spec_quoted(right@)),
    {
        proof {
            reveal_strlit("<=");
        }
        self.or_cmp(left, "<=", right)
    }
}

} // verus!
