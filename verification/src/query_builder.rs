//! A simple APL query builder.
//!
//! The builder renders one statement per line. Its state type tracks the
//! last statement kind, so `and`/`or` can only extend a `where` statement
//! and `by` can only extend a `summarize` statement.

use vstd::prelude::*;

use crate::text::{join_sep, spec_i64_digits, spec_join_sep};

verus! {

/// A trait to convert a string or a vector of strings into a vector of
/// strings. It's used in methods that accept one or more expressions.
pub trait StringOrVec: Sized {
    /// The expressions, as text.
    spec fn spec_parts(&self) -> Seq<Seq<char>>;

    /// Converts into a vector of strings.
    fn into_vec(self) -> (r: Vec<String>)
        ensures
            r.deep_view() == self.spec_parts(),
    ;
}

impl StringOrVec for String {
    open spec fn spec_parts(&self) -> Seq<Seq<char>> {
        seq![self@]
    }

    fn into_vec(self) -> (r: Vec<String>)
        ensures
            r.deep_view() == self.spec_parts(),
    {
        let mut v: Vec<String> = Vec::new();
        v.push(self);
        proof {
            assert(v.deep_view() =~= self.spec_parts());
        }
        v
    }
}

impl<'a> StringOrVec for &'a str {
    open spec fn spec_parts(&self) -> Seq<Seq<char>> {
        seq![self@]
    }

    fn into_vec(self) -> (r: Vec<String>)
        ensures
            r.deep_view() == self.spec_parts(),
    {
        let mut v: Vec<String> = Vec::new();
        v.push(self.to_owned());
        proof {
            assert(v.deep_view() =~= self.spec_parts());
        }
        v
    }
}

impl<'a> StringOrVec for Vec<&'a str> {
    open spec fn spec_parts(&self) -> Seq<Seq<char>> {
        Seq::new(self@.len(), |i: int| self@[i]@)
    }

    fn into_vec(self) -> (r: Vec<String>)
        ensures
            r.deep_view() == self.spec_parts(),
    {
        let mut v: Vec<String> = Vec::new();
        let n = self.len();
        let mut i: usize = 0;
        while i < n
            invariant
                0 <= i <= n == self@.len(),
                v.deep_view() =~= self.spec_parts().subrange(0, i as int),
            decreases n - i,
        {
            v.push(self[i].to_owned());
            proof {
                let parts = self.spec_parts();
                assert(parts.subrange(0, i + 1) =~= parts.subrange(0, i as int).push(
                    parts[i as int],
                ));
                assert(parts[i as int] == self@[i as int]@);
                assert(v.deep_view() =~= parts.subrange(0, i as int).push(self@[i as int]@));
            }
            i = i + 1;
        }
        proof {
            assert(self.spec_parts().subrange(0, n as int) =~= self.spec_parts());
        }
        v
    }
}

impl StringOrVec for Vec<String> {
    open spec fn spec_parts(&self) -> Seq<Seq<char>> {
        self.deep_view()
    }

    fn into_vec(self) -> (r: Vec<String>)
        ensures
            r.deep_view() == self.spec_parts(),
    {
        self
    }
}

/// The APL query builder. For query methods, see [`StatefulQueryBuilder`].
#[derive(Debug)]
pub struct QueryBuilder {}

/// A marker type: the builder is in its initial state.
#[derive(Debug)]
pub struct StateInitial;

/// A marker type: the builder's last statement is `where`.
#[derive(Debug)]
pub struct StateWhere;

/// A marker type: the builder's last statement is `summarize`.
#[derive(Debug)]
pub struct StateSummarize;

/// The marker trait of [`StateWhere`].
pub trait Where {

}

impl Where for StateWhere {

}

/// The marker trait of [`StateSummarize`].
pub trait Summarize {

}

impl Summarize for StateSummarize {

}

/// The heart of the APL query builder. It keeps track of the last statement
/// kind and lets compatible statements extend it.
#[derive(Debug)]
pub struct StatefulQueryBuilder<State> {
    text: String,
    phantom: core::marker::PhantomData<State>,
}

impl QueryBuilder {
    /// Creates a new query builder for the given dataset.
    pub fn new(dataset_name: &str) -> (r: StatefulQueryBuilder<StateInitial>)
        ensures
            r.spec_text() == "['"@ + dataset_name@ + "']"@,
    {
        proof {
            reveal_strlit("['");
            reveal_strlit("']");
        }
        let mut text = "['".to_owned();
        text.append(dataset_name);
        text.append("']");
        StatefulQueryBuilder { text, phantom: core::marker::PhantomData }
    }
}

impl<State> StatefulQueryBuilder<State> {
    /// The query text built so far.
    pub closed spec fn spec_text(self) -> Seq<char> {
        self.text@
    }

    /// Renders the query as APL text.
    pub fn to_string(&self) -> (r: String)
        ensures
            r@ == self.spec_text(),
    {
        self.text.clone()
    }

    /// Adds a `where` statement to the query.
    pub fn where_(self, expr: &str) -> (r: StatefulQueryBuilder<StateWhere>)
        ensures
            r.spec_text() == self.spec_text() + "\n| where "@ + expr@,
    {
        proof {
            reveal_strlit("\n| where ");
        }
        let mut text = self.text;
        text.append("\n| where ");
        text.append(expr);
        StatefulQueryBuilder { text, phantom: core::marker::PhantomData }
    }

    /// Adds an `extend` statement to the query.
    pub fn extend<V: StringOrVec>(self, exprs: V) -> (r: StatefulQueryBuilder<StateInitial>)
        ensures
            r.spec_text() == self.spec_text() + "\n| extend "@ + spec_join_sep(
                exprs.spec_parts(),
                ", "@,
            ),
    {
        proof {
            reveal_strlit("\n| extend ");
            reveal_strlit(", ");
        }
        let parts = exprs.into_vec();
        let joined = join_sep(&parts, ", ");
        let mut text = self.text;
        text.append("\n| extend ");
        text.append(joined.as_str());
        StatefulQueryBuilder { text, phantom: core::marker::PhantomData }
    }

    /// Adds a `project` statement to the query.
    pub fn project<V: StringOrVec>(self, exprs: V) -> (r: StatefulQueryBuilder<StateInitial>)
        ensures
            r.spec_text() == self.spec_text() + "\n| project "@ + spec_join_sep(
                exprs.spec_parts(),
                ", "@,
            ),
    {
        proof {
            reveal_strlit("\n| project ");
            reveal_strlit(", ");
        }
        let parts = exprs.into_vec();
        let joined = join_sep(&parts, ", ");
        let mut text = self.text;
        text.append("\n| project ");
        text.append(joined.as_str());
        StatefulQueryBuilder { text, phantom: core::marker::PhantomData }
    }

    /// Adds a `take` statement to the query.
    pub fn take(self, count: i64) -> (r: StatefulQueryBuilder<StateInitial>)
        ensures
            r.spec_text() == self.spec_text() + "\n| take "@ + spec_i64_digits(count as int),
    {
        proof {
            reveal_strlit("\n| take ");
        }
        let digits = crate::text::i64_to_string(count);
        let mut text = self.text;
        text.append("\n| take ");
        text.append(digits.as_str());
        StatefulQueryBuilder { text, phantom: core::marker::PhantomData }
    }

    /// Adds a `summarize` statement to the query.
    pub fn summarize(self, expr: &str) -> (r: StatefulQueryBuilder<StateSummarize>)
        ensures
            r.spec_text() == self.spec_text() + "\n| summarize "@ + expr@,
    {
        proof {
            reveal_strlit("\n| summarize ");
        }
        let mut text = self.text;
        text.append("\n| summarize ");
        text.append(expr);
        StatefulQueryBuilder { text, phantom: core::marker::PhantomData }
    }

    /// Adds a `count` statement to the query.
    pub fn count(self) -> (r: StatefulQueryBuilder<StateInitial>)
        ensures
            r.spec_text() == self.spec_text() + "\n| count"@,
    {
        proof {
            reveal_strlit("\n| count");
        }
        let mut text = self.text;
        text.append("\n| count");
        StatefulQueryBuilder { text, phantom: core::marker::PhantomData }
    }
}

impl<State: Where> StatefulQueryBuilder<State> {
    /// Extends the current `where` statement with an `and` clause.
    pub fn and(self, expr: &str) -> (r: Self)
        ensures
            r.spec_text() == self.spec_text() + " and "@ + expr@,
    {
        proof {
            reveal_strlit(" and ");
        }
        let mut text = self.text;
        text.append(" and ");
        text.append(expr);
        StatefulQueryBuilder { text, phantom: core::marker::PhantomData }
    }

    /// Extends the current `where` statement with an `or` clause.
    pub fn or(self, expr: &str) -> (r: Self)
        ensures
            r.spec_text() == self.spec_text() + " or "@ + expr@,
    {
        proof {
            reveal_strlit(" or ");
        }
        let mut text = self.text;
        text.append(" or ");
        text.append(expr);
        StatefulQueryBuilder { text, phantom: core::marker::PhantomData }
    }
}

impl<State: Summarize> StatefulQueryBuilder<State> {
    /// Extends the current `summarize` statement with a `by` clause.
    pub fn by<V: StringOrVec>(self, fields: V) -> (r: StatefulQueryBuilder<StateInitial>)
        ensures
            r.spec_text() == self.spec_text() + " by "@ + spec_join_sep(
                fields.spec_parts(),
                ", "@,
            ),
    {
        proof {
            reveal_strlit(" by ");
            reveal_strlit(", ");
        }
        let parts = fields.into_vec();
        let joined = join_sep(&parts, ", ");
        let mut text = self.text;
        text.append(" by ");
        text.append(joined.as_str());
        StatefulQueryBuilder { text, phantom: core::marker::PhantomData }
    }
}

} // verus!
