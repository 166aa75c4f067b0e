//! The remaining query data model: aggregation and filter operations with
//! their wire names, projections, orders and query messages.

use vstd::prelude::*;

verus! {

/// A field that is projected to the query result.
#[derive(Debug, Clone)]
pub struct Projection {
    /// The name of the field to project.
    pub field: String,
    /// The alias to reference the projected field by.
    pub alias: Option<String>,
}

/// Supported aggregation operations.
#[derive(Debug, Clone)]
pub enum AggregationOp {
    /// Count of rows.
    Count,
    /// Count of distinct values.
    CountDistinct,
    /// The set of values.
    MakeSet,
    /// The set of values where a predicate holds.
    MakeSetIf,
    /// Sum of values.
    Sum,
    /// Average of values.
    Avg,
    /// Minimum of values.
    Min,
    /// Maximum of values.
    Max,
    /// The top values by frequency.
    Topk,
    /// Percentiles of values.
    Percentiles,
    /// A histogram of values.
    Histogram,
    /// Standard deviation of values.
    StandardDeviation,
    /// Variance of values.
    Variance,
    /// The row minimising a value.
    ArgMin,
    /// The row maximising a value.
    ArgMax,
    /// Count where a predicate holds. Read-only.
    CountIf,
    /// Distinct count where a predicate holds. Read-only.
    DistinctIf,
    /// An aggregation this client does not know.
    Unknown(String),
}

impl AggregationOp {
    /// The name of the operation on the wire.
    pub open spec fn spec_wire_name(self) -> Seq<char> {
        match self {
            AggregationOp::Count => "count"@,
            AggregationOp::CountDistinct => "distinct"@,
            AggregationOp::MakeSet => "makeset"@,
            AggregationOp::MakeSetIf => "makesetif"@,
            AggregationOp::Sum => "sum"@,
            AggregationOp::Avg => "avg"@,
            AggregationOp::Min => "min"@,
            AggregationOp::Max => "max"@,
            AggregationOp::Topk => "topk"@,
            AggregationOp::Percentiles => "percentiles"@,
            AggregationOp::Histogram => "histogram"@,
            AggregationOp::StandardDeviation => "stdev"@,
            AggregationOp::Variance => "variance"@,
            AggregationOp::ArgMin => "argmin"@,
            AggregationOp::ArgMax => "argmax"@,
            AggregationOp::CountIf => "countif"@,
            AggregationOp::DistinctIf => "distinctif"@,
            AggregationOp::Unknown(s) => s@,
        }
    }

    /// Returns the name of the operation on the wire.
    pub fn wire_name(&self) -> (r: &str)
        ensures
            r@ == self.spec_wire_name(),
    {
        proof {
            reveal_strlit("count");
            reveal_strlit("distinct");
            reveal_strlit("makeset");
            reveal_strlit("makesetif");
            reveal_strlit("sum");
            reveal_strlit("avg");
            reveal_strlit("min");
            reveal_strlit("max");
            reveal_strlit("topk");
            reveal_strlit("percentiles");
            reveal_strlit("histogram");
            reveal_strlit("stdev");
            reveal_strlit("variance");
            reveal_strlit("argmin");
            reveal_strlit("argmax");
            reveal_strlit("countif");
            reveal_strlit("distinctif");
        }
        match self {
            AggregationOp::Count => "count",
            AggregationOp::CountDistinct => "distinct",
            AggregationOp::MakeSet => "makeset",
            AggregationOp::MakeSetIf => "makesetif",
            AggregationOp::Sum => "sum",
            AggregationOp::Avg => "avg",
            AggregationOp::Min => "min",
            AggregationOp::Max => "max",
            AggregationOp::Topk => "topk",
            AggregationOp::Percentiles => "percentiles",
            AggregationOp::Histogram => "histogram",
            AggregationOp::StandardDeviation => "stdev",
            AggregationOp::Variance => "variance",
            AggregationOp::ArgMin => "argmin",
            AggregationOp::ArgMax => "argmax",
            AggregationOp::CountIf => "countif",
            AggregationOp::DistinctIf => "distinctif",
            AggregationOp::Unknown(s) => s.as_str(),
        }
    }

    /// Parses a wire name: every known name gives its operation, any other
    /// string is kept as an unknown operation.
    pub fn parse(s: &str) -> (r: AggregationOp)
        ensures
            r.spec_wire_name() == s@,
            r matches AggregationOp::Unknown(u) ==> u@ == s@,
    {
        proof {
            reveal_strlit("count");
            reveal_strlit("distinct");
            reveal_strlit("makeset");
            reveal_strlit("makesetif");
            reveal_strlit("sum");
            reveal_strlit("avg");
            reveal_strlit("min");
            reveal_strlit("max");
            reveal_strlit("topk");
            reveal_strlit("percentiles");
            reveal_strlit("histogram");
            reveal_strlit("stdev");
            reveal_strlit("variance");
            reveal_strlit("argmin");
            reveal_strlit("argmax");
            reveal_strlit("countif");
            reveal_strlit("distinctif");
        }
        let v: String = s.to_owned();
        if v.eq(&"count".to_owned()) {
            AggregationOp::Count
        } else if v.eq(&"distinct".to_owned()) {
            AggregationOp::CountDistinct
        } else if v.eq(&"makeset".to_owned()) {
            AggregationOp::MakeSet
        } else if v.eq(&"makesetif".to_owned()) {
            AggregationOp::MakeSetIf
        } else if v.eq(&"sum".to_owned()) {
            AggregationOp::Sum
        } else if v.eq(&"avg".to_owned()) {
            AggregationOp::Avg
        } else if v.eq(&"min".to_owned()) {
            AggregationOp::Min
        } else if v.eq(&"max".to_owned()) {
            AggregationOp::Max
        } else if v.eq(&"topk".to_owned()) {
            AggregationOp::Topk
        } else if v.eq(&"percentiles".to_owned()) {
            AggregationOp::Percentiles
        } else if v.eq(&"histogram".to_owned()) {
            AggregationOp::Histogram
        } else if v.eq(&"stdev".to_owned()) {
            AggregationOp::StandardDeviation
        } else if v.eq(&"variance".to_owned()) {
            AggregationOp::Variance
        } else if v.eq(&"argmin".to_owned()) {
            AggregationOp::ArgMin
        } else if v.eq(&"argmax".to_owned()) {
            AggregationOp::ArgMax
        } else if v.eq(&"countif".to_owned()) {
            AggregationOp::CountIf
        } else if v.eq(&"distinctif".to_owned()) {
            AggregationOp::DistinctIf
        } else {
            AggregationOp::Unknown(v)
        }
    }
}

/// An aggregation applied to a query.
#[derive(Debug)]
pub struct Aggregation {
    /// The alias of the aggregation.
    pub alias: Option<String>,
    /// The operation of the aggregation.
    pub op: AggregationOp,
    /// The field aggregated on.
    pub field: String,
    /// The argument of the aggregation, for the operations that take one.
    pub argument: Option<serde_json::Value>,
}

/// A filter applied to a query.
#[derive(Debug)]
pub struct Filter {
    /// The operation of the filter.
    pub op: FilterOp,
    /// The field filtered on.
    pub field: String,
    /// The value filtered against.
    pub value: Option<serde_json::Value>,
    /// Whether the filter ignores case.
    pub case_insensitive: bool,
    /// Child filters of the logical operations.
    pub children: Vec<Filter>,
}

/// Supported filter operations.
#[derive(Debug, Clone, Copy, PartialEq, Eq, Structural)]
pub enum FilterOp {
    /// Logical AND of the child filters.
    And,
    /// Logical OR of the child filters.
    Or,
    /// Logical NOT of the child filter.
    Not,
    /// Equality (string, number).
    Equal,
    /// Negated equality (string, number).
    NotEqual,
    /// Existence (string, number).
    Exists,
    /// Negated existence (string, number).
    NotExists,
    /// Greater than (number).
    GreaterThan,
    /// Greater than or equal (number).
    GreaterThanEqual,
    /// Less than (number).
    LessThan,
    /// Less than or equal (number).
    LessThanEqual,
    /// Starts with (string).
    StartsWith,
    /// Negated starts with (string).
    NotStartsWith,
    /// Ends with (string).
    EndsWith,
    /// Negated ends with (string).
    NotEndsWith,
    /// Regular expression (string).
    Regexp,
    /// Negated regular expression (string).
    NotRegexp,
    /// Contains (string, array).
    Contains,
    /// Negated contains (string, array).
    NotContains,
}

impl FilterOp {
    /// The name of the operation on the wire.
    pub open spec fn spec_wire_name(self) -> Seq<char> {
        match self {
            FilterOp::And => "and"@,
            FilterOp::Or => "or"@,
            FilterOp::Not => "not"@,
            FilterOp::Equal => "=="@,
            FilterOp::NotEqual => "!="@,
            FilterOp::Exists => "exists"@,
            FilterOp::NotExists => "notexists"@,
            FilterOp::GreaterThan => ">"@,
            FilterOp::GreaterThanEqual => ">="@,
            FilterOp::LessThan => "<"@,
            FilterOp::LessThanEqual => "<="@,
            FilterOp::StartsWith => "startswith"@,
            FilterOp::NotStartsWith => "notstartswith"@,
            FilterOp::EndsWith => "endswith"@,
            FilterOp::NotEndsWith => "notendswith"@,
            FilterOp::Regexp => "regexp"@,
            FilterOp::NotRegexp => "notregexp"@,
            FilterOp::Contains => "contains"@,
            FilterOp::NotContains => "notcontains"@,
        }
    }

    /// Returns the name of the operation on the wire.
    pub fn wire_name(&self) -> (r: &'static str)
        ensures
            r@ == self.spec_wire_name(),
    {
        proof {
            reveal_strlit("and");
            reveal_strlit("or");
            reveal_strlit("not");
            reveal_strlit("==");
            reveal_strlit("!=");
            reveal_strlit("exists");
            reveal_strlit("notexists");
            reveal_strlit(">");
            reveal_strlit(">=");
            reveal_strlit("<");
            reveal_strlit("<=");
            reveal_strlit("startswith");
            reveal_strlit("notstartswith");
            reveal_strlit("endswith");
            reveal_strlit("notendswith");
            reveal_strlit("regexp");
            reveal_strlit("notregexp");
            reveal_strlit("contains");
            reveal_strlit("notcontains");
        }
        match self {
            FilterOp::And => "and",
            FilterOp::Or => "or",
            FilterOp::Not => "not",
            FilterOp::Equal => "==",
            FilterOp::NotEqual => "!=",
            FilterOp::Exists => "exists",
            FilterOp::NotExists => "notexists",
            FilterOp::GreaterThan => ">",
            FilterOp::GreaterThanEqual => ">=",
            FilterOp::LessThan => "<",
            FilterOp::LessThanEqual => "<=",
            FilterOp::StartsWith => "startswith",
            FilterOp::NotStartsWith => "notstartswith",
            FilterOp::EndsWith => "endswith",
            FilterOp::NotEndsWith => "notendswith",
            FilterOp::Regexp => "regexp",
            FilterOp::NotRegexp => "notregexp",
            FilterOp::Contains => "contains",
            FilterOp::NotContains => "notcontains",
        }
    }
}

/// Specifies the order a query result is in.
#[derive(Debug, Clone)]
pub struct Order {
    /// The field ordered on.
    pub field: String,
    /// Whether the field is ordered descending.
    pub desc: bool,
}

/// A virtual field: a value derived from an expression, referenced like any
/// other field.
#[derive(Debug, Clone)]
pub struct VirtualField {
    /// The alias the virtual field is referenced by.
    pub alias: String,
    /// The expression that computes the value.
    pub expr: String,
}

/// The kind-tagged options of a legacy query call.
#[derive(Debug, Clone)]
pub struct LegacyQueryOptions {
    /// The duration of the stream.
    pub streaming_duration: Option<String>,
    /// Omits the query cache.
    pub no_cache: bool,
    /// The kind the query is saved with.
    pub save_as_kind: crate::query::QueryKind,
}

impl Default for LegacyQueryOptions {
    /// No streaming duration, cache on, the default kind.
    fn default() -> (r: Self)
        ensures
            r.streaming_duration is None,
            !r.no_cache,
            r.save_as_kind == crate::query::QueryKind::Analytics,
    {
        LegacyQueryOptions {
            streaming_duration: None,
            no_cache: false,
            save_as_kind: crate::query::QueryKind::Analytics,
        }
    }
}

/// The priority of a query message.
#[derive(Debug, Clone, Copy, PartialEq, Eq, Structural)]
pub enum QueryMessagePriority {
    /// Trace priority.
    Trace,
    /// Debug priority.
    Debug,
    /// Info priority.
    Info,
    /// Warn priority.
    Warn,
    /// Error priority.
    Error,
    /// Fatal priority.
    Fatal,
}

/// The code of a message returned in the status of a query.
#[derive(Debug, Clone, Copy, PartialEq, Eq, Structural)]
pub enum QueryMessageCode {
    /// A virtual field could not be finalised.
    VirtualFieldFinalizeError,
    /// A column is missing from the dataset.
    MissingColumn,
    /// The default limit was applied.
    DefaultLimitWarning,
    /// The licence limit for queries was applied.
    LicenseLimitForQueryWarning,
    /// Any other code.
    Unknown,
}

/// A message returned in the status of a query.
#[derive(Debug, Clone)]
pub struct QueryMessage {
    /// The priority of the message.
    pub priority: QueryMessagePriority,
    /// How many times the message occurred.
    pub count: u32,
    /// The code of the message.
    pub code: QueryMessageCode,
    /// The text of the message, when there is one.
    pub text: Option<String>,
}

/// The result of a trim operation. Kept for backward compatibility.
#[derive(Debug, Clone, Copy, PartialEq, Eq, Structural)]
pub struct TrimResult {
    /// The number of blocks deleted by the trim operation.
    pub blocks_deleted: u64,
}

/// A field of a dataset.
#[derive(Debug, Clone)]
pub struct Field {
    /// The unique name of the field.
    pub name: String,
    /// The description of the field.
    pub description: String,
    /// The datatype of the field.
    pub typ: String,
    /// The unit of the field.
    pub unit: String,
    /// Whether the field is hidden.
    pub hidden: bool,
}

} // verus!
