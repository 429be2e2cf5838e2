use vstd::prelude::*;

use crate::expression::Expression;

verus! {

/// `ROW_TO_JSON` over the rows of a table.
#[derive(Debug, PartialEq)]
pub struct RowToJson {
    pub table: String,
    pub pretty_print: bool,
}

/// `ROW_NUMBER() OVER (...)`.
#[derive(Debug, PartialEq)]
pub struct RowNumber {
    pub partitioning: Vec<Expression>,
    pub ordering: Vec<Expression>,
}

/// `COUNT` over a list of expressions.
#[derive(Debug, PartialEq)]
pub struct Count {
    pub exprs: Vec<Expression>,
}

/// Aggregates the values of an expression into one string.
#[derive(Debug, PartialEq)]
pub struct AggregateToString {
    pub value: Box<Expression>,
}

/// The average of a column.
#[derive(Debug, PartialEq)]
pub struct Average {
    pub column: String,
}

/// `SUM` of an expression.
#[derive(Debug, PartialEq)]
pub struct Sum {
    pub expr: Box<Expression>,
}

/// `LOWER` of an expression.
#[derive(Debug, PartialEq)]
pub struct Lower {
    pub expression: Box<Expression>,
}

/// `UPPER` of an expression.
#[derive(Debug, PartialEq)]
pub struct Upper {
    pub expression: Box<Expression>,
}

/// The minimum of a column.
#[derive(Debug, PartialEq)]
pub struct Minimum {
    pub column: String,
}

/// The maximum of a column.
#[derive(Debug, PartialEq)]
pub struct Maximum {
    pub column: String,
}

/// `COALESCE` over a list of expressions.
#[derive(Debug, PartialEq)]
pub struct Coalesce {
    pub exprs: Vec<Expression>,
}

/// String concatenation of a list of expressions.
#[derive(Debug, PartialEq)]
pub struct Concat {
    pub exprs: Vec<Expression>,
}

/// Extracts the value at a path from a JSON column.
#[derive(Debug, PartialEq)]
pub struct JsonExtract {
    pub column: Box<Expression>,
    pub path: Vec<String>,
    pub extract_as_string: bool,
}

/// Extracts the last element of a JSON array.
#[derive(Debug, PartialEq)]
pub struct JsonExtractLastArrayElem {
    pub expr: Box<Expression>,
}

/// Extracts the first element of a JSON array.
#[derive(Debug, PartialEq)]
pub struct JsonExtractFirstArrayElem {
    pub expr: Box<Expression>,
}

/// Unquotes a JSON string value.
#[derive(Debug, PartialEq)]
pub struct JsonUnquote {
    pub expr: Box<Expression>,
}

/// Aggregates the values of an expression into a JSON array.
#[derive(Debug, PartialEq)]
pub struct JsonArrayAgg {
    pub expr: Box<Expression>,
}

/// Builds a JSON object from key and value pairs.
#[derive(Debug, PartialEq)]
pub struct JsonBuildObject {
    pub exprs: Vec<(String, Expression)>,
}

/// Full-text search over a list of expressions.
#[derive(Debug, PartialEq)]
pub struct TextSearch {
    pub exprs: Vec<Expression>,
}

/// The relevance of a full-text search query over a list of expressions.
#[derive(Debug, PartialEq)]
pub struct TextSearchRelevance {
    pub exprs: Vec<Expression>,
    pub query: String,
}

/// A database function type.
/// Not every function is supported by every database.
#[derive(Debug, PartialEq)]
pub enum FunctionType {
    RowToJson(RowToJson),
    RowNumber(RowNumber),
    Count(Count),
    AggregateToString(AggregateToString),
    Average(Average),
    Sum(Sum),
    Lower(Lower),
    Upper(Upper),
    Minimum(Minimum),
    Maximum(Maximum),
    Coalesce(Coalesce),
    Concat(Concat),
    JsonExtract(JsonExtract),
    JsonExtractLastArrayElem(JsonExtractLastArrayElem),
    JsonExtractFirstArrayElem(JsonExtractFirstArrayElem),
    JsonUnquote(JsonUnquote),
    JsonArrayAgg(JsonArrayAgg),
    JsonBuildObject(JsonBuildObject),
    TextSearch(TextSearch),
    TextSearchRelevance(TextSearchRelevance),
    UuidToBin,
    UuidToBinSwapped,
    Uuid,
}

/// The expressions a function type exposes as its arguments, in order.
/// Functions over a column (average, minimum, maximum), over a table or a window,
/// over key and value pairs, and the UUID markers expose none.
pub open spec fn arguments_of(typ: FunctionType) -> Seq<Expression> {
    match typ {
        FunctionType::Count(f) => f.exprs@,
        FunctionType::AggregateToString(f) => seq![*f.value],
        FunctionType::Sum(f) => seq![*f.expr],
        FunctionType::Lower(f) => seq![*f.expression],
        FunctionType::Upper(f) => seq![*f.expression],
        FunctionType::Coalesce(f) => f.exprs@,
        FunctionType::Concat(f) => f.exprs@,
        FunctionType::JsonExtract(f) => seq![*f.column],
        FunctionType::JsonExtractLastArrayElem(f) => seq![*f.expr],
        FunctionType::JsonExtractFirstArrayElem(f) => seq![*f.expr],
        FunctionType::JsonUnquote(f) => seq![*f.expr],
        FunctionType::JsonArrayAgg(f) => seq![*f.expr],
        FunctionType::TextSearch(f) => f.exprs@,
        FunctionType::TextSearchRelevance(f) => f.exprs@,
        FunctionType::RowToJson(_)
        | FunctionType::RowNumber(_)
        | FunctionType::Average(_)
        | FunctionType::Minimum(_)
        | FunctionType::Maximum(_)
        | FunctionType::JsonBuildObject(_)
        | FunctionType::UuidToBin
        | FunctionType::UuidToBinSwapped
        | FunctionType::Uuid => Seq::empty(),
    }
}

/// The keyword of a function type that is spelled and behaves the same in every
/// supported database, or `None` where a dialect must choose the spelling.
pub open spec fn canonical_name(typ: FunctionType) -> Option<Seq<char>> {
    match typ {
        FunctionType::RowToJson(_) => Some("ROW_TO_JSON"@),
        FunctionType::RowNumber(_) => Some("ROW_NUMBER"@),
        FunctionType::Count(_) => Some("COUNT"@),
        FunctionType::Sum(_) => Some("SUM"@),
        FunctionType::Lower(_) => Some("LOWER"@),
        FunctionType::Upper(_) => Some("UPPER"@),
        FunctionType::Coalesce(_) => Some("COALESCE"@),
        _ => None,
    }
}

/// Whether a function type yields a JSON value: row-to-JSON and every JSON
/// extraction.
pub open spec fn yields_json(typ: FunctionType) -> bool {
    ||| typ is RowToJson
    ||| typ is JsonExtract
    ||| typ is JsonExtractLastArrayElem
    ||| typ is JsonExtractFirstArrayElem
}

/// Relies on core::slice::from_ref: a slice of length one that holds the
/// referenced value itself.
#[verifier::external_body]
fn slice_of_one<T>(e: &T) -> (r: &[T])
    ensures
        r@ == seq![*e],
{
    core::slice::from_ref(e)
}

impl FunctionType {
    /// Returns the arguments of the function as a slice of expressions, borrowed
    /// from the function's own payload.
    pub fn arguments(&self) -> (r: &[Expression])
        ensures
            r@ == arguments_of(*self),
    {
        match self {
            Self::Count(count) => count.exprs.as_slice(),
            Self::AggregateToString(agg) => slice_of_one(&*agg.value),
            Self::Sum(sum) => slice_of_one(&*sum.expr),
            Self::Lower(f) => slice_of_one(&*f.expression),
            Self::Upper(f) => slice_of_one(&*f.expression),
            Self::Coalesce(f) => f.exprs.as_slice(),
            Self::Concat(f) => f.exprs.as_slice(),
            Self::JsonExtract(f) => slice_of_one(&*f.column),
            Self::JsonExtractLastArrayElem(f) => slice_of_one(&*f.expr),
            Self::JsonExtractFirstArrayElem(f) => slice_of_one(&*f.expr),
            Self::JsonUnquote(f) => slice_of_one(&*f.expr),
            Self::JsonArrayAgg(f) => slice_of_one(&*f.expr),
            Self::TextSearch(f) => f.exprs.as_slice(),
            Self::TextSearchRelevance(f) => f.exprs.as_slice(),
            Self::RowToJson(_)
            | Self::RowNumber(_)
            | Self::Average(_)
            | Self::Minimum(_)
            | Self::Maximum(_)
            | Self::JsonBuildObject(_)
            | Self::UuidToBin
            | Self::UuidToBinSwapped
            | Self::Uuid => &[],
        }
    }

    /// Returns the name of the function, if it has an unambiguous name that can be
    /// used in all of the databases.
    pub fn name(&self) -> (r: Option<&'static str>)
        ensures
            match r {
                Some(s) => canonical_name(*self) == Some(s@),
                None => canonical_name(*self) is None,
            },
    {
        let name = match self {
            Self::RowToJson(_) => "ROW_TO_JSON",
            Self::RowNumber(_) => "ROW_NUMBER",
            Self::Count(_) => "COUNT",
            Self::Sum(_) => "SUM",
            Self::Lower(_) => "LOWER",
            Self::Upper(_) => "UPPER",
            Self::Coalesce(_) => "COALESCE",
            Self::Concat(_)
            | Self::AggregateToString(_)
            | Self::Average(_)
            | Self::Minimum(_)
            | Self::Maximum(_)
            | Self::JsonExtract(_)
            | Self::JsonExtractLastArrayElem(_)
            | Self::JsonExtractFirstArrayElem(_)
            | Self::JsonUnquote(_)
            | Self::JsonArrayAgg(_)
            | Self::JsonBuildObject(_)
            | Self::TextSearch(_)
            | Self::TextSearchRelevance(_)
            | Self::UuidToBin
            | Self::UuidToBinSwapped
            | Self::Uuid => return None,
        };
        Some(name)
    }
}

/// A database function: exactly one function type and an optional alias.
#[derive(Debug, PartialEq)]
pub struct Function {
    typ_: FunctionType,
    alias: Option<String>,
}

impl Function {
    /// The function type this function wraps.
    pub closed spec fn kind(self) -> FunctionType {
        self.typ_
    }

    /// The alias of this function, if one was attached.
    pub closed spec fn alias_view(self) -> Option<Seq<char>> {
        match self.alias {
            Some(a) => Some(a@),
            None => None,
        }
    }

    /// A function of the given type, without an alias.
    pub fn new(typ_: FunctionType) -> (r: Function)
        ensures
            r.kind() == typ_,
            r.alias_view() is None,
    {
        Function { typ_, alias: None }
    }

    /// Whether the function yields a JSON value.
    pub fn returns_json(&self) -> (r: bool)
        ensures
            r == yields_json(self.kind()),
    {
        match self.typ_ {
            FunctionType::RowToJson(_)
            | FunctionType::JsonExtract(_)
            | FunctionType::JsonExtractLastArrayElem(_)
            | FunctionType::JsonExtractFirstArrayElem(_) => true,
            _ => false,
        }
    }

    /// Gives the function an alias, for an `AS` clause. The function type is kept.
    pub fn alias(self, alias: String) -> (r: Function)
        ensures
            r.kind() == self.kind(),
            r.alias_view() == Some(alias@),
    {
        Function { typ_: self.typ_, alias: Some(alias) }
    }

    /// The function type this function wraps.
    pub fn typ(&self) -> (r: &FunctionType)
        ensures
            *r == self.kind(),
    {
        &self.typ_
    }

    /// The alias of this function, if one was attached.
    pub fn alias_name(&self) -> (r: Option<&str>)
        ensures
            match r {
                Some(s) => self.alias_view() == Some(s@),
                None => self.alias_view() is None,
            },
    {
        match &self.alias {
            Some(a) => Some(a.as_str()),
            None => None,
        }
    }
}

} // verus!

verus! {

/// Outside the path extraction, a function yields JSON exactly when it is
/// row-to-JSON or takes the first or the last element of a JSON array.
pub proof fn lemma_json_functions(typ: FunctionType)
    requires
        !(typ is JsonExtract),
    ensures
        yields_json(typ) <==> (typ is RowToJson || typ is JsonExtractFirstArrayElem
            || typ is JsonExtractLastArrayElem),
{
}

} // verus!
