use query_core::expression::Expression;
use query_core::function::{
    AggregateToString, Average, Coalesce, Concat, Count, Function, FunctionType, JsonArrayAgg,
    JsonBuildObject, JsonExtract, JsonExtractFirstArrayElem, JsonExtractLastArrayElem,
    JsonUnquote, Lower, Maximum, Minimum, RowNumber, RowToJson, Sum, TextSearch,
    TextSearchRelevance, Upper,
};

fn col(name: &str) -> Expression {
    Expression::Column(name.to_string())
}

fn boxed(name: &str) -> Box<Expression> {
    Box::new(col(name))
}

/// One value of every function type, with its expected canonical name and
/// arguments.
fn every_variant() -> Vec<(FunctionType, Option<&'static str>, Vec<Expression>)> {
    vec![
        (
            FunctionType::RowToJson(RowToJson { table: "users".to_string(), pretty_print: false }),
            Some("ROW_TO_JSON"),
            vec![],
        ),
        (
            FunctionType::RowNumber(RowNumber { partitioning: vec![col("a")], ordering: vec![col("b")] }),
            Some("ROW_NUMBER"),
            vec![],
        ),
        (
            FunctionType::Count(Count { exprs: vec![col("a"), col("b")] }),
            Some("COUNT"),
            vec![col("a"), col("b")],
        ),
        (
            FunctionType::AggregateToString(AggregateToString { value: boxed("a") }),
            None,
            vec![col("a")],
        ),
        (FunctionType::Average(Average { column: "a".to_string() }), None, vec![]),
        (FunctionType::Sum(Sum { expr: boxed("s") }), Some("SUM"), vec![col("s")]),
        (FunctionType::Lower(Lower { expression: boxed("l") }), Some("LOWER"), vec![col("l")]),
        (FunctionType::Upper(Upper { expression: boxed("u") }), Some("UPPER"), vec![col("u")]),
        (FunctionType::Minimum(Minimum { column: "a".to_string() }), None, vec![]),
        (FunctionType::Maximum(Maximum { column: "a".to_string() }), None, vec![]),
        (
            FunctionType::Coalesce(Coalesce { exprs: vec![col("x"), Expression::Parameter] }),
            Some("COALESCE"),
            vec![col("x"), Expression::Parameter],
        ),
        (
            FunctionType::Concat(Concat { exprs: vec![col("x"), Expression::Raw("'-'".to_string())] }),
            None,
            vec![col("x"), Expression::Raw("'-'".to_string())],
        ),
        (
            FunctionType::JsonExtract(JsonExtract {
                column: boxed("j"),
                path: vec!["a".to_string(), "b".to_string()],
                extract_as_string: false,
            }),
            None,
            vec![col("j")],
        ),
        (
            FunctionType::JsonExtractLastArrayElem(JsonExtractLastArrayElem { expr: boxed("j") }),
            None,
            vec![col("j")],
        ),
        (
            FunctionType::JsonExtractFirstArrayElem(JsonExtractFirstArrayElem { expr: boxed("j") }),
            None,
            vec![col("j")],
        ),
        (FunctionType::JsonUnquote(JsonUnquote { expr: boxed("q") }), None, vec![col("q")]),
        (FunctionType::JsonArrayAgg(JsonArrayAgg { expr: boxed("g") }), None, vec![col("g")]),
        (
            FunctionType::JsonBuildObject(JsonBuildObject { exprs: vec![("k".to_string(), col("v"))] }),
            None,
            vec![],
        ),
        (
            FunctionType::TextSearch(TextSearch { exprs: vec![col("t1"), col("t2")] }),
            None,
            vec![col("t1"), col("t2")],
        ),
        (
            FunctionType::TextSearchRelevance(TextSearchRelevance {
                exprs: vec![col("t")],
                query: "cat & dog".to_string(),
            }),
            None,
            vec![col("t")],
        ),
        (FunctionType::UuidToBin, None, vec![]),
        (FunctionType::UuidToBinSwapped, None, vec![]),
        (FunctionType::Uuid, None, vec![]),
    ]
}

#[test]
fn every_variant_has_arguments_and_name() {
    let all = every_variant();
    assert_eq!(all.len(), 23);
    for (typ, name, args) in &all {
        assert_eq!(typ.name(), *name, "{:?}", typ);
        assert_eq!(typ.arguments(), args.as_slice(), "{:?}", typ);
    }
}

#[test]
fn canonical_names_are_the_keywords() {
    let named: Vec<&'static str> = every_variant().iter().filter_map(|(t, _, _)| t.name()).collect();
    assert_eq!(
        named,
        vec!["ROW_TO_JSON", "ROW_NUMBER", "COUNT", "SUM", "LOWER", "UPPER", "COALESCE"]
    );
}

#[test]
fn dialect_dependent_functions_have_no_name() {
    assert_eq!(FunctionType::Average(Average { column: "a".to_string() }).name(), None);
    assert_eq!(FunctionType::Concat(Concat { exprs: vec![] }).name(), None);
    assert_eq!(FunctionType::Uuid.name(), None);
    assert_eq!(
        FunctionType::AggregateToString(AggregateToString { value: boxed("a") }).name(),
        None
    );
}

#[test]
fn single_argument_is_the_payload_expression() {
    let f = FunctionType::Lower(Lower { expression: boxed("name") });
    let args = f.arguments();
    assert_eq!(args.len(), 1);
    assert_eq!(args[0], col("name"));
    match &f {
        FunctionType::Lower(l) => assert!(std::ptr::eq(&args[0], &*l.expression)),
        _ => unreachable!(),
    }
}

#[test]
fn count_with_no_expressions_has_no_arguments() {
    let f = FunctionType::Count(Count { exprs: vec![] });
    assert!(f.arguments().is_empty());
    assert_eq!(f.name(), Some("COUNT"));
}

#[test]
fn returns_json_for_row_to_json_and_json_extraction() {
    let json: Vec<bool> = every_variant()
        .into_iter()
        .map(|(t, _, _)| Function::new(t).returns_json())
        .collect();
    let expected: Vec<bool> = (0..23).map(|i| i == 0 || i == 12 || i == 13 || i == 14).collect();
    assert_eq!(json, expected);
}

#[test]
fn returns_json_false_for_unquote_and_aggregates() {
    assert!(!Function::new(FunctionType::JsonUnquote(JsonUnquote { expr: boxed("q") })).returns_json());
    assert!(!Function::new(FunctionType::JsonArrayAgg(JsonArrayAgg { expr: boxed("g") })).returns_json());
    assert!(!Function::new(FunctionType::Uuid).returns_json());
}

#[test]
fn alias_keeps_the_function_type() {
    let f = Function::new(FunctionType::Sum(Sum { expr: boxed("price") }));
    assert_eq!(f.alias_name(), None);
    let g = f.alias("total".to_string());
    assert_eq!(g.alias_name(), Some("total"));
    assert_eq!(g.typ().name(), Some("SUM"));
    assert_eq!(g.typ().arguments(), &[col("price")]);
    let h = g.alias("renamed".to_string());
    assert_eq!(h.alias_name(), Some("renamed"));
}

#[test]
fn function_inside_an_expression() {
    let inner = Function::new(FunctionType::Lower(Lower { expression: boxed("email") }));
    let outer = FunctionType::Coalesce(Coalesce {
        exprs: vec![Expression::Function(Box::new(inner)), Expression::Parameter],
    });
    let args = outer.arguments();
    assert_eq!(args.len(), 2);
    match &args[0] {
        Expression::Function(f) => assert_eq!(f.typ().arguments(), &[col("email")]),
        other => panic!("unexpected argument {:?}", other),
    }
}
