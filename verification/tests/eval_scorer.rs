use summa::errors::SummaError;
use summa::search_engine::scorers::eval_scorer::{bind_variables, EvalScorer};
use summa::search_engine::scorers::field_kind::{number_kind, FieldKind, NumberKind};
use tantivy::schema::{Schema, FAST, STORED, TEXT};

fn fields() -> Schema {
    let mut builder = Schema::builder();
    builder.add_text_field("title", TEXT | STORED);
    builder.add_u64_field("issued_at", FAST);
    builder.add_u64_field("page_rank", FAST);
    builder.build()
}

fn names(var_names: &[&str]) -> Vec<String> {
    var_names.iter().map(|var_name| var_name.to_string()).collect()
}

#[test]
fn expression_over_fields_and_reserved_words_compiles() {
    let scorer = EvalScorer::new("original_score * fastsigm(page_rank, 10) + issued_at / now", &fields()).unwrap();
    assert_eq!(scorer.eval_expr(), "original_score * fastsigm(page_rank, 10) + issued_at / now");
    assert_eq!(scorer.var_names(), &names(&["issued_at", "page_rank"]));
    assert!(scorer.fields().get_field("page_rank").is_some());
    assert_eq!(scorer.fields(), &fields());
}

#[test]
fn expression_of_reserved_words_only_binds_no_field() {
    let scorer = EvalScorer::new("now + original_score + fastsigm(1, 2)", &fields()).unwrap();
    assert!(scorer.var_names().is_empty());
}

#[test]
fn expression_without_variables_compiles() {
    let scorer = EvalScorer::new("1 + 2 * 3", &fields()).unwrap();
    assert!(scorer.var_names().is_empty());
    assert_eq!(scorer.eval_expr(), "1 + 2 * 3");
}

#[test]
fn variable_used_twice_is_bound_once() {
    let scorer = EvalScorer::new("page_rank * page_rank + title", &fields()).unwrap();
    assert_eq!(scorer.var_names(), &names(&["page_rank", "title"]));
}

#[test]
fn unknown_variable_is_named_in_the_error() {
    match EvalScorer::new("page_rank + citations", &fields()) {
        Err(SummaError::FieldDoesNotExist(name)) => assert_eq!(name, "citations"),
        other => panic!("expected a missing field, got {:?}", other.map(|_| ())),
    }
}

#[test]
fn unknown_custom_function_is_named_in_the_error() {
    match EvalScorer::new("sigmoid(page_rank)", &fields()) {
        Err(SummaError::FieldDoesNotExist(name)) => assert_eq!(name, "sigmoid"),
        other => panic!("expected a missing field, got {:?}", other.map(|_| ())),
    }
}

#[test]
fn first_unknown_variable_in_ascending_order_is_named() {
    match EvalScorer::new("zeta + page_rank + alpha", &fields()) {
        Err(SummaError::FieldDoesNotExist(name)) => assert_eq!(name, "alpha"),
        other => panic!("expected a missing field, got {:?}", other.map(|_| ())),
    }
}

#[test]
fn malformed_expression_is_an_error_of_the_parser() {
    assert!(matches!(EvalScorer::new("page_rank +", &fields()), Err(SummaError::FastEvalError(_))));
    assert!(matches!(EvalScorer::new("(page_rank", &fields()), Err(SummaError::FastEvalError(_))));
}

#[test]
fn field_names_are_matched_exactly() {
    assert!(matches!(
        EvalScorer::new("Page_rank", &fields()),
        Err(SummaError::FieldDoesNotExist(name)) if name == "Page_rank"
    ));
    assert!(matches!(
        EvalScorer::new("Now", &fields()),
        Err(SummaError::FieldDoesNotExist(name)) if name == "Now"
    ));
}

#[test]
fn binding_keeps_fields_in_order_and_drops_reserved_words() {
    let bound = bind_variables(names(&["title", "now", "page_rank", "original_score", "fastsigm"]), &fields());
    assert_eq!(bound.unwrap(), names(&["title", "page_rank"]));
}

#[test]
fn binding_of_no_names_is_empty() {
    assert_eq!(bind_variables(Vec::new(), &fields()).unwrap(), Vec::<String>::new());
}

#[test]
fn binding_stops_at_the_first_unknown_name() {
    let bound = bind_variables(names(&["title", "second", "first"]), &fields());
    assert!(matches!(bound, Err(SummaError::FieldDoesNotExist(name)) if name == "second"));
}

#[test]
fn binding_against_empty_schema_admits_reserved_words_only() {
    let empty = Schema::builder().build();
    assert!(bind_variables(names(&["now", "original_score"]), &empty).unwrap().is_empty());
    assert!(matches!(
        bind_variables(names(&["now", "title"]), &empty),
        Err(SummaError::FieldDoesNotExist(name)) if name == "title"
    ));
}

#[test]
fn scorer_keeps_the_parser_that_read_the_expression() {
    let scorer = EvalScorer::new("page_rank + 1", &fields()).unwrap();
    assert_eq!(scorer.parser().expr_len_limit, 4096);
    assert_eq!(scorer.parser().expr_depth_limit, 32);
    let mut slab = fasteval2::Slab::new();
    assert!(scorer.parser().parse(scorer.eval_expr(), &mut slab.ps).is_ok());
}

#[test]
fn expression_beyond_the_parser_limits_is_an_error_of_the_parser() {
    let long = "1+".repeat(2500) + "1";
    assert!(matches!(EvalScorer::new(&long, &fields()), Err(SummaError::FastEvalError(fasteval2::Error::TooLong))));
    let deep = "(".repeat(40) + "1" + &")".repeat(40);
    assert!(matches!(EvalScorer::new(&deep, &fields()), Err(SummaError::FastEvalError(_))));
}

#[test]
fn variables_are_bound_in_ascending_order() {
    let scorer = EvalScorer::new("title + page_rank * issued_at + Title0", &{
        let mut builder = Schema::builder();
        builder.add_u64_field("title", FAST);
        builder.add_u64_field("page_rank", FAST);
        builder.add_u64_field("issued_at", FAST);
        builder.add_u64_field("Title0", FAST);
        builder.build()
    })
    .unwrap();
    assert_eq!(scorer.var_names(), &names(&["Title0", "issued_at", "page_rank", "title"]));
}

#[test]
fn only_numeric_fields_are_read_as_numbers() {
    assert_eq!(number_kind(FieldKind::U64), Some(NumberKind::Unsigned));
    assert_eq!(number_kind(FieldKind::I64), Some(NumberKind::Signed));
    assert_eq!(number_kind(FieldKind::F64), Some(NumberKind::Float));
    for kind in [FieldKind::Str, FieldKind::Date, FieldKind::Facet, FieldKind::Bytes, FieldKind::JsonObject] {
        assert_eq!(number_kind(kind), None);
    }
}
