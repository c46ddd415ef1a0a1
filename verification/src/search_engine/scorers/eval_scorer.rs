use vstd::prelude::*;
use tantivy::schema::Schema;
use crate::errors::{SummaError, SummaResult};
use crate::search_engine::engine::{clone_schema, schema_has_field, spec_schema_fields};
use fasteval2::Parser;
use crate::search_engine::scorers::expression::{expression_variables, new_parser, spec_ascending};

verus! {

/// The names that a ranking expression may use without a field behind
/// them: the time of the query, the engine's own relevance score, and a
/// sigmoid helper.
pub open spec fn is_reserved_word(var_name: Seq<char>) -> bool {
    var_name == "now"@ || var_name == "original_score"@ || var_name == "fastsigm"@
}

/// A name that nothing stands behind: neither reserved nor a field.
pub open spec fn is_unknown(var_name: Seq<char>, fields: Set<Seq<char>>) -> bool {
    !is_reserved_word(var_name) && !fields.contains(var_name)
}

/// The name at `i` is unknown, and no name before it is.
pub open spec fn first_unknown_at(var_names: Seq<Seq<char>>, fields: Set<Seq<char>>, i: int) -> bool {
    &&& 0 <= i < var_names.len()
    &&& is_unknown(var_names[i], fields)
    &&& forall|j: int| 0 <= j < i ==> !is_unknown(#[trigger] var_names[j], fields)
}

/// The names among `var_names` that are not reserved, in their order.
pub open spec fn spec_field_variables(var_names: Seq<Seq<char>>) -> Seq<Seq<char>> {
    var_names.filter(|var_name: Seq<char>| !is_reserved_word(var_name))
}

/// What binding the names of an expression to a schema gives: the names
/// that fields stand behind, in their order, or the first name that nothing
/// stands behind.
pub open spec fn spec_bind_variables(var_names: Seq<Seq<char>>, fields: Set<Seq<char>>) -> Result<
    Seq<Seq<char>>,
    Seq<char>,
> {
    if forall|i: int| 0 <= i < var_names.len() ==> !is_unknown(#[trigger] var_names[i], fields) {
        Ok(spec_field_variables(var_names))
    } else {
        Err(var_names[choose|i: int| first_unknown_at(var_names, fields, i)])
    }
}

fn is_reserved(var_name: &String) -> (reserved: bool)
    ensures
        reserved == is_reserved_word(var_name@),
{
    let now = "now".to_owned();
    let original_score = "original_score".to_owned();
    let fastsigm = "fastsigm".to_owned();
    *var_name == now || *var_name == original_score || *var_name == fastsigm
}

proof fn lemma_first_unknown_exists(var_names: Seq<Seq<char>>, fields: Set<Seq<char>>, k: int)
    requires
        0 <= k < var_names.len(),
        is_unknown(var_names[k], fields),
    ensures
        exists|i: int| first_unknown_at(var_names, fields, i),
    decreases k,
{
    if exists|j: int| 0 <= j < k && is_unknown(#[trigger] var_names[j], fields) {
        let j = choose|j: int| 0 <= j < k && is_unknown(#[trigger] var_names[j], fields);
        lemma_first_unknown_exists(var_names, fields, j);
    } else {
        assert(first_unknown_at(var_names, fields, k));
    }
}

/// An expression binds to a schema exactly when each of its variables is
/// reserved or names a field of the schema. Where it does not bind, the error
/// names one of its variables, which is neither reserved nor a field.
pub proof fn lemma_binds_iff_variables_known(var_names: Seq<Seq<char>>, fields: Set<Seq<char>>)
    ensures
        spec_bind_variables(var_names, fields) is Ok <==> forall|i: int|
            0 <= i < var_names.len() ==> is_reserved_word(#[trigger] var_names[i])
                || fields.contains(var_names[i]),
        spec_bind_variables(var_names, fields) matches Err(unknown) ==> {
            &&& var_names.contains(unknown)
            &&& !is_reserved_word(unknown)
            &&& !fields.contains(unknown)
        },
        spec_bind_variables(var_names, fields) matches Ok(field_variables) ==> forall|
            var_name: Seq<char>,
        |
            field_variables.contains(var_name) ==> fields.contains(var_name),
{
    if spec_bind_variables(var_names, fields) is Err {
        let k = choose|k: int| 0 <= k < var_names.len() && is_unknown(#[trigger] var_names[k], fields);
        lemma_first_unknown_exists(var_names, fields, k);
    } else {
        let bound = spec_field_variables(var_names);
        assert forall|var_name: Seq<char>| bound.contains(var_name) implies fields.contains(
            var_name,
        ) by {
            let unreserved = |name: Seq<char>| !is_reserved_word(name);
            let i = choose|i: int| 0 <= i < bound.len() && bound[i] == var_name;
            var_names.lemma_filter_pred(unreserved, i);
            var_names.lemma_filter_contains_rev(unreserved, var_name);
            let k = choose|k: int| 0 <= k < var_names.len() && var_names[k] == var_name;
            assert(!is_unknown(var_names[k], fields));
        }
    }
}

proof fn lemma_field_variables_step(var_names: Seq<Seq<char>>, i: int)
    requires
        0 <= i < var_names.len(),
    ensures
        spec_field_variables(var_names.take(i + 1)) == if is_reserved_word(var_names[i]) {
            spec_field_variables(var_names.take(i))
        } else {
            spec_field_variables(var_names.take(i)).push(var_names[i])
        },
{
    reveal(Seq::filter);
    assert(var_names.take(i + 1).drop_last() =~= var_names.take(i));
}

/// Binds the names that a ranking expression uses to the fields of a
/// schema. Reserved names need no field and are left out of the result. The
/// first other name that the schema has no field for is an error.
pub fn bind_variables(var_names: Vec<String>, fields: &Schema) -> (bound: SummaResult<Vec<String>>)
    ensures
        match spec_bind_variables(var_names.deep_view(), spec_schema_fields(*fields)) {
            Ok(field_variables) => bound matches Ok(names) && names.deep_view() == field_variables,
            Err(unknown) => bound matches Err(SummaError::FieldDoesNotExist(name)) && name@
                == unknown,
        },
{
    let ghost names = var_names.deep_view();
    let ghost known = spec_schema_fields(*fields);
    let mut field_variables: Vec<String> = Vec::new();
    proof {
        reveal(Seq::filter);
        assert(names.take(0) =~= Seq::<Seq<char>>::empty());
        assert(field_variables.deep_view() =~= spec_field_variables(names.take(0)));
    }
    for var_name in iter: var_names
        invariant
            names == var_names.deep_view(),
            known == spec_schema_fields(*fields),
            iter.seq() == var_names@,
            forall|j: int| 0 <= j < iter.index() ==> !is_unknown(#[trigger] names[j], known),
            field_variables.deep_view() == spec_field_variables(names.take(iter.index() as int)),
    {
        let ghost at = iter.index() as int;
        assert(var_name@ == names[at]);
        proof {
            lemma_field_variables_step(names, at);
        }
        if !is_reserved(&var_name) {
            if !schema_has_field(fields, var_name.as_str()) {
                proof {
                    assert(first_unknown_at(names, known, at));
                    let chosen = choose|i: int| first_unknown_at(names, known, i);
                    assert(chosen == at);
                }
                return Err(SummaError::FieldDoesNotExist(var_name));
            }
            let ghost before = field_variables.deep_view();
            field_variables.push(var_name);
            assert(field_variables.deep_view() =~= before.push(names[at]));
        }
    }
    assert(names.take(names.len() as int) =~= names);
    Ok(field_variables)
}

/// A ranking expression that was checked against a schema: every variable
/// that it uses is reserved or names a field.
pub struct EvalScorer {
    eval_expr: String,
    fields: Schema,
    parser: Parser,
    var_names: Vec<String>,
}

/// What compiling `eval_expr` against `fields` may end with. The parser
/// names the variables of the expression, each before the next. A scorer
/// holds the text, the schema, and those of the variables that fields stand
/// behind. A field that does not exist is the first of the variables that
/// nothing stands behind. The parser may turn the expression down.
pub open spec fn spec_compiles(
    eval_expr: Seq<char>,
    fields: Schema,
    compiled: SummaResult<EvalScorer>,
) -> bool {
    match compiled {
        Ok(scorer) => {
            &&& scorer.spec_eval_expr() == eval_expr
            &&& scorer.spec_schema() == fields
            &&& exists|var_names: Seq<Seq<char>>|
                spec_ascending(var_names) && #[trigger] spec_bind_variables(
                    var_names,
                    spec_schema_fields(fields),
                ) == Ok::<Seq<Seq<char>>, Seq<char>>(scorer.spec_var_names())
            &&& forall|i: int|
                0 <= i < scorer.spec_var_names().len() ==> {
                    &&& spec_schema_fields(fields).contains(#[trigger] scorer.spec_var_names()[i])
                    &&& !is_reserved_word(scorer.spec_var_names()[i])
                }
        },
        Err(SummaError::FieldDoesNotExist(name)) => {
            &&& exists|var_names: Seq<Seq<char>>|
                spec_ascending(var_names) && #[trigger] spec_bind_variables(
                    var_names,
                    spec_schema_fields(fields),
                ) == Err::<Seq<Seq<char>>, Seq<char>>(name@)
            &&& is_unknown(name@, spec_schema_fields(fields))
        },
        Err(SummaError::FastEvalError(_)) => true,
        Err(_) => false,
    }
}

impl EvalScorer {
    /// The text of the expression.
    pub closed spec fn spec_eval_expr(&self) -> Seq<char> {
        self.eval_expr@
    }

    /// The schema that the expression was checked against.
    pub closed spec fn spec_schema(&self) -> Schema {
        self.fields
    }

    /// The parser that read the expression.
    pub closed spec fn spec_parser(&self) -> Parser {
        self.parser
    }

    /// The variables of the expression that fields stand behind.
    pub closed spec fn spec_var_names(&self) -> Seq<Seq<char>> {
        self.var_names.deep_view()
    }

    /// Parses `eval_expr` and binds its variables to `fields`. An expression
    /// that the parser turns down is an error, and so is a variable that is
    /// neither reserved nor a field of the schema.
    pub fn new(eval_expr: &str, fields: &Schema) -> (compiled: SummaResult<EvalScorer>)
        ensures
            spec_compiles(eval_expr@, *fields, compiled),
    {
        let parser = new_parser();
        let var_names = match expression_variables(&parser, eval_expr) {
            Ok(var_names) => var_names,
            Err(failure) => {
                return Err(SummaError::FastEvalError(failure));
            },
        };
        let ghost parsed_names = var_names.deep_view();
        proof {
            lemma_binds_iff_variables_known(parsed_names, spec_schema_fields(*fields));
        }
        let var_names = match bind_variables(var_names, fields) {
            Ok(var_names) => var_names,
            Err(failure) => {
                return Err(failure);
            },
        };
        proof {
            let bound = var_names.deep_view();
            assert forall|i: int| 0 <= i < bound.len() implies {
                &&& spec_schema_fields(*fields).contains(#[trigger] bound[i])
                &&& !is_reserved_word(bound[i])
            } by {
                assert(bound.contains(bound[i]));
                parsed_names.lemma_filter_pred(|name: Seq<char>| !is_reserved_word(name), i);
            }
        }
        Ok(
            EvalScorer {
                eval_expr: eval_expr.to_owned(),
                fields: clone_schema(fields),
                parser,
                var_names,
            },
        )
    }

    pub fn eval_expr(&self) -> (eval_expr: &str)
        ensures
            eval_expr@ == self.spec_eval_expr(),
    {
        self.eval_expr.as_str()
    }

    pub fn fields(&self) -> (fields: &Schema)
        ensures
            *fields == self.spec_schema(),
    {
        &self.fields
    }

    pub fn parser(&self) -> (parser: &Parser)
        ensures
            *parser == self.spec_parser(),
    {
        &self.parser
    }

    pub fn var_names(&self) -> (var_names: &Vec<String>)
        ensures
            var_names.deep_view() == self.spec_var_names(),
    {
        &self.var_names
    }
}

} // verus!
