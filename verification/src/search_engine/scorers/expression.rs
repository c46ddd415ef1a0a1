use vstd::prelude::*;
use fasteval2::{Evaler, Parser};

verus! {

/// The parser of ranking expressions, with its limits on the length and the
/// depth of an expression.
#[verifier::external_type_specification]
#[verifier::external_body]
pub struct ExParser(fasteval2::Parser);

/// Whether the text `a` comes before the text `b` as strings are ordered:
/// at the first place where they differ `a` has the smaller character, or
/// `a` ends there and `b` goes on.
pub open spec fn spec_text_before(a: Seq<char>, b: Seq<char>) -> bool
    decreases a.len(),
{
    if b.len() == 0 {
        false
    } else if a.len() == 0 {
        true
    } else if a.first() == b.first() {
        spec_text_before(a.drop_first(), b.drop_first())
    } else {
        (a.first() as u32) < (b.first() as u32)
    }
}

/// Whether each of `names` comes before the next.
pub open spec fn spec_ascending(names: Seq<Seq<char>>) -> bool {
    forall|i: int, j: int|
        0 <= i < j < names.len() ==> spec_text_before(#[trigger] names[i], #[trigger] names[j])
}

/// `fasteval2::Parser::new`: a parser with the default limits. Nothing is
/// claimed of it.
#[verifier::external_body]
pub(crate) fn new_parser() -> Parser {
    Parser::new()
}

/// `fasteval2::Parser::parse` into a fresh slab, then `Evaler::var_names`
/// on the parsed expression: the names of the variables and custom functions
/// that the expression uses. They come out of an ordered set of strings, so
/// each comes before the next. Whether an expression is turned down is the
/// parser's decision.
#[verifier::external_body]
pub(crate) fn expression_variables(parser: &Parser, eval_expr: &str) -> (parsed: Result<
    Vec<String>,
    fasteval2::Error,
>)
    ensures
        parsed matches Ok(var_names) ==> spec_ascending(var_names.deep_view()),
{
    let mut slab = fasteval2::Slab::new();
    let parsed = parser.parse(eval_expr, &mut slab.ps)?.from(&slab.ps);
    Ok(parsed.var_names(&slab).into_iter().collect())
}

} // verus!
