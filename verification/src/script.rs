//! What an `execute` script means: the parts it is written from, and what a
//! provider that runs them statement by statement returns.

use crate::execute_compiler::{result_list, script_text, statement, statements, Call};
use crate::text::{decimal_text, lemma_decimal_round_trip};
use crate::value::Json;
use vstd::prelude::*;

verus! {

/// One statement of a script: a call, and the variable that keeps its result.
pub struct Statement {
    pub variable: Seq<char>,
    pub call: Call,
}

/// A script by its parts: the statements in the order they run, and the
/// variables whose values are returned as one array.
pub struct Program {
    pub statements: Seq<Statement>,
    pub returned: Seq<Seq<char>>,
}

/// The text of one statement.
pub open spec fn statement_text(s: Statement) -> Seq<char> {
    "var "@ + s.variable + " = API."@ + s.call.name + "("@ + s.call.params + ");"@
}

/// The text of the first `n` statements.
pub open spec fn statements_text(all: Seq<Statement>, n: nat) -> Seq<char>
    decreases n,
{
    if n == 0 {
        Seq::empty()
    } else {
        statements_text(all, (n - 1) as nat) + statement_text(all[n - 1])
    }
}

/// The text of the first `n` returned variables, each followed by a comma.
pub open spec fn returned_text(returned: Seq<Seq<char>>, n: nat) -> Seq<char>
    decreases n,
{
    if n == 0 {
        Seq::empty()
    } else {
        returned_text(returned, (n - 1) as nat) + returned[n - 1] + ","@
    }
}

/// The text of a program: its statements, then the `return` of the array.
pub open spec fn program_text(p: Program) -> Seq<char> {
    statements_text(p.statements, p.statements.len()) + "return ["@ + returned_text(
        p.returned,
        p.returned.len(),
    ) + "];"@
}

/// What `variable` holds once the first `n` statements have run: the result
/// of the last of them that set it, where `answer` says what the provider
/// makes of a call. A variable that none of them set holds nothing.
pub open spec fn value_of(
    all: Seq<Statement>,
    answer: spec_fn(Call) -> Json,
    variable: Seq<char>,
    n: nat,
) -> Option<Json>
    decreases n,
{
    if n == 0 {
        None
    } else if all[n - 1].variable == variable {
        Some(answer(all[n - 1].call))
    } else {
        value_of(all, answer, variable, (n - 1) as nat)
    }
}

/// What a program returns: the array of what its returned variables hold
/// once every statement has run. A program that returns a variable which no
/// statement set returns nothing.
pub open spec fn evaluate(p: Program, answer: spec_fn(Call) -> Json) -> Option<Json> {
    if forall|i: int|
        0 <= i < p.returned.len() ==> (#[trigger] value_of(
            p.statements,
            answer,
            p.returned[i],
            p.statements.len(),
        )) is Some {
        Some(
            Json::Array(
                Seq::new(
                    p.returned.len(),
                    |i: int| value_of(p.statements, answer, p.returned[i], p.statements.len())->0,
                ),
            ),
        )
    } else {
        None
    }
}

/// The variable that keeps the result of the call at position `i`.
pub open spec fn result_variable(i: nat) -> Seq<char> {
    "result"@ + decimal_text(i)
}

/// The program for `calls`: one statement for each call, in order, each into
/// a variable of its own, and the return of all those variables, in the same
/// order.
pub open spec fn program_of(calls: Seq<Call>) -> Program {
    Program {
        statements: Seq::new(
            calls.len(),
            |i: int| Statement { variable: result_variable(i as nat), call: calls[i] },
        ),
        returned: Seq::new(calls.len(), |i: int| result_variable(i as nat)),
    }
}

/// Two positions have two variables.
pub proof fn lemma_result_variables_differ(i: nat, j: nat)
    requires
        result_variable(i) == result_variable(j),
    ensures
        i == j,
{
    let prefix = "result"@;
    assert(decimal_text(i) =~= result_variable(i).skip(prefix.len() as int));
    assert(decimal_text(j) =~= result_variable(j).skip(prefix.len() as int));
    lemma_decimal_round_trip(i);
    lemma_decimal_round_trip(j);
}

/// Once the first `n` statements of the program for `calls` have run, the
/// variable of position `i` holds the provider's answer to the call at `i`, if
/// that statement is among them.
proof fn lemma_value_of_result(calls: Seq<Call>, answer: spec_fn(Call) -> Json, i: nat, n: nat)
    requires
        n <= calls.len(),
    ensures
        value_of(program_of(calls).statements, answer, result_variable(i), n) == if i < n {
            Some(answer(calls[i as int]))
        } else {
            None
        },
    decreases n,
{
    if n > 0 {
        let last = (n - 1) as nat;
        lemma_value_of_result(calls, answer, i, last);
        if result_variable(last) == result_variable(i) {
            lemma_result_variables_differ(last, i);
        }
    }
}

/// The first `n` statements of the script for `calls` are the text of the
/// first `n` statements of its program, and so for the returned variables.
proof fn lemma_texts_agree(calls: Seq<Call>, n: nat)
    requires
        n <= calls.len(),
    ensures
        statements_text(program_of(calls).statements, n) == statements(calls, n),
        returned_text(program_of(calls).returned, n) == result_list(n),
    decreases n,
{
    if n > 0 {
        let last = (n - 1) as nat;
        lemma_texts_agree(calls, last);
        reveal_strlit("var result");
        reveal_strlit("var ");
        reveal_strlit("result");
        assert("var result"@ =~= "var "@ + "result"@);
        assert(statement_text(program_of(calls).statements[last as int]) =~= statement(
            last,
            calls[last as int],
        ));
        assert(returned_text(program_of(calls).returned, n) =~= result_list(n));
    }
}

/// The script for `calls` is the text of the program for `calls`.
pub proof fn lemma_script_is_program(calls: Seq<Call>)
    ensures
        script_text(calls) == program_text(program_of(calls)),
{
    lemma_texts_agree(calls, calls.len());
}

/// Script round trip. The script for `k` calls is the text of a program that,
/// run by a provider which answers each call as `answer` says, returns an
/// array of `k` items, the item at each position being the answer to the call
/// at that position.
pub proof fn lemma_script_round_trip(calls: Seq<Call>, answer: spec_fn(Call) -> Json)
    ensures
        script_text(calls) == program_text(program_of(calls)),
        evaluate(program_of(calls), answer) == Some(
            Json::Array(Seq::new(calls.len(), |i: int| answer(calls[i]))),
        ),
{
    lemma_script_is_program(calls);
    let p = program_of(calls);
    assert forall|i: int| 0 <= i < p.returned.len() implies (#[trigger] value_of(
        p.statements,
        answer,
        p.returned[i],
        p.statements.len(),
    )) == Some(answer(calls[i])) by {
        lemma_value_of_result(calls, answer, i as nat, calls.len());
    }
    assert(Seq::new(
        p.returned.len(),
        |i: int| value_of(p.statements, answer, p.returned[i], p.statements.len())->0,
    ) =~= Seq::new(calls.len(), |i: int| answer(calls[i])));
}

} // verus!
