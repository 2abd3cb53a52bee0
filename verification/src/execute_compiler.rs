//! The script compiler: method calls in, one `execute` script out.

use crate::json::object_text;
use crate::method::{methods_view, Method, MethodView};
use crate::text::{append_decimal, decimal_text};
use vstd::prelude::*;
use vstd::string::*;

verus! {

/// One call as the script embeds it: the method's name and the JSON text of
/// its parameters.
pub struct Call {
    pub name: Seq<char>,
    pub params: Seq<char>,
}

/// The statement that runs the call at position `index` and keeps what it
/// returns.
pub open spec fn statement(index: nat, call: Call) -> Seq<char> {
    "var result"@ + decimal_text(index) + " = API."@ + call.name + "("@ + call.params + ");"@
}

/// The statements of the first `n` calls, in order.
pub open spec fn statements(calls: Seq<Call>, n: nat) -> Seq<char>
    decreases n,
{
    if n == 0 {
        Seq::empty()
    } else {
        statements(calls, (n - 1) as nat) + statement((n - 1) as nat, calls[n - 1])
    }
}

/// The names of the first `n` results, each followed by a comma.
pub open spec fn result_list(n: nat) -> Seq<char>
    decreases n,
{
    if n == 0 {
        Seq::empty()
    } else {
        result_list((n - 1) as nat) + "result"@ + decimal_text((n - 1) as nat) + ","@
    }
}

/// The script for `calls`: one statement for each call, in order, and a
/// `return` of the array of all results, in the same order.
pub open spec fn script_text(calls: Seq<Call>) -> Seq<char> {
    statements(calls, calls.len()) + "return ["@ + result_list(calls.len()) + "];"@
}

/// The calls that `methods` stand for: each by its name and the JSON object of
/// its parameters.
pub open spec fn calls_of(methods: Seq<MethodView>) -> Seq<Call> {
    Seq::new(
        methods.len(),
        |i: int| Call { name: methods[i].name, params: object_text(methods[i].params) },
    )
}

/// The views of `calls`, given as pairs of a name and the text of the
/// parameters.
pub open spec fn calls_view(calls: Seq<(String, String)>) -> Seq<Call> {
    Seq::new(calls.len(), |i: int| Call { name: calls[i].0@, params: calls[i].1@ })
}

/// Turns method calls into the source of one `execute` script.
pub struct ExecuteCompiler;

impl ExecuteCompiler {
    /// The script for calls whose parameters are already JSON text: each pair
    /// is a method's name and the JSON object of its parameters.
    pub fn assemble(calls: &Vec<(String, String)>) -> (r: String)
        ensures
            r@ == script_text(calls_view(calls@)),
    {
        let ghost view = calls_view(calls@);
        let mut code = String::new();
        let count: usize = calls.len();
        let mut index: usize = 0;
        while index < count
            invariant
                0 <= index <= count,
                count == calls@.len(),
                view == calls_view(calls@),
                code@ == statements(view, index as nat),
            decreases count - index,
        {
            code.append("var result");
            append_decimal(&mut code, index as u64);
            code.append(" = API.");
            code.append(calls[index].0.as_str());
            code.append("(");
            code.append(calls[index].1.as_str());
            code.append(");");
            proof {
                assert(code@ =~= statements(view, index as nat) + statement(
                    index as nat,
                    view[index as int],
                ));
            }
            index += 1;
        }
        code.append("return [");
        let mut i: usize = 0;
        while i < count
            invariant
                0 <= i <= count,
                count == calls@.len(),
                code@ == statements(view, count as nat) + "return ["@ + result_list(i as nat),
            decreases count - i,
        {
            code.append("result");
            append_decimal(&mut code, i as u64);
            code.append(",");
            proof {
                assert(code@ =~= statements(view, count as nat) + "return ["@ + result_list(
                    (i + 1) as nat,
                ));
            }
            i += 1;
        }
        code.append("];");
        assert(code@ =~= script_text(view));
        code
    }

    /// The script that runs `execute`, in order, and returns the array of
    /// their results.
    pub fn compile(execute: Vec<Method>) -> (r: String)
        ensures
            r@ == script_text(calls_of(methods_view(execute@))),
    {
        let ghost wanted = calls_of(methods_view(execute@));
        let mut calls: Vec<(String, String)> = Vec::new();
        let mut i: usize = 0;
        while i < execute.len()
            invariant
                0 <= i <= execute@.len(),
                wanted == calls_of(methods_view(execute@)),
                calls@.len() == i,
                forall|j: int|
                    0 <= j < i ==> (Call { name: calls@[j].0@, params: calls@[j].1@ })
                        == wanted[j],
            decreases execute@.len() - i,
        {
            let params = execute[i].params.to_json();
            calls.push((execute[i].name.clone(), params));
            i += 1;
        }
        proof {
            assert(calls_view(calls@) =~= wanted);
        }
        ExecuteCompiler::assemble(&calls)
    }
}

} // verus!
