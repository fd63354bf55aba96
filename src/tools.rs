//! The tool catalog and the tool executor.
//!
//! The catalog ships one tool, a calculator over integers. Its arguments
//! arrive as JSON text, which serde_json parses; what is done with the parsed
//! values is verified here.

use vstd::prelude::*;
use vstd::string::*;
use crate::error::{Error, ErrorView, result_view};
use crate::model::{Function, ParameterSchema, PropertySchema, Tool, ToolCall};
use crate::text::{int_text, push_int, same_text};
use crate::json::{
    int_member, json_int_member, json_number_member, json_parse_error, json_text_member,
    number_member, parse_error, text_member,
};

verus! {

/// The name under which the calculator is advertised and dispatched.
pub const CALCULATOR: &'static str = "calculator";

pub open spec fn magnitude(n: int) -> nat {
    if n < 0 {
        (-n) as nat
    } else {
        n as nat
    }
}

/// The quotient `a / b` when `b` divides `a`.
pub open spec fn exact_quotient(a: int, b: int) -> Option<int> {
    if magnitude(b) != 0 && magnitude(a) % magnitude(b) == 0 {
        let q = (magnitude(a) / magnitude(b)) as int;
        Some(if (a < 0) != (b < 0) { -q } else { q })
    } else {
        None
    }
}

/// The quotient `a / b` as text: an integer where it is one, else the
/// fraction with a positive denominator.
pub open spec fn quotient_text(a: int, b: int) -> Seq<char> {
    match exact_quotient(a, b) {
        Some(q) => int_text(q),
        None => if b < 0 {
            int_text(-a) + "/"@ + int_text(-b)
        } else {
            int_text(a) + "/"@ + int_text(b)
        },
    }
}

pub open spec fn report(op: Seq<char>, a: int, b: int, value: Seq<char>) -> Seq<char> {
    "The result of "@ + int_text(a) + " "@ + op + " "@ + int_text(b) + " is "@ + value
}

/// What the calculator answers for an operation and two operands.
pub open spec fn calculation(op: Seq<char>, a: int, b: int) -> Result<Seq<char>, ErrorView> {
    if op == "add"@ {
        Ok(report(op, a, b, int_text(a + b)))
    } else if op == "subtract"@ {
        Ok(report(op, a, b, int_text(a - b)))
    } else if op == "multiply"@ {
        Ok(report(op, a, b, int_text(a * b)))
    } else if op == "divide"@ {
        if b == 0 {
            Err(ErrorView::ToolExecutionError("Division by zero"@))
        } else {
            Ok(report(op, a, b, quotient_text(a, b)))
        }
    } else {
        Err(ErrorView::ToolExecutionError("Unsupported operation: "@ + op))
    }
}

fn unsigned_magnitude(n: i64) -> (r: u128)
    ensures
        r as int == magnitude(n as int),
{
    if n < 0 {
        (-(n as i128)) as u128
    } else {
        n as u128
    }
}

fn quotient(a: i64, b: i64, out: &mut String)
    requires
        b != 0,
    ensures
        final(out)@ == old(out)@ + quotient_text(a as int, b as int),
{
    let ua = unsigned_magnitude(a);
    let ub = unsigned_magnitude(b);
    if ua % ub == 0 {
        let q = ua / ub;
        assert(q <= ua) by (nonlinear_arith)
            requires
                q == ua / ub,
                ub >= 1,
        ;
        let signed: i128 = if (a < 0) != (b < 0) {
            -(q as i128)
        } else {
            q as i128
        };
        push_int(out, signed);
    } else if b < 0 {
        push_int(out, -(a as i128));
        out.append("/");
        push_int(out, -(b as i128));
    } else {
        push_int(out, a as i128);
        out.append("/");
        push_int(out, b as i128);
    }
    assert(out@ =~= old(out)@ + quotient_text(a as int, b as int));
}

fn report_text(op: &str, a: i64, b: i64) -> (r: String)
    ensures
        r@ == "The result of "@ + int_text(a as int) + " "@ + op@ + " "@ + int_text(b as int)
            + " is "@,
{
    let mut r = String::from_str("The result of ");
    push_int(&mut r, a as i128);
    r.append(" ");
    r.append(op);
    r.append(" ");
    push_int(&mut r, b as i128);
    r.append(" is ");
    r
}

/// Applies the calculator's operation to two integer operands.
pub fn calculate(operation: &str, a: i64, b: i64) -> (r: Result<String, Error>)
    ensures
        result_view(r) == calculation(operation@, a as int, b as int),
{
    let op = operation;
    if same_text(op, "add") {
        let mut r = report_text(op, a, b);
        push_int(&mut r, a as i128 + b as i128);
        assert(r@ =~= report(op@, a as int, b as int, int_text(a + b)));
        Ok(r)
    } else if same_text(op, "subtract") {
        let mut r = report_text(op, a, b);
        push_int(&mut r, a as i128 - b as i128);
        assert(r@ =~= report(op@, a as int, b as int, int_text(a - b)));
        Ok(r)
    } else if same_text(op, "multiply") {
        let mut r = report_text(op, a, b);
        let x = a as i128;
        let y = b as i128;
        assert(-0x4000_0000_0000_0000_0000_0000_0000_0000 <= x * y <= 0x4000_0000_0000_0000_0000_0000_0000_0000)
            by (nonlinear_arith)
            requires
                -0x8000_0000_0000_0000 <= x < 0x8000_0000_0000_0000,
                -0x8000_0000_0000_0000 <= y < 0x8000_0000_0000_0000,
        ;
        push_int(&mut r, x * y);
        assert(r@ =~= report(op@, a as int, b as int, int_text(a * b)));
        Ok(r)
    } else if same_text(op, "divide") {
        if b == 0 {
            Err(Error::ToolExecutionError(String::from_str("Division by zero")))
        } else {
            let mut r = report_text(op, a, b);
            quotient(a, b, &mut r);
            assert(r@ =~= report(op@, a as int, b as int, quotient_text(a as int, b as int)));
            Ok(r)
        }
    } else {
        let mut m = String::from_str("Unsupported operation: ");
        m.append(op);
        Err(Error::ToolExecutionError(m))
    }
}

pub open spec fn texts_view(s: Seq<String>) -> Seq<Seq<char>> {
    s.map_values(|x: String| x@)
}

pub open spec fn property_is(
    p: PropertySchema,
    name: Seq<char>,
    property_type: Seq<char>,
    allowed: Option<Seq<Seq<char>>>,
) -> bool {
    &&& p.name@ == name
    &&& p.property_type@ == property_type
    &&& match p.allowed_values {
        Some(v) => allowed == Some(texts_view(v@)),
        None => allowed is None,
    }
}

/// The calculator's argument schema: an operation among the four it knows,
/// and two numbers, all three required.
pub open spec fn is_calculator_schema(p: ParameterSchema) -> bool {
    &&& p.schema_type@ == "object"@
    &&& p.properties@.len() == 3
    &&& property_is(
        p.properties@[0],
        "operation"@,
        "string"@,
        Some(seq!["add"@, "subtract"@, "multiply"@, "divide"@]),
    )
    &&& property_is(p.properties@[1], "a"@, "number"@, None)
    &&& property_is(p.properties@[2], "b"@, "number"@, None)
    &&& texts_view(p.required@) == seq!["operation"@, "a"@, "b"@]
}

pub open spec fn is_calculator_tool(t: Tool) -> bool {
    &&& t.tool_type@ == "function"@
    &&& t.function.name@ == "calculator"@
    &&& match t.function.description {
        Some(d) => d@ == "A simple calculator function for arithmetic operations"@,
        None => false,
    }
    &&& match t.function.parameters {
        Some(p) => is_calculator_schema(p),
        None => false,
    }
}

fn property(name: &str, property_type: &str, allowed: Option<Vec<String>>) -> (r: PropertySchema)
    ensures
        r.name@ == name@,
        r.property_type@ == property_type@,
        r.allowed_values == allowed,
{
    PropertySchema {
        name: String::from_str(name),
        property_type: String::from_str(property_type),
        allowed_values: allowed,
    }
}

/// The calculator tool's declaration.
pub fn calculator() -> (r: Tool)
    ensures
        is_calculator_tool(r),
{
    let mut operations: Vec<String> = Vec::new();
    operations.push(String::from_str("add"));
    operations.push(String::from_str("subtract"));
    operations.push(String::from_str("multiply"));
    operations.push(String::from_str("divide"));
    assert(texts_view(operations@) =~= seq!["add"@, "subtract"@, "multiply"@, "divide"@]);
    let mut properties: Vec<PropertySchema> = Vec::new();
    properties.push(property("operation", "string", Some(operations)));
    properties.push(property("a", "number", None));
    properties.push(property("b", "number", None));
    let mut required: Vec<String> = Vec::new();
    required.push(String::from_str("operation"));
    required.push(String::from_str("a"));
    required.push(String::from_str("b"));
    assert(texts_view(required@) =~= seq!["operation"@, "a"@, "b"@]);
    Tool {
        tool_type: String::from_str("function"),
        function: Function {
            name: String::from_str(CALCULATOR),
            description: Some(
                String::from_str("A simple calculator function for arithmetic operations"),
            ),
            parameters: Some(
                ParameterSchema {
                    schema_type: String::from_str("object"),
                    properties,
                    required,
                },
            ),
        },
    }
}

/// Every tool that the executor knows, in the order they are advertised.
pub fn catalog() -> (r: Vec<Tool>)
    ensures
        r@.len() == 1,
        is_calculator_tool(r@[0]),
{
    let mut r: Vec<Tool> = Vec::new();
    r.push(calculator());
    r
}

pub open spec fn parse_failure(detail: Seq<char>) -> ErrorView {
    ErrorView::ToolArgumentError("Failed to parse calculator arguments: "@ + detail)
}

pub open spec fn argument_error(key: Seq<char>) -> ErrorView {
    ErrorView::ToolArgumentError("Missing parameter "@ + key)
}

pub open spec fn non_integer_error(key: Seq<char>) -> ErrorView {
    ErrorView::ToolArgumentError("Parameter "@ + key + " is not an integer"@)
}

/// The integer operand under `key`: missing where the member is absent or
/// not a number, refused where it is a number but not an integer.
pub open spec fn operand(args: Seq<char>, key: Seq<char>) -> Result<i64, ErrorView> {
    match json_int_member(args, key) {
        Some(n) => Ok(n),
        None => if json_number_member(args, key) {
            Err(non_integer_error(key))
        } else {
            Err(argument_error(key))
        },
    }
}

/// The calculator's answer to an argument text. The text is parsed first,
/// then the operation is read, then the operands `a` and `b`, in that order;
/// the first failure is the answer. Otherwise the answer is the calculation
/// on the operation and operands that the text holds.
pub open spec fn calculator_answer(args: Seq<char>) -> Result<Seq<char>, ErrorView> {
    match json_parse_error(args) {
        Some(e) => Err(parse_failure(e)),
        None => match json_text_member(args, "operation"@) {
            None => Err(ErrorView::ToolArgumentError("Missing operation"@)),
            Some(op) => match operand(args, "a"@) {
                Err(e) => Err(e),
                Ok(a) => match operand(args, "b"@) {
                    Err(e) => Err(e),
                    Ok(b) => calculation(op, a as int, b as int),
                },
            },
        },
    }
}

fn integer_member(args: &str, key: &str) -> (r: Result<i64, Error>)
    ensures
        match r {
            Ok(n) => operand(args@, key@) == Ok::<i64, ErrorView>(n),
            Err(e) => operand(args@, key@) == Err::<i64, ErrorView>(e@),
        },
{
    match int_member(args, key) {
        Some(n) => Ok(n),
        None => if number_member(args, key) {
            let mut m = String::from_str("Parameter ");
            m.append(key);
            m.append(" is not an integer");
            Err(Error::ToolArgumentError(m))
        } else {
            let mut m = String::from_str("Missing parameter ");
            m.append(key);
            Err(Error::ToolArgumentError(m))
        },
    }
}

fn execute_calculator(tool_call: &ToolCall) -> (r: Result<String, Error>)
    ensures
        result_view(r) == calculator_answer(tool_call.function.arguments@),
{
    let args = tool_call.function.arguments.as_str();
    match parse_error(args) {
        Some(e) => {
            let mut m = String::from_str("Failed to parse calculator arguments: ");
            m.append(e.as_str());
            return Err(Error::ToolArgumentError(m));
        },
        None => {},
    }
    let operation = match text_member(args, "operation") {
        Some(o) => o,
        None => {
            return Err(Error::ToolArgumentError(String::from_str("Missing operation")));
        },
    };
    let a = match integer_member(args, "a") {
        Ok(n) => n,
        Err(e) => {
            return Err(e);
        },
    };
    let b = match integer_member(args, "b") {
        Ok(n) => n,
        Err(e) => {
            return Err(e);
        },
    };
    calculate(operation.as_str(), a, b)
}

/// The executor's answer to a tool call: the calculator's answer for the
/// calculator, and a plain note for any tool not in the catalog. It depends
/// on the call's name and arguments alone.
pub open spec fn tool_answer(call: crate::model::ToolCallView) -> Result<Seq<char>, ErrorView> {
    if call.name == "calculator"@ {
        calculator_answer(call.arguments)
    } else {
        Ok("Unknown tool: "@ + call.name)
    }
}

/// Runs one tool call locally. A tool that the catalog does not hold is
/// answered with a note rather than an error, so that the conversation goes on.
pub fn execute_tool_call(tool_call: &ToolCall) -> (r: Result<String, Error>)
    ensures
        result_view(r) == tool_answer(tool_call@),
{
    if same_text(tool_call.function.name.as_str(), CALCULATOR) {
        proof { reveal_strlit("calculator"); }
        assert(CALCULATOR@ == "calculator"@);
        execute_calculator(tool_call)
    } else {
        assert(CALCULATOR@ == "calculator"@);
        let mut m = String::from_str("Unknown tool: ");
        m.append(tool_call.function.name.as_str());
        Ok(m)
    }
}

} // verus!
