use dispatcher::adapters::calculator::CalculatorAdapter;
use dispatcher::executor::Executor;
use dispatcher::executor::Outcome;
use dispatcher::registry::Adapter;
use dispatcher::registry::Registry;
use dispatcher::value::Value;

fn obj(fields: Vec<(&str, Value)>) -> Value {
    Value::Obj(fields.into_iter().map(|(k, v)| (k.to_string(), v)).collect())
}

fn calc_executor() -> Executor<CalculatorAdapter> {
    let mut reg = Registry::new();
    reg.register("calc", CalculatorAdapter::new());
    Executor::new(reg)
}

#[test]
fn calc_add_publishes_the_sum() {
    let ex = calc_executor();
    let request = obj(vec![
        ("adapter", Value::Str("calc".to_string())),
        ("action", Value::Str("add".to_string())),
        ("params", obj(vec![("a", Value::Int(5)), ("b", Value::Int(10))])),
    ]);
    assert_eq!(ex.execute(&request), Some(Outcome::Success(Value::Int(15))));
}

#[test]
fn calc_add_missing_operand_defaults_to_zero() {
    let ex = calc_executor();
    let request = obj(vec![
        ("adapter", Value::Str("calc".to_string())),
        ("action", Value::Str("add".to_string())),
        ("params", obj(vec![("a", Value::Int(5))])),
    ]);
    assert_eq!(ex.execute(&request), Some(Outcome::Success(Value::Int(5))));
}

#[test]
fn calc_add_non_numeric_operand_defaults_to_zero() {
    let ex = calc_executor();
    let request = obj(vec![
        ("adapter", Value::Str("calc".to_string())),
        ("action", Value::Str("add".to_string())),
        (
            "params",
            obj(vec![("a", Value::Str("five".to_string())), ("b", Value::Int(10))]),
        ),
    ]);
    assert_eq!(ex.execute(&request), Some(Outcome::Success(Value::Int(10))));
}

#[test]
fn calc_add_wraps_on_overflow() {
    let ex = calc_executor();
    let request = obj(vec![
        ("adapter", Value::Str("calc".to_string())),
        ("action", Value::Str("add".to_string())),
        ("params", obj(vec![("a", Value::Int(i64::MAX)), ("b", Value::Int(1))])),
    ]);
    assert_eq!(ex.execute(&request), Some(Outcome::Success(Value::Int(i64::MIN))));
}

#[test]
fn calc_unknown_action_publishes_the_error() {
    let ex = calc_executor();
    let request = obj(vec![
        ("adapter", Value::Str("calc".to_string())),
        ("action", Value::Str("subtract".to_string())),
        ("params", obj(vec![("a", Value::Int(5)), ("b", Value::Int(10))])),
    ]);
    assert_eq!(
        ex.execute(&request),
        Some(Outcome::Error("Unknown action".to_string()))
    );
}

#[test]
fn unknown_adapter_publishes_nothing() {
    let ex = calc_executor();
    let request = obj(vec![
        ("adapter", Value::Str("ghost".to_string())),
        ("action", Value::Str("noop".to_string())),
        ("params", obj(vec![])),
    ]);
    assert_eq!(ex.execute(&request), None);
}

#[test]
fn missing_routing_fields_default_to_empty_names() {
    let ex = calc_executor();
    // Neither `adapter` nor `action` present: both default to the empty
    // string, and no handler is registered under the empty name.
    assert_eq!(ex.execute(&obj(vec![])), None);
    // An empty-string registration is reachable by such a request.
    let mut reg = Registry::new();
    reg.register("", CalculatorAdapter::new());
    let ex = Executor::new(reg);
    assert_eq!(
        ex.execute(&obj(vec![])),
        Some(Outcome::Error("Unknown action".to_string()))
    );
}

#[test]
fn missing_params_defaults_to_null() {
    let ex = calc_executor();
    let request = obj(vec![
        ("adapter", Value::Str("calc".to_string())),
        ("action", Value::Str("add".to_string())),
    ]);
    // Null parameters have no fields; both operands default to zero.
    assert_eq!(ex.execute(&request), Some(Outcome::Success(Value::Int(0))));
}

struct EchoAdapter;

impl Adapter for EchoAdapter {
    fn handle(&self, action: &str, params: &Value) -> Result<Value, String> {
        if action == "echo" {
            match params.get("text") {
                Some(Value::Str(s)) => Ok(Value::Str(s.clone())),
                _ => Ok(Value::Null),
            }
        } else {
            Err("Unknown action".to_string())
        }
    }
}

enum EitherHandler {
    Calc(CalculatorAdapter),
    Echo(EchoAdapter),
}

impl Adapter for EitherHandler {
    fn handle(&self, action: &str, params: &Value) -> Result<Value, String> {
        match self {
            EitherHandler::Calc(h) => h.handle(action, params),
            EitherHandler::Echo(h) => h.handle(action, params),
        }
    }
}

#[test]
fn two_handlers_each_request_correctly_tagged() {
    let mut reg = Registry::new();
    reg.register("calc", EitherHandler::Calc(CalculatorAdapter::new()));
    reg.register("echo", EitherHandler::Echo(EchoAdapter));
    let ex = Executor::new(reg);

    let add = obj(vec![
        ("adapter", Value::Str("calc".to_string())),
        ("action", Value::Str("add".to_string())),
        ("params", obj(vec![("a", Value::Int(2)), ("b", Value::Int(3))])),
    ]);
    let echo = obj(vec![
        ("adapter", Value::Str("echo".to_string())),
        ("action", Value::Str("echo".to_string())),
        ("params", obj(vec![("text", Value::Str("hi".to_string()))])),
    ]);
    let bad = obj(vec![
        ("adapter", Value::Str("echo".to_string())),
        ("action", Value::Str("shout".to_string())),
        ("params", obj(vec![])),
    ]);

    assert_eq!(ex.execute(&add), Some(Outcome::Success(Value::Int(5))));
    assert_eq!(
        ex.execute(&echo),
        Some(Outcome::Success(Value::Str("hi".to_string())))
    );
    assert_eq!(
        ex.execute(&bad),
        Some(Outcome::Error("Unknown action".to_string()))
    );
}

#[test]
fn dispatched_sum_reaches_the_wire_shape() {
    let ex = calc_executor();
    let request = obj(vec![
        ("adapter", Value::Str("calc".to_string())),
        ("action", Value::Str("add".to_string())),
        ("params", obj(vec![("a", Value::Int(5)), ("b", Value::Int(10))])),
    ]);
    let outcome = ex.execute(&request).expect("calc is registered");
    assert_eq!(
        outcome.to_value(),
        obj(vec![
            ("status", Value::Str("success".to_string())),
            ("data", Value::Int(15)),
        ])
    );
}

#[test]
fn success_outcome_wire_shape() {
    let out = Outcome::Success(Value::Int(15));
    assert_eq!(
        out.to_value(),
        obj(vec![
            ("status", Value::Str("success".to_string())),
            ("data", Value::Int(15)),
        ])
    );
}

#[test]
fn error_outcome_wire_shape() {
    let out = Outcome::Error("boom".to_string());
    assert_eq!(
        out.to_value(),
        obj(vec![
            ("status", Value::Str("error".to_string())),
            ("message", Value::Str("boom".to_string())),
        ])
    );
}
