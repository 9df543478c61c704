//! The arithmetic handler: pure computation, the one handler whose whole
//! behaviour lives here.

use vstd::prelude::*;

use crate::registry::Adapter;
use crate::registry::unknown_action_msg;
use crate::value::Value;
use crate::value::ValueSpec;
use crate::value::int_field;
use crate::value::str_eq;

verus! {

/// The sum the `add` action owes: the integer operands `a` and `b` of the
/// parameters, each defaulting to zero when missing or non-integer, summed
/// with wrap-around on 64-bit overflow.
pub open spec fn add_model(params: ValueSpec) -> i64 {
    vstd::wrapping::i64_specs::wrapping_add(
        int_field(params, "a"@),
        int_field(params, "b"@),
    )
}

/// The arithmetic handler. Its one action is `add`; a missing or
/// non-integer operand silently counts as zero — this handler's deliberate
/// defaulting policy.
pub struct CalculatorAdapter;

impl CalculatorAdapter {
    pub fn new() -> (r: Self) {
        CalculatorAdapter
    }
}

impl Adapter for CalculatorAdapter {
    open spec fn recognizes(&self, action: Seq<char>) -> bool {
        action == "add"@
    }

    open spec fn result_model(&self, action: Seq<char>, params: ValueSpec) -> Result<
        ValueSpec,
        Seq<char>,
    > {
        if action == "add"@ {
            Result::Ok(ValueSpec::Int(add_model(params)))
        } else {
            Result::Err(unknown_action_msg())
        }
    }

    fn handle(&self, action: &str, params: &Value) -> (r: Result<Value, String>) {
        if str_eq(action, "add") {
            let a = params.int_or_zero("a");
            let b = params.int_or_zero("b");
            Ok(Value::Int(a.wrapping_add(b)))
        } else {
            Err("Unknown action".to_owned())
        }
    }
}

} // verus!
