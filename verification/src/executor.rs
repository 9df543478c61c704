//! The executor: the single dispatch point. It routes a request to the
//! handler the request names, invokes it, and normalizes the heterogeneous
//! outcome into the one uniform result shape a consumer ever sees.

use vstd::prelude::*;

use crate::registry::Adapter;
use crate::registry::Registry;
use crate::registry::unknown_action_msg;
use crate::value::Value;
use crate::value::ValueSpec;
use crate::value::field_or_null;
use crate::value::str_field;

verus! {

/// The model of an [`Outcome`]: the tagged union of a success value and an
/// error message.
pub enum OutcomeSpec {
    Success(ValueSpec),
    Error(Seq<char>),
}

/// The normalized result of one dispatched request: a success value or an
/// error message — always exactly one of the two.
#[derive(Debug, PartialEq)]
pub enum Outcome {
    Success(Value),
    Error(String),
}

impl View for Outcome {
    type V = OutcomeSpec;

    open spec fn view(&self) -> OutcomeSpec {
        match self {
            Outcome::Success(v) => OutcomeSpec::Success(v@),
            Outcome::Error(e) => OutcomeSpec::Error(e@),
        }
    }
}

/// A handler outcome, normalized into the uniform result shape.
pub open spec fn normalized(m: Result<ValueSpec, Seq<char>>) -> OutcomeSpec {
    match m {
        Result::Ok(v) => OutcomeSpec::Success(v),
        Result::Err(e) => OutcomeSpec::Error(e),
    }
}

/// The handler name a request routes to: its `adapter` field, with the
/// empty string standing in for a missing or non-string one.
pub open spec fn adapter_of(req: ValueSpec) -> Seq<char> {
    str_field(req, "adapter"@)
}

/// The action a request asks of its handler: its `action` field, with the
/// empty string standing in for a missing or non-string one.
pub open spec fn action_of(req: ValueSpec) -> Seq<char> {
    str_field(req, "action"@)
}

/// The parameters a request hands through unvalidated: its `params` field,
/// with `Null` standing in for a missing one.
pub open spec fn params_of(req: ValueSpec) -> ValueSpec {
    field_or_null(req, "params"@)
}

/// The wire shape of an outcome: `{"status": "success", "data": d}` for a
/// success, `{"status": "error", "message": m}` for an error.
pub open spec fn wire_shape(o: OutcomeSpec) -> ValueSpec {
    match o {
        OutcomeSpec::Success(d) => ValueSpec::Obj(
            seq![("status"@, ValueSpec::Str("success"@)), ("data"@, d)],
        ),
        OutcomeSpec::Error(m) => ValueSpec::Obj(
            seq![("status"@, ValueSpec::Str("error"@)), ("message"@, ValueSpec::Str(m))],
        ),
    }
}

impl Outcome {
    /// This outcome as a structured value of the wire shape.
    pub fn to_value(self) -> (r: Value)
        ensures
            r@ == wire_shape(self@),
    {
        match self {
            Outcome::Success(d) => {
                let ghost dm = d@;
                let mut fields: Vec<(String, Value)> = Vec::new();
                fields.push(("status".to_owned(), Value::Str("success".to_owned())));
                fields.push(("data".to_owned(), d));
                let r = Value::Obj(fields);
                proof {
                    assert(r@ is Obj);
                    assert(fields@.len() == 2);
                    assert(r@->Obj_0.len() == 2);
                    assert(r@->Obj_0[0] == (fields@[0].0@, fields@[0].1@));
                    assert(r@->Obj_0[0].0 == "status"@);
                    assert(r@->Obj_0[0].1 == ValueSpec::Str("success"@));
                    assert(r@->Obj_0[1].0 == "data"@);
                    assert(r@->Obj_0[1].1 == dm);
                    assert(r@->Obj_0 =~= seq![
                        ("status"@, ValueSpec::Str("success"@)),
                        ("data"@, dm),
                    ]);
                }
                r
            },
            Outcome::Error(m) => {
                let ghost mm = m@;
                let mut fields: Vec<(String, Value)> = Vec::new();
                fields.push(("status".to_owned(), Value::Str("error".to_owned())));
                fields.push(("message".to_owned(), Value::Str(m)));
                let r = Value::Obj(fields);
                proof {
                    assert(r@ is Obj);
                    assert(fields@.len() == 2);
                    assert(r@->Obj_0.len() == 2);
                    assert(r@->Obj_0[0] == (fields@[0].0@, fields@[0].1@));
                    assert(r@->Obj_0[0].0 == "status"@);
                    assert(r@->Obj_0[0].1 == ValueSpec::Str("error"@));
                    assert(r@->Obj_0[1] == (fields@[1].0@, fields@[1].1@));
                    assert(fields@[1].1@ == ValueSpec::Str(mm));
                    assert(r@->Obj_0[1].0 == "message"@);
                    assert(r@->Obj_0[1].1 == ValueSpec::Str(mm));
                    assert(r@->Obj_0 =~= seq![
                        ("status"@, ValueSpec::Str("error"@)),
                        ("message"@, ValueSpec::Str(mm)),
                    ]);
                }
                r
            },
        }
    }
}

/// The executor: consumes a registry and translates each request into at
/// most one normalized outcome. Delivery of the outcome — pushing it onto
/// whatever channel the embedding program drains — is the caller's side of
/// the bargain; the executor owes it exactly one outcome per request whose
/// `adapter` resolves, and none for a request naming an unknown handler.
pub struct Executor<H> {
    registry: Registry<H>,
}

impl<H: Adapter> Executor<H> {
    /// The handlers this executor dispatches over, by name.
    pub closed spec fn handlers(&self) -> Map<Seq<char>, H> {
        self.registry@
    }

    /// An executor over `registry`, which it owns from here on.
    pub fn new(registry: Registry<H>) -> (r: Self)
        ensures
            r.handlers() == registry@,
    {
        Executor { registry }
    }

    /// Translate `request` into its one normalized outcome.
    ///
    /// The request's `adapter` field names the handler; its `action` and
    /// `params` fields are handed to that handler unvalidated. A request
    /// naming an unregistered handler yields no outcome at all — the
    /// deliberate routing gap of this dispatcher — and every other request
    /// yields exactly one: the handler's success value or error message,
    /// normalized.
    pub fn execute(&self, request: &Value) -> (r: Option<Outcome>)
        ensures
            r is Some <==> self.handlers().contains_key(adapter_of(request@)),
            r is Some ==> r.unwrap()@ == normalized(
                self.handlers()[adapter_of(request@)].result_model(
                    action_of(request@),
                    params_of(request@),
                ),
            ),
            r is Some ==> (self.handlers()[adapter_of(request@)].result_model(
                action_of(request@),
                params_of(request@),
            ) matches Ok(v) ==> r.unwrap()@ == OutcomeSpec::Success(v)),
            r is Some ==> (self.handlers()[adapter_of(request@)].result_model(
                action_of(request@),
                params_of(request@),
            ) matches Err(e) ==> r.unwrap()@ == OutcomeSpec::Error(e)),
            r is Some && !self.handlers()[adapter_of(request@)].recognizes(action_of(request@))
                ==> r.unwrap()@ == OutcomeSpec::Error(unknown_action_msg()),
    {
        let adapter_name = request.str_or_empty("adapter");
        let action = request.str_or_empty("action");
        let null = Value::Null;
        let params = request.get_or_null("params", &null);
        match self.registry.get(adapter_name.as_str()) {
            Some(handler) => {
                let result = handler.handle(action.as_str(), params);
                let outcome = match result {
                    Ok(data) => Outcome::Success(data),
                    Err(err) => Outcome::Error(err),
                };
                Some(outcome)
            },
            None => None,
        }
    }
}

} // verus!
