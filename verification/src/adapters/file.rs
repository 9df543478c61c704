//! The file handler's decision halves. Writing to disk is filesystem I/O
//! and happens in the embedding program; what stands here — and is verified
//! — is everything the handler decides: which requests are well-formed,
//! which error each ill-formed one owes, and how the write's outcome is
//! phrased.

use vstd::prelude::*;

use crate::registry::unknown_action_msg;
use crate::value::Value;
use crate::value::ValueSpec;
use crate::value::field_lookup;
use crate::value::str_field;
use crate::value::str_eq;

verus! {

/// The decision the file handler owes for `action` on `params`: the path
/// and content to write, or the error of the request.
pub open spec fn file_plan_model(action: Seq<char>, params: ValueSpec) -> Result<
    (Seq<char>, Seq<char>),
    Seq<char>,
> {
    if action != "write"@ {
        Result::Err(unknown_action_msg())
    } else if !(field_lookup(params, "path"@) matches Some(ValueSpec::Str(_))) {
        Result::Err("Missing path"@)
    } else if !(field_lookup(params, "content"@) matches Some(ValueSpec::Str(_))) {
        Result::Err("Missing content"@)
    } else {
        Result::Ok((str_field(params, "path"@), str_field(params, "content"@)))
    }
}

/// The file handler. Its one action is `write`, taking a `path` and a
/// `content` string; either one missing fails the request.
pub struct FileAdapter;

impl FileAdapter {
    pub fn new() -> (r: Self) {
        FileAdapter
    }

    /// Decide a request: the path and content to write, or the error the
    /// request owes instead.
    pub fn plan(&self, action: &str, params: &Value) -> (r: Result<(String, String), String>)
        ensures
            match r {
                Ok(pc) => file_plan_model(action@, params@) == Result::<
                    (Seq<char>, Seq<char>),
                    Seq<char>,
                >::Ok((pc.0@, pc.1@)),
                Err(e) => file_plan_model(action@, params@) == Result::<
                    (Seq<char>, Seq<char>),
                    Seq<char>,
                >::Err(e@),
            },
    {
        if !str_eq(action, "write") {
            return Err("Unknown action".to_owned());
        }
        let path = match params.get("path") {
            Some(f) => match f.as_str() {
                Some(s) => s.clone(),
                None => {
                    return Err("Missing path".to_owned());
                },
            },
            None => {
                return Err("Missing path".to_owned());
            },
        };
        let content = match params.get("content") {
            Some(f) => match f.as_str() {
                Some(s) => s.clone(),
                None => {
                    return Err("Missing content".to_owned());
                },
            },
            None => {
                return Err("Missing content".to_owned());
            },
        };
        Ok((path, content))
    }

    /// Phrase the write's outcome: the confirmation a completed write owes,
    /// or the reported reason of a failed one, verbatim.
    pub fn conclude(&self, written: Result<(), String>) -> (r: Result<Value, String>)
        ensures
            written is Ok ==> (r matches Ok(v) && v@ == ValueSpec::Str("File written"@)),
            written matches Err(e) ==> (r matches Err(msg) && msg@ == e@),
    {
        match written {
            Ok(()) => Ok(Value::Str("File written".to_owned())),
            Err(e) => Err(e),
        }
    }
}

} // verus!
