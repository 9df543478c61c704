//! The HTTP handler's decision half. The fetch itself is network I/O and
//! happens in the embedding program; what stands here — and is verified —
//! is the handler's routing decision: which requests carry a URL to fetch
//! and which error the others owe. The fetched document comes back to the
//! dispatcher as a structured value, success or failure, verbatim.

use vstd::prelude::*;

use crate::registry::unknown_action_msg;
use crate::value::Value;
use crate::value::ValueSpec;
use crate::value::field_lookup;
use crate::value::str_field;
use crate::value::str_eq;

verus! {

/// The decision the HTTP handler owes for `action` on `params`: the URL to
/// fetch, or the error of the request.
pub open spec fn api_plan_model(action: Seq<char>, params: ValueSpec) -> Result<
    Seq<char>,
    Seq<char>,
> {
    if action != "get"@ {
        Result::Err(unknown_action_msg())
    } else if !(field_lookup(params, "url"@) matches Some(ValueSpec::Str(_))) {
        Result::Err("Missing URL"@)
    } else {
        Result::Ok(str_field(params, "url"@))
    }
}

/// The HTTP handler. Its one action is `get`, taking the `url` to fetch; a
/// missing URL fails the request.
pub struct ApiAdapter;

impl ApiAdapter {
    pub fn new() -> (r: Self) {
        ApiAdapter
    }

    /// Decide a request: the URL to fetch, or the error the request owes
    /// instead.
    pub fn plan(&self, action: &str, params: &Value) -> (r: Result<String, String>)
        ensures
            match r {
                Ok(url) => api_plan_model(action@, params@) == Result::<
                    Seq<char>,
                    Seq<char>,
                >::Ok(url@),
                Err(e) => api_plan_model(action@, params@) == Result::<
                    Seq<char>,
                    Seq<char>,
                >::Err(e@),
            },
    {
        if !str_eq(action, "get") {
            return Err("Unknown action".to_owned());
        }
        match params.get("url") {
            Some(f) => match f.as_str() {
                Some(s) => Ok(s.clone()),
                None => Err("Missing URL".to_owned()),
            },
            None => Err("Missing URL".to_owned()),
        }
    }
}

} // verus!
