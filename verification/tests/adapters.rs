use dispatcher::adapters::api::ApiAdapter;
use dispatcher::adapters::file::FileAdapter;
use dispatcher::value::Value;

fn obj(fields: Vec<(&str, Value)>) -> Value {
    Value::Obj(fields.into_iter().map(|(k, v)| (k.to_string(), v)).collect())
}

#[test]
fn file_write_plan_yields_path_and_content() {
    let file = FileAdapter::new();
    let params = obj(vec![
        ("path", Value::Str("/tmp/x".to_string())),
        ("content", Value::Str("hi".to_string())),
    ]);
    assert_eq!(
        file.plan("write", &params),
        Ok(("/tmp/x".to_string(), "hi".to_string()))
    );
}

#[test]
fn file_write_concludes_with_confirmation() {
    let file = FileAdapter::new();
    assert_eq!(
        file.conclude(Ok(())),
        Ok(Value::Str("File written".to_string()))
    );
}

#[test]
fn file_write_passes_the_failure_reason_through() {
    let file = FileAdapter::new();
    assert_eq!(
        file.conclude(Err("permission denied".to_string())),
        Err("permission denied".to_string())
    );
}

#[test]
fn file_write_missing_path_fails() {
    let file = FileAdapter::new();
    let params = obj(vec![("content", Value::Str("hi".to_string()))]);
    assert_eq!(file.plan("write", &params), Err("Missing path".to_string()));
    // A non-string path counts as missing too.
    let params = obj(vec![
        ("path", Value::Int(4)),
        ("content", Value::Str("hi".to_string())),
    ]);
    assert_eq!(file.plan("write", &params), Err("Missing path".to_string()));
}

#[test]
fn file_write_missing_content_fails() {
    let file = FileAdapter::new();
    let params = obj(vec![("path", Value::Str("/tmp/x".to_string()))]);
    assert_eq!(
        file.plan("write", &params),
        Err("Missing content".to_string())
    );
}

#[test]
fn file_unknown_action_fails() {
    let file = FileAdapter::new();
    assert_eq!(
        file.plan("read", &obj(vec![])),
        Err("Unknown action".to_string())
    );
}

#[test]
fn api_get_plan_yields_the_url() {
    let api = ApiAdapter::new();
    let params = obj(vec![("url", Value::Str("http://example.com/".to_string()))]);
    assert_eq!(api.plan("get", &params), Ok("http://example.com/".to_string()));
}

#[test]
fn api_get_missing_url_fails() {
    let api = ApiAdapter::new();
    assert_eq!(api.plan("get", &obj(vec![])), Err("Missing URL".to_string()));
    let params = obj(vec![("url", Value::Null)]);
    assert_eq!(api.plan("get", &params), Err("Missing URL".to_string()));
}

#[test]
fn api_unknown_action_fails() {
    let api = ApiAdapter::new();
    let params = obj(vec![("url", Value::Str("http://example.com/".to_string()))]);
    assert_eq!(api.plan("post", &params), Err("Unknown action".to_string()));
}
