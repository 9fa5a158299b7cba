use maw_grok::json::{parse_json, text_chars, Json, JsonMember};

fn doc(s: &str) -> Json {
    parse_json(s).expect("valid JSON")
}

fn s(x: &str) -> Json {
    Json::Str(x.to_string())
}

#[test]
fn parse_builds_the_tree() {
    let j = doc(r#"{"b": [1, true, null, "x"], "a": 2.5}"#);
    assert_eq!(
        j,
        Json::Object(vec![
            JsonMember { key: "a".to_string(), value: Json::Number("2.5".to_string()) },
            JsonMember {
                key: "b".to_string(),
                value: Json::Array(vec![Json::Number("1".to_string()), Json::Bool(true), Json::Null, s("x")]),
            },
        ])
    );
}

#[test]
fn parse_reports_errors() {
    let e = parse_json("[1,").unwrap_err();
    assert_eq!(e, "EOF while parsing a value at line 1 column 3");
    assert_eq!(e, serde_json::from_str::<serde_json::Value>("[1,").unwrap_err().to_string());
}

#[test]
fn get_and_as_str() {
    let j = doc(r#"{"a": "x", "b": 1}"#);
    assert_eq!(j.get("a"), Some(&s("x")));
    assert_eq!(j.get("a").and_then(|v| v.as_str()), Some("x"));
    assert_eq!(j.get("b").and_then(|v| v.as_str()), None);
    assert_eq!(j.get("c"), None);
    assert_eq!(s("x").get("a"), None);
}

#[test]
fn pointer_walks_objects_and_arrays() {
    let j = doc(r#"{"data": [{"url": "https://u/1"}, {"url": "https://u/2"}]}"#);
    assert_eq!(j.pointer("/data/0/url"), Some(&s("https://u/1")));
    assert_eq!(j.pointer("/data/1/url"), Some(&s("https://u/2")));
    assert_eq!(j.pointer("/data/2/url"), None);
    assert_eq!(j.pointer(""), Some(&j));
    assert_eq!(j.pointer("data"), None);
}

#[test]
fn pointer_index_rules() {
    let j = doc(r#"{"a": [10, 11], "0": "zero"}"#);
    assert_eq!(j.pointer("/a/01"), None);
    assert_eq!(j.pointer("/a/+1"), None);
    assert_eq!(j.pointer("/a/-1"), None);
    assert_eq!(j.pointer("/a/"), None);
    assert_eq!(j.pointer("/a/99999999999999999999999999"), None);
    assert_eq!(j.pointer("/a/1"), Some(&Json::Number("11".to_string())));
    assert_eq!(j.pointer("/0"), Some(&s("zero")));
}

#[test]
fn pointer_unescapes_tokens() {
    let j = doc(r#"{"a/b": 1, "m~n": 2, "~1": 3, "": {"": 4}}"#);
    assert_eq!(j.pointer("/a~1b"), Some(&Json::Number("1".to_string())));
    assert_eq!(j.pointer("/m~0n"), Some(&Json::Number("2".to_string())));
    assert_eq!(j.pointer("/~01"), Some(&Json::Number("3".to_string())));
    assert_eq!(j.pointer("//"), Some(&Json::Number("4".to_string())));
}

#[test]
fn pointer_agrees_with_serde_json() {
    let text = r#"{"video": {"url": "v"}, "url": "u", "x": [[1, {"y~/": [2]}]], "0": {"00": 5}}"#;
    let j = doc(text);
    let v: serde_json::Value = serde_json::from_str(text).unwrap();
    for p in ["", "/", "/video", "/video/url", "/url", "/x/0/1/y~0~1/0", "/x/00", "/0/00", "/x/1", "nope", "/x/0/2"] {
        let mine = j.pointer(p).map(|w| format!("{:?}", w));
        let theirs = v.pointer(p).map(|w| format!("{:?}", parse_json(&w.to_string()).unwrap()));
        assert_eq!(mine, theirs, "pointer {p}");
    }
}

#[test]
fn pointers_compose() {
    let j = doc(r#"{"video": {"meta": {"url": "v"}}}"#);
    let mid = j.pointer("/video").unwrap();
    assert_eq!(j.pointer("/video/meta/url"), mid.pointer("/meta/url"));
    assert_eq!(j.pointer("/video/none/url"), mid.pointer("/none").and_then(|w| w.pointer("/url")));
}

#[test]
fn chars_of_text() {
    assert_eq!(text_chars("añb"), vec!['a', 'ñ', 'b']);
    assert_eq!(text_chars(""), Vec::<char>::new());
}
