use hushreader::json::{
    bookshelf_from_settings, extract_error, fetch_reply_outcome, fetch_transport_error,
    read_api_reply, settings_json,
};

#[test]
fn reply_with_code_200_gives_data() {
    let data = read_api_reply(r#"{"code":200,"message":"ok","data":[1, {"a" : "b"}]}"#).unwrap();
    assert_eq!(data.as_text(), r#"[1,{"a":"b"}]"#);
    let expected: serde_json::Value = serde_json::from_str(r#"[1,{"a":"b"}]"#).unwrap();
    assert_eq!(data.into_value(), expected);
}

#[test]
fn reply_with_code_200_and_no_data_gives_null() {
    let data = read_api_reply(r#"{"code":200}"#).unwrap();
    assert_eq!(data.as_text(), "null");
    assert_eq!(data.into_value(), serde_json::Value::Null);
}

#[test]
fn reply_with_other_code_gives_message() {
    assert_eq!(read_api_reply(r#"{"code":500,"message":"书源异常"}"#).err().unwrap(), "书源异常");
}

#[test]
fn reply_without_message_gives_fixed_text() {
    assert_eq!(read_api_reply(r#"{"code":404}"#).err().unwrap(), "请求失败");
    assert_eq!(read_api_reply(r#"{"code":"200"}"#).err().unwrap(), "请求失败");
    assert_eq!(read_api_reply(r#"[1,2]"#).err().unwrap(), "请求失败");
}

#[test]
fn reply_that_is_not_json_gives_parser_message() {
    let expected = serde_json::from_str::<serde_json::Value>("not json")
        .err().unwrap()
        .to_string();
    assert_eq!(read_api_reply("not json").err().unwrap(), expected);
}

#[test]
fn extract_error_reads_message() {
    assert_eq!(extract_error(r#"{"message":"章节获取失败"}"#), "章节获取失败");
    assert_eq!(extract_error(r#"{"message":3}"#), "下载失败");
    assert_eq!(extract_error("<html>"), "下载失败");
    assert_eq!(extract_error(""), "下载失败");
}

#[test]
fn fetch_outcomes() {
    assert_eq!(fetch_reply_outcome(200, "ignored"), Ok(()));
    assert_eq!(fetch_reply_outcome(204, r#"{"message":"no"}"#), Err("no".to_string()));
    assert_eq!(fetch_reply_outcome(302, ""), Err("下载失败".to_string()));
    assert_eq!(fetch_transport_error("timeout"), "下载失败：timeout");
}

#[test]
fn settings_json_is_compact_object() {
    assert_eq!(settings_json("D:/书库"), r#"{"bookshelfDir":"D:/书库"}"#);
    assert_eq!(
        settings_json("C:\\Users\\me\\\"x\"\n\u{1}"),
        r#"{"bookshelfDir":"C:\\Users\\me\\\"x\"\n\u0001"}"#
    );
}

#[test]
fn settings_json_matches_serde_json_value_text() {
    for path in ["", "/home/u/books", "a\tb\u{7f}\u{1f}", "引号\"和\\反斜杠"] {
        let mut map = serde_json::Map::new();
        map.insert("bookshelfDir".to_string(), serde_json::Value::String(path.to_string()));
        let expected = serde_json::Value::Object(map).to_string();
        assert_eq!(settings_json(path), expected);
    }
}

#[test]
fn bookshelf_round_trip() {
    for path in ["/home/u/小说", "C:\\Books", "with \"quotes\"", ""] {
        let text = settings_json(path);
        assert_eq!(bookshelf_from_settings(Some(&text), "/data"), path);
    }
}

#[test]
fn bookshelf_defaults_to_books_under_data_dir() {
    let expected = std::path::Path::new("/data").join("books").to_string_lossy().into_owned();
    assert_eq!(bookshelf_from_settings(None, "/data"), expected);
    assert_eq!(bookshelf_from_settings(Some("garbage"), "/data"), expected);
    assert_eq!(bookshelf_from_settings(Some(r#"{"bookshelfDir":5}"#), "/data"), expected);
    assert_eq!(bookshelf_from_settings(Some(r#"{"other":"x"}"#), "/data"), expected);
}

#[test]
fn bookshelf_reads_other_settings_files() {
    assert_eq!(
        bookshelf_from_settings(Some("{ \"theme\": 1, \"bookshelfDir\" : \"/b\" }"), "/data"),
        "/b"
    );
}
