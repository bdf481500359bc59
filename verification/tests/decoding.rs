use token_metadata::json::Document;
use token_metadata::token::{DecodeError, Field, TokenInfo};

fn tether() -> TokenInfo {
    TokenInfo {
        name: String::from("Tether USD"),
        symbol: String::from("USDT"),
        decimals: String::from("6"),
    }
}

fn text(s: &str) -> Option<String> {
    Some(String::from(s))
}

fn member(key: &str, value: Option<String>) -> (String, Option<String>) {
    (String::from(key), value)
}

#[test]
fn object_with_the_three_fields_is_a_record() {
    let json = r#"{"name":"Tether USD","symbol":"USDT","decimals":"6"}"#;
    assert_eq!(TokenInfo::from_json(json), Ok(tether()));
}

#[test]
fn members_may_come_in_any_order_and_with_white_space() {
    let json = " {\n \"decimals\" : \"6\",\n \"symbol\" : \"USDT\",\n \"name\" : \"Tether USD\" }\n";
    assert_eq!(TokenInfo::from_json(json), Ok(tether()));
}

#[test]
fn other_members_are_passed_over() {
    let json = r#"{"address":"0xdac17f958d2ee523a2206206994597c13d831ec7","name":"Tether USD","symbol":"USDT","decimals":"6","logo":null,"block_number":4634748,"validated":true,"links":{"a":[1,2]}}"#;
    assert_eq!(TokenInfo::from_json(json), Ok(tether()));
}

#[test]
fn escapes_are_resolved() {
    let json = r#"{"name":"Tether \"USD\"\n","symbol":"US\\DT","decimals":"6"}"#;
    let info = TokenInfo::from_json(json).unwrap();
    assert_eq!(info.name, "Tether \"USD\"\n");
    assert_eq!(info.symbol, "US\\DT");
    assert_eq!(info.decimals, "6");
}

#[test]
fn fields_outside_ascii_are_kept() {
    let json = "{\"name\":\"Ðai ✓\",\"symbol\":\"Ð\",\"decimals\":\"18\"}";
    let info = TokenInfo::from_json(json).unwrap();
    assert_eq!(info.name, "Ðai ✓");
    assert_eq!(info.symbol, "Ð");
    assert_eq!(info.decimals, "18");
}

#[test]
fn empty_fields_are_fields() {
    let json = r#"{"name":"","symbol":"","decimals":""}"#;
    let info = TokenInfo::from_json(json).unwrap();
    assert_eq!(info.name, "");
    assert_eq!(info.symbol, "");
    assert_eq!(info.decimals, "");
}

#[test]
fn text_that_is_not_json_is_a_syntax_error() {
    assert_eq!(TokenInfo::from_json("not json at all"), Err(DecodeError::Syntax));
    assert_eq!(TokenInfo::from_json(""), Err(DecodeError::Syntax));
    assert_eq!(TokenInfo::from_json(r#"{"name":"a","symbol":"b","decimals":"c""#), Err(DecodeError::Syntax));
    assert_eq!(TokenInfo::from_json(r#"{"name":"a","symbol":"b","decimals":"c"} x"#), Err(DecodeError::Syntax));
}

#[test]
fn scalar_is_not_a_record() {
    assert_eq!(TokenInfo::from_json("null"), Err(DecodeError::NotARecord));
    assert_eq!(TokenInfo::from_json("true"), Err(DecodeError::NotARecord));
    assert_eq!(TokenInfo::from_json("18"), Err(DecodeError::NotARecord));
    assert_eq!(TokenInfo::from_json("\"USDT\""), Err(DecodeError::NotARecord));
}

#[test]
fn missing_member_is_named() {
    assert_eq!(TokenInfo::from_json("{}"), Err(DecodeError::Missing(Field::Name)));
    assert_eq!(
        TokenInfo::from_json(r#"{"symbol":"USDT","decimals":"6"}"#),
        Err(DecodeError::Missing(Field::Name))
    );
    assert_eq!(
        TokenInfo::from_json(r#"{"name":"Tether USD","decimals":"6"}"#),
        Err(DecodeError::Missing(Field::Symbol))
    );
    assert_eq!(
        TokenInfo::from_json(r#"{"name":"Tether USD","symbol":"USDT"}"#),
        Err(DecodeError::Missing(Field::Decimals))
    );
}

#[test]
fn member_names_are_case_sensitive() {
    assert_eq!(
        TokenInfo::from_json(r#"{"Name":"Tether USD","symbol":"USDT","decimals":"6"}"#),
        Err(DecodeError::Missing(Field::Name))
    );
}

#[test]
fn member_that_is_no_string_is_named() {
    assert_eq!(
        TokenInfo::from_json(r#"{"name":"Tether USD","symbol":"USDT","decimals":6}"#),
        Err(DecodeError::NotText(Field::Decimals))
    );
    assert_eq!(
        TokenInfo::from_json(r#"{"name":"Tether USD","symbol":null,"decimals":"6"}"#),
        Err(DecodeError::NotText(Field::Symbol))
    );
    assert_eq!(
        TokenInfo::from_json(r#"{"name":["Tether USD"],"symbol":"USDT","decimals":"6"}"#),
        Err(DecodeError::NotText(Field::Name))
    );
}

#[test]
fn first_failing_field_decides_the_error() {
    assert_eq!(
        TokenInfo::from_json(r#"{"decimals":6,"symbol":7}"#),
        Err(DecodeError::Missing(Field::Name))
    );
    assert_eq!(
        TokenInfo::from_json(r#"{"decimals":6,"symbol":7,"name":"Tether USD"}"#),
        Err(DecodeError::NotText(Field::Symbol))
    );
}

#[test]
fn array_of_three_strings_is_a_record() {
    assert_eq!(TokenInfo::from_json(r#"["Tether USD","USDT","6"]"#), Ok(tether()));
}

#[test]
fn array_of_another_length_is_no_record() {
    assert_eq!(TokenInfo::from_json("[]"), Err(DecodeError::Missing(Field::Name)));
    assert_eq!(TokenInfo::from_json(r#"["Tether USD"]"#), Err(DecodeError::Missing(Field::Symbol)));
    assert_eq!(
        TokenInfo::from_json(r#"["Tether USD","USDT"]"#),
        Err(DecodeError::Missing(Field::Decimals))
    );
    assert_eq!(
        TokenInfo::from_json(r#"["Tether USD","USDT","6","7"]"#),
        Err(DecodeError::Excess)
    );
}

#[test]
fn array_item_that_is_no_string_is_named() {
    assert_eq!(
        TokenInfo::from_json(r#"["Tether USD","USDT",6]"#),
        Err(DecodeError::NotText(Field::Decimals))
    );
    assert_eq!(
        TokenInfo::from_json(r#"[1,"USDT","6","7"]"#),
        Err(DecodeError::NotText(Field::Name))
    );
}

#[test]
fn document_object_is_read_by_member_name() {
    let doc = Document::Object(vec![
        member("decimals", text("6")),
        member("logo", None),
        member("name", text("Tether USD")),
        member("symbol", text("USDT")),
    ]);
    assert_eq!(TokenInfo::from_document(&doc), Ok(tether()));
    assert_eq!(doc.field(Field::Name), Ok(String::from("Tether USD")));
    assert_eq!(doc.field(Field::Symbol), Ok(String::from("USDT")));
    assert_eq!(doc.field(Field::Decimals), Ok(String::from("6")));
}

#[test]
fn first_member_of_a_name_counts() {
    let doc = Document::Object(vec![
        member("name", text("first")),
        member("name", text("second")),
        member("symbol", None),
        member("symbol", text("S")),
        member("decimals", text("0")),
    ]);
    assert_eq!(doc.field(Field::Name), Ok(String::from("first")));
    assert_eq!(doc.field(Field::Symbol), Err(DecodeError::NotText(Field::Symbol)));
    assert_eq!(TokenInfo::from_document(&doc), Err(DecodeError::NotText(Field::Symbol)));
}

#[test]
fn document_array_is_read_by_position() {
    let doc = Document::Array(vec![text("Tether USD"), text("USDT"), text("6")]);
    assert_eq!(TokenInfo::from_document(&doc), Ok(tether()));
    let long = Document::Array(vec![text("a"), text("b"), text("c"), None]);
    assert_eq!(long.field(Field::Decimals), Ok(String::from("c")));
    assert_eq!(TokenInfo::from_document(&long), Err(DecodeError::Excess));
    let short = Document::Array(vec![text("a"), None]);
    assert_eq!(short.field(Field::Symbol), Err(DecodeError::NotText(Field::Symbol)));
    assert_eq!(short.field(Field::Decimals), Err(DecodeError::Missing(Field::Decimals)));
    assert_eq!(TokenInfo::from_document(&short), Err(DecodeError::NotText(Field::Symbol)));
}

#[test]
fn document_scalar_holds_nothing() {
    assert_eq!(TokenInfo::from_document(&Document::Scalar), Err(DecodeError::NotARecord));
    assert_eq!(
        Document::Scalar.field(Field::Name),
        Err(DecodeError::Missing(Field::Name))
    );
}

#[test]
fn field_names_and_positions() {
    assert_eq!(Field::Name.member_name(), "name");
    assert_eq!(Field::Symbol.member_name(), "symbol");
    assert_eq!(Field::Decimals.member_name(), "decimals");
    assert_eq!(Field::Name.index(), 0);
    assert_eq!(Field::Symbol.index(), 1);
    assert_eq!(Field::Decimals.index(), 2);
}

#[test]
fn record_printed_by_serde_json_reads_back() {
    let info = TokenInfo {
        name: String::from("Wrapped \"Ether\" \\ ✓\n\t\u{1}"),
        symbol: String::from("WETH"),
        decimals: String::from("18"),
    };
    let mut map = serde_json::Map::new();
    map.insert(String::from("name"), serde_json::Value::String(info.name.clone()));
    map.insert(String::from("symbol"), serde_json::Value::String(info.symbol.clone()));
    map.insert(String::from("decimals"), serde_json::Value::String(info.decimals.clone()));
    let value = serde_json::Value::Object(map);
    let compact = serde_json::to_string(&value).unwrap();
    assert_eq!(TokenInfo::from_json(&compact), Ok(info.clone()));
    let pretty = serde_json::to_string_pretty(&value).unwrap();
    assert_eq!(TokenInfo::from_json(&pretty), Ok(info));
}

#[test]
fn record_reads_back_from_its_compact_and_its_pretty_text() {
    let info = TokenInfo {
        name: String::from("Wrapped Ether"),
        symbol: String::from("WETH"),
        decimals: String::from("18"),
    };
    let compact = r#"{"name":"Wrapped Ether","symbol":"WETH","decimals":"18"}"#;
    let pretty = "{\n  \"name\": \"Wrapped Ether\",\n  \"symbol\": \"WETH\",\n  \"decimals\": \"18\"\n}";
    assert_eq!(TokenInfo::from_json(compact), Ok(info.clone()));
    assert_eq!(TokenInfo::from_json(pretty), Ok(info));
}
