use dabmux_rc::error::RcError;
use dabmux_rc::json::{parse_json, JsonNumber, JsonValue};
use dabmux_rc::params::{
    interpret_set_reply, list_request, parameters_from_reply, set_request, set_result_from_reply,
    value_to_params, value_to_string, Param,
};
use dabmux_rc::transport::Reply;

fn text(s: &str) -> JsonValue {
    JsonValue::Text(s.to_string())
}

fn number(n: u64) -> JsonValue {
    JsonValue::Number(JsonNumber { text: n.to_string(), unsigned: Some(n), signed: Some(n as i64) })
}

fn object(members: Vec<(&str, JsonValue)>) -> JsonValue {
    JsonValue::Object(members.into_iter().map(|(k, v)| (k.to_string(), v)).collect())
}

fn param(module: &str, name: &str, value: &str) -> Param {
    Param { module: module.to_string(), param: name.to_string(), value: value.to_string() }
}

fn frames(parts: Vec<&str>) -> Vec<String> {
    parts.into_iter().map(|p| p.to_string()).collect()
}

fn reply(parts: Vec<&str>) -> Reply {
    Reply::Frames(parts.into_iter().map(|p| p.as_bytes().to_vec()).collect())
}

#[test]
fn scalars_are_written_as_text() {
    assert_eq!(value_to_string(&JsonValue::Bool(true)), Some("1".to_string()));
    assert_eq!(value_to_string(&JsonValue::Bool(false)), Some("0".to_string()));
    assert_eq!(value_to_string(&JsonValue::Null), Some("null".to_string()));
    assert_eq!(value_to_string(&number(42)), Some("42".to_string()));
    assert_eq!(value_to_string(&text("x")), Some("x".to_string()));
}

#[test]
fn arrays_and_objects_have_no_text() {
    assert_eq!(value_to_string(&JsonValue::Array(vec![])), None);
    assert_eq!(value_to_string(&object(vec![])), None);
}

#[test]
fn parsed_scalars_are_written_as_text() {
    let doc = parse_json(r#"{"m":{"a":true,"b":false,"c":null,"d":42,"e":"x","f":-7,"g":1.5}}"#)
        .unwrap();
    assert_eq!(
        value_to_params(&doc),
        Ok(vec![
            param("m", "a", "1"),
            param("m", "b", "0"),
            param("m", "c", "null"),
            param("m", "d", "42"),
            param("m", "e", "x"),
            param("m", "f", "-7"),
            param("m", "g", "1.5"),
        ])
    );
}

#[test]
fn every_plain_entry_is_listed_once_in_order() {
    let doc = object(vec![
        ("zeta", object(vec![("rate", number(48)), ("name", text("one"))])),
        ("alpha", object(vec![("rate", number(32))])),
        ("empty", object(vec![])),
    ]);
    assert_eq!(
        value_to_params(&doc),
        Ok(vec![
            param("zeta", "rate", "48"),
            param("zeta", "name", "one"),
            param("alpha", "rate", "32"),
        ])
    );
}

#[test]
fn document_order_is_kept_by_the_parser() {
    let doc = parse_json(r#"{"b":{"y":1,"x":2},"a":{"z":3}}"#).unwrap();
    assert_eq!(
        value_to_params(&doc),
        Ok(vec![param("b", "y", "1"), param("b", "x", "2"), param("a", "z", "3")])
    );
}

#[test]
fn label_and_shortlabel_are_merged() {
    let doc = object(vec![(
        "ensemble",
        object(vec![("id", number(1)), ("label", text("Foo")), ("shortlabel", text("F"))]),
    )]);
    assert_eq!(
        value_to_params(&doc),
        Ok(vec![param("ensemble", "label", "Foo,F"), param("ensemble", "id", "1")])
    );
}

#[test]
fn merged_label_reads_back_as_itself() {
    let listed = vec![
        param("srv", "label", "Foo,F"),
        param("srv", "bitrate", "96"),
        param("srv", "state", "on"),
    ];
    let (label, short) = listed[0].value.split_once(',').unwrap();
    let mut members = vec![("label", text(label)), ("shortlabel", text(short))];
    for p in &listed[1..] {
        members.push((p.param.as_str(), text(&p.value)));
    }
    let doc = object(vec![("srv", object(members))]);
    assert_eq!(value_to_params(&doc), Ok(listed.clone()));
    let request = set_request(&listed[0].module, &listed[0].param, &listed[0].value);
    assert_eq!(request, frames(vec!["set", "srv", "label", "Foo,F"]));
}

#[test]
fn a_label_without_shortlabel_is_not_listed() {
    let doc = object(vec![("srv", object(vec![("label", text("Foo")), ("id", number(2))]))]);
    assert_eq!(value_to_params(&doc), Ok(vec![param("srv", "id", "2")]));
}

#[test]
fn a_label_that_is_no_string_is_not_merged() {
    let doc = object(vec![("srv", object(vec![("label", number(1)), ("shortlabel", text("F"))]))]);
    assert_eq!(value_to_params(&doc), Ok(vec![]));
}

#[test]
fn an_array_value_is_an_unsupported_shape() {
    let doc = object(vec![("m", object(vec![("ok", number(1)), ("list", JsonValue::Array(vec![]))]))]);
    assert_eq!(
        value_to_params(&doc),
        Err(RcError::UnsupportedValueShape("m".to_string(), "list".to_string()))
    );
}

#[test]
fn an_object_value_is_an_unsupported_shape() {
    let doc = parse_json(r#"{"m":{"nested":{"a":1}}}"#).unwrap();
    assert_eq!(
        value_to_params(&doc),
        Err(RcError::UnsupportedValueShape("m".to_string(), "nested".to_string()))
    );
}

#[test]
fn a_module_that_is_no_object_is_malformed() {
    let doc = object(vec![("good", object(vec![])), ("bad", number(3))]);
    assert_eq!(value_to_params(&doc), Err(RcError::MalformedResponse("bad".to_string())));
}

#[test]
fn a_root_that_is_no_object_is_malformed() {
    assert_eq!(
        value_to_params(&JsonValue::Array(vec![])),
        Err(RcError::MalformedResponse("RC data".to_string()))
    );
}

#[test]
fn the_first_failure_decides() {
    let doc = object(vec![
        ("m", object(vec![("a", JsonValue::Array(vec![]))])),
        ("n", JsonValue::Null),
    ]);
    assert_eq!(
        value_to_params(&doc),
        Err(RcError::UnsupportedValueShape("m".to_string(), "a".to_string()))
    );
}

#[test]
fn list_request_is_showjson() {
    assert_eq!(list_request(), frames(vec!["showjson"]));
}

#[test]
fn set_request_has_four_frames() {
    assert_eq!(set_request("mod", "par", "val"), frames(vec!["set", "mod", "par", "val"]));
}

#[test]
fn set_succeeds_on_ok() {
    assert_eq!(interpret_set_reply(&frames(vec!["ok"])), Ok(()));
    assert_eq!(interpret_set_reply(&frames(vec!["ok", "more"])), Ok(()));
}

#[test]
fn set_fails_with_the_given_reason() {
    assert_eq!(
        interpret_set_reply(&frames(vec!["fail", "busy"])),
        Err(RcError::SetRejected("busy".to_string()))
    );
}

#[test]
fn set_fails_with_unknown_error() {
    let unknown = Err(RcError::SetRejected("unknown error".to_string()));
    assert_eq!(interpret_set_reply(&frames(vec!["fail"])), unknown);
    assert_eq!(interpret_set_reply(&frames(vec![])), unknown);
    assert_eq!(interpret_set_reply(&frames(vec!["okay"])), unknown);
    assert_eq!(interpret_set_reply(&frames(vec!["nope", "why"])), unknown);
    assert_eq!(interpret_set_reply(&frames(vec!["OK"])), unknown);
}

#[test]
fn set_result_from_raw_reply() {
    assert_eq!(set_result_from_reply(reply(vec!["ok"])), Ok(()));
    assert_eq!(
        set_result_from_reply(reply(vec!["fail", "busy"])),
        Err(RcError::SetRejected("busy".to_string()))
    );
    assert_eq!(set_result_from_reply(Reply::TimedOut), Err(RcError::Timeout));
    assert_eq!(
        set_result_from_reply(Reply::Frames(vec![vec![0xff, 0xfe]])),
        Err(RcError::MalformedResponse("UTF-8".to_string()))
    );
}

#[test]
fn parameters_from_a_good_reply() {
    let r = parameters_from_reply(reply(vec![r#"{"mux":{"label":"Foo","shortlabel":"F","n":1}}"#]));
    assert_eq!(r, Ok(vec![param("mux", "label", "Foo,F"), param("mux", "n", "1")]));
}

#[test]
fn parameters_time_out() {
    assert_eq!(parameters_from_reply(Reply::TimedOut), Err(RcError::Timeout));
}

#[test]
fn parameters_need_one_frame() {
    assert_eq!(parameters_from_reply(reply(vec!["{}", "{}"])), Err(RcError::UnexpectedFraming));
    assert_eq!(parameters_from_reply(reply(vec![])), Err(RcError::UnexpectedFraming));
}

#[test]
fn parameters_need_text_and_json() {
    assert_eq!(
        parameters_from_reply(Reply::Frames(vec![vec![0xc3, 0x28]])),
        Err(RcError::MalformedResponse("UTF-8".to_string()))
    );
    assert_eq!(
        parameters_from_reply(reply(vec!["{not json"])),
        Err(RcError::MalformedResponse("JSON".to_string()))
    );
}
