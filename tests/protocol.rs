use karaoke_bridge::protocol::{event_of_line, frame_request, CommandRequest, CommandResponse, OutputRoute, route_for_tag};
use serde_json::Value;

fn parse(text: &str) -> Value {
    serde_json::from_str(text).unwrap()
}

fn encode(action: &str, params: Option<Value>) -> String {
    CommandRequest { action: action.to_string(), params }.encode_line().unwrap()
}

#[test]
fn command_request_serializes_with_action_only() {
    let line = encode("play", None);
    let j = parse(&line);
    assert_eq!(j["action"], "play");
    assert!(j["params"].is_null());
}

#[test]
fn command_request_serializes_with_params() {
    let line = encode("set_volume", Some(parse(r#"{"volume": 0.5}"#)));
    let j = parse(&line);
    assert_eq!(j["action"], "set_volume");
    assert_eq!(j["params"]["volume"], 0.5);
}

#[test]
fn command_request_roundtrips_through_json() {
    let serialized = encode("search_songs", Some(parse(r#"{"query": "hello world"}"#)));
    let deserialized = CommandRequest::decode_line(&serialized).unwrap();
    assert_eq!(deserialized.action, "search_songs");
    assert_eq!(deserialized.params.unwrap()["query"], "hello world");
}

#[test]
fn command_request_deserializes_without_params_key() {
    let raw = r#"{"action":"stop"}"#;
    let req = CommandRequest::decode_line(raw).unwrap();
    assert_eq!(req.action, "stop");
    assert!(req.params.is_none());
}

#[test]
fn command_request_deserializes_with_nested_params() {
    let raw = r#"{"action":"play","params":{"playlist_index":3}}"#;
    let req = CommandRequest::decode_line(raw).unwrap();
    assert_eq!(req.action, "play");
    assert_eq!(req.params.unwrap()["playlist_index"], 3);
}

#[test]
fn frontend_play_command_matches_expected_shape() {
    let raw = r#"{"action":"play","params":{"playlist_index":0}}"#;
    let req = CommandRequest::decode_line(raw).unwrap();
    assert_eq!(req.action, "play");
}

#[test]
fn frontend_search_command_matches_expected_shape() {
    let raw = r#"{"action":"search_songs","params":{"query":"bohemian"}}"#;
    let req = CommandRequest::decode_line(raw).unwrap();
    assert_eq!(req.action, "search_songs");
    assert_eq!(req.params.unwrap()["query"], "bohemian");
}

#[test]
fn frontend_volume_command_matches_expected_shape() {
    let raw = r#"{"action":"set_volume","params":{"volume":0.42}}"#;
    let req = CommandRequest::decode_line(raw).unwrap();
    let vol = req.params.unwrap()["volume"].as_f64().unwrap();
    assert!((vol - 0.42).abs() < f64::EPSILON);
}

#[test]
fn all_known_actions_deserialize() {
    let actions = vec![
        "play", "pause", "stop", "next", "previous", "seek",
        "set_volume", "load_song", "add_to_playlist",
        "remove_from_playlist", "clear_playlist", "get_state",
        "search_songs", "get_library", "scan_library",
        "add_folder", "get_settings", "update_settings",
    ];
    for action in actions {
        let raw = format!(r#"{{"action":"{}"}}"#, action);
        let req = CommandRequest::decode_line(&raw).unwrap();
        assert_eq!(req.action, action);
    }
}

#[test]
fn backend_event_envelope_shape() {
    let raw = r#"{"type":"event","event":{"type":"state_changed","data":{}}}"#;
    let parsed = parse(raw);
    assert_eq!(parsed["type"], "event");
    assert_eq!(parsed["event"]["type"], "state_changed");
    let event = event_of_line(raw).unwrap();
    assert_eq!(event["type"], "state_changed");
}

#[test]
fn backend_response_envelope_shape() {
    let raw = r#"{"type":"response","response":{"status":"ok","message":"done"}}"#;
    let parsed = parse(raw);
    assert_eq!(parsed["type"], "response");
    assert_eq!(parsed["response"]["status"], "ok");
    assert!(event_of_line(raw).is_none());
}

#[test]
fn event_payload_is_forwarded_unchanged() {
    let raw = r#"{"type":"event","event":{"type":"state_changed","data":{}}}"#;
    let event = event_of_line(raw).unwrap();
    assert_eq!(event, parse(r#"{"type":"state_changed","data":{}}"#));
}

#[test]
fn malformed_output_line_yields_no_event() {
    assert!(event_of_line("not json").is_none());
    assert!(event_of_line("").is_none());
    assert!(event_of_line(r#"{"type":"event""#).is_none());
}

#[test]
fn event_without_payload_forwards_null() {
    let event = event_of_line(r#"{"type":"event"}"#).unwrap();
    assert!(event.is_null());
}

#[test]
fn envelope_with_non_string_type_is_dropped() {
    assert!(event_of_line(r#"{"type":1,"event":{}}"#).is_none());
    assert!(event_of_line(r#"["event"]"#).is_none());
}

#[test]
fn route_forwards_only_event_tag() {
    assert_eq!(route_for_tag(&Some("event".to_string())), OutputRoute::Forward);
    assert_eq!(route_for_tag(&Some("response".to_string())), OutputRoute::Discard);
    assert_eq!(route_for_tag(&Some("Event".to_string())), OutputRoute::Discard);
    assert_eq!(route_for_tag(&None), OutputRoute::Discard);
}

#[test]
fn frame_request_writes_one_object_and_terminator() {
    let line = frame_request("\"play\"", "null");
    assert_eq!(line, "{\"action\":\"play\",\"params\":null}\n");
}

#[test]
fn encoded_line_is_exact_and_compact() {
    let line = encode("play", Some(parse(r#"{ "playlist_index" : 0 }"#)));
    assert_eq!(line, "{\"action\":\"play\",\"params\":{\"playlist_index\":0}}\n");
}

#[test]
fn encoded_line_escapes_newlines_in_action_and_params() {
    let line = encode("a\nb\r", Some(parse(r#"{"q":"x\ny"}"#)));
    assert!(line.ends_with('\n'));
    let body = &line[..line.len() - 1];
    assert!(!body.contains('\n'));
    assert!(!body.contains('\r'));
    let back = CommandRequest::decode_line(body).unwrap();
    assert_eq!(back.action, "a\nb\r");
    assert_eq!(back.params.unwrap()["q"], "x\ny");
}

#[test]
fn roundtrip_keeps_every_field() {
    let cases = vec![
        ("play", None),
        ("seek", Some(parse("12"))),
        ("search_songs", Some(parse(r#"{"query":"ünïcode \"quoted\"","limit":[1,2,{"x":true}]}"#))),
        ("", Some(parse(r#"{"empty":""}"#))),
    ];
    for (action, params) in cases {
        let line = encode(action, params.clone());
        let back = CommandRequest::decode_line(&line).unwrap();
        assert_eq!(back.action, action);
        assert_eq!(back.params, params);
    }
}

#[test]
fn decode_rejects_missing_or_non_string_action() {
    assert!(CommandRequest::decode_line(r#"{"params":{}}"#).is_none());
    assert!(CommandRequest::decode_line(r#"{"action":3}"#).is_none());
    assert!(CommandRequest::decode_line("not json").is_none());
}

#[test]
fn command_sent_acknowledgement() {
    let ack = CommandResponse::command_sent();
    assert_eq!(ack.status, "ok");
    assert_eq!(ack.message.as_deref(), Some("Command sent"));
    assert!(ack.data.is_none());
}

#[test]
fn action_escapes_follow_json_rules() {
    let line = encode("a\"b\\c\u{1}\u{1f}\t\u{8}\u{c}é", None);
    assert_eq!(
        line,
        "{\"action\":\"a\\\"b\\\\c\\u0001\\u001f\\t\\b\\fé\",\"params\":null}\n"
    );
}
