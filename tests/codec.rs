use galaga::{
    decode_fields, decode_message, event_for_action, parse_game_message, Field, MessageError,
    ServerEvent,
};

#[test]
fn parses_action_and_value() {
    let r = parse_game_message("{\"action\":\"shoot\",\"value\":800}");
    assert_eq!(r, Ok(("shoot".to_string(), 800)));
}

#[test]
fn parses_negative_value_and_extra_members() {
    let r = parse_game_message("{\"value\":-42,\"extra\":[1,2],\"action\":\"left\"}");
    assert_eq!(r, Ok(("left".to_string(), -42)));
}

#[test]
fn large_values_are_kept_whole() {
    let r = parse_game_message("{\"action\":\"right\",\"value\":4294967796}");
    assert_eq!(r, Ok(("right".to_string(), 4294967796)));
    let r = parse_game_message("{\"action\":\"left\",\"value\":-9223372036854775808}");
    assert_eq!(r, Ok(("left".to_string(), i64::MIN)));
}

#[test]
fn values_above_i64_saturate() {
    let r = parse_game_message("{\"action\":\"shoot\",\"value\":18446744073709551615}");
    assert_eq!(r, Ok(("shoot".to_string(), i64::MAX)));
    let r = parse_game_message("{\"action\":\"shoot\",\"value\":9223372036854775808}");
    assert_eq!(r, Ok(("shoot".to_string(), i64::MAX)));
}

#[test]
fn integers_read_as_floats_are_wrong_type() {
    assert_eq!(
        parse_game_message("{\"action\":\"shoot\",\"value\":1e30}"),
        Err(MessageError::WrongType)
    );
    assert_eq!(
        parse_game_message("{\"action\":\"shoot\",\"value\":-9223372036854775809}"),
        Err(MessageError::WrongType)
    );
}

#[test]
fn not_json_is_malformed() {
    assert_eq!(parse_game_message("action=right"), Err(MessageError::MalformedPayload));
    assert_eq!(parse_game_message(""), Err(MessageError::MalformedPayload));
    assert_eq!(parse_game_message("{\"action\":\"right\""), Err(MessageError::MalformedPayload));
}

#[test]
fn json_that_is_not_an_object_is_malformed() {
    assert_eq!(parse_game_message("[1,2,3]"), Err(MessageError::MalformedPayload));
    assert_eq!(parse_game_message("\"right\""), Err(MessageError::MalformedPayload));
}

#[test]
fn missing_fields() {
    assert_eq!(parse_game_message("{\"value\":800}"), Err(MessageError::MissingField));
    assert_eq!(parse_game_message("{\"action\":\"right\"}"), Err(MessageError::MissingField));
    assert_eq!(parse_game_message("{\"peak\":\"abc\"}"), Err(MessageError::MissingField));
}

#[test]
fn wrong_types() {
    assert_eq!(
        parse_game_message("{\"action\":\"right\",\"value\":\"abc\"}"),
        Err(MessageError::WrongType)
    );
    assert_eq!(
        parse_game_message("{\"action\":\"right\",\"value\":800.5}"),
        Err(MessageError::WrongType)
    );
    assert_eq!(
        parse_game_message("{\"action\":7,\"value\":800}"),
        Err(MessageError::WrongType)
    );
    assert_eq!(
        parse_game_message("{\"action\":\"right\",\"value\":{\"n\":1}}"),
        Err(MessageError::WrongType)
    );
}

#[test]
fn decode_fields_by_value() {
    assert_eq!(
        decode_fields(Field::Text("right".to_string()), Field::Integer(12)),
        Ok(("right".to_string(), 12))
    );
    assert_eq!(
        decode_fields(Field::Missing, Field::Integer(12)),
        Err(MessageError::MissingField)
    );
    assert_eq!(
        decode_fields(Field::Integer(3), Field::Missing),
        Err(MessageError::WrongType)
    );
    assert_eq!(
        decode_fields(Field::Text("left".to_string()), Field::Missing),
        Err(MessageError::MissingField)
    );
    assert_eq!(
        decode_fields(Field::Text("left".to_string()), Field::Other),
        Err(MessageError::WrongType)
    );
    assert_eq!(
        decode_fields(Field::Text("left".to_string()), Field::Integer(-4294967295)),
        Ok(("left".to_string(), -4294967295))
    );
}

#[test]
fn action_table() {
    assert_eq!(event_for_action("right", 5), Ok(ServerEvent::RightPeak(5)));
    assert_eq!(event_for_action("left", 6), Ok(ServerEvent::LeftPeak(6)));
    assert_eq!(event_for_action("shoot", 7), Ok(ServerEvent::ShootPeak(7)));
    assert_eq!(event_for_action("jump", 7), Err(MessageError::UnknownAction));
    assert_eq!(event_for_action("Right", 7), Err(MessageError::UnknownAction));
    assert_eq!(event_for_action("", 7), Err(MessageError::UnknownAction));
}

#[test]
fn decode_message_end_to_end() {
    assert_eq!(
        decode_message("{\"action\":\"shoot\",\"value\":800}"),
        Ok(ServerEvent::ShootPeak(800))
    );
    assert_eq!(
        decode_message("{\"action\":\"right\",\"value\":0}"),
        Ok(ServerEvent::RightPeak(0))
    );
    assert_eq!(
        decode_message("{\"action\":\"dance\",\"value\":800}"),
        Err(MessageError::UnknownAction)
    );
    assert_eq!(decode_message("{\"peak\":\"abc\"}"), Err(MessageError::MissingField));
    assert_eq!(decode_message("not json"), Err(MessageError::MalformedPayload));
}
