use grandma2::frontend::client::{
    fader_definitions, preset_button_definitions, preset_category_definitions,
};
use grandma2::frontend::{
    handle_message, reply_to, Fader, HoldAction, Icon, PresetButton, PresetCategory,
    ReceiveMessage, SendMessage,
};
use grandma2::json::{Json, NumberLiteral};
use grandma2::DecodeError;
use serde_json::Value;

fn object(members: Vec<(&str, Value)>) -> Value {
    let mut map = serde_json::Map::new();
    for (key, value) in members {
        map.insert(key.to_owned(), value);
    }
    Value::Object(map)
}

fn level(value: f32) -> NumberLiteral {
    NumberLiteral::new(&serde_json::to_string(&value).unwrap()).unwrap()
}

#[test]
fn test_receive_message() {
    let str = r#"{"type": "requestPresetCategoryDefinitions"}"#;
    let json = ReceiveMessage::from_json(str).unwrap();
    assert_eq!(json, ReceiveMessage::RequestPresetCategoryDefinitions);

    let str = r#"{"type": "requestPresetButtonDefinitions"}"#;
    let json = ReceiveMessage::from_json(str).unwrap();
    assert_eq!(json, ReceiveMessage::RequestPresetButtonDefinitions);

    let str = r#"{"type": "setPreset", "row": 3, "column": 1}"#;
    let json = ReceiveMessage::from_json(str).unwrap();
    assert_eq!(json, ReceiveMessage::SetPreset { row: 3, column: 1 });

    let str = r#"{"type": "requestHoldActionDefinitions"}"#;
    let json = ReceiveMessage::from_json(str).unwrap();
    assert_eq!(json, ReceiveMessage::RequestHoldActionDefinitions);

    let str = r#"{"type": "sendHoldAction", "row": 2, "column": 0, "value": true}"#;
    let json = ReceiveMessage::from_json(str).unwrap();
    assert_eq!(
        json,
        ReceiveMessage::SendHoldAction {
            row: 2,
            column: 0,
            value: true
        }
    );

    let str = r#"{"type": "requestFaderDefinitions"}"#;
    let json = ReceiveMessage::from_json(str).unwrap();
    assert_eq!(json, ReceiveMessage::RequestFaderDefinitions);

    let str = r#"{"type": "requestFaderState", "row": 3, "column": 2}"#;
    let json = ReceiveMessage::from_json(str).unwrap();
    assert_eq!(
        json,
        ReceiveMessage::RequestFaderState { row: 3, column: 2 }
    );
}

#[test]
fn test_send_message() {
    let message = SendMessage::SendPresetCategoryDefinitions {
        items: vec![PresetCategory::new(7, "Bar")],
    };
    let json_string = message.to_json();
    let json: Value = serde_json::from_str(&json_string).unwrap();
    let json_test = object(vec![
        ("type", Value::from("sendPresetCategoryDefinitions")),
        (
            "items",
            Value::Array(vec![object(vec![
                ("row", Value::from(7)),
                ("text", Value::from("Bar")),
            ])]),
        ),
    ]);
    assert_eq!(json_test, json);

    let message = SendMessage::SendPresetButtonDefinitions {
        items: vec![PresetButton::new("Hallo Welt!", 2, 4, Icon::Chill, "#000000")],
    };
    let json_string = message.to_json();
    let json: Value = serde_json::from_str(&json_string).unwrap();
    let json_test = object(vec![
        ("type", Value::from("sendPresetButtonDefinitions")),
        (
            "items",
            Value::Array(vec![object(vec![
                ("row", Value::from(2)),
                ("column", Value::from(4)),
                ("icon", Value::from("chill")),
                ("color", Value::from("#000000")),
                ("text", Value::from("Hallo Welt!")),
            ])]),
        ),
    ]);
    assert_eq!(json_test, json);

    let message = SendMessage::SendHoldActionDefinitions {
        items: vec![HoldAction::new("Test", 2, 3, Icon::Party, "#111111")],
    };
    let json_string = message.to_json();
    let json: Value = serde_json::from_str(&json_string).unwrap();
    let json_test = object(vec![
        ("type", Value::from("sendHoldActionDefinitions")),
        (
            "items",
            Value::Array(vec![object(vec![
                ("row", Value::from(2)),
                ("column", Value::from(3)),
                ("icon", Value::from("party")),
                ("color", Value::from("#111111")),
                ("text", Value::from("Test")),
            ])]),
        ),
    ]);
    assert_eq!(json_test, json);

    let message = SendMessage::SendFaderDefinitions {
        items: vec![Fader::new("", 5, 1, Icon::NoIcon, "#000000")],
    };
    let json_string = message.to_json();
    let json: Value = serde_json::from_str(&json_string).unwrap();
    let json_test = object(vec![
        ("type", Value::from("sendFaderDefinitions")),
        (
            "items",
            Value::Array(vec![object(vec![
                ("row", Value::from(5)),
                ("column", Value::from(1)),
                ("icon", Value::from("none")),
                ("color", Value::from("#000000")),
                ("text", Value::from("")),
            ])]),
        ),
    ]);
    assert_eq!(json_test, json);

    let message = SendMessage::SendFaderState {
        row: 0,
        column: 5,
        value: level(0.4),
    };
    let json_string = message.to_json();
    let json: Value = serde_json::from_str(&json_string).unwrap();
    let json_test = object(vec![
        ("type", Value::from("sendFaderState")),
        ("row", Value::from(0)),
        ("column", Value::from(5)),
        ("value", Value::from(0.4)),
    ]);
    assert_eq!(json_test, json);

    let message = SendMessage::SendFaderHighlight {
        row: 1,
        column: 4,
        value: true,
    };
    let json_string = message.to_json();
    let json: Value = serde_json::from_str(&json_string).unwrap();
    let json_test = object(vec![
        ("type", Value::from("sendFaderHighlight")),
        ("row", Value::from(1)),
        ("column", Value::from(4)),
        ("value", Value::from(true)),
    ]);
    assert_eq!(json_test, json);
}

#[test]
fn panel_messages_have_their_exact_text() {
    assert_eq!(SendMessage::Heartbeat.to_json(), "{\"type\":\"heartbeat\"}");
    assert_eq!(
        SendMessage::SendFaderHighlight {
            row: 255,
            column: 0,
            value: false
        }
        .to_json(),
        "{\"type\":\"sendFaderHighlight\",\"row\":255,\"column\":0,\"value\":false}"
    );
    assert_eq!(
        SendMessage::SendFaderState {
            row: 0,
            column: 1,
            value: level(0.5)
        }
        .to_json(),
        "{\"type\":\"sendFaderState\",\"row\":0,\"column\":1,\"value\":0.5}"
    );
    assert_eq!(
        SendMessage::SendPresetCategoryDefinitions { items: Vec::new() }.to_json(),
        "{\"type\":\"sendPresetCategoryDefinitions\",\"items\":[]}"
    );
    assert_eq!(
        SendMessage::SendPresetCategoryDefinitions {
            items: preset_category_definitions()
        }
        .to_json(),
        "{\"type\":\"sendPresetCategoryDefinitions\",\"items\":[{\"row\":0,\"text\":\"Bar\"},{\"row\":1,\"text\":\"Tresen\"}]}"
    );
    assert_eq!(
        SendMessage::SendFaderDefinitions {
            items: vec![
                Fader::new("a\"b", 1, 2, Icon::LEDBars, "#1"),
                Fader::new("c", 3, 4, Icon::MovingHead, "#2"),
            ]
        }
        .to_json(),
        "{\"type\":\"sendFaderDefinitions\",\"items\":[{\"text\":\"a\\\"b\",\"row\":1,\"column\":2,\"icon\":\"led-bars\",\"color\":\"#1\"},{\"text\":\"c\",\"row\":3,\"column\":4,\"icon\":\"moving-head\",\"color\":\"#2\"}]}"
    );
}

#[test]
fn icons_have_their_names() {
    let names = [
        (Icon::NoIcon, "none"),
        (Icon::Off, "off"),
        (Icon::Sun, "sun"),
        (Icon::Right, "right"),
        (Icon::Left, "left"),
        (Icon::Rainbow, "rainbow"),
        (Icon::Chill, "chill"),
        (Icon::Party, "party"),
        (Icon::Rave, "rave"),
        (Icon::LEDBars, "led-bars"),
        (Icon::Sunstrip, "sunstrip"),
        (Icon::MovingHead, "moving-head"),
        (Icon::CounterFront, "counter-front"),
        (Icon::Hexagon, "hexagon"),
        (Icon::CounterBack, "counter-back"),
        (Icon::Bottles, "bottles"),
        (Icon::Bulb, "bulb"),
    ];
    for (icon, name) in names {
        assert_eq!(icon.name(), name);
    }
}

#[test]
fn remaining_requests_are_read() {
    assert_eq!(
        ReceiveMessage::from_json(r#"{"type":"pageLeft"}"#),
        Ok(ReceiveMessage::PageLeft)
    );
    assert_eq!(
        ReceiveMessage::from_json(r#"{"type":"pageRight","row":1}"#),
        Ok(ReceiveMessage::PageRight)
    );
    assert_eq!(
        ReceiveMessage::from_json(r#"{"type":"sendFaderState","row":0,"column":255,"state":0.25}"#),
        Ok(ReceiveMessage::SendFaderState {
            row: 0,
            column: 255,
            state: f64::to_bits(0.25)
        })
    );
    assert_eq!(
        ReceiveMessage::from_json(r#"{"type":"sendFaderState","row":0,"column":1,"state":1}"#),
        Ok(ReceiveMessage::SendFaderState {
            row: 0,
            column: 1,
            state: f64::to_bits(1.0)
        })
    );
    assert_eq!(
        ReceiveMessage::deserialize(&Json::parse(r#"{"type":"setPreset","row":0,"column":7}"#).unwrap()),
        Some(ReceiveMessage::SetPreset { row: 0, column: 7 })
    );
}

#[test]
fn what_is_no_request_is_refused() {
    for text in [
        r#"{}"#,
        r#"{"type":"unknown"}"#,
        r#"{"type":5}"#,
        r#"{"type":"setPreset","row":3}"#,
        r#"{"type":"setPreset","row":3,"column":256}"#,
        r#"{"type":"setPreset","row":-1,"column":2}"#,
        r#"{"type":"setPreset","row":"3","column":2}"#,
        r#"{"type":"sendHoldAction","row":2,"column":0}"#,
        r#"{"type":"sendHoldAction","row":2,"column":0,"value":1}"#,
        r#"{"type":"sendFaderState","row":2,"column":0,"state":"1"}"#,
        r#"{"type":"sendFaderState","row":2,"column":0,"value":1}"#,
        r#"{"type":"requestFaderState","column":0}"#,
        r#"{"Type":"pageLeft"}"#,
        r#"["pageLeft"]"#,
    ] {
        assert_eq!(
            ReceiveMessage::from_json(text),
            Err(DecodeError::NoMatchingShape),
            "{}",
            text
        );
        assert_eq!(
            handle_message(text).unwrap_err(),
            DecodeError::NoMatchingShape
        );
    }
    assert_eq!(
        ReceiveMessage::from_json("{\"type\":"),
        Err(DecodeError::InvalidJson)
    );
    assert_eq!(handle_message("").unwrap_err(), DecodeError::InvalidJson);
}

#[test]
fn definitions_are_sent_on_request() {
    assert_eq!(
        reply_to(ReceiveMessage::RequestPresetCategoryDefinitions),
        Some(SendMessage::SendPresetCategoryDefinitions {
            items: vec![PresetCategory::new(0, "Bar"), PresetCategory::new(1, "Tresen")]
        })
    );
    let buttons = preset_button_definitions();
    assert_eq!(buttons.len(), 14);
    assert_eq!(
        buttons[0],
        PresetButton::new("Bar Chill 1", 0, 0, Icon::Chill, "#c06541")
    );
    assert_eq!(
        buttons[6],
        PresetButton::new("Bar Putzlich", 0, 6, Icon::Sun, "#e2d195")
    );
    assert_eq!(
        buttons[13],
        PresetButton::new("Tresen Aus", 1, 5, Icon::Off, "#38365a")
    );
    assert_eq!(
        reply_to(ReceiveMessage::RequestPresetButtonDefinitions),
        Some(SendMessage::SendPresetButtonDefinitions { items: buttons })
    );
    let faders = fader_definitions();
    assert_eq!(faders.len(), 8);
    assert_eq!(
        faders[3],
        Fader::new("Tresen", 0, 3, Icon::CounterFront, "#95724f")
    );
    assert_eq!(
        faders[7],
        Fader::new("Pointies", 0, 7, Icon::MovingHead, "#72429a")
    );
    assert_eq!(
        reply_to(ReceiveMessage::RequestFaderDefinitions),
        Some(SendMessage::SendFaderDefinitions { items: faders })
    );
}

#[test]
fn other_requests_get_no_answer() {
    for msg in [
        ReceiveMessage::RequestHoldActionDefinitions,
        ReceiveMessage::SetPreset { row: 0, column: 0 },
        ReceiveMessage::SendHoldAction {
            row: 0,
            column: 0,
            value: true,
        },
        ReceiveMessage::SendFaderState {
            row: 0,
            column: 0,
            state: 0,
        },
        ReceiveMessage::RequestFaderState { row: 0, column: 0 },
        ReceiveMessage::PageLeft,
        ReceiveMessage::PageRight,
    ] {
        assert_eq!(reply_to(msg), None);
    }
}

#[test]
fn frames_are_handed_on_with_their_answer() {
    let handled = handle_message(r#"{"type": "requestFaderDefinitions"}"#).unwrap();
    assert_eq!(handled.request, ReceiveMessage::RequestFaderDefinitions);
    assert_eq!(
        handled.reply,
        Some(SendMessage::SendFaderDefinitions {
            items: fader_definitions()
        })
    );
    let handled = handle_message(r#"{"type": "setPreset", "row": 1, "column": 2}"#).unwrap();
    assert_eq!(handled.request, ReceiveMessage::SetPreset { row: 1, column: 2 });
    assert_eq!(handled.reply, None);
}
