//! The answers of the bridge to the requests of the control panel.

use vstd::prelude::*;

use super::data::{ElementView, Fader, Icon, PresetButton, PresetCategory, PresetCategoryView};
use super::messages::{
    button_views, category_views, fader_views, request_of, ReceiveMessage, SendMessage,
    SendMessageView,
};
use crate::error::DecodeError;
use crate::json::json_of_text;

verus! {

/// The rows of presets that the control panel shows.
pub open spec fn categories() -> Seq<PresetCategoryView> {
    seq![
        PresetCategoryView { row: 0, text: "Bar"@ },
        PresetCategoryView { row: 1, text: "Tresen"@ },
    ]
}

/// The preset buttons that the control panel shows.
pub open spec fn preset_buttons() -> Seq<ElementView> {
    seq![
        ElementView { text: "Bar Chill 1"@, row: 0, column: 0, icon: Icon::Chill, color: "#c06541"@ },
        ElementView { text: "Bar Chill 2"@, row: 0, column: 1, icon: Icon::Chill, color: "#c06541"@ },
        ElementView { text: "Bar Party 1"@, row: 0, column: 2, icon: Icon::Party, color: "#41c0a6"@ },
        ElementView { text: "Bar Party 2"@, row: 0, column: 3, icon: Icon::Party, color: "#41c0a6"@ },
        ElementView { text: "Bar Rave 1"@, row: 0, column: 4, icon: Icon::Rave, color: "#a541d4"@ },
        ElementView { text: "Bar Rave 2"@, row: 0, column: 5, icon: Icon::Rave, color: "#a541d4"@ },
        ElementView { text: "Bar Putzlich"@, row: 0, column: 6, icon: Icon::Sun, color: "#e2d195"@ },
        ElementView { text: "Bar Aus"@, row: 0, column: 7, icon: Icon::Off, color: "#38365a"@ },
        ElementView { text: "Tresen Chill"@, row: 1, column: 0, icon: Icon::Chill, color: "#c06541"@ },
        ElementView { text: "Tresen Party"@, row: 1, column: 1, icon: Icon::Party, color: "#41c0a6"@ },
        ElementView { text: "Tresen Rave"@, row: 1, column: 2, icon: Icon::Rave, color: "#a541d4"@ },
        ElementView { text: "Tresen Rainbow"@, row: 1, column: 3, icon: Icon::Rainbow, color: "#a541d4"@ },
        ElementView { text: "Tresen Putzlicht"@, row: 1, column: 4, icon: Icon::Sun, color: "#e2d195"@ },
        ElementView { text: "Tresen Aus"@, row: 1, column: 5, icon: Icon::Off, color: "#38365a"@ },
    ]
}

/// The faders that the control panel shows.
pub open spec fn faders() -> Seq<ElementView> {
    seq![
        ElementView { text: "LED Bars"@, row: 0, column: 0, icon: Icon::LEDBars, color: "#95724f"@ },
        ElementView { text: "Sunstripes"@, row: 0, column: 1, icon: Icon::Sunstrip, color: "#508746"@ },
        ElementView { text: "Moving Heads"@, row: 0, column: 2, icon: Icon::MovingHead, color: "#968d3f"@ },
        ElementView { text: "Tresen"@, row: 0, column: 3, icon: Icon::CounterFront, color: "#95724f"@ },
        ElementView { text: "Hexagons"@, row: 0, column: 4, icon: Icon::Hexagon, color: "#945a5f"@ },
        ElementView { text: "Strobes"@, row: 0, column: 5, icon: Icon::Sun, color: "#94497a"@ },
        ElementView { text: "H-Bars"@, row: 0, column: 6, icon: Icon::LEDBars, color: "#8d418e"@ },
        ElementView { text: "Pointies"@, row: 0, column: 7, icon: Icon::MovingHead, color: "#72429a"@ },
    ]
}

/// What the bridge answers to a request of the control panel: the
/// definitions that the request asks for, and nothing to any other request.
pub open spec fn answer(msg: ReceiveMessage) -> Option<SendMessageView> {
    match msg {
        ReceiveMessage::RequestPresetCategoryDefinitions => Some(
            SendMessageView::SendPresetCategoryDefinitions { items: categories() },
        ),
        ReceiveMessage::RequestPresetButtonDefinitions => Some(
            SendMessageView::SendPresetButtonDefinitions { items: preset_buttons() },
        ),
        ReceiveMessage::RequestFaderDefinitions => Some(
            SendMessageView::SendFaderDefinitions { items: faders() },
        ),
        _ => None,
    }
}

/// The view of an answer.
pub open spec fn answer_view(reply: Option<SendMessage>) -> Option<SendMessageView> {
    match reply {
        Some(msg) => Some(msg@),
        None => None,
    }
}

/// The rows of presets that the control panel shows.
pub fn preset_category_definitions() -> (items: Vec<PresetCategory>)
    ensures
        category_views(items@) == categories(),
{
    let mut items: Vec<PresetCategory> = Vec::new();
    items.push(PresetCategory::new(0, "Bar"));
    items.push(PresetCategory::new(1, "Tresen"));
    assert(category_views(items@) =~= categories());
    items
}

/// The preset buttons that the control panel shows.
pub fn preset_button_definitions() -> (items: Vec<PresetButton>)
    ensures
        button_views(items@) == preset_buttons(),
{
    let mut items: Vec<PresetButton> = Vec::new();
    items.push(PresetButton::new("Bar Chill 1", 0, 0, Icon::Chill, "#c06541"));
    items.push(PresetButton::new("Bar Chill 2", 0, 1, Icon::Chill, "#c06541"));
    items.push(PresetButton::new("Bar Party 1", 0, 2, Icon::Party, "#41c0a6"));
    items.push(PresetButton::new("Bar Party 2", 0, 3, Icon::Party, "#41c0a6"));
    items.push(PresetButton::new("Bar Rave 1", 0, 4, Icon::Rave, "#a541d4"));
    items.push(PresetButton::new("Bar Rave 2", 0, 5, Icon::Rave, "#a541d4"));
    items.push(PresetButton::new("Bar Putzlich", 0, 6, Icon::Sun, "#e2d195"));
    items.push(PresetButton::new("Bar Aus", 0, 7, Icon::Off, "#38365a"));
    items.push(PresetButton::new("Tresen Chill", 1, 0, Icon::Chill, "#c06541"));
    items.push(PresetButton::new("Tresen Party", 1, 1, Icon::Party, "#41c0a6"));
    items.push(PresetButton::new("Tresen Rave", 1, 2, Icon::Rave, "#a541d4"));
    items.push(PresetButton::new("Tresen Rainbow", 1, 3, Icon::Rainbow, "#a541d4"));
    items.push(PresetButton::new("Tresen Putzlicht", 1, 4, Icon::Sun, "#e2d195"));
    items.push(PresetButton::new("Tresen Aus", 1, 5, Icon::Off, "#38365a"));
    assert(button_views(items@) =~= preset_buttons());
    items
}

/// The faders that the control panel shows.
pub fn fader_definitions() -> (items: Vec<Fader>)
    ensures
        fader_views(items@) == faders(),
{
    let mut items: Vec<Fader> = Vec::new();
    items.push(Fader::new("LED Bars", 0, 0, Icon::LEDBars, "#95724f"));
    items.push(Fader::new("Sunstripes", 0, 1, Icon::Sunstrip, "#508746"));
    items.push(Fader::new("Moving Heads", 0, 2, Icon::MovingHead, "#968d3f"));
    items.push(Fader::new("Tresen", 0, 3, Icon::CounterFront, "#95724f"));
    items.push(Fader::new("Hexagons", 0, 4, Icon::Hexagon, "#945a5f"));
    items.push(Fader::new("Strobes", 0, 5, Icon::Sun, "#94497a"));
    items.push(Fader::new("H-Bars", 0, 6, Icon::LEDBars, "#8d418e"));
    items.push(Fader::new("Pointies", 0, 7, Icon::MovingHead, "#72429a"));
    assert(fader_views(items@) =~= faders());
    items
}

/// What the bridge answers to a request of the control panel.
pub fn reply_to(msg: ReceiveMessage) -> (reply: Option<SendMessage>)
    ensures
        answer_view(reply) == answer(msg),
{
    match msg {
        ReceiveMessage::RequestPresetCategoryDefinitions => Some(
            SendMessage::SendPresetCategoryDefinitions { items: preset_category_definitions() },
        ),
        ReceiveMessage::RequestPresetButtonDefinitions => Some(
            SendMessage::SendPresetButtonDefinitions { items: preset_button_definitions() },
        ),
        ReceiveMessage::RequestFaderDefinitions => Some(
            SendMessage::SendFaderDefinitions { items: fader_definitions() },
        ),
        _ => None,
    }
}

/// What a frame of the control panel leads to: the request that it holds,
/// which goes on to the application, and the answer that goes back.
#[derive(Debug, Clone, PartialEq, Eq)]
pub struct Handled {
    pub request: ReceiveMessage,
    pub reply: Option<SendMessage>,
}

/// Handles the text of a frame of the control panel. A text that holds no
/// request is refused.
pub fn handle_message(text: &str) -> (r: Result<Handled, DecodeError>)
    ensures
        r is Ok <==> json_of_text(text@) is Some && request_of(json_of_text(text@)->0) is Some,
        r matches Ok(handled) ==> request_of(json_of_text(text@)->0) == Some(handled.request)
            && answer_view(handled.reply) == answer(handled.request),
        r matches Err(e) ==> e == if json_of_text(text@) is None {
            DecodeError::InvalidJson
        } else {
            DecodeError::NoMatchingShape
        },
{
    let request = ReceiveMessage::from_json(text)?;
    Ok(Handled { request, reply: reply_to(request) })
}

} // verus!
