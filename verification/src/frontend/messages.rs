//! The messages between the bridge and the control panel, with their JSON
//! form.

use vstd::prelude::*;

use super::data::{ElementView, Fader, HoldAction, Icon, PresetButton, PresetCategory, PresetCategoryView};
use crate::client::messages::truth_text;
use crate::error::DecodeError;
use crate::json::{
    descend, json_of_text, json_quoted, number_at, number_of, push_quoted, step, text_at, text_of,
    truth_at, truth_of, u8_at, u8_of, Json, JsonView, NumberLiteral,
};
use crate::text::{decimal, push_decimal, same_text};

verus! {

/// What the control panel asks of the bridge.
#[derive(Debug, Clone, Copy, PartialEq, Eq, Structural)]
pub enum ReceiveMessage {
    RequestPresetCategoryDefinitions,
    RequestPresetButtonDefinitions,
    RequestHoldActionDefinitions,
    RequestFaderDefinitions,
    SendHoldAction { row: u8, column: u8, value: bool },
    SetPreset { row: u8, column: u8 },
    /// The level is kept as the bit pattern of an IEEE-754 double.
    SendFaderState { row: u8, column: u8, state: u64 },
    RequestFaderState { row: u8, column: u8 },
    PageLeft,
    PageRight,
}

/// The row and the column that a message names, if both are bytes.
pub open spec fn place_of(doc: JsonView) -> Option<(u8, u8)> {
    let row = u8_of(step(Some(doc), "row"@));
    let column = u8_of(step(Some(doc), "column"@));
    if row is Some && column is Some {
        Some((row->0, column->0))
    } else {
        None
    }
}

/// The request that a document of the control panel is: the text at `type`
/// says which, and the members that the request has must be there. Other
/// members are passed over.
pub open spec fn request_of(doc: JsonView) -> Option<ReceiveMessage> {
    match text_of(step(Some(doc), "type"@)) {
        None => None,
        Some(tag) => if tag == "requestPresetCategoryDefinitions"@ {
            Some(ReceiveMessage::RequestPresetCategoryDefinitions)
        } else if tag == "requestPresetButtonDefinitions"@ {
            Some(ReceiveMessage::RequestPresetButtonDefinitions)
        } else if tag == "requestHoldActionDefinitions"@ {
            Some(ReceiveMessage::RequestHoldActionDefinitions)
        } else if tag == "requestFaderDefinitions"@ {
            Some(ReceiveMessage::RequestFaderDefinitions)
        } else if tag == "sendHoldAction"@ {
            match (place_of(doc), truth_of(step(Some(doc), "value"@))) {
                (Some(place), Some(value)) => Some(
                    ReceiveMessage::SendHoldAction { row: place.0, column: place.1, value },
                ),
                _ => None,
            }
        } else if tag == "setPreset"@ {
            match place_of(doc) {
                Some(place) => Some(ReceiveMessage::SetPreset { row: place.0, column: place.1 }),
                None => None,
            }
        } else if tag == "sendFaderState"@ {
            match (place_of(doc), number_of(step(Some(doc), "state"@))) {
                (Some(place), Some(state)) => Some(
                    ReceiveMessage::SendFaderState {
                        row: place.0,
                        column: place.1,
                        state: state.double,
                    },
                ),
                _ => None,
            }
        } else if tag == "requestFaderState"@ {
            match place_of(doc) {
                Some(place) => Some(
                    ReceiveMessage::RequestFaderState { row: place.0, column: place.1 },
                ),
                None => None,
            }
        } else if tag == "pageLeft"@ {
            Some(ReceiveMessage::PageLeft)
        } else if tag == "pageRight"@ {
            Some(ReceiveMessage::PageRight)
        } else {
            None
        },
    }
}

/// Reads the row and the column that a message names.
fn read_place(doc: &Json) -> (r: Option<(u8, u8)>)
    ensures
        r == place_of(doc@),
{
    let row = u8_at(descend(Some(doc), "row"))?;
    let column = u8_at(descend(Some(doc), "column"))?;
    Some((row, column))
}

impl ReceiveMessage {
    /// Reads a request of the control panel from a document.
    pub fn deserialize(doc: &Json) -> (r: Option<ReceiveMessage>)
        ensures
            r == request_of(doc@),
    {
        let tag = match text_at(descend(Some(doc), "type")) {
            Some(tag) => tag,
            None => return None,
        };
        if same_text(tag, "requestPresetCategoryDefinitions") {
            Some(ReceiveMessage::RequestPresetCategoryDefinitions)
        } else if same_text(tag, "requestPresetButtonDefinitions") {
            Some(ReceiveMessage::RequestPresetButtonDefinitions)
        } else if same_text(tag, "requestHoldActionDefinitions") {
            Some(ReceiveMessage::RequestHoldActionDefinitions)
        } else if same_text(tag, "requestFaderDefinitions") {
            Some(ReceiveMessage::RequestFaderDefinitions)
        } else if same_text(tag, "sendHoldAction") {
            let place = read_place(doc);
            let value = truth_at(descend(Some(doc), "value"));
            match (place, value) {
                (Some(place), Some(value)) => Some(
                    ReceiveMessage::SendHoldAction { row: place.0, column: place.1, value },
                ),
                _ => None,
            }
        } else if same_text(tag, "setPreset") {
            match read_place(doc) {
                Some(place) => Some(ReceiveMessage::SetPreset { row: place.0, column: place.1 }),
                None => None,
            }
        } else if same_text(tag, "sendFaderState") {
            let place = read_place(doc);
            let state = number_at(descend(Some(doc), "state"));
            match (place, state) {
                (Some(place), Some(state)) => Some(
                    ReceiveMessage::SendFaderState {
                        row: place.0,
                        column: place.1,
                        state: state.double,
                    },
                ),
                _ => None,
            }
        } else if same_text(tag, "requestFaderState") {
            match read_place(doc) {
                Some(place) => Some(
                    ReceiveMessage::RequestFaderState { row: place.0, column: place.1 },
                ),
                None => None,
            }
        } else if same_text(tag, "pageLeft") {
            Some(ReceiveMessage::PageLeft)
        } else if same_text(tag, "pageRight") {
            Some(ReceiveMessage::PageRight)
        } else {
            None
        }
    }

    /// Reads a request of the control panel from its JSON text.
    pub fn from_json(text: &str) -> (r: Result<ReceiveMessage, DecodeError>)
        ensures
            r is Ok <==> json_of_text(text@) is Some && request_of(json_of_text(text@)->0)
                is Some,
            r matches Ok(msg) ==> request_of(json_of_text(text@)->0) == Some(msg),
            r matches Err(e) ==> e == if json_of_text(text@) is None {
                DecodeError::InvalidJson
            } else {
                DecodeError::NoMatchingShape
            },
    {
        let doc = Json::parse(text)?;
        match ReceiveMessage::deserialize(&doc) {
            Some(msg) => Ok(msg),
            None => Err(DecodeError::NoMatchingShape),
        }
    }
}

/// What the bridge tells the control panel.
#[derive(Debug, Clone, PartialEq, Eq)]
pub enum SendMessage {
    SendPresetCategoryDefinitions { items: Vec<PresetCategory> },
    SendPresetButtonDefinitions { items: Vec<PresetButton> },
    SendHoldActionDefinitions { items: Vec<HoldAction> },
    SendFaderDefinitions { items: Vec<Fader> },
    SendFaderState { row: u8, column: u8, value: NumberLiteral },
    SendFaderHighlight { row: u8, column: u8, value: bool },
    Heartbeat,
}

/// A [`SendMessage`] as a mathematical value.
pub enum SendMessageView {
    SendPresetCategoryDefinitions { items: Seq<PresetCategoryView> },
    SendPresetButtonDefinitions { items: Seq<ElementView> },
    SendHoldActionDefinitions { items: Seq<ElementView> },
    SendFaderDefinitions { items: Seq<ElementView> },
    SendFaderState { row: u8, column: u8, value: Seq<char> },
    SendFaderHighlight { row: u8, column: u8, value: bool },
    Heartbeat,
}

/// The views of a run of categories.
pub open spec fn category_views(items: Seq<PresetCategory>) -> Seq<PresetCategoryView> {
    items.map_values(|c: PresetCategory| c@)
}

/// The views of a run of preset buttons.
pub open spec fn button_views(items: Seq<PresetButton>) -> Seq<ElementView> {
    items.map_values(|b: PresetButton| b@)
}

/// The views of a run of hold actions.
pub open spec fn action_views(items: Seq<HoldAction>) -> Seq<ElementView> {
    items.map_values(|a: HoldAction| a@)
}

/// The views of a run of faders.
pub open spec fn fader_views(items: Seq<Fader>) -> Seq<ElementView> {
    items.map_values(|f: Fader| f@)
}

impl View for SendMessage {
    type V = SendMessageView;

    open spec fn view(&self) -> SendMessageView {
        match *self {
            SendMessage::SendPresetCategoryDefinitions {
                items,
            } => SendMessageView::SendPresetCategoryDefinitions { items: category_views(items@) },
            SendMessage::SendPresetButtonDefinitions {
                items,
            } => SendMessageView::SendPresetButtonDefinitions { items: button_views(items@) },
            SendMessage::SendHoldActionDefinitions {
                items,
            } => SendMessageView::SendHoldActionDefinitions { items: action_views(items@) },
            SendMessage::SendFaderDefinitions {
                items,
            } => SendMessageView::SendFaderDefinitions { items: fader_views(items@) },
            SendMessage::SendFaderState { row, column, value } => SendMessageView::SendFaderState {
                row,
                column,
                value: value@,
            },
            SendMessage::SendFaderHighlight {
                row,
                column,
                value,
            } => SendMessageView::SendFaderHighlight { row, column, value },
            SendMessage::Heartbeat => SendMessageView::Heartbeat,
        }
    }
}

/// The name of a picture on the wire.
pub open spec fn icon_name(icon: Icon) -> Seq<char> {
    match icon {
        Icon::NoIcon => "none"@,
        Icon::Off => "off"@,
        Icon::Sun => "sun"@,
        Icon::Right => "right"@,
        Icon::Left => "left"@,
        Icon::Rainbow => "rainbow"@,
        Icon::Chill => "chill"@,
        Icon::Party => "party"@,
        Icon::Rave => "rave"@,
        Icon::LEDBars => "led-bars"@,
        Icon::Sunstrip => "sunstrip"@,
        Icon::MovingHead => "moving-head"@,
        Icon::CounterFront => "counter-front"@,
        Icon::Hexagon => "hexagon"@,
        Icon::CounterBack => "counter-back"@,
        Icon::Bottles => "bottles"@,
        Icon::Bulb => "bulb"@,
    }
}

impl Icon {
    /// The name of the picture on the wire.
    pub fn name(&self) -> (name: &'static str)
        ensures
            name@ == icon_name(*self),
    {
        match self {
            Icon::NoIcon => "none",
            Icon::Off => "off",
            Icon::Sun => "sun",
            Icon::Right => "right",
            Icon::Left => "left",
            Icon::Rainbow => "rainbow",
            Icon::Chill => "chill",
            Icon::Party => "party",
            Icon::Rave => "rave",
            Icon::LEDBars => "led-bars",
            Icon::Sunstrip => "sunstrip",
            Icon::MovingHead => "moving-head",
            Icon::CounterFront => "counter-front",
            Icon::Hexagon => "hexagon",
            Icon::CounterBack => "counter-back",
            Icon::Bottles => "bottles",
            Icon::Bulb => "bulb",
        }
    }
}

/// The text of a category: a JSON object with its row and its caption.
pub open spec fn category_text(category: PresetCategoryView) -> Seq<char> {
    "{\"row\":"@ + decimal(category.row as nat) + ",\"text\":"@ + json_quoted(category.text)
        + "}"@
}

/// The text of an element: a JSON object with its caption, its place, its
/// picture and its colour.
pub open spec fn element_text(element: ElementView) -> Seq<char> {
    "{\"text\":"@ + json_quoted(element.text) + ",\"row\":"@ + decimal(element.row as nat)
        + ",\"column\":"@ + decimal(element.column as nat) + ",\"icon\":\""@ + icon_name(
        element.icon,
    ) + "\",\"color\":"@ + json_quoted(element.color) + "}"@
}

/// The first `upto` texts of a run, with commas between them.
pub open spec fn joined(texts: Seq<Seq<char>>, upto: int) -> Seq<char>
    decreases upto,
{
    if upto <= 0 {
        Seq::empty()
    } else if upto == 1 {
        texts[0]
    } else {
        joined(texts, upto - 1) + ","@ + texts[upto - 1]
    }
}

/// The text of a message that lists definitions.
pub open spec fn definitions_text(tag: Seq<char>, items: Seq<Seq<char>>) -> Seq<char> {
    "{\"type\":\""@ + tag + "\",\"items\":["@ + joined(items, items.len() as int) + "]}"@
}

/// The text of a message to the control panel.
pub open spec fn panel_text(msg: SendMessageView) -> Seq<char> {
    match msg {
        SendMessageView::SendPresetCategoryDefinitions { items } => definitions_text(
            "sendPresetCategoryDefinitions"@,
            items.map_values(|c: PresetCategoryView| category_text(c)),
        ),
        SendMessageView::SendPresetButtonDefinitions { items } => definitions_text(
            "sendPresetButtonDefinitions"@,
            items.map_values(|e: ElementView| element_text(e)),
        ),
        SendMessageView::SendHoldActionDefinitions { items } => definitions_text(
            "sendHoldActionDefinitions"@,
            items.map_values(|e: ElementView| element_text(e)),
        ),
        SendMessageView::SendFaderDefinitions { items } => definitions_text(
            "sendFaderDefinitions"@,
            items.map_values(|e: ElementView| element_text(e)),
        ),
        SendMessageView::SendFaderState {
            row,
            column,
            value,
        } => "{\"type\":\"sendFaderState\",\"row\":"@ + decimal(row as nat) + ",\"column\":"@
            + decimal(column as nat) + ",\"value\":"@ + value + "}"@,
        SendMessageView::SendFaderHighlight {
            row,
            column,
            value,
        } => "{\"type\":\"sendFaderHighlight\",\"row\":"@ + decimal(row as nat) + ",\"column\":"@
            + decimal(column as nat) + ",\"value\":"@ + truth_text(value) + "}"@,
        SendMessageView::Heartbeat => "{\"type\":\"heartbeat\"}"@,
    }
}

/// Appends the text of an element.
fn push_element(buf: &mut String, text: &str, row: u8, column: u8, icon: Icon, color: &str)
    ensures
        final(buf)@ == old(buf)@ + element_text(
            ElementView { text: text@, row, column, icon, color: color@ },
        ),
{
    let ghost start = buf@;
    buf.append("{\"text\":");
    push_quoted(buf, text);
    buf.append(",\"row\":");
    push_decimal(buf, row as u64);
    buf.append(",\"column\":");
    push_decimal(buf, column as u64);
    buf.append(",\"icon\":\"");
    buf.append(icon.name());
    buf.append("\",\"color\":");
    push_quoted(buf, color);
    buf.append("}");
    assert(buf@ =~= start + element_text(
        ElementView { text: text@, row, column, icon, color: color@ },
    ));
}

impl SendMessage {
    /// The JSON text of the message.
    pub fn to_json(&self) -> (text: String)
        ensures
            text@ == panel_text(self@),
    {
        let mut buf = String::new();
        match self {
            SendMessage::SendPresetCategoryDefinitions { items } => {
                let ghost texts = category_views(items@).map_values(
                    |c: PresetCategoryView| category_text(c),
                );
                buf.append("{\"type\":\"");
                buf.append("sendPresetCategoryDefinitions");
                buf.append("\",\"items\":[");
                let ghost head = buf@;
                let mut i: usize = 0;
                while i < items.len()
                    invariant
                        i <= items.len(),
                        texts == category_views(items@).map_values(
                            |c: PresetCategoryView| category_text(c),
                        ),
                        buf@ == head + joined(texts, i as int),
                    decreases items.len() - i,
                {
                    if i > 0 {
                        buf.append(",");
                    }
                    let ghost before = buf@;
                    buf.append("{\"row\":");
                    push_decimal(&mut buf, items[i].row() as u64);
                    buf.append(",\"text\":");
                    push_quoted(&mut buf, items[i].text());
                    buf.append("}");
                    assert(buf@ =~= before + texts[i as int]);
                    assert(buf@ =~= head + joined(texts, i + 1));
                    i += 1;
                }
                buf.append("]}");
                assert(buf@ =~= panel_text(self@));
            },
            SendMessage::SendPresetButtonDefinitions { items } => {
                let ghost texts = button_views(items@).map_values(
                    |e: ElementView| element_text(e),
                );
                buf.append("{\"type\":\"");
                buf.append("sendPresetButtonDefinitions");
                buf.append("\",\"items\":[");
                let ghost head = buf@;
                let mut i: usize = 0;
                while i < items.len()
                    invariant
                        i <= items.len(),
                        texts == button_views(items@).map_values(|e: ElementView| element_text(e)),
                        buf@ == head + joined(texts, i as int),
                    decreases items.len() - i,
                {
                    if i > 0 {
                        buf.append(",");
                    }
                    let ghost before = buf@;
                    let item = &items[i];
                    push_element(
                        &mut buf,
                        item.text(),
                        item.row(),
                        item.column(),
                        item.icon(),
                        item.color(),
                    );
                    assert(buf@ =~= before + texts[i as int]);
                    assert(buf@ =~= head + joined(texts, i + 1));
                    i += 1;
                }
                buf.append("]}");
                assert(buf@ =~= panel_text(self@));
            },
            SendMessage::SendHoldActionDefinitions { items } => {
                let ghost texts = action_views(items@).map_values(
                    |e: ElementView| element_text(e),
                );
                buf.append("{\"type\":\"");
                buf.append("sendHoldActionDefinitions");
                buf.append("\",\"items\":[");
                let ghost head = buf@;
                let mut i: usize = 0;
                while i < items.len()
                    invariant
                        i <= items.len(),
                        texts == action_views(items@).map_values(|e: ElementView| element_text(e)),
                        buf@ == head + joined(texts, i as int),
                    decreases items.len() - i,
                {
                    if i > 0 {
                        buf.append(",");
                    }
                    let ghost before = buf@;
                    let item = &items[i];
                    push_element(
                        &mut buf,
                        item.text(),
                        item.row(),
                        item.column(),
                        item.icon(),
                        item.color(),
                    );
                    assert(buf@ =~= before + texts[i as int]);
                    assert(buf@ =~= head + joined(texts, i + 1));
                    i += 1;
                }
                buf.append("]}");
                assert(buf@ =~= panel_text(self@));
            },
            SendMessage::SendFaderDefinitions { items } => {
                let ghost texts = fader_views(items@).map_values(|e: ElementView| element_text(e));
                buf.append("{\"type\":\"");
                buf.append("sendFaderDefinitions");
                buf.append("\",\"items\":[");
                let ghost head = buf@;
                let mut i: usize = 0;
                while i < items.len()
                    invariant
                        i <= items.len(),
                        texts == fader_views(items@).map_values(|e: ElementView| element_text(e)),
                        buf@ == head + joined(texts, i as int),
                    decreases items.len() - i,
                {
                    if i > 0 {
                        buf.append(",");
                    }
                    let ghost before = buf@;
                    let item = &items[i];
                    push_element(
                        &mut buf,
                        item.text(),
                        item.row(),
                        item.column(),
                        item.icon(),
                        item.color(),
                    );
                    assert(buf@ =~= before + texts[i as int]);
                    assert(buf@ =~= head + joined(texts, i + 1));
                    i += 1;
                }
                buf.append("]}");
                assert(buf@ =~= panel_text(self@));
            },
            SendMessage::SendFaderState { row, column, value } => {
                buf.append("{\"type\":\"sendFaderState\",\"row\":");
                push_decimal(&mut buf, *row as u64);
                buf.append(",\"column\":");
                push_decimal(&mut buf, *column as u64);
                buf.append(",\"value\":");
                buf.append(value.as_str());
                buf.append("}");
                assert(buf@ =~= panel_text(self@));
            },
            SendMessage::SendFaderHighlight { row, column, value } => {
                buf.append("{\"type\":\"sendFaderHighlight\",\"row\":");
                push_decimal(&mut buf, *row as u64);
                buf.append(",\"column\":");
                push_decimal(&mut buf, *column as u64);
                buf.append(",\"value\":");
                if *value {
                    buf.append("true");
                } else {
                    buf.append("false");
                }
                buf.append("}");
                assert(buf@ =~= panel_text(self@));
            },
            SendMessage::Heartbeat => {
                buf.append("{\"type\":\"heartbeat\"}");
                assert(buf@ =~= panel_text(self@));
            },
        }
        buf
    }
}

} // verus!
