//! The decoders for what a reply of the console holds: faders, buttons,
//! snapshots and flags.

use vstd::prelude::*;

use super::messages::{MaDataResponse, MaDataResponseView};
use crate::error::{DecodeError, Field};
use crate::json::{
    descend, descend_item, json_views, member_views, number_at, number_of, step, step_item,
    text_at, text_of, truth_at, truth_of, Json, JsonView,
};
use crate::text::{parse_u16, u16_of_text};
use crate::types::executor::{kind_of_id, ExecutorType};
use crate::types::executor_data::{
    button_views, fader_views, ButtonDataView, FaderDataView, Ma2DataView,
};
use crate::types::{ButtonData, ButtonState, Executor, FaderData, Ma2Data};

verus! {

/// The `itemsType` of a group of faders.
pub const TYPE_FADER: u64 = 2;

/// The `itemsType` of a group of buttons.
pub const TYPE_BUTTON: u64 = 3;

/// The page on which the items of a reply are taken to lie.
pub const ITEM_PAGE: u8 = 1;

/// The state that a truth value of the console stands for.
pub open spec fn state_of(pressed: bool) -> ButtonState {
    if pressed {
        ButtonState::Pressed
    } else {
        ButtonState::Released
    }
}

/// The id of an item: the number that the text at `i.t` spells.
pub open spec fn item_id(item: JsonView) -> Option<u16> {
    match text_of(step(step(Some(item), "i"@), "t"@)) {
        Some(text) => u16_of_text(text),
        None => None,
    }
}

/// The name of an item: the text at `tt.t`.
pub open spec fn item_name(item: JsonView) -> Option<Seq<char>> {
    text_of(step(step(Some(item), "tt"@), "t"@))
}

/// The colour of an item: the text at `bdC`.
pub open spec fn item_color(item: JsonView) -> Option<Seq<char>> {
    text_of(step(Some(item), "bdC"@))
}

/// The first executor block of an item.
pub open spec fn first_block(item: JsonView) -> Option<JsonView> {
    step_item(step(Some(item), "executorBlocks"@), 0)
}

/// The fader that an item describes, or the first thing that is wrong
/// with it.
pub open spec fn fader_of(item: JsonView) -> Result<FaderDataView, DecodeError> {
    let block = first_block(item);
    let value = number_of(step(step(block, "fader"@), "v"@));
    let button1 = truth_of(step(step(block, "button1"@), "s"@));
    let button2 = truth_of(step(step(block, "button2"@), "s"@));
    let button3 = truth_of(step(step(block, "button3"@), "s"@));
    if item_id(item) is None {
        Err(DecodeError::MissingField(Field::ExecutorId))
    } else if kind_of_id(item_id(item)->0) != ExecutorType::Fader {
        Err(DecodeError::NotAFader(item_id(item)->0))
    } else if item_name(item) is None {
        Err(DecodeError::MissingField(Field::Name))
    } else if item_color(item) is None {
        Err(DecodeError::MissingField(Field::Color))
    } else if value is None {
        Err(DecodeError::MissingField(Field::FaderValue))
    } else if button1 is None {
        Err(DecodeError::MissingField(Field::Button1))
    } else if button2 is None {
        Err(DecodeError::MissingField(Field::Button2))
    } else if button3 is None {
        Err(DecodeError::MissingField(Field::Button3))
    } else {
        Ok(
            FaderDataView {
                executor: Executor { page: ITEM_PAGE, id: item_id(item)->0 },
                name: item_name(item)->0,
                color: item_color(item)->0,
                value: value->0.double,
                touched: false,
                button1: state_of(button1->0),
                button2: state_of(button2->0),
                button3: state_of(button3->0),
            },
        )
    }
}

/// The button that an item describes, or the first thing that is wrong
/// with it.
pub open spec fn button_of(item: JsonView) -> Result<ButtonDataView, DecodeError> {
    let running = truth_of(step(Some(item), "isRun"@));
    if item_id(item) is None {
        Err(DecodeError::MissingField(Field::ExecutorId))
    } else if kind_of_id(item_id(item)->0) != ExecutorType::Button {
        Err(DecodeError::NotAButton(item_id(item)->0))
    } else if item_name(item) is None {
        Err(DecodeError::MissingField(Field::Name))
    } else if item_color(item) is None {
        Err(DecodeError::MissingField(Field::Color))
    } else if running is None {
        Err(DecodeError::MissingField(Field::IsRun))
    } else {
        Ok(
            ButtonDataView {
                executor: Executor { page: ITEM_PAGE, id: item_id(item)->0 },
                name: item_name(item)->0,
                color: item_color(item)->0,
                state: state_of(running->0),
            },
        )
    }
}

/// Reads the id of an item.
fn read_item_id(item: &Json) -> (r: Option<u16>)
    ensures
        r == item_id(item@),
{
    match text_at(descend(descend(Some(item), "i"), "t")) {
        Some(text) => parse_u16(text),
        None => None,
    }
}

/// The state that a truth value of the console stands for.
fn read_state(pressed: bool) -> (s: ButtonState)
    ensures
        s == state_of(pressed),
{
    if pressed {
        ButtonState::Pressed
    } else {
        ButtonState::Released
    }
}

impl FaderData {
    /// Reads a fader from an item of a `playbacks` reply.
    pub fn deserialize(item: &Json) -> (r: Result<FaderData, DecodeError>)
        ensures
            r is Ok <==> fader_of(item@) is Ok,
            r matches Ok(fader) ==> fader_of(item@) == Ok::<FaderDataView, DecodeError>(fader@),
            r matches Err(e) ==> fader_of(item@) == Err::<FaderDataView, DecodeError>(e),
    {
        let id = match read_item_id(item) {
            Some(id) => id,
            None => return Err(DecodeError::MissingField(Field::ExecutorId)),
        };
        let executor = match Executor::new(ITEM_PAGE, id).into_fader() {
            Some(executor) => executor,
            None => return Err(DecodeError::NotAFader(id)),
        };
        let name = match text_at(descend(descend(Some(item), "tt"), "t")) {
            Some(name) => name,
            None => return Err(DecodeError::MissingField(Field::Name)),
        };
        let color = match text_at(descend(Some(item), "bdC")) {
            Some(color) => color,
            None => return Err(DecodeError::MissingField(Field::Color)),
        };
        let block = descend_item(descend(Some(item), "executorBlocks"), 0);
        let value = match number_at(descend(descend(block, "fader"), "v")) {
            Some(value) => value,
            None => return Err(DecodeError::MissingField(Field::FaderValue)),
        };
        let button1 = match truth_at(descend(descend(block, "button1"), "s")) {
            Some(pressed) => pressed,
            None => return Err(DecodeError::MissingField(Field::Button1)),
        };
        let button2 = match truth_at(descend(descend(block, "button2"), "s")) {
            Some(pressed) => pressed,
            None => return Err(DecodeError::MissingField(Field::Button2)),
        };
        let button3 = match truth_at(descend(descend(block, "button3"), "s")) {
            Some(pressed) => pressed,
            None => return Err(DecodeError::MissingField(Field::Button3)),
        };
        Ok(
            FaderData::new(
                executor,
                name,
                color,
                value.double,
                false,
                read_state(button1),
                read_state(button2),
                read_state(button3),
            ),
        )
    }
}

impl ButtonData {
    /// Reads a button from an item of a `playbacks` reply.
    pub fn deserialize(item: &Json) -> (r: Result<ButtonData, DecodeError>)
        ensures
            r is Ok <==> button_of(item@) is Ok,
            r matches Ok(button) ==> button_of(item@) == Ok::<ButtonDataView, DecodeError>(
                button@,
            ),
            r matches Err(e) ==> button_of(item@) == Err::<ButtonDataView, DecodeError>(e),
    {
        let id = match read_item_id(item) {
            Some(id) => id,
            None => return Err(DecodeError::MissingField(Field::ExecutorId)),
        };
        let executor = match Executor::new(ITEM_PAGE, id).into_button() {
            Some(executor) => executor,
            None => return Err(DecodeError::NotAButton(id)),
        };
        let name = match text_at(descend(descend(Some(item), "tt"), "t")) {
            Some(name) => name,
            None => return Err(DecodeError::MissingField(Field::Name)),
        };
        let color = match text_at(descend(Some(item), "bdC")) {
            Some(color) => color,
            None => return Err(DecodeError::MissingField(Field::Color)),
        };
        let running = match truth_at(descend(Some(item), "isRun")) {
            Some(running) => running,
            None => return Err(DecodeError::MissingField(Field::IsRun)),
        };
        Ok(ButtonData::new(executor, name, color, read_state(running)))
    }
}

/// A snapshot with one more item of the given kind, or why the item cannot
/// be added.
pub open spec fn add_item(acc: Ma2DataView, item: JsonView, items_type: u64) -> Result<
    Ma2DataView,
    DecodeError,
> {
    if items_type == TYPE_FADER {
        match fader_of(item) {
            Ok(fader) => Ok(Ma2DataView { faders: acc.faders.push(fader), buttons: acc.buttons }),
            Err(e) => Err(e),
        }
    } else if items_type == TYPE_BUTTON {
        match button_of(item) {
            Ok(button) => Ok(
                Ma2DataView { faders: acc.faders, buttons: acc.buttons.push(button) },
            ),
            Err(e) => Err(e),
        }
    } else {
        Err(DecodeError::InvalidItemsType(items_type))
    }
}

/// A snapshot with the items from place `from` on added in their order, or
/// the error of the first item that cannot be added.
pub open spec fn add_items(acc: Ma2DataView, items: Seq<JsonView>, items_type: u64, from: int)
    -> Result<Ma2DataView, DecodeError>
    decreases items.len() - from,
{
    if from < 0 || from >= items.len() {
        Ok(acc)
    } else {
        match add_item(acc, items[from], items_type) {
            Ok(next) => add_items(next, items, items_type, from + 1),
            Err(e) => Err(e),
        }
    }
}

/// A snapshot with the items of one row added.
pub open spec fn add_row(acc: Ma2DataView, row: JsonView, items_type: u64) -> Result<
    Ma2DataView,
    DecodeError,
> {
    match row {
        JsonView::Array(items) => add_items(acc, items, items_type, 0),
        _ => Err(DecodeError::MissingField(Field::ItemRow)),
    }
}

/// A snapshot with the rows from place `from` on added in their order.
pub open spec fn add_rows(acc: Ma2DataView, rows: Seq<JsonView>, items_type: u64, from: int)
    -> Result<Ma2DataView, DecodeError>
    decreases rows.len() - from,
{
    if from < 0 || from >= rows.len() {
        Ok(acc)
    } else {
        match add_row(acc, rows[from], items_type) {
            Ok(next) => add_rows(next, rows, items_type, from + 1),
            Err(e) => Err(e),
        }
    }
}

/// The kind of the items of a group: the number at `itemsType`, which must
/// be a non-negative integer.
pub open spec fn group_type(group: JsonView) -> Option<u64> {
    match number_of(step(Some(group), "itemsType"@)) {
        Some(n) => n.unsigned,
        None => None,
    }
}

/// A snapshot with the items of one group added.
pub open spec fn add_group(acc: Ma2DataView, group: JsonView) -> Result<Ma2DataView, DecodeError> {
    match group_type(group) {
        None => Err(DecodeError::MissingField(Field::ItemsType)),
        Some(items_type) => match step(Some(group), "items"@) {
            Some(JsonView::Array(rows)) => add_rows(acc, rows, items_type, 0),
            _ => Err(DecodeError::MissingField(Field::Items)),
        },
    }
}

/// A snapshot with the groups from place `from` on added in their order.
pub open spec fn add_groups(acc: Ma2DataView, groups: Seq<JsonView>, from: int) -> Result<
    Ma2DataView,
    DecodeError,
>
    decreases groups.len() - from,
{
    if from < 0 || from >= groups.len() {
        Ok(acc)
    } else {
        match add_group(acc, groups[from]) {
            Ok(next) => add_groups(next, groups, from + 1),
            Err(e) => Err(e),
        }
    }
}

/// The snapshot without any item.
pub open spec fn empty_snapshot() -> Ma2DataView {
    Ma2DataView { faders: Seq::empty(), buttons: Seq::empty() }
}

/// The snapshot that the `itemGroups` of a `playbacks` reply hold: the
/// faders of the groups whose `itemsType` is 2 and the buttons of those
/// whose `itemsType` is 3, each in the order of the document, or the first
/// error met on the way.
pub open spec fn snapshot_of(doc: JsonView) -> Result<Ma2DataView, DecodeError> {
    match doc {
        JsonView::Array(groups) => add_groups(empty_snapshot(), groups, 0),
        _ => Err(DecodeError::MissingField(Field::ItemGroups)),
    }
}

/// The snapshot that two runs of reports make.
pub open spec fn snapshot_view(faders: Seq<FaderData>, buttons: Seq<ButtonData>) -> Ma2DataView {
    Ma2DataView { faders: fader_views(faders), buttons: button_views(buttons) }
}

/// Whether an outcome of reading is the one that the specification gives.
pub open spec fn agrees(
    r: Result<(), DecodeError>,
    faders: Seq<FaderData>,
    buttons: Seq<ButtonData>,
    wanted: Result<Ma2DataView, DecodeError>,
) -> bool {
    match r {
        Ok(()) => wanted == Ok::<Ma2DataView, DecodeError>(snapshot_view(faders, buttons)),
        Err(e) => wanted == Err::<Ma2DataView, DecodeError>(e),
    }
}

/// Adds one item of the given kind to the reports read so far.
fn read_item(
    faders: &mut Vec<FaderData>,
    buttons: &mut Vec<ButtonData>,
    item: &Json,
    items_type: u64,
) -> (r: Result<(), DecodeError>)
    ensures
        agrees(
            r,
            final(faders)@,
            final(buttons)@,
            add_item(snapshot_view(old(faders)@, old(buttons)@), item@, items_type),
        ),
{
    if items_type == TYPE_FADER {
        let fader = FaderData::deserialize(item)?;
        faders.push(fader);
        assert(fader_views(faders@) =~= fader_views(old(faders)@).push(fader@));
        Ok(())
    } else if items_type == TYPE_BUTTON {
        let button = ButtonData::deserialize(item)?;
        buttons.push(button);
        assert(button_views(buttons@) =~= button_views(old(buttons)@).push(button@));
        Ok(())
    } else {
        Err(DecodeError::InvalidItemsType(items_type))
    }
}

/// Adds the items of one row to the reports read so far.
fn read_row(
    faders: &mut Vec<FaderData>,
    buttons: &mut Vec<ButtonData>,
    row: &Json,
    items_type: u64,
) -> (r: Result<(), DecodeError>)
    ensures
        agrees(
            r,
            final(faders)@,
            final(buttons)@,
            add_row(snapshot_view(old(faders)@, old(buttons)@), row@, items_type),
        ),
{
    let items = match row.as_array() {
        Some(items) => items,
        None => return Err(DecodeError::MissingField(Field::ItemRow)),
    };
    let ghost views = json_views(items@);
    let ghost start = snapshot_view(faders@, buttons@);
    let mut i: usize = 0;
    while i < items.len()
        invariant
            i <= items.len(),
            views == json_views(items@),
            row@ == JsonView::Array(views),
            start == snapshot_view(old(faders)@, old(buttons)@),
            add_items(start, views, items_type, 0) == add_items(
                snapshot_view(faders@, buttons@),
                views,
                items_type,
                i as int,
            ),
        decreases items.len() - i,
    {
        assert(views[i as int] == items@[i as int]@);
        match read_item(faders, buttons, &items[i], items_type) {
            Ok(()) => {},
            Err(e) => {
                return Err(e);
            },
        }
        i += 1;
    }
    Ok(())
}

/// Adds the items of one group to the reports read so far.
fn read_group(faders: &mut Vec<FaderData>, buttons: &mut Vec<ButtonData>, group: &Json) -> (r:
    Result<(), DecodeError>)
    ensures
        agrees(
            r,
            final(faders)@,
            final(buttons)@,
            add_group(snapshot_view(old(faders)@, old(buttons)@), group@),
        ),
{
    let items_type = match number_at(descend(Some(group), "itemsType")) {
        Some(n) => match n.unsigned {
            Some(items_type) => items_type,
            None => return Err(DecodeError::MissingField(Field::ItemsType)),
        },
        None => return Err(DecodeError::MissingField(Field::ItemsType)),
    };
    let rows = match descend(Some(group), "items") {
        Some(list) => match list.as_array() {
            Some(rows) => rows,
            None => return Err(DecodeError::MissingField(Field::Items)),
        },
        None => return Err(DecodeError::MissingField(Field::Items)),
    };
    let ghost views = json_views(rows@);
    let ghost start = snapshot_view(faders@, buttons@);
    let mut i: usize = 0;
    while i < rows.len()
        invariant
            i <= rows.len(),
            views == json_views(rows@),
            group_type(group@) == Some(items_type),
            step(Some(group@), "items"@) == Some(JsonView::Array(views)),
            start == snapshot_view(old(faders)@, old(buttons)@),
            add_rows(start, views, items_type, 0) == add_rows(
                snapshot_view(faders@, buttons@),
                views,
                items_type,
                i as int,
            ),
        decreases rows.len() - i,
    {
        assert(views[i as int] == rows@[i as int]@);
        match read_row(faders, buttons, &rows[i], items_type) {
            Ok(()) => {},
            Err(e) => {
                return Err(e);
            },
        }
        i += 1;
    }
    Ok(())
}

impl Ma2Data {
    /// Reads a snapshot from the `itemGroups` of a `playbacks` reply.
    pub fn deserialize(doc: &Json) -> (r: Result<Ma2Data, DecodeError>)
        ensures
            r is Ok <==> snapshot_of(doc@) is Ok,
            r matches Ok(data) ==> snapshot_of(doc@) == Ok::<Ma2DataView, DecodeError>(data@),
            r matches Err(e) ==> snapshot_of(doc@) == Err::<Ma2DataView, DecodeError>(e),
    {
        let groups = match doc.as_array() {
            Some(groups) => groups,
            None => return Err(DecodeError::MissingField(Field::ItemGroups)),
        };
        let mut faders: Vec<FaderData> = Vec::new();
        let mut buttons: Vec<ButtonData> = Vec::new();
        let ghost views = json_views(groups@);
        assert(fader_views(faders@) =~= Seq::empty());
        assert(button_views(buttons@) =~= Seq::empty());
        let mut i: usize = 0;
        while i < groups.len()
            invariant
                i <= groups.len(),
                views == json_views(groups@),
                doc@ == JsonView::Array(views),
                add_groups(empty_snapshot(), views, 0) == add_groups(
                    snapshot_view(faders@, buttons@),
                    views,
                    i as int,
                ),
            decreases groups.len() - i,
        {
            assert(views[i as int] == groups@[i as int]@);
            match read_group(&mut faders, &mut buttons, &groups[i]) {
                Ok(()) => {},
                Err(e) => {
                    return Err(e);
                },
            }
            i += 1;
        }
        Ok(Ma2Data::new(faders, buttons))
    }
}

/// The flags of a `getdata` reply as far as they have been read.
pub struct Flags {
    pub set: Option<Seq<char>>,
    pub clear: Option<Seq<char>>,
    pub solo: Option<Seq<char>>,
    pub high: Option<Seq<char>>,
}

/// The flags after one more member: the flag that the key names takes the
/// text of the value, or none if the value is no string.
pub open spec fn note_flag(flags: Flags, key: Seq<char>, value: JsonView) -> Result<
    Flags,
    DecodeError,
> {
    if key == "set"@ {
        Ok(Flags { set: value.text(), ..flags })
    } else if key == "clear"@ {
        Ok(Flags { clear: value.text(), ..flags })
    } else if key == "solo"@ {
        Ok(Flags { solo: value.text(), ..flags })
    } else if key == "high"@ {
        Ok(Flags { high: value.text(), ..flags })
    } else {
        Err(DecodeError::UnknownKey)
    }
}

/// The flags after the members from place `from` on.
pub open spec fn note_members(flags: Flags, members: Seq<(Seq<char>, JsonView)>, from: int)
    -> Result<Flags, DecodeError>
    decreases members.len() - from,
{
    if from < 0 || from >= members.len() {
        Ok(flags)
    } else {
        match note_flag(flags, members[from].0, members[from].1) {
            Ok(next) => note_members(next, members, from + 1),
            Err(e) => Err(e),
        }
    }
}

/// The flags after one entry of the list.
pub open spec fn note_entry(flags: Flags, entry: JsonView) -> Result<Flags, DecodeError> {
    match entry {
        JsonView::Object(members) => note_members(flags, members, 0),
        _ => Err(DecodeError::MissingField(Field::Flags)),
    }
}

/// The flags after the entries from place `from` on.
pub open spec fn note_entries(flags: Flags, entries: Seq<JsonView>, from: int) -> Result<
    Flags,
    DecodeError,
>
    decreases entries.len() - from,
{
    if from < 0 || from >= entries.len() {
        Ok(flags)
    } else {
        match note_entry(flags, entries[from]) {
            Ok(next) => note_entries(next, entries, from + 1),
            Err(e) => Err(e),
        }
    }
}

/// No flag read yet.
pub open spec fn no_flags() -> Flags {
    Flags { set: None, clear: None, solo: None, high: None }
}

/// The reply that a complete set of flags makes.
pub open spec fn complete(flags: Flags) -> Result<MaDataResponseView, DecodeError> {
    if flags.set is None {
        Err(DecodeError::MissingField(Field::SetFlag))
    } else if flags.clear is None {
        Err(DecodeError::MissingField(Field::ClearFlag))
    } else if flags.solo is None {
        Err(DecodeError::MissingField(Field::SoloFlag))
    } else if flags.high is None {
        Err(DecodeError::MissingField(Field::HighFlag))
    } else {
        Ok(
            MaDataResponseView {
                set: flags.set->0,
                clear: flags.clear->0,
                solo: flags.solo->0,
                high: flags.high->0,
            },
        )
    }
}

/// The flags that the `data` of a `getdata` reply holds: a list of objects
/// whose members name the four flags. Of a flag named twice the later
/// member counts.
pub open spec fn flags_of(doc: JsonView) -> Result<MaDataResponseView, DecodeError> {
    match doc {
        JsonView::Array(entries) => match note_entries(no_flags(), entries, 0) {
            Ok(flags) => complete(flags),
            Err(e) => Err(e),
        },
        _ => Err(DecodeError::MissingField(Field::Flags)),
    }
}

/// The view of a text that may be absent.
pub open spec fn text_view(text: Option<&str>) -> Option<Seq<char>> {
    match text {
        Some(s) => Some(s@),
        None => None,
    }
}

impl MaDataResponse {
    /// Reads the flags from the `data` of a `getdata` reply.
    pub fn deserialize(doc: &Json) -> (r: Result<MaDataResponse, DecodeError>)
        ensures
            r is Ok <==> flags_of(doc@) is Ok,
            r matches Ok(flags) ==> flags_of(doc@) == Ok::<MaDataResponseView, DecodeError>(
                flags@,
            ),
            r matches Err(e) ==> flags_of(doc@) == Err::<MaDataResponseView, DecodeError>(e),
    {
        let entries = match doc.as_array() {
            Some(entries) => entries,
            None => return Err(DecodeError::MissingField(Field::Flags)),
        };
        let set_key = "set".to_owned();
        let clear_key = "clear".to_owned();
        let solo_key = "solo".to_owned();
        let high_key = "high".to_owned();
        let mut set: Option<&str> = None;
        let mut clear: Option<&str> = None;
        let mut solo: Option<&str> = None;
        let mut high: Option<&str> = None;
        let ghost views = json_views(entries@);
        let mut i: usize = 0;
        while i < entries.len()
            invariant
                i <= entries.len(),
                views == json_views(entries@),
                doc@ == JsonView::Array(views),
                set_key@ == "set"@,
                clear_key@ == "clear"@,
                solo_key@ == "solo"@,
                high_key@ == "high"@,
                note_entries(no_flags(), views, 0) == note_entries(
                    Flags {
                        set: text_view(set),
                        clear: text_view(clear),
                        solo: text_view(solo),
                        high: text_view(high),
                    },
                    views,
                    i as int,
                ),
            decreases entries.len() - i,
        {
            assert(views[i as int] == entries@[i as int]@);
            let members = match entries[i].as_object() {
                Some(members) => members,
                None => return Err(DecodeError::MissingField(Field::Flags)),
            };
            let ghost pairs = member_views(members@);
            let ghost before = Flags {
                set: text_view(set),
                clear: text_view(clear),
                solo: text_view(solo),
                high: text_view(high),
            };
            let mut k: usize = 0;
            while k < members.len()
                invariant
                    k <= members.len(),
                    i < entries.len(),
                    pairs == member_views(members@),
                    views == json_views(entries@),
                    doc@ == JsonView::Array(views),
                    views[i as int] == JsonView::Object(pairs),
                    note_entries(no_flags(), views, 0) == note_entries(before, views, i as int),
                    set_key@ == "set"@,
                    clear_key@ == "clear"@,
                    solo_key@ == "solo"@,
                    high_key@ == "high"@,
                    note_members(before, pairs, 0) == note_members(
                        Flags {
                            set: text_view(set),
                            clear: text_view(clear),
                            solo: text_view(solo),
                            high: text_view(high),
                        },
                        pairs,
                        k as int,
                    ),
                decreases members.len() - k,
            {
                assert(pairs[k as int] == (members@[k as int].0@, members@[k as int].1@));
                let value = members[k].1.as_str();
                if members[k].0 == set_key {
                    set = value;
                } else if members[k].0 == clear_key {
                    clear = value;
                } else if members[k].0 == solo_key {
                    solo = value;
                } else if members[k].0 == high_key {
                    high = value;
                } else {
                    return Err(DecodeError::UnknownKey);
                }
                k += 1;
            }
            i += 1;
        }
        let set = match set {
            Some(text) => text,
            None => return Err(DecodeError::MissingField(Field::SetFlag)),
        };
        let clear = match clear {
            Some(text) => text,
            None => return Err(DecodeError::MissingField(Field::ClearFlag)),
        };
        let solo = match solo {
            Some(text) => text,
            None => return Err(DecodeError::MissingField(Field::SoloFlag)),
        };
        let high = match high {
            Some(text) => text,
            None => return Err(DecodeError::MissingField(Field::HighFlag)),
        };
        Ok(
            MaDataResponse {
                set: set.to_owned(),
                clear: clear.to_owned(),
                solo: solo.to_owned(),
                high: high.to_owned(),
            },
        )
    }
}

} // verus!
