//! The presets of the control panel and their places in its grid.

use vstd::prelude::*;

use super::data::{ElementView, Icon, PresetButton};

verus! {

/// The presets that the control panel offers.
#[derive(Debug, Clone, Copy, PartialEq, Eq, Structural)]
pub enum Preset {
    BarChill1,
    BarChill2,
    BarParty1,
    BarParty2,
    BarRave1,
    BarRave2,
    BarPutzlicht,
    BarOff,
    TresenChill,
    TresenParty,
    TresenRave,
    TresenRainbow,
    TresenPutzlicht,
    TresenOff,
}

/// The preset at a place of the grid, if there is one.
pub open spec fn preset_at(row: u8, column: u8) -> Option<Preset> {
    if row == 0 {
        if column == 0 {
            Some(Preset::BarChill1)
        } else if column == 1 {
            Some(Preset::BarChill2)
        } else if column == 2 {
            Some(Preset::BarParty1)
        } else if column == 3 {
            Some(Preset::BarParty2)
        } else if column == 4 {
            Some(Preset::BarRave1)
        } else if column == 5 {
            Some(Preset::BarRave2)
        } else if column == 6 {
            Some(Preset::BarPutzlicht)
        } else if column == 7 {
            Some(Preset::BarOff)
        } else {
            None
        }
    } else if row == 1 {
        if column == 0 {
            Some(Preset::TresenChill)
        } else if column == 1 {
            Some(Preset::TresenParty)
        } else if column == 2 {
            Some(Preset::TresenRave)
        } else if column == 3 {
            Some(Preset::TresenRainbow)
        } else if column == 4 {
            Some(Preset::TresenPutzlicht)
        } else if column == 5 {
            Some(Preset::TresenOff)
        } else {
            None
        }
    } else {
        None
    }
}

/// The button that shows a preset.
pub open spec fn button_of(preset: Preset) -> ElementView {
    match preset {
        Preset::BarChill1 => ElementView {
            text: "Bar Chill 1"@,
            row: 0,
            column: 0,
            icon: Icon::Chill,
            color: "#c06541"@,
        },
        Preset::BarChill2 => ElementView {
            text: "Bar Chill 2"@,
            row: 0,
            column: 1,
            icon: Icon::Chill,
            color: "#c06541"@,
        },
        Preset::BarParty1 => ElementView {
            text: "Bar Party 1"@,
            row: 0,
            column: 2,
            icon: Icon::Party,
            color: "#41c0a6"@,
        },
        Preset::BarParty2 => ElementView {
            text: "Bar Chill 1"@,
            row: 0,
            column: 3,
            icon: Icon::Party,
            color: "#41c0a6"@,
        },
        Preset::BarRave1 => ElementView {
            text: "Bar Chill 1"@,
            row: 0,
            column: 4,
            icon: Icon::Rave,
            color: "#a541d4"@,
        },
        Preset::BarRave2 => ElementView {
            text: "Bar Chill 1"@,
            row: 0,
            column: 5,
            icon: Icon::Rave,
            color: "#a541d4"@,
        },
        Preset::BarPutzlicht => ElementView {
            text: "Bar Chill 1"@,
            row: 0,
            column: 6,
            icon: Icon::Sun,
            color: "#e2d195"@,
        },
        Preset::BarOff => ElementView {
            text: "Bar Chill 1"@,
            row: 0,
            column: 7,
            icon: Icon::Off,
            color: "#38365a"@,
        },
        Preset::TresenChill => ElementView {
            text: "Bar Chill 1"@,
            row: 1,
            column: 0,
            icon: Icon::Chill,
            color: "#c06541"@,
        },
        Preset::TresenParty => ElementView {
            text: "Bar Chill 1"@,
            row: 1,
            column: 1,
            icon: Icon::Party,
            color: "#41c0a6"@,
        },
        Preset::TresenRave => ElementView {
            text: "Bar Chill 1"@,
            row: 1,
            column: 2,
            icon: Icon::Rave,
            color: "#000000"@,
        },
        Preset::TresenRainbow => ElementView {
            text: "Bar Chill 1"@,
            row: 1,
            column: 3,
            icon: Icon::Rainbow,
            color: "#000000"@,
        },
        Preset::TresenPutzlicht => ElementView {
            text: "Bar Chill 1"@,
            row: 1,
            column: 4,
            icon: Icon::Sun,
            color: "#000000"@,
        },
        Preset::TresenOff => ElementView {
            text: "Bar Chill 1"@,
            row: 1,
            column: 5,
            icon: Icon::Off,
            color: "#000000"@,
        },
    }
}

impl Preset {
    /// The preset at a place of the grid.
    pub fn from_row_column(row: u8, column: u8) -> (r: Result<Preset, ()>)
        ensures
            r is Ok <==> preset_at(row, column) is Some,
            r is Ok ==> preset_at(row, column) == Some(r->Ok_0),
    {
        match row {
            0 => match column {
                0 => Ok(Preset::BarChill1),
                1 => Ok(Preset::BarChill2),
                2 => Ok(Preset::BarParty1),
                3 => Ok(Preset::BarParty2),
                4 => Ok(Preset::BarRave1),
                5 => Ok(Preset::BarRave2),
                6 => Ok(Preset::BarPutzlicht),
                7 => Ok(Preset::BarOff),
                _ => Err(()),
            },
            1 => match column {
                0 => Ok(Preset::TresenChill),
                1 => Ok(Preset::TresenParty),
                2 => Ok(Preset::TresenRave),
                3 => Ok(Preset::TresenRainbow),
                4 => Ok(Preset::TresenPutzlicht),
                5 => Ok(Preset::TresenOff),
                _ => Err(()),
            },
            _ => Err(()),
        }
    }

    /// The button that shows this preset.
    pub fn to_preset(self) -> (b: PresetButton)
        ensures
            b@ == button_of(self),
    {
        match self {
            Preset::BarChill1 => PresetButton::new("Bar Chill 1", 0, 0, Icon::Chill, "#c06541"),
            Preset::BarChill2 => PresetButton::new("Bar Chill 2", 0, 1, Icon::Chill, "#c06541"),
            Preset::BarParty1 => PresetButton::new("Bar Party 1", 0, 2, Icon::Party, "#41c0a6"),
            Preset::BarParty2 => PresetButton::new("Bar Chill 1", 0, 3, Icon::Party, "#41c0a6"),
            Preset::BarRave1 => PresetButton::new("Bar Chill 1", 0, 4, Icon::Rave, "#a541d4"),
            Preset::BarRave2 => PresetButton::new("Bar Chill 1", 0, 5, Icon::Rave, "#a541d4"),
            Preset::BarPutzlicht => PresetButton::new("Bar Chill 1", 0, 6, Icon::Sun, "#e2d195"),
            Preset::BarOff => PresetButton::new("Bar Chill 1", 0, 7, Icon::Off, "#38365a"),
            Preset::TresenChill => PresetButton::new("Bar Chill 1", 1, 0, Icon::Chill, "#c06541"),
            Preset::TresenParty => PresetButton::new("Bar Chill 1", 1, 1, Icon::Party, "#41c0a6"),
            Preset::TresenRave => PresetButton::new("Bar Chill 1", 1, 2, Icon::Rave, "#000000"),
            Preset::TresenRainbow => PresetButton::new("Bar Chill 1", 1, 3, Icon::Rainbow, "#000000"),
            Preset::TresenPutzlicht => PresetButton::new("Bar Chill 1", 1, 4, Icon::Sun, "#000000"),
            Preset::TresenOff => PresetButton::new("Bar Chill 1", 1, 5, Icon::Off, "#000000"),
        }
    }

    /// Every preset, in the order of the grid.
    pub fn all() -> (presets: Vec<Preset>)
        ensures
            presets@ == every_preset(),
    {
        vec![
            Preset::BarChill1,
            Preset::BarChill2,
            Preset::BarParty1,
            Preset::BarParty2,
            Preset::BarRave1,
            Preset::BarRave2,
            Preset::BarPutzlicht,
            Preset::BarOff,
            Preset::TresenChill,
            Preset::TresenParty,
            Preset::TresenRave,
            Preset::TresenRainbow,
            Preset::TresenPutzlicht,
            Preset::TresenOff,
        ]
    }
}

/// Every preset, in the order of the grid.
pub open spec fn every_preset() -> Seq<Preset> {
    seq![
        Preset::BarChill1,
        Preset::BarChill2,
        Preset::BarParty1,
        Preset::BarParty2,
        Preset::BarRave1,
        Preset::BarRave2,
        Preset::BarPutzlicht,
        Preset::BarOff,
        Preset::TresenChill,
        Preset::TresenParty,
        Preset::TresenRave,
        Preset::TresenRainbow,
        Preset::TresenPutzlicht,
        Preset::TresenOff,
    ]
}

/// A preset is found again at the place where its button stands.
pub proof fn lemma_preset_found_at_its_button(preset: Preset)
    ensures
        preset_at(button_of(preset).row, button_of(preset).column) == Some(preset),
{
}

/// No preset is missing from [`every_preset`].
pub proof fn lemma_every_preset_is_listed(preset: Preset)
    ensures
        every_preset().contains(preset),
{
    let all = every_preset();
    match preset {
        Preset::BarChill1 => assert(all[0] == preset),
        Preset::BarChill2 => assert(all[1] == preset),
        Preset::BarParty1 => assert(all[2] == preset),
        Preset::BarParty2 => assert(all[3] == preset),
        Preset::BarRave1 => assert(all[4] == preset),
        Preset::BarRave2 => assert(all[5] == preset),
        Preset::BarPutzlicht => assert(all[6] == preset),
        Preset::BarOff => assert(all[7] == preset),
        Preset::TresenChill => assert(all[8] == preset),
        Preset::TresenParty => assert(all[9] == preset),
        Preset::TresenRave => assert(all[10] == preset),
        Preset::TresenRainbow => assert(all[11] == preset),
        Preset::TresenPutzlicht => assert(all[12] == preset),
        Preset::TresenOff => assert(all[13] == preset),
    }
}

} // verus!
