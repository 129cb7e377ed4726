use grandma2::frontend::{Fader, HoldAction, Icon, Preset, PresetButton, PresetCategory};

#[test]
fn test_preset_mapping() {
    for preset in Preset::all() {
        let p = preset.to_preset();
        assert_eq!(preset, Preset::from_row_column(p.row, p.column).unwrap());
    }
}

#[test]
fn every_preset_is_listed_once() {
    let all = Preset::all();
    assert_eq!(all.len(), 14);
    for (i, a) in all.iter().enumerate() {
        for b in all.iter().skip(i + 1) {
            assert_ne!(a, b);
        }
    }
    assert_eq!(all[0], Preset::BarChill1);
    assert_eq!(all[13], Preset::TresenOff);
}

#[test]
fn places_without_a_preset_are_refused() {
    assert_eq!(Preset::from_row_column(0, 8), Err(()));
    assert_eq!(Preset::from_row_column(1, 6), Err(()));
    assert_eq!(Preset::from_row_column(2, 0), Err(()));
    assert_eq!(Preset::from_row_column(255, 255), Err(()));
    assert_eq!(Preset::from_row_column(0, 7), Ok(Preset::BarOff));
    assert_eq!(Preset::from_row_column(1, 3), Ok(Preset::TresenRainbow));
}

#[test]
fn preset_buttons_show_what_the_preset_is() {
    assert_eq!(
        Preset::BarChill2.to_preset(),
        PresetButton::new("Bar Chill 2", 0, 1, Icon::Chill, "#c06541")
    );
    let button = Preset::TresenRainbow.to_preset();
    assert_eq!(button.text(), "Bar Chill 1");
    assert_eq!(button.row(), 1);
    assert_eq!(button.column(), 3);
    assert_eq!(button.icon(), Icon::Rainbow);
    assert_eq!(button.color(), "#000000");
}

#[test]
fn panel_elements_keep_what_they_are_made_of() {
    let category = PresetCategory::new(7, "Bar");
    assert_eq!(category.row(), 7);
    assert_eq!(category.text(), "Bar");

    let action = HoldAction::new("Test", 2, 3, Icon::Party, "#111111");
    assert_eq!(action.text(), "Test");
    assert_eq!(action.row(), 2);
    assert_eq!(action.column(), 3);
    assert_eq!(action.icon(), Icon::Party);
    assert_eq!(action.color(), "#111111");

    let fader = Fader::new("LED Bars", 0, 5, Icon::LEDBars, "#95724f");
    assert_eq!(fader.text, "LED Bars");
    assert_eq!(fader.row(), 0);
    assert_eq!(fader.column(), 5);
    assert_eq!(fader.icon, Icon::LEDBars);
    assert_eq!(fader.color, "#95724f");
}
