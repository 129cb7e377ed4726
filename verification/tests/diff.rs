use grandma2::client::Ma2State;
use grandma2::types::{
    ButtonData, ButtonExecutor, ButtonState, FaderData, FaderExecutor, Ma2Data,
};

fn fader(id: u16, name: &str, level: f64) -> FaderData {
    FaderData::new(
        FaderExecutor::new(1, id),
        name,
        "#00FFFF",
        level.to_bits(),
        false,
        ButtonState::Released,
        ButtonState::Released,
        ButtonState::Released,
    )
}

fn button(id: u16, state: ButtonState) -> ButtonData {
    ButtonData::new(ButtonExecutor::new(1, id), "Flash", "#FF7F00", state)
}

fn snapshot() -> Ma2Data {
    Ma2Data::new(
        vec![fader(1, "BARS", 1.0), fader(2, "SSALL", 0.0)],
        vec![button(101, ButtonState::Released)],
    )
}

#[test]
fn first_snapshot_is_all_news() {
    let mut state = Ma2State::new();
    let diff = state.diff_and_update(snapshot());
    assert_eq!(diff, snapshot());
}

#[test]
fn same_snapshot_again_brings_nothing() {
    let mut state = Ma2State::new();
    state.diff_and_update(snapshot());
    let diff = state.diff_and_update(snapshot());
    assert_eq!(diff, Ma2Data::new(Vec::new(), Vec::new()));
    assert!(diff.faders().is_empty());
    assert!(diff.buttons().is_empty());
}

#[test]
fn unknown_executor_is_reported_once_and_cached() {
    let mut state = Ma2State::new();
    state.diff_and_update(snapshot());
    assert!(state.get_fader(FaderExecutor::new(1, 7)).is_none());

    let next = Ma2Data::new(
        vec![fader(1, "BARS", 1.0), fader(7, "NEW", 0.5), fader(2, "SSALL", 0.0)],
        vec![button(101, ButtonState::Released)],
    );
    let diff = state.diff_and_update(next);
    assert_eq!(diff, Ma2Data::new(vec![fader(7, "NEW", 0.5)], Vec::new()));
    assert_eq!(
        state.get_fader(FaderExecutor::new(1, 7)),
        Some(&fader(7, "NEW", 0.5))
    );
}

#[test]
fn only_changed_reports_come_back_in_input_order() {
    let mut state = Ma2State::new();
    state.diff_and_update(Ma2Data::new(
        vec![fader(1, "A", 0.0), fader(2, "B", 0.0), fader(3, "C", 0.0)],
        vec![
            button(101, ButtonState::Released),
            button(102, ButtonState::Released),
        ],
    ));
    let diff = state.diff_and_update(Ma2Data::new(
        vec![fader(3, "C", 0.25), fader(2, "B", 0.0), fader(1, "A2", 0.0)],
        vec![
            button(102, ButtonState::Pressed),
            button(101, ButtonState::Released),
        ],
    ));
    assert_eq!(
        diff,
        Ma2Data::new(
            vec![fader(3, "C", 0.25), fader(1, "A2", 0.0)],
            vec![button(102, ButtonState::Pressed)],
        )
    );
    assert_eq!(
        state.get_button(ButtonExecutor::new(1, 102)),
        Some(&button(102, ButtonState::Pressed))
    );
    assert_eq!(
        state.get_fader(FaderExecutor::new(1, 1)),
        Some(&fader(1, "A2", 0.0))
    );
}

#[test]
fn executors_on_different_pages_do_not_share_a_place() {
    let mut state = Ma2State::new();
    let first = FaderData::new(
        FaderExecutor::new(0, 5),
        "zero",
        "#000000",
        0,
        false,
        ButtonState::Released,
        ButtonState::Released,
        ButtonState::Released,
    );
    let second = FaderData::new(
        FaderExecutor::new(1, 5),
        "one",
        "#000000",
        0,
        false,
        ButtonState::Released,
        ButtonState::Released,
        ButtonState::Released,
    );
    let diff = state.diff_and_update(Ma2Data::new(vec![first.clone(), second.clone()], Vec::new()));
    assert_eq!(diff.faders().len(), 2);
    assert_eq!(state.get_fader(FaderExecutor::new(0, 5)), Some(&first));
    assert_eq!(state.get_fader(FaderExecutor::new(1, 5)), Some(&second));
}

#[test]
fn a_snapshot_that_contradicts_itself_is_news_every_time() {
    let mut state = Ma2State::new();
    let twice = Ma2Data::new(vec![fader(1, "A", 0.0), fader(1, "A", 1.0)], Vec::new());
    assert_eq!(state.diff_and_update(twice.clone()), twice);
    assert_eq!(state.diff_and_update(twice.clone()), twice);
    assert_eq!(
        state.get_fader(FaderExecutor::new(1, 1)),
        Some(&fader(1, "A", 1.0))
    );
}

#[test]
fn button_state_follows_the_truth_value() {
    assert_eq!(ButtonState::from(true), ButtonState::Pressed);
    assert_eq!(ButtonState::from(false), ButtonState::Released);
    assert!(bool::from(ButtonState::Released));
    assert!(!bool::from(ButtonState::Pressed));
    let released: bool = ButtonState::Released.into();
    assert!(released);
}

#[test]
fn reports_give_back_what_they_were_made_of() {
    let data = fader(4, "BARS", 0.75);
    assert_eq!(*data.get_executer(), FaderExecutor::new(1, 4));
    assert_eq!(data.name(), "BARS");
    assert_eq!(data.color(), "#00FFFF");
    assert_eq!(f64::from_bits(data.value()), 0.75);
    assert!(!data.touched());
    assert_eq!(
        data.buttons(),
        (ButtonState::Released, ButtonState::Released, ButtonState::Released)
    );
    assert_eq!(data.duplicate(), data);

    let data = button(150, ButtonState::Pressed);
    assert_eq!(*data.get_executer(), ButtonExecutor::new(1, 150));
    assert_eq!(data.name(), "Flash");
    assert_eq!(data.color(), "#FF7F00");
    assert_eq!(data.state(), ButtonState::Pressed);
    assert_eq!(data.duplicate(), data);
    assert_ne!(data, button(150, ButtonState::Released));
}
