use grisui::sim_states::{SimState, SimStates};

#[test]
fn sim_states_from_value_copies_three_times() {
    let s = SimStates::from_value(4i32);
    assert_eq!(s, SimStates { previous: 4, render: 4, current: 4 });
    let t: SimStates<u8> = SimStates::from(2u8);
    assert_eq!(t, SimStates { previous: 2, render: 2, current: 2 });
}

#[test]
fn sim_states_for_states_visits_all() {
    let mut s = SimStates { previous: 1i32, render: 2, current: 3 };
    s.for_states(|x: &mut i32| *x *= 10);
    assert_eq!(s, SimStates { previous: 10, render: 20, current: 30 });
}

#[test]
fn sim_states_map_states_applies_to_each() {
    let s = SimStates { previous: 1u32, render: 2, current: 3 };
    let m = s.map_states(|x| x + 100);
    assert_eq!(m, SimStates { previous: 101, render: 102, current: 103 });
}

#[test]
fn sim_states_index_names_each_state() {
    let s = SimStates { previous: 'p', render: 'r', current: 'c' };
    assert_eq!(*s.index(SimState::Previous), 'p');
    assert_eq!(*s.index(SimState::Render), 'r');
    assert_eq!(*s.index(SimState::Current), 'c');
}

#[test]
fn sim_state_positions() {
    assert_eq!(SimState::Previous.to_u8(), 0);
    assert_eq!(SimState::Render.to_u8(), 1);
    assert_eq!(SimState::Current.to_u8(), 2);
}
