use niri_input::act::filter_locked;
use niri_input::binds::{action, filter_key, FilterResult, KeysymHandle, ModifiersState};
use niri_input::config::{
    Action, Bind, Binds, Config, Input, Key, Modifiers, Real, SizeChange, Touchpad,
};
use niri_input::event::KeyState;
use niri_input::CompositorMod;

const NO_MODS: ModifiersState =
    ModifiersState { ctrl: false, alt: false, shift: false, logo: false };

fn config(binds: Vec<Bind>) -> Config {
    Config {
        input: Input {
            touchpad: Touchpad {
                tap: true,
                natural_scroll: false,
                accel_speed: Real { bits: 0.2f64.to_bits() },
            },
        },
        binds: Binds(binds),
    }
}

fn bind(keysym: u32, modifiers: Modifiers, actions: Vec<Action>) -> Bind {
    Bind { key: Key { keysym, modifiers }, actions }
}

fn compositor() -> Modifiers {
    let mut res = Modifiers::empty();
    res.compositor = true;
    res
}

fn key(modified_sym: u32, raw_sym: u32) -> KeysymHandle {
    KeysymHandle { modified_sym, raw_syms: vec![raw_sym] }
}

fn logo() -> ModifiersState {
    ModifiersState { logo: true, ..NO_MODS }
}

fn alt() -> ModifiersState {
    ModifiersState { alt: true, ..NO_MODS }
}

#[test]
fn vt_keys_change_vt() {
    let config = config(vec![]);
    for n in 0..12u32 {
        let sym = 0x1008_FE01 + n;
        assert_eq!(xkeysym::key::XF86_Switch_VT_1 + n, sym);
        let res = action(&config, CompositorMod::Super, &key(sym, 0xffbe + n), NO_MODS);
        assert_eq!(res, Action::ChangeVt(n as i32 + 1));
    }
}

#[test]
fn neighbours_of_vt_keys_do_nothing() {
    let config = config(vec![]);
    for sym in [0x1008_FE00, 0x1008_FE0D, 0, u32::MAX] {
        let res = action(&config, CompositorMod::Super, &key(sym, sym), NO_MODS);
        assert_eq!(res, Action::Nothing);
    }
}

#[test]
fn power_key_suspends_even_when_bound() {
    let sym = 0x1008_FF2A;
    let config = config(vec![bind(sym, Modifiers::empty(), vec![Action::Quit])]);
    assert_eq!(action(&config, CompositorMod::Alt, &key(sym, sym), NO_MODS), Action::Suspend);
    // Only the modified symbol is hardcoded.
    assert_eq!(action(&config, CompositorMod::Alt, &key(1, sym), NO_MODS), Action::Quit);
}

#[test]
fn vt_key_works_without_raw_symbols() {
    let keysym = KeysymHandle { modified_sym: 0x1008_FE0C, raw_syms: vec![] };
    let res = action(&config(vec![]), CompositorMod::Super, &keysym, NO_MODS);
    assert_eq!(res, Action::ChangeVt(12));
}

#[test]
fn no_raw_symbol_no_action() {
    let config = config(vec![bind(0x71, Modifiers::empty(), vec![Action::Quit])]);
    let keysym = KeysymHandle { modified_sym: 0x71, raw_syms: vec![] };
    assert_eq!(action(&config, CompositorMod::Super, &keysym, NO_MODS), Action::Nothing);
}

#[test]
fn only_first_raw_symbol_counts() {
    let config = config(vec![bind(0x71, Modifiers::empty(), vec![Action::Quit])]);
    let keysym = KeysymHandle { modified_sym: 0x71, raw_syms: vec![0x72, 0x71] };
    assert_eq!(action(&config, CompositorMod::Super, &keysym, NO_MODS), Action::Nothing);
    let keysym = KeysymHandle { modified_sym: 0x71, raw_syms: vec![0x71, 0x72] };
    assert_eq!(action(&config, CompositorMod::Super, &keysym, NO_MODS), Action::Quit);
}

#[test]
fn compositor_modifier_is_super_or_alt() {
    let config = config(vec![bind(0x71, compositor(), vec![Action::Quit])]);
    let key = key(0x71, 0x71);
    assert_eq!(action(&config, CompositorMod::Super, &key, logo()), Action::Quit);
    assert_eq!(action(&config, CompositorMod::Super, &key, alt()), Action::Nothing);
    assert_eq!(action(&config, CompositorMod::Alt, &key, alt()), Action::Quit);
    assert_eq!(action(&config, CompositorMod::Alt, &key, logo()), Action::Nothing);
    assert_eq!(action(&config, CompositorMod::Alt, &key, NO_MODS), Action::Nothing);
}

#[test]
fn other_name_of_compositor_modifier_makes_no_difference() {
    let mut both = compositor();
    both.logo = true;
    let config = config(vec![bind(0x71, both, vec![Action::Quit])]);
    let key = key(0x71, 0x71);
    assert_eq!(action(&config, CompositorMod::Super, &key, logo()), Action::Quit);
    assert_eq!(action(&config, CompositorMod::Super, &key, NO_MODS), Action::Nothing);
}

#[test]
fn other_name_alone_is_not_enough() {
    let mut named = Modifiers::empty();
    named.logo = true;
    let config = config(vec![bind(0x71, named, vec![Action::Quit])]);
    let key = key(0x71, 0x71);
    assert_eq!(action(&config, CompositorMod::Super, &key, logo()), Action::Nothing);
    assert_eq!(action(&config, CompositorMod::Alt, &key, logo()), Action::Quit);
}

#[test]
fn modifiers_are_matched_exactly() {
    let mut modifiers = compositor();
    modifiers.shift = true;
    let config = config(vec![bind(0x71, modifiers, vec![Action::Quit])]);
    let key = key(0x51, 0x71);
    let held = ModifiersState { shift: true, logo: true, ..NO_MODS };
    assert_eq!(action(&config, CompositorMod::Super, &key, held), Action::Quit);
    assert_eq!(action(&config, CompositorMod::Super, &key, logo()), Action::Nothing);
    let more = ModifiersState { ctrl: true, ..held };
    assert_eq!(action(&config, CompositorMod::Super, &key, more), Action::Nothing);
}

#[test]
fn first_matching_bind_wins() {
    let config = config(vec![
        bind(0x72, compositor(), vec![Action::CloseWindow]),
        bind(0x71, Modifiers::empty(), vec![Action::Screenshot]),
        bind(0x71, compositor(), vec![Action::Quit]),
        bind(0x71, compositor(), vec![Action::Suspend]),
    ]);
    assert_eq!(action(&config, CompositorMod::Super, &key(0x71, 0x71), logo()), Action::Quit);
}

#[test]
fn first_action_of_bind_counts() {
    let config = config(vec![
        bind(0x71, compositor(), vec![Action::FocusWorkspace(3), Action::Quit]),
        bind(0x72, compositor(), vec![]),
        bind(0x72, compositor(), vec![Action::Quit]),
    ]);
    let res = action(&config, CompositorMod::Super, &key(0x71, 0x71), logo());
    assert_eq!(res, Action::FocusWorkspace(3));
    let res = action(&config, CompositorMod::Super, &key(0x72, 0x72), logo());
    assert_eq!(res, Action::Nothing);
}

#[test]
fn command_line_is_copied() {
    let words = vec!["alacritty".to_string(), "-e".to_string(), "top".to_string()];
    let config = config(vec![bind(0x74, compositor(), vec![Action::Spawn(words.clone())])]);
    let res = action(&config, CompositorMod::Super, &key(0x74, 0x74), logo());
    assert_eq!(res, Action::Spawn(words));
}

#[test]
fn filter_result_from_action() {
    assert_eq!(FilterResult::from(Action::Nothing), FilterResult::Forward);
    let change = SizeChange::AdjustProportion(Real { bits: 0.1f64.to_bits() });
    assert_eq!(
        FilterResult::from(Action::SetColumnWidth(change)),
        FilterResult::Intercept(Action::SetColumnWidth(change)),
    );
}

#[test]
fn pressed_keys_with_action_are_kept() {
    let config = config(vec![bind(0x71, compositor(), vec![Action::Quit])]);
    let bound = key(0x71, 0x71);
    let filter = |state, keysym: &KeysymHandle| {
        filter_key(&config, CompositorMod::Super, state, keysym, logo())
    };
    assert_eq!(filter(KeyState::Pressed, &bound), FilterResult::Intercept(Action::Quit));
    assert_eq!(filter(KeyState::Released, &bound), FilterResult::Forward);
    assert_eq!(filter(KeyState::Pressed, &key(0x72, 0x72)), FilterResult::Forward);
}

#[test]
fn locked_session_filters_actions() {
    assert_eq!(filter_locked(Some(Action::Quit), true), Some(Action::Quit));
    assert_eq!(filter_locked(Some(Action::ChangeVt(3)), true), Some(Action::ChangeVt(3)));
    assert_eq!(filter_locked(Some(Action::Suspend), true), Some(Action::Suspend));
    assert_eq!(
        filter_locked(Some(Action::PowerOffMonitors), true),
        Some(Action::PowerOffMonitors),
    );
    assert_eq!(filter_locked(Some(Action::Spawn(vec!["x".to_string()])), true), None);
    assert_eq!(filter_locked(Some(Action::ToggleDebugTint), true), None);
    assert_eq!(filter_locked(Some(Action::CloseWindow), true), None);
    assert_eq!(filter_locked(Some(Action::CloseWindow), false), Some(Action::CloseWindow));
    assert_eq!(filter_locked(None, true), None);
    assert_eq!(filter_locked(None, false), None);
}
