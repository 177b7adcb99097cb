//! From a key press to the action that is bound to it.

use vstd::prelude::*;
use vstd::std_specs::convert::FromSpecImpl;

use crate::config::{Action, ActionView, Bind, Config, Modifiers};
use crate::event::KeyState;
use crate::keysyms::{key_first_switch_vt, key_last_switch_vt, key_power_off};

verus! {

/// The modifier that the compositor's own binds are built on.
#[derive(Clone, Copy, PartialEq, Eq, Debug)]
pub enum CompositorMod {
    Super,
    Alt,
}

/// The modifiers that are held down on a keyboard.
#[derive(Clone, Copy, PartialEq, Eq, Debug)]
pub struct ModifiersState {
    pub ctrl: bool,
    pub alt: bool,
    pub shift: bool,
    pub logo: bool,
}

/// The symbols of a key that was pressed or released.
#[derive(PartialEq, Eq, Debug)]
pub struct KeysymHandle {
    /// The symbol that the key gives with the modifiers and the layout in force.
    pub modified_sym: u32,
    /// The symbols that it gives without any modifier.
    pub raw_syms: Vec<u32>,
}

/// What becomes of a key event: the focused client gets it, or the compositor keeps it.
#[derive(PartialEq, Eq, Debug)]
pub enum FilterResult<T> {
    Forward,
    Intercept(T),
}

impl From<Action> for FilterResult<Action> {
    fn from(value: Action) -> (res: Self) {
        match value {
            Action::Nothing => FilterResult::Forward,
            action => FilterResult::Intercept(action),
        }
    }
}

impl FromSpecImpl<Action> for FilterResult<Action> {
    open spec fn obeys_from_spec() -> bool {
        true
    }

    open spec fn from_spec(value: Action) -> FilterResult<Action> {
        if value is Nothing {
            FilterResult::Forward
        } else {
            FilterResult::Intercept(value)
        }
    }
}

impl View for FilterResult<Action> {
    type V = FilterResult<ActionView>;

    open spec fn view(&self) -> FilterResult<ActionView> {
        match *self {
            FilterResult::Forward => FilterResult::Forward,
            FilterResult::Intercept(action) => FilterResult::Intercept(action@),
        }
    }
}

/// Whether the compositor's modifier is held down.
pub open spec fn compositor_mod_held(comp_mod: CompositorMod, mods: ModifiersState) -> bool {
    match comp_mod {
        CompositorMod::Super => mods.logo,
        CompositorMod::Alt => mods.alt,
    }
}

/// The modifiers that are held down, the compositor's one counted under both of its names.
pub open spec fn held_modifiers(comp_mod: CompositorMod, mods: ModifiersState) -> Modifiers {
    Modifiers {
        ctrl: mods.ctrl,
        shift: mods.shift,
        alt: mods.alt,
        logo: mods.logo,
        compositor: compositor_mod_held(comp_mod, mods),
    }
}

/// The keyboard's own name for the compositor's modifier, while it is held down.
pub open spec fn implied_modifiers(comp_mod: CompositorMod, mods: ModifiersState) -> Modifiers {
    let held = compositor_mod_held(comp_mod, mods);
    Modifiers {
        ctrl: false,
        shift: false,
        alt: held && comp_mod is Alt,
        logo: held && comp_mod is Super,
        compositor: false,
    }
}

/// A bind is for the key `raw` with exactly the modifiers that are held down.
///
/// While the compositor's modifier is held down, a bind need not give its other name as well.
pub open spec fn bind_matches(
    bind: Bind,
    raw: u32,
    comp_mod: CompositorMod,
    mods: ModifiersState,
) -> bool {
    &&& bind.key.keysym == raw
    &&& bind.key.modifiers.or(implied_modifiers(comp_mod, mods)) == held_modifiers(comp_mod, mods)
}

/// The bind at `i` matches and none before it does.
pub open spec fn first_match(
    binds: Seq<Bind>,
    i: int,
    raw: u32,
    comp_mod: CompositorMod,
    mods: ModifiersState,
) -> bool {
    &&& 0 <= i < binds.len()
    &&& bind_matches(binds[i], raw, comp_mod, mods)
    &&& forall|j: int| 0 <= j < i ==> !bind_matches(#[trigger] binds[j], raw, comp_mod, mods)
}

/// The action of a bind: its first one, if it has any.
pub open spec fn bind_action(bind: Bind) -> ActionView {
    if bind.actions@.len() > 0 {
        bind.actions@[0]@
    } else {
        ActionView::Nothing
    }
}

/// The action that the configured binds give to the key `raw`.
pub open spec fn configured_action(
    binds: Seq<Bind>,
    raw: u32,
    comp_mod: CompositorMod,
    mods: ModifiersState,
) -> ActionView {
    if exists|i: int| first_match(binds, i, raw, comp_mod, mods) {
        bind_action(binds[choose|i: int| first_match(binds, i, raw, comp_mod, mods)])
    } else {
        ActionView::Nothing
    }
}

/// The action that a symbol has whatever the configuration says.
pub open spec fn hardcoded_action(modified_sym: u32) -> Option<ActionView> {
    if crate::keysyms::first_switch_vt() <= modified_sym <= crate::keysyms::last_switch_vt() {
        Some(ActionView::ChangeVt((modified_sym - crate::keysyms::first_switch_vt() + 1) as i32))
    } else if modified_sym == crate::keysyms::power_off() {
        Some(ActionView::Suspend)
    } else {
        None
    }
}

/// The action of a key press: a hardcoded one, or else that of the first bind that matches the
/// first of the key's raw symbols.
pub open spec fn pressed_action(
    binds: Seq<Bind>,
    comp_mod: CompositorMod,
    modified_sym: u32,
    raw_syms: Seq<u32>,
    mods: ModifiersState,
) -> ActionView {
    match hardcoded_action(modified_sym) {
        Some(action) => action,
        None => if raw_syms.len() > 0 {
            configured_action(binds, raw_syms[0], comp_mod, mods)
        } else {
            ActionView::Nothing
        },
    }
}

/// The action of a key press.
pub fn action(
    config: &Config,
    comp_mod: CompositorMod,
    keysym: &KeysymHandle,
    mods: ModifiersState,
) -> (res: Action)
    ensures
        res@ == pressed_action(
            config.binds.0@,
            comp_mod,
            keysym.modified_sym,
            keysym.raw_syms@,
            mods,
        ),
{
    // Handle hardcoded binds.
    let modified: u32 = keysym.modified_sym;
    let first_vt: u32 = key_first_switch_vt();
    if first_vt <= modified && modified <= key_last_switch_vt() {
        return Action::ChangeVt((modified - first_vt + 1) as i32);
    }
    if modified == key_power_off() {
        return Action::Suspend;
    }

    // Handle configured binds.
    let mut modifiers = Modifiers {
        ctrl: mods.ctrl,
        shift: mods.shift,
        alt: mods.alt,
        logo: mods.logo,
        compositor: false,
    };
    let mut implied = Modifiers::empty();
    match comp_mod {
        CompositorMod::Super => if mods.logo {
            modifiers.compositor = true;
            implied.logo = true;
        },
        CompositorMod::Alt => if mods.alt {
            modifiers.compositor = true;
            implied.alt = true;
        },
    }
    assert(modifiers == held_modifiers(comp_mod, mods));
    assert(implied == implied_modifiers(comp_mod, mods));

    if keysym.raw_syms.len() == 0 {
        return Action::Nothing;
    }
    let raw: u32 = keysym.raw_syms[0];
    let binds = &config.binds.0;
    for i in 0..binds.len()
        invariant
            binds == config.binds.0,
            modifiers == held_modifiers(comp_mod, mods),
            implied == implied_modifiers(comp_mod, mods),
            keysym.raw_syms@.len() > 0,
            raw == keysym.raw_syms@[0],
            hardcoded_action(keysym.modified_sym) is None,
            forall|j: int| 0 <= j < i ==> !bind_matches(#[trigger] binds@[j], raw, comp_mod, mods),
    {
        let bind = &binds[i];
        if bind.key.keysym == raw && bind.key.modifiers.union(implied) == modifiers {
            proof {
                first_bind_decides(binds@, i as int, raw, comp_mod, mods);
            }
            if bind.actions.len() > 0 {
                return bind.actions[0].clone();
            } else {
                return Action::Nothing;
            }
        }
    }
    Action::Nothing
}

/// The first bind that matches decides: its action is that of the key.
pub proof fn first_bind_decides(
    binds: Seq<Bind>,
    i: int,
    raw: u32,
    comp_mod: CompositorMod,
    mods: ModifiersState,
)
    requires
        first_match(binds, i, raw, comp_mod, mods),
    ensures
        configured_action(binds, raw, comp_mod, mods) == bind_action(binds[i]),
{
    let k = choose|k: int| first_match(binds, k, raw, comp_mod, mods);
    assert(first_match(binds, k, raw, comp_mod, mods));
    if k < i {
        assert(!bind_matches(binds[k], raw, comp_mod, mods));
    } else if i < k {
        assert(!bind_matches(binds[i], raw, comp_mod, mods));
    }
}

/// What becomes of a key event with the given action.
pub open spec fn filtered(action: ActionView) -> FilterResult<ActionView> {
    if action is Nothing {
        FilterResult::Forward
    } else {
        FilterResult::Intercept(action)
    }
}

/// What becomes of a key event: a press with an action is kept, all else goes to the client.
pub open spec fn key_verdict(
    binds: Seq<Bind>,
    comp_mod: CompositorMod,
    state: KeyState,
    modified_sym: u32,
    raw_syms: Seq<u32>,
    mods: ModifiersState,
) -> FilterResult<ActionView> {
    if state is Pressed {
        filtered(pressed_action(binds, comp_mod, modified_sym, raw_syms, mods))
    } else {
        FilterResult::Forward
    }
}

/// Decides whether a key event goes to the focused client or is kept for an action.
pub fn filter_key(
    config: &Config,
    comp_mod: CompositorMod,
    state: KeyState,
    keysym: &KeysymHandle,
    mods: ModifiersState,
) -> (res: FilterResult<Action>)
    ensures
        res@ == key_verdict(
            config.binds.0@,
            comp_mod,
            state,
            keysym.modified_sym,
            keysym.raw_syms@,
            mods,
        ),
{
    match state {
        KeyState::Pressed => FilterResult::from(action(config, comp_mod, keysym, mods)),
        KeyState::Released => FilterResult::Forward,
    }
}

} // verus!
