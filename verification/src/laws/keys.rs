//! What a key stands for, and who gets it.

use vstd::prelude::*;
use vstd::std_specs::convert::FromSpec;

use crate::act::permitted;
use crate::binds::{
    bind_matches, filtered, first_bind_decides, first_match, key_verdict, pressed_action,
    CompositorMod, FilterResult, ModifiersState,
};
use crate::config::{Action, ActionView, Bind, Modifiers};
use crate::event::{InputEvent, KeyState, KeyboardEvent};
use crate::laws::actions::{carried_out, carrying_out_follows_script};
use crate::laws::{lemma_outcome, outcome};
use crate::script::World;

verus! {

/// The symbols that mean the same whatever the configuration says: those that switch to one of
/// twelve virtual terminals, and that of the power key.
pub open spec fn is_hardcoded(sym: u32) -> bool {
    0x1008_FE01 <= sym <= 0x1008_FE0C || sym == 0x1008_FF2A
}

/// What is held down is what the bind asks for, told field by field.
pub open spec fn meets(
    bind: Bind,
    raw: u32,
    comp_mod: CompositorMod,
    mods: ModifiersState,
) -> bool {
    let wanted = bind.key.modifiers;
    &&& bind.key.keysym == raw
    &&& wanted.ctrl == mods.ctrl
    &&& wanted.shift == mods.shift
    &&& comp_mod is Super ==> wanted.compositor == mods.logo && wanted.alt == mods.alt && (
    wanted.logo ==> mods.logo)
    &&& comp_mod is Alt ==> wanted.compositor == mods.alt && wanted.logo == mods.logo && (
    wanted.alt ==> mods.alt)
}

/// A bind matches exactly the keys that it meets: its symbol is the raw one, and each modifier is
/// held down just as the bind asks for it.
pub proof fn matching_is_meeting(
    bind: Bind,
    raw: u32,
    comp_mod: CompositorMod,
    mods: ModifiersState,
)
    ensures
        meets(bind, raw, comp_mod, mods) == bind_matches(bind, raw, comp_mod, mods),
{
}

/// The first bind that meets the key decides, for every symbol but the hardcoded ones: its first
/// action is the action of the press.
pub proof fn bind_decides_unless_hardcoded(
    binds: Seq<Bind>,
    i: int,
    comp_mod: CompositorMod,
    modified_sym: u32,
    raw_syms: Seq<u32>,
    mods: ModifiersState,
)
    requires
        !is_hardcoded(modified_sym),
        raw_syms.len() > 0,
        0 <= i < binds.len(),
        meets(binds[i], raw_syms[0], comp_mod, mods),
        forall|j: int| 0 <= j < i ==> !meets(#[trigger] binds[j], raw_syms[0], comp_mod, mods),
    ensures
        binds[i].actions@.len() > 0 ==> pressed_action(
            binds,
            comp_mod,
            modified_sym,
            raw_syms,
            mods,
        ) == binds[i].actions@[0]@,
        binds[i].actions@.len() == 0 ==> pressed_action(
            binds,
            comp_mod,
            modified_sym,
            raw_syms,
            mods,
        ) is Nothing,
{
    matching_is_meeting(binds[i], raw_syms[0], comp_mod, mods);
    assert forall|j: int| 0 <= j < i implies !bind_matches(
        #[trigger] binds[j],
        raw_syms[0],
        comp_mod,
        mods,
    ) by {
        matching_is_meeting(binds[j], raw_syms[0], comp_mod, mods);
    }
    first_bind_decides(binds, i, raw_syms[0], comp_mod, mods);
}

/// A press without a raw symbol, or with one that no bind meets, does nothing, for every symbol
/// but the hardcoded ones.
pub proof fn nothing_unless_bound_or_hardcoded(
    binds: Seq<Bind>,
    comp_mod: CompositorMod,
    modified_sym: u32,
    raw_syms: Seq<u32>,
    mods: ModifiersState,
)
    requires
        !is_hardcoded(modified_sym),
        raw_syms.len() == 0 || forall|j: int|
            0 <= j < binds.len() ==> !meets(#[trigger] binds[j], raw_syms[0], comp_mod, mods),
    ensures
        pressed_action(binds, comp_mod, modified_sym, raw_syms, mods) is Nothing,
{
    if raw_syms.len() > 0 {
        let raw = raw_syms[0];
        if exists|i: int| first_match(binds, i, raw, comp_mod, mods) {
            let i = choose|i: int| first_match(binds, i, raw, comp_mod, mods);
            matching_is_meeting(binds[i], raw, comp_mod, mods);
            assert(!meets(binds[i], raw, comp_mod, mods));
        }
    }
}

/// Which symbol the modifiers make of a key does not matter, unless it is a hardcoded one; and of
/// the raw symbols only the first one matters.
pub proof fn only_first_raw_symbol_matters(
    binds: Seq<Bind>,
    comp_mod: CompositorMod,
    sym1: u32,
    sym2: u32,
    raw1: Seq<u32>,
    raw2: Seq<u32>,
    mods: ModifiersState,
)
    requires
        !is_hardcoded(sym1),
        !is_hardcoded(sym2),
        raw1.len() > 0,
        raw2.len() > 0,
        raw1[0] == raw2[0],
    ensures
        pressed_action(binds, comp_mod, sym1, raw1, mods) == pressed_action(
            binds,
            comp_mod,
            sym2,
            raw2,
            mods,
        ),
{
}

/// A hardcoded symbol switches to the virtual terminal of its number, counted from one, or
/// suspends. Nothing else has a say.
pub proof fn hardcoded_symbols(
    binds: Seq<Bind>,
    comp_mod: CompositorMod,
    modified_sym: u32,
    raw_syms: Seq<u32>,
    mods: ModifiersState,
)
    requires
        is_hardcoded(modified_sym),
    ensures
        modified_sym == 0x1008_FF2A ==> pressed_action(
            binds,
            comp_mod,
            modified_sym,
            raw_syms,
            mods,
        ) == ActionView::Suspend,
        modified_sym != 0x1008_FF2A ==> match pressed_action(
            binds,
            comp_mod,
            modified_sym,
            raw_syms,
            mods,
        ) {
            ActionView::ChangeVt(vt) => vt == modified_sym - 0x1008_FE00 && 1 <= vt <= 12,
            _ => false,
        },
{
}

/// A key event is kept exactly when it is a press that has an action, and then for that action.
pub proof fn kept_exactly_for_its_action(
    binds: Seq<Bind>,
    comp_mod: CompositorMod,
    state: KeyState,
    modified_sym: u32,
    raw_syms: Seq<u32>,
    mods: ModifiersState,
)
    ensures
        ({
            let verdict = key_verdict(binds, comp_mod, state, modified_sym, raw_syms, mods);
            let action = pressed_action(binds, comp_mod, modified_sym, raw_syms, mods);
            &&& verdict is Intercept <==> state == KeyState::Pressed && action
                != ActionView::Nothing
            &&& verdict matches FilterResult::Intercept(kept_for) ==> kept_for == action
        }),
{
}

/// An action becomes an event that is kept for that very action; only doing nothing forwards it.
pub proof fn conversion_keeps_the_action(value: Action)
    ensures
        value is Nothing <==> <FilterResult<Action> as FromSpec<Action>>::from_spec(
            value,
        ) is Forward,
        !(value is Nothing) ==> <FilterResult<Action> as FromSpec<Action>>::from_spec(value)
            == FilterResult::Intercept(value),
        <FilterResult<Action> as FromSpec<Action>>::from_spec(value)@ == filtered(value@),
{
}

/// A key that is kept for an action has the effects of that action, unless the session is locked
/// and the action is none of the four that a locked session carries out. Then it has none, just
/// as a key that is not kept.
pub proof fn kept_key_has_effects_of_its_action(
    key: KeyboardEvent,
    world: World,
    action: ActionView,
)
    ensures
        ({
            let intercepted = (world.intercepted)(key, world.mod_key, world.serial);
            let effects = outcome(InputEvent::Keyboard(key), world);
            let allowed = match action {
                ActionView::Quit | ActionView::ChangeVt(_) | ActionView::Suspend
                | ActionView::PowerOffMonitors => true,
                _ => !world.locked,
            };
            &&& intercepted == Some(action) && allowed ==> effects == carried_out(action, world)
            &&& intercepted == Some(action) && !allowed ==> effects.len() == 0
            &&& intercepted is None ==> effects.len() == 0
        }),
{
    lemma_outcome(InputEvent::Keyboard(key), world);
    carrying_out_follows_script(world);
}

/// What is left of an action: all of it, or nothing of one that a locked session does not carry
/// out.
pub proof fn lock_takes_all_but_four(action: ActionView)
    ensures
        permitted(Some(action), false) == Some(action),
        permitted(None, false) is None,
        permitted(None, true) is None,
        permitted(Some(action), true) == match action {
            ActionView::Quit | ActionView::ChangeVt(_) | ActionView::Suspend
            | ActionView::PowerOffMonitors => Some(action),
            _ => None,
        },
{
}

/// The union of two sets of modifiers has each modifier that either of them has, and no other.
pub proof fn union_of_modifiers(a: Modifiers, b: Modifiers)
    ensures
        a.or(b) == b.or(a),
        a.or(a) == a,
        a.or(Modifiers::none()) == a,
        a.or(b).ctrl <==> a.ctrl || b.ctrl,
        a.or(b).shift <==> a.shift || b.shift,
        a.or(b).alt <==> a.alt || b.alt,
        a.or(b).logo <==> a.logo || b.logo,
        a.or(b).compositor <==> a.compositor || b.compositor,
{
}

} // verus!
