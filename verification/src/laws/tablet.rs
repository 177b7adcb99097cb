//! What tablets and their tools report.

use vstd::prelude::*;

use crate::config::Real;
use crate::effect::{
    EffectView, LayoutOp, OutputId, PointerOp, ScreenOp, SurfaceId, TabletId, TabletOp, ToolId,
    WindowId,
};
use crate::event::{
    InputEvent, ProximityState, ToolAxisEvent, ToolButtonEvent, ToolProximityEvent, ToolTipEvent,
    Vector,
};
use crate::geometry::Location;
use crate::laws::{lemma_outcome, outcome};
use crate::script::World;
use crate::tablet::readings;

verus! {

/// The place of a report among those of one motion of a tool.
pub open spec fn turn(effect: EffectView) -> int {
    match effect {
        EffectView::Tablet(TabletOp::Pressure { .. }) => 1,
        EffectView::Tablet(TabletOp::Distance { .. }) => 2,
        EffectView::Tablet(TabletOp::Tilt { .. }) => 3,
        EffectView::Tablet(TabletOp::SliderPosition { .. }) => 4,
        EffectView::Tablet(TabletOp::Rotation { .. }) => 5,
        EffectView::Tablet(TabletOp::Wheel { .. }) => 6,
        _ => 0,
    }
}

/// One if it is so, else zero.
pub open spec fn once(condition: bool) -> int {
    if condition {
        1
    } else {
        0
    }
}

/// How many of the readings are new.
pub open spec fn new_readings(axis: ToolAxisEvent) -> int {
    once(axis.pressure.changed) + once(axis.distance.changed) + once(axis.tilt.changed) + once(
        axis.slider.changed,
    ) + once(axis.rotation.changed) + once(axis.wheel.changed)
}

/// The report is one of a reading that is new.
pub open spec fn reports(axis: ToolAxisEvent, tool: ToolId, effect: EffectView) -> bool {
    match effect {
        EffectView::Tablet(TabletOp::Pressure { tool: t, value }) => axis.pressure.changed && t
            == tool && value == axis.pressure.value,
        EffectView::Tablet(TabletOp::Distance { tool: t, value }) => axis.distance.changed && t
            == tool && value == axis.distance.value,
        EffectView::Tablet(TabletOp::Tilt { tool: t, value }) => axis.tilt.changed && t == tool
            && value == axis.tilt.value,
        EffectView::Tablet(TabletOp::SliderPosition { tool: t, value }) => axis.slider.changed && t
            == tool && value == axis.slider.value,
        EffectView::Tablet(TabletOp::Rotation { tool: t, value }) => axis.rotation.changed && t
            == tool && value == axis.rotation.value,
        EffectView::Tablet(TabletOp::Wheel { tool: t, delta, delta_discrete }) =>
            axis.wheel.changed && t == tool && delta == axis.wheel.delta && delta_discrete
                == axis.wheel.delta_discrete,
        _ => false,
    }
}

pub(crate) proof fn lemma_readings(axis: ToolAxisEvent, tool: ToolId)
    ensures
        readings(axis, tool).len() == new_readings(axis),
        forall|i: int|
            0 <= i < readings(axis, tool).len() ==> reports(
                axis,
                tool,
                #[trigger] readings(axis, tool)[i],
            ),
        forall|i: int, j: int|
            0 <= i < j < readings(axis, tool).len() ==> turn(#[trigger] readings(axis, tool)[i])
                < turn(#[trigger] readings(axis, tool)[j]),
{
}

proof fn lemma_reported(axis: ToolAxisEvent, tool: ToolId, effect: EffectView) -> (at: int)
    requires
        reports(axis, tool, effect),
    ensures
        0 <= at < readings(axis, tool).len(),
        readings(axis, tool)[at] == effect,
{
    let pressure = once(axis.pressure.changed);
    let distance = pressure + once(axis.distance.changed);
    let tilt = distance + once(axis.tilt.changed);
    let slider = tilt + once(axis.slider.changed);
    let rotation = slider + once(axis.rotation.changed);
    match effect {
        EffectView::Tablet(TabletOp::Pressure { .. }) => 0,
        EffectView::Tablet(TabletOp::Distance { .. }) => pressure,
        EffectView::Tablet(TabletOp::Tilt { .. }) => distance,
        EffectView::Tablet(TabletOp::SliderPosition { .. }) => tilt,
        EffectView::Tablet(TabletOp::Rotation { .. }) => slider,
        _ => rotation,
    }
}

/// A tool that is moved reports a reading if and only if that reading is new, whatever the other
/// ones are: the report of a given reading with a given value is among the effects exactly if the
/// event marks that reading as changed and gives it that value.
#[verifier::spinoff_prover]
#[verifier::rlimit(40)]
pub proof fn each_reading_is_reported_if_new(
    axis: ToolAxisEvent,
    world: World,
    output: OutputId,
    tablet: TabletId,
    tool: ToolId,
    value: Real,
    tilt: Vector,
    steps: i32,
)
    requires
        world.output_for_tablet == Some(output),
        world.tablet == Some(tablet),
        world.tool == Some(tool),
    ensures
        ({
            let effects = outcome(InputEvent::TabletToolAxis(axis), world);
            &&& effects.contains(EffectView::Tablet(TabletOp::Pressure { tool, value }))
                <==> axis.pressure.changed && axis.pressure.value == value
            &&& effects.contains(EffectView::Tablet(TabletOp::Distance { tool, value }))
                <==> axis.distance.changed && axis.distance.value == value
            &&& effects.contains(EffectView::Tablet(TabletOp::Tilt { tool, value: tilt }))
                <==> axis.tilt.changed && axis.tilt.value == tilt
            &&& effects.contains(EffectView::Tablet(TabletOp::SliderPosition { tool, value }))
                <==> axis.slider.changed && axis.slider.value == value
            &&& effects.contains(EffectView::Tablet(TabletOp::Rotation { tool, value }))
                <==> axis.rotation.changed && axis.rotation.value == value
            &&& effects.contains(
                EffectView::Tablet(TabletOp::Wheel { tool, delta: value, delta_discrete: steps }),
            ) <==> axis.wheel.changed && axis.wheel.delta == value && axis.wheel.delta_discrete
                == steps
        }),
{
    lemma_has_report(
        axis,
        world,
        output,
        tablet,
        tool,
        EffectView::Tablet(TabletOp::Pressure { tool, value }),
    );
    lemma_has_report(
        axis,
        world,
        output,
        tablet,
        tool,
        EffectView::Tablet(TabletOp::Distance { tool, value }),
    );
    lemma_has_report(
        axis,
        world,
        output,
        tablet,
        tool,
        EffectView::Tablet(TabletOp::Tilt { tool, value: tilt }),
    );
    lemma_has_report(
        axis,
        world,
        output,
        tablet,
        tool,
        EffectView::Tablet(TabletOp::SliderPosition { tool, value }),
    );
    lemma_has_report(
        axis,
        world,
        output,
        tablet,
        tool,
        EffectView::Tablet(TabletOp::Rotation { tool, value }),
    );
    lemma_has_report(
        axis,
        world,
        output,
        tablet,
        tool,
        EffectView::Tablet(TabletOp::Wheel { tool, delta: value, delta_discrete: steps }),
    );
}

#[verifier::spinoff_prover]
#[verifier::rlimit(40)]
proof fn lemma_has_report(
    axis: ToolAxisEvent,
    world: World,
    output: OutputId,
    tablet: TabletId,
    tool: ToolId,
    report: EffectView,
)
    requires
        world.output_for_tablet == Some(output),
        world.tablet == Some(tablet),
        world.tool == Some(tool),
        turn(report) > 0,
    ensures
        outcome(InputEvent::TabletToolAxis(axis), world).contains(report) <==> reports(
            axis,
            tool,
            report,
        ),
{
    let effects = outcome(InputEvent::TabletToolAxis(axis), world);
    lemma_outcome(InputEvent::TabletToolAxis(axis), world);
    lemma_readings(axis, tool);
    assert forall|i: int| 0 <= i < readings(axis, tool).len() implies #[trigger] effects[3 + i]
        == readings(axis, tool)[i] by {}
    if reports(axis, tool, report) {
        let at = lemma_reported(axis, tool, report);
        assert(effects[3 + at] == report);
    }
    if effects.contains(report) {
        let i = choose|i: int| 0 <= i < effects.len() && effects[i] == report;
        assert(3 <= i < effects.len() - 2);
        assert(effects[3 + (i - 3)] == readings(axis, tool)[i - 3]);
    }
}

/// A known tool on a known tablet that is moved does this and no more: it takes the pointer along,
/// reports each new reading once and in their order, moves over what is there, and everything is
/// drawn anew.
#[verifier::spinoff_prover]
#[verifier::rlimit(40)]
pub proof fn moved_tool_reports_and_moves(
    axis: ToolAxisEvent,
    world: World,
    output: OutputId,
    tablet: TabletId,
    tool: ToolId,
)
    requires
        world.output_for_tablet == Some(output),
        world.tablet == Some(tablet),
        world.tool == Some(tool),
    ensures
        ({
            let effects = outcome(InputEvent::TabletToolAxis(axis), world);
            let location = Location::EventOn((world.geometry)(output));
            let under = (world.surface_under)(location);
            let time_msec = axis.time_msec;
            let end = 3 + new_readings(axis);
            &&& effects.len() == end + 2
            &&& effects[0] == EffectView::Pointer(PointerOp::SetFocus(under))
            &&& effects[1] == EffectView::Pointer(
                PointerOp::Motion { under, location, serial: world.serial, time_msec },
            )
            &&& effects[2] == EffectView::Pointer(PointerOp::Frame)
            &&& forall|i: int|
                3 <= i < end ==> reports(axis, tool, #[trigger] effects[i])
            &&& forall|i: int, j: int|
                3 <= i < j < end ==> turn(#[trigger] effects[i]) < turn(#[trigger] effects[j])
            &&& effects[end] == EffectView::Tablet(
                TabletOp::Motion {
                    tool,
                    tablet,
                    under,
                    location,
                    serial: world.tool_serial,
                    time_msec,
                },
            )
            &&& effects[end + 1] == EffectView::Screen(ScreenOp::QueueRedrawAll)
        }),
{
    let effects = outcome(InputEvent::TabletToolAxis(axis), world);
    let end = 3 + new_readings(axis);
    lemma_outcome(InputEvent::TabletToolAxis(axis), world);
    lemma_readings(axis, tool);
    assert forall|i: int| 3 <= i < end implies #[trigger] effects[i] == readings(axis, tool)[i
        - 3] by {}
}

/// A tool that is not known, or on a tablet that is not, only takes the pointer along. Without an
/// output for the tablet, nothing happens.
pub proof fn unknown_tool_moves_pointer_only(axis: ToolAxisEvent, world: World, output: OutputId)
    ensures
        world.output_for_tablet is None ==> outcome(
            InputEvent::TabletToolAxis(axis),
            world,
        ).len() == 0,
        world.output_for_tablet == Some(output) && (world.tablet is None || world.tool is None)
            ==> outcome(InputEvent::TabletToolAxis(axis), world) == ({
            let location = Location::EventOn((world.geometry)(output));
            let under = (world.surface_under)(location);
            seq![
                EffectView::Pointer(PointerOp::SetFocus(under)),
                EffectView::Pointer(
                    PointerOp::Motion {
                        under,
                        location,
                        serial: world.serial,
                        time_msec: axis.time_msec,
                    },
                ),
                EffectView::Pointer(PointerOp::Frame),
                EffectView::Screen(ScreenOp::QueueRedrawAll),
            ]
        }),
{
    lemma_outcome(InputEvent::TabletToolAxis(axis), world);
}

/// A tool that comes or goes takes the pointer along.
pub proof fn near_tool_moves_pointer(
    proximity: ToolProximityEvent,
    world: World,
    output: OutputId,
)
    ensures
        world.output_for_tablet is None ==> outcome(
            InputEvent::TabletToolProximity(proximity),
            world,
        ).len() == 0,
        world.output_for_tablet == Some(output) ==> {
            let effects = outcome(InputEvent::TabletToolProximity(proximity), world);
            let location = Location::EventOn((world.geometry)(output));
            let under = (world.surface_under)(location);
            &&& 3 <= effects.len() <= 4
            &&& effects[0] == EffectView::Pointer(PointerOp::SetFocus(under))
            &&& effects[1] == EffectView::Pointer(
                PointerOp::Motion {
                    under,
                    location,
                    serial: world.serial,
                    time_msec: proximity.time_msec,
                },
            )
            &&& effects[2] == EffectView::Pointer(PointerOp::Frame)
        },
{
    lemma_outcome(InputEvent::TabletToolProximity(proximity), world);
}

/// The client is told that a tool comes or goes exactly when there is a surface under the tool and
/// the tablet is known: when it comes, where and over what; when it goes, that it does.
pub proof fn nearness_is_told_over_surface(
    proximity: ToolProximityEvent,
    world: World,
    output: OutputId,
    tablet: TabletId,
    surface: SurfaceId,
)
    requires
        world.output_for_tablet == Some(output),
    ensures
        ({
            let effects = outcome(InputEvent::TabletToolProximity(proximity), world);
            let location = Location::EventOn((world.geometry)(output));
            let under = (world.surface_under)(location);
            let tool = world.added_tool;
            let time_msec = proximity.time_msec;
            &&& effects.len() == 4 <==> under is Some && world.tablet is Some
            &&& under == Some(surface) && world.tablet == Some(tablet) && proximity.state
                == ProximityState::In ==> effects[3] == EffectView::Tablet(
                TabletOp::ProximityIn {
                    tool,
                    tablet,
                    under: surface,
                    location,
                    serial: world.tool_serial,
                    time_msec,
                },
            )
            &&& under is Some && world.tablet is Some && proximity.state == ProximityState::Out
                ==> effects[3] == EffectView::Tablet(TabletOp::ProximityOut { tool, time_msec })
        }),
{
    lemma_outcome(InputEvent::TabletToolProximity(proximity), world);
}

/// The tip of a known tool is reported first, with its time, and with the serial when it is put
/// down. An unknown tool reports nothing.
pub proof fn tip_is_reported(tip: ToolTipEvent, world: World, tool: ToolId)
    ensures
        ({
            let effects = outcome(InputEvent::TabletToolTip(tip), world);
            let time_msec = tip.time_msec;
            &&& world.tool is None ==> effects.len() == 0
            &&& world.tool == Some(tool) && tip.tip_state is Down ==> effects.len() > 0
                && effects[0] == EffectView::Tablet(
                TabletOp::TipDown { tool, serial: world.serial, time_msec },
            )
            &&& world.tool == Some(tool) && tip.tip_state is Up ==> effects == seq![
                EffectView::Tablet(TabletOp::TipUp { tool, time_msec }),
            ]
        }),
{
    lemma_outcome(InputEvent::TabletToolTip(tip), world);
}

/// Putting the tip of a known tool down activates, while nobody holds a grab, the window under the
/// cursor, or, without one, the output under the cursor.
pub proof fn tip_activates_what_is_under_cursor(
    tip: ToolTipEvent,
    world: World,
    window: WindowId,
    output: OutputId,
)
    requires
        world.tool is Some,
        tip.tip_state is Down,
    ensures
        ({
            let effects = outcome(InputEvent::TabletToolTip(tip), world);
            let free = !world.pointer_grabbed;
            &&& free && world.window_under_cursor == Some(window) ==> effects.len() == 2
                && effects[1] == EffectView::Layout(LayoutOp::ActivateWindow(window))
            &&& free && world.window_under_cursor is None && world.output_under_cursor == Some(
                output,
            ) ==> effects.len() == 2 && effects[1] == EffectView::Layout(
                LayoutOp::ActivateOutput(output),
            )
            &&& free && world.window_under_cursor is None && world.output_under_cursor is None
                ==> effects.len() == 1
            &&& !free ==> effects.len() == 1
        }),
{
    lemma_outcome(InputEvent::TabletToolTip(tip), world);
}

/// A button of a known tool is reported as it is. An unknown tool reports nothing.
pub proof fn tool_button_is_reported(button: ToolButtonEvent, world: World, tool: ToolId)
    ensures
        world.tool is None ==> outcome(InputEvent::TabletToolButton(button), world).len() == 0,
        world.tool == Some(tool) ==> outcome(InputEvent::TabletToolButton(button), world) == seq![
            EffectView::Tablet(
                TabletOp::Button {
                    tool,
                    button: button.button,
                    state: button.button_state,
                    serial: world.serial,
                    time_msec: button.time_msec,
                },
            ),
        ],
{
    lemma_outcome(InputEvent::TabletToolButton(button), world);
}

/// Of devices that come and go only tablets matter: they are added and removed, and the tools go
/// when no tablet is left.
pub proof fn tablets_come_and_go(tablet_tool: bool, world: World)
    ensures
        ({
            let added = outcome(InputEvent::DeviceAdded { tablet_tool }, world);
            let removed = outcome(InputEvent::DeviceRemoved { tablet_tool }, world);
            &&& !tablet_tool ==> added.len() == 0 && removed.len() == 0
            &&& tablet_tool ==> added == seq![EffectView::Tablet(TabletOp::AddTablet)]
            &&& tablet_tool && world.tablets > 0 ==> removed == seq![
                EffectView::Tablet(TabletOp::RemoveTablet),
            ]
            &&& tablet_tool && world.tablets == 0 ==> removed == seq![
                EffectView::Tablet(TabletOp::RemoveTablet),
                EffectView::Tablet(TabletOp::ClearTools),
            ]
        }),
{
    let added = InputEvent::DeviceAdded { tablet_tool };
    let removed = InputEvent::DeviceRemoved { tablet_tool };
    lemma_outcome(added, world);
    lemma_outcome(removed, world);
    assert(tablet_tool ==> outcome(added, world) =~= seq![EffectView::Tablet(TabletOp::AddTablet)]);
    assert(tablet_tool && world.tablets > 0 ==> outcome(removed, world) =~= seq![
        EffectView::Tablet(TabletOp::RemoveTablet),
    ]);
    assert(tablet_tool && world.tablets == 0 ==> outcome(removed, world) =~= seq![
        EffectView::Tablet(TabletOp::RemoveTablet),
        EffectView::Tablet(TabletOp::ClearTools),
    ]);
}

} // verus!
