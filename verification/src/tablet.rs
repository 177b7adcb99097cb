//! Tablets and tablet tools.

use vstd::prelude::*;

use crate::effect::{Effect, EffectView, ScreenOp, SurfaceId, TabletId, TabletOp, ToolId};
use crate::event::{
    ProximityState, TipState, ToolAxisEvent, ToolButtonEvent, ToolProximityEvent, ToolTipEvent,
};
use crate::geometry::Location;
use crate::step::{
    both, done, emit, finish, just_wait, no_effects, only, push_if, wait_at, waits, Step, StepView,
    Wait,
};

verus! {

/// The effects of the readings of a tool: each of them that is new.
pub open spec fn readings(axis: ToolAxisEvent, tool: ToolId) -> Seq<EffectView> {
    let effects = seq![];
    let effects = push_if(
        effects,
        axis.pressure.changed,
        EffectView::Tablet(TabletOp::Pressure { tool, value: axis.pressure.value }),
    );
    let effects = push_if(
        effects,
        axis.distance.changed,
        EffectView::Tablet(TabletOp::Distance { tool, value: axis.distance.value }),
    );
    let effects = push_if(
        effects,
        axis.tilt.changed,
        EffectView::Tablet(TabletOp::Tilt { tool, value: axis.tilt.value }),
    );
    let effects = push_if(
        effects,
        axis.slider.changed,
        EffectView::Tablet(TabletOp::SliderPosition { tool, value: axis.slider.value }),
    );
    let effects = push_if(
        effects,
        axis.rotation.changed,
        EffectView::Tablet(TabletOp::Rotation { tool, value: axis.rotation.value }),
    );
    push_if(
        effects,
        axis.wheel.changed,
        EffectView::Tablet(
            TabletOp::Wheel {
                tool,
                delta: axis.wheel.delta,
                delta_discrete: axis.wheel.delta_discrete,
            },
        ),
    )
}

/// A tool that is known, on a tablet that is known, reports what is new; then it is moved.
pub open spec fn after_axis_tool(
    axis: ToolAxisEvent,
    location: Location,
    under: Option<SurfaceId>,
    tablet: Option<TabletId>,
    tool: Option<ToolId>,
) -> StepView {
    match (tablet, tool) {
        (Some(tablet), Some(tool)) => waits(
            readings(axis, tool),
            Wait::AxisSerial { axis, location, under, tablet, tool },
        ),
        _ => done(seq![EffectView::Screen(ScreenOp::QueueRedrawAll)]),
    }
}

/// The tool is moved, and the cursor is drawn anew.
pub open spec fn after_axis_serial(
    axis: ToolAxisEvent,
    location: Location,
    under: Option<SurfaceId>,
    tablet: TabletId,
    tool: ToolId,
    serial: u32,
) -> StepView {
    done(
        seq![
            EffectView::Tablet(
                TabletOp::Motion {
                    tool,
                    tablet,
                    under,
                    location,
                    serial,
                    time_msec: axis.time_msec,
                },
            ),
            EffectView::Screen(ScreenOp::QueueRedrawAll),
        ],
    )
}

/// A tool comes or goes over a surface, on a tablet that is known.
pub open spec fn after_proximity_tablet(
    proximity: ToolProximityEvent,
    location: Location,
    under: Option<SurfaceId>,
    tool: ToolId,
    tablet: Option<TabletId>,
) -> StepView {
    match (under, tablet) {
        (Some(under), Some(tablet)) => match proximity.state {
            ProximityState::In => waits(
                seq![],
                Wait::ProximitySerial {
                    location,
                    under,
                    tablet,
                    tool,
                    time_msec: proximity.time_msec,
                },
            ),
            ProximityState::Out => done(
                seq![
                    EffectView::Tablet(
                        TabletOp::ProximityOut { tool, time_msec: proximity.time_msec },
                    ),
                ],
            ),
        },
        _ => done(seq![]),
    }
}

/// A tool comes over a surface.
pub open spec fn after_proximity_serial(
    location: Location,
    under: SurfaceId,
    tablet: TabletId,
    tool: ToolId,
    time_msec: u32,
    serial: u32,
) -> StepView {
    done(
        seq![
            EffectView::Tablet(
                TabletOp::ProximityIn { tool, tablet, under, location, serial, time_msec },
            ),
        ],
    )
}

/// The tip of a tool that is known is put down or lifted.
pub open spec fn after_tip_tool(tip: ToolTipEvent, tool: Option<ToolId>) -> StepView {
    match tool {
        Some(tool) => match tip.tip_state {
            TipState::Down => waits(
                seq![],
                Wait::TipSerial { tool, time_msec: tip.time_msec },
            ),
            TipState::Up => done(
                seq![EffectView::Tablet(TabletOp::TipUp { tool, time_msec: tip.time_msec })],
            ),
        },
        None => done(seq![]),
    }
}

/// Putting the tip down activates what is under it.
pub open spec fn after_tip_serial(tool: ToolId, time_msec: u32, serial: u32) -> StepView {
    waits(
        seq![EffectView::Tablet(TabletOp::TipDown { tool, serial, time_msec })],
        Wait::ActivateGrab(None),
    )
}

/// Buttons count on tools that are known.
pub open spec fn after_tool_button_tool(
    button: ToolButtonEvent,
    tool: Option<ToolId>,
) -> StepView {
    match tool {
        Some(tool) => waits(seq![], Wait::ToolButtonSerial { button, tool }),
        None => done(seq![]),
    }
}

/// A button of a tool is pressed or released.
pub open spec fn after_tool_button_serial(
    button: ToolButtonEvent,
    tool: ToolId,
    serial: u32,
) -> StepView {
    done(
        seq![
            EffectView::Tablet(
                TabletOp::Button {
                    tool,
                    button: button.button,
                    state: button.button_state,
                    serial,
                    time_msec: button.time_msec,
                },
            ),
        ],
    )
}

/// The tools go with the last tablet.
pub open spec fn after_tablet_count(count: usize) -> StepView {
    done(push_if(seq![], count == 0, EffectView::Tablet(TabletOp::ClearTools)))
}

pub(crate) fn go_axis_tool(
    axis: ToolAxisEvent,
    location: Location,
    under: Option<SurfaceId>,
    tablet: Option<TabletId>,
    tool: Option<ToolId>,
) -> (res: Step)
    ensures
        res@ == after_axis_tool(axis, location, under, tablet, tool),
{
    if let (Some(tablet), Some(tool)) = (tablet, tool) {
        let mut effects = no_effects();
        if axis.pressure.changed {
            emit(
                &mut effects,
                Effect::Tablet(TabletOp::Pressure { tool, value: axis.pressure.value }),
            );
        }
        if axis.distance.changed {
            emit(
                &mut effects,
                Effect::Tablet(TabletOp::Distance { tool, value: axis.distance.value }),
            );
        }
        if axis.tilt.changed {
            emit(&mut effects, Effect::Tablet(TabletOp::Tilt { tool, value: axis.tilt.value }));
        }
        if axis.slider.changed {
            emit(
                &mut effects,
                Effect::Tablet(TabletOp::SliderPosition { tool, value: axis.slider.value }),
            );
        }
        if axis.rotation.changed {
            emit(
                &mut effects,
                Effect::Tablet(TabletOp::Rotation { tool, value: axis.rotation.value }),
            );
        }
        if axis.wheel.changed {
            emit(
                &mut effects,
                Effect::Tablet(
                    TabletOp::Wheel {
                        tool,
                        delta: axis.wheel.delta,
                        delta_discrete: axis.wheel.delta_discrete,
                    },
                ),
            );
        }
        wait_at(effects, Wait::AxisSerial { axis, location, under, tablet, tool })
    } else {
        finish(only(Effect::Screen(ScreenOp::QueueRedrawAll)))
    }
}

pub(crate) fn go_axis_serial(
    axis: ToolAxisEvent,
    location: Location,
    under: Option<SurfaceId>,
    tablet: TabletId,
    tool: ToolId,
    serial: u32,
) -> (res: Step)
    ensures
        res@ == after_axis_serial(axis, location, under, tablet, tool, serial),
{
    // Redraw to update the cursor position.
    finish(
        both(
            Effect::Tablet(
                TabletOp::Motion {
                    tool,
                    tablet,
                    under,
                    location,
                    serial,
                    time_msec: axis.time_msec,
                },
            ),
            Effect::Screen(ScreenOp::QueueRedrawAll),
        ),
    )
}

pub(crate) fn go_proximity_tablet(
    proximity: ToolProximityEvent,
    location: Location,
    under: Option<SurfaceId>,
    tool: ToolId,
    tablet: Option<TabletId>,
) -> (res: Step)
    ensures
        res@ == after_proximity_tablet(proximity, location, under, tool, tablet),
{
    let time_msec: u32 = proximity.time_msec;
    if let (Some(under), Some(tablet)) = (under, tablet) {
        match proximity.state {
            ProximityState::In => just_wait(
                Wait::ProximitySerial { location, under, tablet, tool, time_msec },
            ),
            ProximityState::Out => finish(
                only(Effect::Tablet(TabletOp::ProximityOut { tool, time_msec })),
            ),
        }
    } else {
        finish(no_effects())
    }
}

pub(crate) fn go_proximity_serial(
    location: Location,
    under: SurfaceId,
    tablet: TabletId,
    tool: ToolId,
    time_msec: u32,
    serial: u32,
) -> (res: Step)
    ensures
        res@ == after_proximity_serial(location, under, tablet, tool, time_msec, serial),
{
    finish(
        only(
            Effect::Tablet(
                TabletOp::ProximityIn { tool, tablet, under, location, serial, time_msec },
            ),
        ),
    )
}

pub(crate) fn go_tip_tool(tip: ToolTipEvent, tool: Option<ToolId>) -> (res: Step)
    ensures
        res@ == after_tip_tool(tip, tool),
{
    let time_msec: u32 = tip.time_msec;
    match tool {
        Some(tool) => match tip.tip_state {
            TipState::Down => just_wait(Wait::TipSerial { tool, time_msec }),
            TipState::Up => finish(only(Effect::Tablet(TabletOp::TipUp { tool, time_msec }))),
        },
        None => finish(no_effects()),
    }
}

pub(crate) fn go_tip_serial(tool: ToolId, time_msec: u32, serial: u32) -> (res: Step)
    ensures
        res@ == after_tip_serial(tool, time_msec, serial),
{
    wait_at(
        only(Effect::Tablet(TabletOp::TipDown { tool, serial, time_msec })),
        Wait::ActivateGrab(None),
    )
}

pub(crate) fn go_tool_button_tool(button: ToolButtonEvent, tool: Option<ToolId>) -> (res: Step)
    ensures
        res@ == after_tool_button_tool(button, tool),
{
    match tool {
        Some(tool) => just_wait(Wait::ToolButtonSerial { button, tool }),
        None => finish(no_effects()),
    }
}

pub(crate) fn go_tool_button_serial(
    button: ToolButtonEvent,
    tool: ToolId,
    serial: u32,
) -> (res: Step)
    ensures
        res@ == after_tool_button_serial(button, tool, serial),
{
    finish(
        only(
            Effect::Tablet(
                TabletOp::Button {
                    tool,
                    button: button.button,
                    state: button.button_state,
                    serial,
                    time_msec: button.time_msec,
                },
            ),
        ),
    )
}

pub(crate) fn go_tablet_count(count: usize) -> (res: Step)
    ensures
        res@ == after_tablet_count(count),
{
    if count == 0 {
        finish(only(Effect::Tablet(TabletOp::ClearTools)))
    } else {
        finish(no_effects())
    }
}

} // verus!
