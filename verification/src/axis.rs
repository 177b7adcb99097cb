//! What a client is told of a scroll.

use vstd::prelude::*;

use crate::config::Real;
use crate::event::{AxisEvent, AxisMotion, AxisSource};

verus! {

/// How far an axis was scrolled.
#[derive(Clone, Copy, PartialEq, Eq, Debug)]
pub enum AxisValue {
    /// By this amount.
    Amount(Real),
    /// By three times this number of steps.
    TripleOf(Real),
}

/// A scroll of one axis by a nonzero distance, with the steps of the wheel where they are known.
#[derive(Clone, Copy, PartialEq, Eq, Debug)]
pub struct AxisStep {
    pub value: AxisValue,
    pub discrete: Option<Real>,
}

/// What happened on one axis.
#[derive(Clone, Copy, PartialEq, Eq, Debug)]
pub struct AxisPart {
    pub step: Option<AxisStep>,
    /// The fingers left the touchpad.
    pub stop: bool,
}

/// What a client is told of a scroll.
#[derive(Clone, Copy, PartialEq, Eq, Debug)]
pub struct AxisFrame {
    pub time_msec: u32,
    pub source: AxisSource,
    pub horizontal: AxisPart,
    pub vertical: AxisPart,
}

/// The distance of a scroll: the amount, or else three times the steps; nothing if it is zero.
pub open spec fn scrolled(motion: AxisMotion) -> Option<AxisValue> {
    match (motion.amount, motion.amount_discrete) {
        (Some(amount), _) => if amount.zero() {
            None
        } else {
            Some(AxisValue::Amount(amount))
        },
        (None, Some(steps)) => if steps.zero() {
            None
        } else {
            Some(AxisValue::TripleOf(steps))
        },
        (None, None) => None,
    }
}

/// What happened on an axis. Only a finger stops, and only with an amount of zero.
pub open spec fn axis_part(source: AxisSource, motion: AxisMotion) -> AxisPart {
    AxisPart {
        step: match scrolled(motion) {
            Some(value) => Some(AxisStep { value, discrete: motion.amount_discrete }),
            None => None,
        },
        stop: source is Finger && (motion.amount matches Some(amount) && amount.zero()),
    }
}

/// What a client is told of a scroll.
pub open spec fn axis_frame_of(event: AxisEvent) -> AxisFrame {
    AxisFrame {
        time_msec: event.time_msec,
        source: event.source,
        horizontal: axis_part(event.source, event.horizontal),
        vertical: axis_part(event.source, event.vertical),
    }
}

fn one_axis(source: AxisSource, motion: AxisMotion) -> (res: AxisPart)
    ensures
        res == axis_part(source, motion),
{
    let value = match motion.amount {
        Some(amount) => if amount.is_zero() {
            None
        } else {
            Some(AxisValue::Amount(amount))
        },
        None => match motion.amount_discrete {
            Some(steps) => if steps.is_zero() {
                None
            } else {
                Some(AxisValue::TripleOf(steps))
            },
            None => None,
        },
    };
    let step = match value {
        Some(value) => Some(AxisStep { value, discrete: motion.amount_discrete }),
        None => None,
    };
    let stop = match source {
        AxisSource::Finger => match motion.amount {
            Some(amount) => amount.is_zero(),
            None => false,
        },
        _ => false,
    };
    AxisPart { step, stop }
}

/// Puts together what a client is told of a scroll.
pub fn axis_frame(event: &AxisEvent) -> (res: AxisFrame)
    ensures
        res == axis_frame_of(*event),
{
    AxisFrame {
        time_msec: event.time_msec,
        source: event.source,
        horizontal: one_axis(event.source, event.horizontal),
        vertical: one_axis(event.source, event.vertical),
    }
}

} // verus!
