//! Reading physical input: learning a binding from a change of the raw
//! state, deciding whether a binding is pressed, and the button part of the
//! virtual report.
//!
//! Axis positions are signed 16-bit values. The pressing thresholds are
//! meant over the normalized position (`value / 32767` above the centre,
//! `value / 32768` below it); every threshold here is the exact integer
//! bound that such a comparison of single-precision numbers draws on the
//! 16-bit range.
use vstd::prelude::*;

use crate::model::{
    button_controls, hat_contains, lookup_entry, ControllerProfile, HatDirection, InputBinding,
    MappingEntry, OutputControl, RawState,
};

verus! {

/// How far an axis must travel, from below, for learning to record it.
pub const LEARN_AXIS_THRESHOLD: i16 = 16000;

/// Smallest raw value whose normalized position is above 0.55.
pub const BUTTON_AXIS_POSITIVE: i16 = 18022;

/// Largest raw value whose normalized position is below -0.55.
pub const BUTTON_AXIS_NEGATIVE: i16 = -18023;

/// `i` is the first index below `n` where `p` holds.
pub open spec fn is_first(p: spec_fn(int) -> bool, n: int, i: int) -> bool {
    &&& 0 <= i < n
    &&& p(i)
    &&& forall|j: int| 0 <= j < i ==> !#[trigger] p(j)
}

/// The first index below `n` where `p` holds, if any.
pub open spec fn first_index(p: spec_fn(int) -> bool, n: int) -> Option<int> {
    if exists|i: int| is_first(p, n, i) {
        Some(choose|i: int| is_first(p, n, i))
    } else {
        None
    }
}

pub proof fn lemma_first_index_is(p: spec_fn(int) -> bool, n: int, i: int)
    requires
        is_first(p, n, i),
    ensures
        first_index(p, n) == Some(i),
{
    let k = choose|k: int| is_first(p, n, k);
    assert(is_first(p, n, k));
    if k < i {
        assert(!p(k));
    } else if i < k {
        assert(!p(i));
    }
}

pub proof fn lemma_first_index_none(p: spec_fn(int) -> bool, n: int)
    requires
        forall|j: int| 0 <= j < n ==> !#[trigger] p(j),
    ensures
        first_index(p, n) is None,
{
}

/// The button at `i`, released when the state has no such button.
pub open spec fn button_at(buttons: Seq<bool>, i: int) -> bool {
    0 <= i < buttons.len() && buttons[i]
}

/// The axis at `i`, centred when the state has no such axis.
pub open spec fn axis_at(axes: Seq<i16>, i: int) -> i16 {
    if 0 <= i < axes.len() {
        axes[i]
    } else {
        0
    }
}

/// The hat at `i`, centred when the state has no such hat.
pub open spec fn hat_at(hats: Seq<HatDirection>, i: int) -> HatDirection {
    if 0 <= i < hats.len() {
        hats[i]
    } else {
        HatDirection::Centered
    }
}

/// Button `i` went down between the two states.
pub open spec fn button_edge(previous: RawState, current: RawState, i: int) -> bool {
    current.buttons@[i] && !button_at(previous.buttons@, i)
}

/// Axis `i` crossed the learning threshold upwards.
pub open spec fn axis_positive_edge(previous: RawState, current: RawState, i: int) -> bool {
    current.axes@[i] >= LEARN_AXIS_THRESHOLD && axis_at(previous.axes@, i) < LEARN_AXIS_THRESHOLD
}

/// Axis `i` crossed the learning threshold downwards.
pub open spec fn axis_negative_edge(previous: RawState, current: RawState, i: int) -> bool {
    current.axes@[i] <= -LEARN_AXIS_THRESHOLD && axis_at(previous.axes@, i)
        > -LEARN_AXIS_THRESHOLD
}

pub open spec fn axis_edge(previous: RawState, current: RawState, i: int) -> bool {
    axis_positive_edge(previous, current, i) || axis_negative_edge(previous, current, i)
}

/// Hat `i` moved to a new, non-centred position.
pub open spec fn hat_edge(previous: RawState, current: RawState, i: int) -> bool {
    current.hats@[i] != HatDirection::Centered && current.hats@[i] != hat_at(previous.hats@, i)
}

pub open spec fn button_edges(previous: RawState, current: RawState) -> spec_fn(int) -> bool {
    |i: int| button_edge(previous, current, i)
}

pub open spec fn axis_edges(previous: RawState, current: RawState) -> spec_fn(int) -> bool {
    |i: int| axis_edge(previous, current, i)
}

pub open spec fn hat_edges(previous: RawState, current: RawState) -> spec_fn(int) -> bool {
    |i: int| hat_edge(previous, current, i)
}

/// The binding that learning records for the change from `previous` to
/// `current`: the first newly pressed button; otherwise the first axis that
/// crossed the threshold, in the direction it crossed; otherwise the first
/// hat that moved to a new off-centre position, with that position.
pub open spec fn detected_binding(previous: RawState, current: RawState) -> Option<InputBinding> {
    let buttons = button_edges(previous, current);
    let axes = axis_edges(previous, current);
    let hats = hat_edges(previous, current);
    match first_index(buttons, current.buttons@.len() as int) {
        Some(i) => Some(InputBinding::Button { index: i as u32 }),
        None => match first_index(axes, current.axes@.len() as int) {
            Some(i) => if axis_positive_edge(previous, current, i) {
                Some(InputBinding::AxisPositive { index: i as u32 })
            } else {
                Some(InputBinding::AxisNegative { index: i as u32 })
            },
            None => match first_index(hats, current.hats@.len() as int) {
                Some(i) => Some(InputBinding::Hat { index: i as u32, direction: current.hats@[i] }),
                None => None,
            },
        },
    }
}

fn button_or_released(buttons: &Vec<bool>, i: usize) -> (r: bool)
    ensures
        r == button_at(buttons@, i as int),
{
    if i < buttons.len() {
        buttons[i]
    } else {
        false
    }
}

fn axis_or_centre(axes: &Vec<i16>, i: usize) -> (r: i16)
    ensures
        r == axis_at(axes@, i as int),
{
    if i < axes.len() {
        axes[i]
    } else {
        0
    }
}

fn hat_or_centre(hats: &Vec<HatDirection>, i: usize) -> (r: HatDirection)
    ensures
        r == hat_at(hats@, i as int),
{
    if i < hats.len() {
        hats[i]
    } else {
        HatDirection::Centered
    }
}

pub fn detect_binding(previous: &RawState, current: &RawState) -> (r: Option<InputBinding>)
    ensures
        r == detected_binding(*previous, *current),
{
    let ghost buttons = button_edges(*previous, *current);
    let ghost axes = axis_edges(*previous, *current);
    let ghost hats = hat_edges(*previous, *current);

    let mut index: usize = 0;
    while index < current.buttons.len()
        invariant
            buttons == button_edges(*previous, *current),
            index <= current.buttons@.len(),
            forall|j: int| 0 <= j < index ==> !#[trigger] buttons(j),
        decreases current.buttons.len() - index,
    {
        let pressed = current.buttons[index];
        let was_pressed = button_or_released(&previous.buttons, index);
        assert(buttons(index as int) == (pressed && !was_pressed));
        if pressed && !was_pressed {
            proof {
                lemma_first_index_is(buttons, current.buttons@.len() as int, index as int);
            }
            return Some(InputBinding::Button { index: #[verifier::truncate] (index as u32) });
        }
        index = index + 1;
    }
    proof {
        lemma_first_index_none(buttons, current.buttons@.len() as int);
    }

    let mut index: usize = 0;
    while index < current.axes.len()
        invariant
            axes == axis_edges(*previous, *current),
            first_index(button_edges(*previous, *current), current.buttons@.len() as int) is None,
            index <= current.axes@.len(),
            forall|j: int| 0 <= j < index ==> !#[trigger] axes(j),
        decreases current.axes.len() - index,
    {
        let value = current.axes[index];
        let previous_value = axis_or_centre(&previous.axes, index);
        assert(axes(index as int) == ((value >= LEARN_AXIS_THRESHOLD && previous_value
            < LEARN_AXIS_THRESHOLD) || (value <= -LEARN_AXIS_THRESHOLD && previous_value
            > -LEARN_AXIS_THRESHOLD)));
        if value >= LEARN_AXIS_THRESHOLD && previous_value < LEARN_AXIS_THRESHOLD {
            proof {
                lemma_first_index_is(axes, current.axes@.len() as int, index as int);
            }
            return Some(InputBinding::AxisPositive { index: #[verifier::truncate] (index as u32) });
        }
        if value <= -LEARN_AXIS_THRESHOLD && previous_value > -LEARN_AXIS_THRESHOLD {
            proof {
                lemma_first_index_is(axes, current.axes@.len() as int, index as int);
            }
            return Some(InputBinding::AxisNegative { index: #[verifier::truncate] (index as u32) });
        }
        index = index + 1;
    }
    proof {
        lemma_first_index_none(axes, current.axes@.len() as int);
    }

    let mut index: usize = 0;
    while index < current.hats.len()
        invariant
            hats == hat_edges(*previous, *current),
            first_index(button_edges(*previous, *current), current.buttons@.len() as int) is None,
            first_index(axis_edges(*previous, *current), current.axes@.len() as int) is None,
            index <= current.hats@.len(),
            forall|j: int| 0 <= j < index ==> !#[trigger] hats(j),
        decreases current.hats.len() - index,
    {
        let direction = current.hats[index];
        let previous_direction = hat_or_centre(&previous.hats, index);
        assert(hats(index as int) == (direction != HatDirection::Centered && direction
            != previous_direction));
        if direction != HatDirection::Centered && direction != previous_direction {
            proof {
                lemma_first_index_is(hats, current.hats@.len() as int, index as int);
            }
            return Some(InputBinding::Hat { index: #[verifier::truncate] (index as u32), direction });
        }
        index = index + 1;
    }
    proof {
        lemma_first_index_none(hats, current.hats@.len() as int);
    }
    None
}

/// Whether `binding` reads as pressed in `raw`: a button that is down, an
/// axis pushed past 55% of its travel in the bound direction, or a hat whose
/// position includes the bound direction. Inputs the state lacks read as
/// released or centred.
pub open spec fn binding_pressed_spec(binding: InputBinding, raw: RawState) -> bool {
    match binding {
        InputBinding::Unmapped => false,
        InputBinding::Button { index } => button_at(raw.buttons@, index as int),
        InputBinding::AxisPositive { index } => axis_at(raw.axes@, index as int)
            >= BUTTON_AXIS_POSITIVE,
        InputBinding::AxisNegative { index } => axis_at(raw.axes@, index as int)
            <= BUTTON_AXIS_NEGATIVE,
        InputBinding::Hat { index, direction } => hat_contains(
            hat_at(raw.hats@, index as int),
            direction,
        ),
    }
}

pub fn binding_pressed(entry: &MappingEntry, raw: &RawState) -> (r: bool)
    ensures
        r == binding_pressed_spec(entry.binding, *raw),
{
    match entry.binding {
        InputBinding::Unmapped => false,
        InputBinding::Button { index } => button_or_released(&raw.buttons, index as usize),
        InputBinding::AxisPositive { index } => axis_or_centre(&raw.axes, index as usize)
            >= BUTTON_AXIS_POSITIVE,
        InputBinding::AxisNegative { index } => axis_or_centre(&raw.axes, index as usize)
            <= BUTTON_AXIS_NEGATIVE,
        InputBinding::Hat { index, direction } => hat_or_centre(
            &raw.hats,
            index as usize,
        ).contains(direction),
    }
}

/// Whether virtual button `control` is down: the profile maps it and its
/// binding is pressed. The Guide (Nexus) button is never sent to the
/// virtual pad, so that it cannot open the Xbox Game Bar.
pub open spec fn control_pressed(profile: ControllerProfile, raw: RawState, control: OutputControl) -> bool {
    control != OutputControl::Guide && match lookup_entry(profile.entries@, control) {
        Some(entry) => binding_pressed_spec(entry.binding, raw),
        None => false,
    }
}

/// The digital part of the virtual report: one flag per control of
/// `OutputControl::buttons()`, in that order.
pub fn report_buttons(profile: &ControllerProfile, raw: &RawState) -> (r: Vec<bool>)
    ensures
        r@.len() == button_controls().len(),
        forall|i: int|
            0 <= i < r@.len() ==> r@[i] == control_pressed(*profile, *raw, button_controls()[i]),
{
    let controls = OutputControl::buttons();
    let mut flags: Vec<bool> = Vec::new();
    let mut i: usize = 0;
    while i < controls.len()
        invariant
            controls@ == button_controls(),
            i <= controls@.len(),
            flags@.len() == i,
            forall|k: int|
                0 <= k < i ==> flags@[k] == control_pressed(*profile, *raw, button_controls()[k]),
        decreases controls.len() - i,
    {
        let control = controls[i];
        let pressed = if control == OutputControl::Guide {
            false
        } else {
            match profile.entry(control) {
                Some(entry) => binding_pressed(entry, raw),
                None => false,
            }
        };
        flags.push(pressed);
        i = i + 1;
    }
    flags
}

} // verus!
