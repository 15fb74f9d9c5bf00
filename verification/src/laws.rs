//! Properties that span several operations of the library.
use vstd::prelude::*;

use crate::config::{is_first_run_state, SavedState};
use crate::engine::{activity, forwarding_wanted_spec, EngineCore};
use crate::mapper::{
    axis_at, binding_pressed_spec, button_edges, control_pressed, LEARN_AXIS_THRESHOLD, detected_binding, first_index, hat_edges, axis_edges,
    lemma_first_index_none,
};
use crate::model::{
    button_controls, control_label, learned_entry, default_entries, ControllerProfile, edited_entries, entry_position, hat_contains, is_first_entry,
    lemma_first_entry_unique, lookup_entry, HatDirection, InputBinding, MappingEntry,
    OutputControl, RawState,
};
use crate::presentation::{auto_tray_spec, AutoTrayStep};
use crate::profile_io::{drop_leading_dashes, drop_trailing_dashes, file_char, file_name_char, sanitized};

verus! {

/// Learning from a state that did not change records nothing.
pub proof fn law_unchanged_state_learns_nothing(state: RawState)
    ensures
        detected_binding(state, state) is None,
{
    lemma_first_index_none(button_edges(state, state), state.buttons@.len() as int);
    lemma_first_index_none(axis_edges(state, state), state.axes@.len() as int);
    lemma_first_index_none(hat_edges(state, state), state.hats@.len() as int);
}

/// A button or hat binding that was learned from a change reads as pressed
/// in the state it was learned from (for inputs numbered within 32 bits).
pub proof fn law_learned_binding_is_pressed(previous: RawState, current: RawState)
    requires
        current.buttons@.len() <= u32::MAX,
        current.hats@.len() <= u32::MAX,
    ensures
        detected_binding(previous, current) matches Some(b) ==> ((b is Button || b is Hat)
            ==> binding_pressed_spec(b, current)),
{
    let b = button_edges(previous, current);
    match first_index(b, current.buttons@.len() as int) {
        Some(i) => {
            let i2 = choose|k: int| crate::mapper::is_first(b, current.buttons@.len() as int, k);
            assert(crate::mapper::is_first(b, current.buttons@.len() as int, i2));
            assert(b(i2));
        },
        None => {
            let a = axis_edges(previous, current);
            if first_index(a, current.axes@.len() as int) is None {
                let h = hat_edges(previous, current);
                if first_index(h, current.hats@.len() as int) is Some {
                    let i = choose|k: int| crate::mapper::is_first(h, current.hats@.len() as int, k);
                    assert(crate::mapper::is_first(h, current.hats@.len() as int, i));
                    assert(h(i));
                    law_hat_contains_itself(current.hats@[i]);
                }
            }
        },
    }
}

/// Every hat position counts as pressing itself.
pub proof fn law_hat_contains_itself(h: HatDirection)
    ensures
        hat_contains(h, h),
{
}

/// A diagonal presses both cardinal directions it lies between and no
/// other; the centre presses no direction.
pub proof fn law_hat_diagonals()
    ensures
        forall|d: HatDirection|
            #![trigger hat_contains(HatDirection::RightUp, d)]
            (d == HatDirection::Up || d == HatDirection::Right || d == HatDirection::Down || d
                == HatDirection::Left) ==> (hat_contains(HatDirection::RightUp, d) <==> (d
                == HatDirection::Up || d == HatDirection::Right)),
        forall|d: HatDirection|
            #![trigger hat_contains(HatDirection::LeftDown, d)]
            (d == HatDirection::Up || d == HatDirection::Right || d == HatDirection::Down || d
                == HatDirection::Left) ==> (hat_contains(HatDirection::LeftDown, d) <==> (d
                == HatDirection::Down || d == HatDirection::Left)),
        forall|d: HatDirection|
            #![trigger hat_contains(HatDirection::Centered, d)]
            d != HatDirection::Centered ==> !hat_contains(HatDirection::Centered, d),
{
}

/// After the entry of a control is changed, the profile looks that control
/// up as the changed entry, and every other control as before.
pub proof fn law_edit_then_lookup(
    entries: Seq<MappingEntry>,
    control: OutputControl,
    f: spec_fn(MappingEntry) -> MappingEntry,
    other: OutputControl,
)
    requires
        forall|e: MappingEntry| #[trigger] f(e).control == e.control,
    ensures
        lookup_entry(edited_entries(entries, control, f), control) == Some(
            match entry_position(entries, control) {
                Some(i) => f(entries[i]),
                None => f(crate::model::new_entry(control, InputBinding::Unmapped)),
            },
        ),
        other != control ==> lookup_entry(edited_entries(entries, control, f), other)
            == lookup_entry(entries, other),
{
    let after = edited_entries(entries, control, f);
    match entry_position(entries, control) {
        Some(i) => {
            let k = choose|k: int| is_first_entry(entries, control, k);
            assert(is_first_entry(entries, control, k));
            assert(is_first_entry(after, control, i));
            lemma_first_entry_unique(after, control, i);
            if other != control {
                if exists|j: int| is_first_entry(entries, other, j) {
                    let j = choose|j: int| is_first_entry(entries, other, j);
                    assert(is_first_entry(entries, other, j));
                    assert(is_first_entry(after, other, j));
                    lemma_first_entry_unique(after, other, j);
                    lemma_first_entry_unique(entries, other, j);
                } else {
                    if exists|j: int| is_first_entry(after, other, j) {
                        let j = choose|j: int| is_first_entry(after, other, j);
                        assert(is_first_entry(after, other, j));
                        assert forall|k: int| 0 <= k < j implies entries[k].control != other by {
                            assert(after[k].control != other);
                        }
                        assert(after[j].control == other);
                        assert(is_first_entry(entries, other, j));
                    }
                }
            }
        },
        None => {
            let n = entries.len() as int;
            assert(!exists|k: int| is_first_entry(entries, control, k));
            assert forall|j: int| 0 <= j < n implies entries[j].control != control by {
                if entries[j].control == control {
                    // the earliest such position would be a first entry
                    let m = lemma_earliest(entries, control, j);
                    assert(is_first_entry(entries, control, m));
                }
            }
            assert(is_first_entry(after, control, n));
            lemma_first_entry_unique(after, control, n);
            if other != control {
                if exists|j: int| is_first_entry(entries, other, j) {
                    let j = choose|j: int| is_first_entry(entries, other, j);
                    assert(is_first_entry(entries, other, j));
                    assert(is_first_entry(after, other, j));
                    lemma_first_entry_unique(after, other, j);
                    lemma_first_entry_unique(entries, other, j);
                } else {
                    if exists|j: int| is_first_entry(after, other, j) {
                        let j = choose|j: int| is_first_entry(after, other, j);
                        assert(is_first_entry(after, other, j));
                        assert forall|k: int| 0 <= k < j implies entries[k].control != other by {
                            assert(after[k].control != other);
                        }
                        assert(after[j].control == other);
                        assert(is_first_entry(entries, other, j));
                    }
                }
            }
        },
    }
}

/// Some position holding `control` leads to the first one.
proof fn lemma_earliest(entries: Seq<MappingEntry>, control: OutputControl, j: int) -> (m: int)
    requires
        0 <= j < entries.len(),
        entries[j].control == control,
    ensures
        is_first_entry(entries, control, m),
    decreases j,
{
    if exists|k: int| 0 <= k < j && entries[k].control == control {
        let k = choose|k: int| 0 <= k < j && entries[k].control == control;
        lemma_earliest(entries, control, k)
    } else {
        j
    }
}

/// A new profile maps every virtual control, each to a real input, and
/// inverts exactly the two vertical stick axes.
pub proof fn law_default_profile_maps_everything(control: OutputControl)
    ensures
        lookup_entry(default_entries(), control) matches Some(e) && e.binding
            != InputBinding::Unmapped && e.control == control && (e.invert <==> (control
            == OutputControl::LeftStickY || control == OutputControl::RightStickY)),
{
    let d = default_entries();
    let i: int = match control {
        OutputControl::A => 0,
        OutputControl::B => 1,
        OutputControl::X => 2,
        OutputControl::Y => 3,
        OutputControl::LeftShoulder => 4,
        OutputControl::RightShoulder => 5,
        OutputControl::Back => 6,
        OutputControl::Start => 7,
        OutputControl::Guide => 8,
        OutputControl::LeftThumb => 9,
        OutputControl::RightThumb => 10,
        OutputControl::DpadUp => 11,
        OutputControl::DpadRight => 12,
        OutputControl::DpadDown => 13,
        OutputControl::DpadLeft => 14,
        OutputControl::LeftTrigger => 15,
        OutputControl::RightTrigger => 16,
        OutputControl::LeftStickX => 17,
        OutputControl::LeftStickY => 18,
        OutputControl::RightStickX => 19,
        OutputControl::RightStickY => 20,
    };
    assert(is_first_entry(d, control, i));
    lemma_first_entry_unique(d, control, i);
}

/// The controller is only ever seen as active when its state changed.
pub proof fn law_no_activity_without_change(state: RawState)
    ensures
        !activity(state, state),
{
}

/// While the window is open with output isolated for configuration, the
/// virtual controller is not fed; once the window is hidden, forwarding is
/// allowed again.
pub proof fn law_configuration_isolates_output(
    state: SavedState,
    core: EngineCore,
    window_visible: bool,
    device_open: bool,
)
    requires
        state.forward_only_in_tray,
        core.forwarding_active == (!window_visible || !state.forward_only_in_tray),
    ensures
        window_visible ==> !forwarding_wanted_spec(core, device_open),
        !window_visible ==> (forwarding_wanted_spec(core, device_open) <==> (core.enabled
            && device_open && core.driver_installed)),
{
}

/// After a failed connection the engine does not try again before the
/// retry delay has passed, and tries at once when it has, if forwarding is
/// still wanted.
pub proof fn law_reconnect_waits(core: EngineCore, failed_at_ms: u64, now_ms: u64, device_open: bool)
    requires
        !core.gamepad_connected,
        failed_at_ms <= u64::MAX - crate::engine::RECONNECT_DELAY_MS,
        core.next_connect_attempt_ms == failed_at_ms + crate::engine::RECONNECT_DELAY_MS,
    ensures
        now_ms < failed_at_ms + crate::engine::RECONNECT_DELAY_MS ==> !(forwarding_wanted_spec(
            core,
            device_open,
        ) && !core.gamepad_connected && now_ms >= core.next_connect_attempt_ms),
        now_ms >= failed_at_ms + crate::engine::RECONNECT_DELAY_MS ==> ((forwarding_wanted_spec(
            core,
            device_open,
        ) && !core.gamepad_connected && now_ms >= core.next_connect_attempt_ms)
            == forwarding_wanted_spec(core, device_open)),
{
}

/// A file name made from a profile name is never empty, holds only ASCII
/// letters, digits, `-` and `_`, and neither starts nor ends with `-`.
pub proof fn law_sanitized_names_are_safe(name: Seq<char>)
    ensures
        sanitized(name).len() > 0,
        forall|i: int| 0 <= i < sanitized(name).len() ==> file_name_char(#[trigger] sanitized(name)[i]),
        sanitized(name)[0] != '-',
        sanitized(name).last() != '-',
{
    let m = name.map_values(|c: char| file_char(c));
    assert forall|i: int| 0 <= i < m.len() implies file_name_char(#[trigger] m[i]) by {}
    lemma_drop_leading_shape(m);
    let l = drop_leading_dashes(m);
    lemma_drop_trailing_shape(l);
    let t = drop_trailing_dashes(l);
    if t.len() == 0 {
        reveal_strlit("mapping");
    }
}

proof fn lemma_drop_leading_shape(s: Seq<char>)
    requires
        forall|i: int| 0 <= i < s.len() ==> file_name_char(#[trigger] s[i]),
    ensures
        forall|i: int| 0 <= i < drop_leading_dashes(s).len() ==> file_name_char(
            #[trigger] drop_leading_dashes(s)[i],
        ),
        drop_leading_dashes(s).len() > 0 ==> drop_leading_dashes(s)[0] != '-',
    decreases s.len(),
{
    if s.len() > 0 && s[0] == '-' {
        let t = s.drop_first();
        assert forall|i: int| 0 <= i < t.len() implies file_name_char(#[trigger] t[i]) by {
            assert(t[i] == s[i + 1]);
        }
        lemma_drop_leading_shape(t);
    }
}

proof fn lemma_drop_trailing_shape(s: Seq<char>)
    requires
        forall|i: int| 0 <= i < s.len() ==> file_name_char(#[trigger] s[i]),
        s.len() > 0 ==> s[0] != '-',
    ensures
        forall|i: int| 0 <= i < drop_trailing_dashes(s).len() ==> file_name_char(
            #[trigger] drop_trailing_dashes(s)[i],
        ),
        drop_trailing_dashes(s).len() > 0 ==> drop_trailing_dashes(s)[0] != '-',
        drop_trailing_dashes(s).len() > 0 ==> drop_trailing_dashes(s).last() != '-',
    decreases s.len(),
{
    if s.len() > 0 && s.last() == '-' {
        let t = s.drop_last();
        assert forall|i: int| 0 <= i < t.len() implies file_name_char(#[trigger] t[i]) by {
            assert(t[i] == s[i]);
        }
        if t.len() > 0 {
            assert(t[0] == s[0]);
        }
        lemma_drop_trailing_shape(t);
    }
}

/// A first run starts with output isolated while configuring: the window
/// it opens does not feed the virtual controller.
pub proof fn law_first_run_isolates_output(state: SavedState)
    requires
        is_first_run_state(state),
    ensures
        state.forward_only_in_tray,
        !state.include_prereleases,
        state.emulation_enabled,
{
}

/// The Guide (Nexus) button never reaches the virtual controller, whatever
/// the profile maps to it and whatever the physical controller reports: its
/// flag in the digital report is always off.
pub proof fn law_guide_is_never_forwarded(profile: ControllerProfile, raw: RawState)
    ensures
        button_controls()[8] == OutputControl::Guide,
        forall|i: int|
            0 <= i < button_controls().len() && button_controls()[i] == OutputControl::Guide
                ==> !control_pressed(profile, raw, #[trigger] button_controls()[i]),
{
}

/// Axis learning keeps the direction of the movement: a positive binding is
/// learned only from an axis that crossed the learning threshold upwards,
/// a negative one only from an axis that crossed it downwards (for inputs
/// numbered within 32 bits).
pub proof fn law_learned_axis_keeps_direction(previous: RawState, current: RawState)
    requires
        current.axes@.len() <= u32::MAX,
    ensures
        detected_binding(previous, current) matches Some(InputBinding::AxisPositive { index })
            ==> axis_at(current.axes@, index as int) >= LEARN_AXIS_THRESHOLD && axis_at(
            previous.axes@,
            index as int,
        ) < LEARN_AXIS_THRESHOLD,
        detected_binding(previous, current) matches Some(InputBinding::AxisNegative { index })
            ==> axis_at(current.axes@, index as int) <= -LEARN_AXIS_THRESHOLD && axis_at(
            previous.axes@,
            index as int,
        ) > -LEARN_AXIS_THRESHOLD,
{
    let b = button_edges(previous, current);
    if first_index(b, current.buttons@.len() as int) is None {
        let a = axis_edges(previous, current);
        if first_index(a, current.axes@.len() as int) is Some {
            let i = choose|k: int| crate::mapper::is_first(a, current.axes@.len() as int, k);
            assert(crate::mapper::is_first(a, current.axes@.len() as int, i));
            assert(a(i));
            assert(i as u32 as int == i);
        }
    }
}

/// Activity cancels the automatic tray: right after the last activity no
/// countdown runs and the window stays, whatever countdown was running.
pub proof fn law_activity_cancels_countdown(
    window_visible: bool,
    auto_tray_enabled: bool,
    idle_seconds: u64,
    countdown_seconds: u64,
    countdown_started_ms: Option<u64>,
    now_ms: u64,
)
    ensures
        auto_tray_spec(
            window_visible,
            auto_tray_enabled,
            idle_seconds,
            countdown_seconds,
            now_ms,
            countdown_started_ms,
            now_ms,
        ) == AutoTrayStep::Idle,
{
}

/// The length, first and last character of a control's label.
spec fn label_key(c: OutputControl) -> (nat, char, char) {
    match c {
        OutputControl::A => (1nat, 'A', 'A'),
        OutputControl::B => (1nat, 'B', 'B'),
        OutputControl::X => (1nat, 'X', 'X'),
        OutputControl::Y => (1nat, 'Y', 'Y'),
        OutputControl::LeftShoulder => (13nat, 'L', 'r'),
        OutputControl::RightShoulder => (14nat, 'R', 'r'),
        OutputControl::Back => (4nat, 'B', 'k'),
        OutputControl::Start => (5nat, 'S', 't'),
        OutputControl::Guide => (5nat, 'G', 'e'),
        OutputControl::LeftThumb => (16nat, 'L', 'k'),
        OutputControl::RightThumb => (17nat, 'R', 'k'),
        OutputControl::DpadUp => (8nat, 'D', 'p'),
        OutputControl::DpadRight => (11nat, 'D', 't'),
        OutputControl::DpadDown => (10nat, 'D', 'n'),
        OutputControl::DpadLeft => (10nat, 'D', 't'),
        OutputControl::LeftTrigger => (12nat, 'L', 'r'),
        OutputControl::RightTrigger => (13nat, 'R', 'r'),
        OutputControl::LeftStickX => (12nat, 'L', 'X'),
        OutputControl::LeftStickY => (12nat, 'L', 'Y'),
        OutputControl::RightStickX => (13nat, 'R', 'X'),
        OutputControl::RightStickY => (13nat, 'R', 'Y'),
    }
}

proof fn lemma_label_key(c: OutputControl)
    ensures
        control_label(c).len() == label_key(c).0,
        control_label(c)[0] == label_key(c).1,
        control_label(c).last() == label_key(c).2,
{
    reveal_strlit("A");
    reveal_strlit("B");
    reveal_strlit("X");
    reveal_strlit("Y");
    reveal_strlit("Left shoulder");
    reveal_strlit("Right shoulder");
    reveal_strlit("Back");
    reveal_strlit("Start");
    reveal_strlit("Guide");
    reveal_strlit("Left stick click");
    reveal_strlit("Right stick click");
    reveal_strlit("D-pad up");
    reveal_strlit("D-pad right");
    reveal_strlit("D-pad down");
    reveal_strlit("D-pad left");
    reveal_strlit("Left trigger");
    reveal_strlit("Right trigger");
    reveal_strlit("Left stick X");
    reveal_strlit("Left stick Y");
    reveal_strlit("Right stick X");
    reveal_strlit("Right stick Y");
}

/// Every virtual control has a non-empty label, and no two controls share
/// one.
pub proof fn law_control_labels_distinct(c1: OutputControl, c2: OutputControl)
    ensures
        control_label(c1).len() > 0,
        c1 != c2 ==> control_label(c1) != control_label(c2),
{
    lemma_label_key(c1);
    lemma_label_key(c2);
    if c1 != c2 {
        assert(label_key(c1) != label_key(c2));
    }
}

/// Learning an axis binding (either side) for a trigger sets the binding,
/// never inverts the trigger, and marks it as a split (centred, shared)
/// axis exactly when that axis rested within 8000 of centre when learning
/// began (an axis missing from the baseline counts as centred).
pub proof fn law_learned_trigger_split_axis(
    entries: Seq<MappingEntry>,
    control: OutputControl,
    index: u32,
    positive_side: bool,
    baseline: RawState,
    output_negative: bool,
)
    requires
        control == OutputControl::LeftTrigger || control == OutputControl::RightTrigger,
    ensures
        ({
            let binding = if positive_side {
                InputBinding::AxisPositive { index }
            } else {
                InputBinding::AxisNegative { index }
            };
            let rest: int = if (index as int) < baseline.axes@.len() {
                baseline.axes@[index as int] as int
            } else {
                0
            };
            let after = edited_entries(
                entries,
                control,
                |e: MappingEntry| learned_entry(e, control, binding, baseline, output_negative),
            );
            &&& lookup_entry(after, control) matches Some(m)
            &&& m.control == control
            &&& m.binding == binding
            &&& m.centered_axis == (-8000 < rest && rest < 8000)
            &&& !m.invert
        }),
{
    let binding = if positive_side {
        InputBinding::AxisPositive { index }
    } else {
        InputBinding::AxisNegative { index }
    };
    let f = |e: MappingEntry| learned_entry(e, control, binding, baseline, output_negative);
    assert forall|e: MappingEntry| #[trigger] f(e).control == e.control by {}
    law_edit_then_lookup(entries, control, f, control);
}

/// Learning on a stick axis gives the entry the asked output direction
/// and never marks it as a split axis.
pub proof fn law_learned_stick_direction(
    entries: Seq<MappingEntry>,
    control: OutputControl,
    binding: InputBinding,
    baseline: RawState,
    output_negative: bool,
)
    requires
        control == OutputControl::LeftStickX || control == OutputControl::LeftStickY || control
            == OutputControl::RightStickX || control == OutputControl::RightStickY,
    ensures
        ({
            let after = edited_entries(
                entries,
                control,
                |e: MappingEntry| learned_entry(e, control, binding, baseline, output_negative),
            );
            &&& lookup_entry(after, control) matches Some(m)
            &&& m.binding == binding
            &&& m.invert == output_negative
            &&& !m.centered_axis
        }),
{
    let f = |e: MappingEntry| learned_entry(e, control, binding, baseline, output_negative);
    assert forall|e: MappingEntry| #[trigger] f(e).control == e.control by {}
    law_edit_then_lookup(entries, control, f, control);
}

/// Activity does not depend on the direction of a change: comparing the
/// two states the other way round gives the same answer.
pub proof fn law_activity_symmetric(previous: RawState, current: RawState)
    ensures
        activity(previous, current) == activity(current, previous),
{
    if activity(previous, current) && current.buttons@ == previous.buttons@
        && current.hats@ == previous.hats@ {
        let i = choose|i: int|
            (0 <= i < current.axes@.len() || 0 <= i < previous.axes@.len())
                && #[trigger] crate::engine::axis_moved(previous.axes@, current.axes@, i);
        assert(crate::engine::axis_moved(current.axes@, previous.axes@, i));
    }
    if activity(current, previous) && current.buttons@ == previous.buttons@
        && current.hats@ == previous.hats@ {
        let i = choose|i: int|
            (0 <= i < previous.axes@.len() || 0 <= i < current.axes@.len())
                && #[trigger] crate::engine::axis_moved(current.axes@, previous.axes@, i);
        assert(crate::engine::axis_moved(previous.axes@, current.axes@, i));
    }
}

/// An axis that moved by more than 1500 in either direction between two
/// reads is activity.
pub proof fn law_axis_move_is_activity(previous: RawState, current: RawState, i: int)
    requires
        0 <= i < current.axes@.len(),
        0 <= i < previous.axes@.len(),
        current.axes@[i] - previous.axes@[i] > 1500 || previous.axes@[i] - current.axes@[i] > 1500,
    ensures
        activity(previous, current),
{
    assert(crate::engine::axis_moved(previous.axes@, current.axes@, i));
}

/// The four cardinal hat directions.
pub open spec fn is_cardinal(d: HatDirection) -> bool {
    d == HatDirection::Up || d == HatDirection::Right || d == HatDirection::Down || d
        == HatDirection::Left
}

/// Which cardinal directions each hat position presses: a cardinal
/// position presses only itself, each diagonal presses exactly the two
/// cardinal directions it lies between, and the centre presses none.
pub proof fn law_hat_positions(h: HatDirection, d: HatDirection)
    requires
        is_cardinal(d),
    ensures
        is_cardinal(h) ==> (hat_contains(h, d) <==> h == d),
        h == HatDirection::RightUp ==> (hat_contains(h, d) <==> (d == HatDirection::Up || d
            == HatDirection::Right)),
        h == HatDirection::RightDown ==> (hat_contains(h, d) <==> (d == HatDirection::Down || d
            == HatDirection::Right)),
        h == HatDirection::LeftUp ==> (hat_contains(h, d) <==> (d == HatDirection::Up || d
            == HatDirection::Left)),
        h == HatDirection::LeftDown ==> (hat_contains(h, d) <==> (d == HatDirection::Down || d
            == HatDirection::Left)),
        h == HatDirection::Centered ==> !hat_contains(h, d),
{
}

/// Switching the source direction of an axis mapping puts its binding on
/// the asked side of the same axis, whichever side it was on: the switch
/// gives `AxisPositive` for the positive side and `AxisNegative` otherwise,
/// and afterwards the control looks up as the entry with that binding.
pub proof fn law_axis_direction_switch(
    entries: Seq<MappingEntry>,
    control: OutputControl,
    e: MappingEntry,
    index: u32,
    positive: bool,
)
    requires
        lookup_entry(entries, control) == Some(e),
        e.binding == (InputBinding::AxisPositive { index }) || e.binding == (
        InputBinding::AxisNegative { index }),
    ensures
        ({
            let want = if positive {
                InputBinding::AxisPositive { index }
            } else {
                InputBinding::AxisNegative { index }
            };
            &&& crate::model::directed_binding(e.binding, positive) == Some(want)
            &&& lookup_entry(
                edited_entries(entries, control, |m: MappingEntry| MappingEntry { binding: want, ..m }),
                control,
            ) == Some(MappingEntry { binding: want, ..e })
        }),
{
    let want = if positive {
        InputBinding::AxisPositive { index }
    } else {
        InputBinding::AxisNegative { index }
    };
    let f = |m: MappingEntry| MappingEntry { binding: want, ..m };
    assert forall|m: MappingEntry| #[trigger] f(m).control == m.control by {}
    law_edit_then_lookup(entries, control, f, control);
    let i = choose|i: int| is_first_entry(entries, control, i);
    if exists|k: int| is_first_entry(entries, control, k) {
        assert(is_first_entry(entries, control, i));
        lemma_first_entry_unique(entries, control, i);
    }
}

/// A button pressed or released, or a hat moved, between two reads is
/// activity; so is a controller that gained or lost buttons or hats.
pub proof fn law_button_or_hat_change_is_activity(previous: RawState, current: RawState, i: int)
    ensures
        0 <= i < current.buttons@.len() && 0 <= i < previous.buttons@.len()
            && current.buttons@[i] != previous.buttons@[i] ==> activity(previous, current),
        0 <= i < current.hats@.len() && 0 <= i < previous.hats@.len() && current.hats@[i]
            != previous.hats@[i] ==> activity(previous, current),
        current.buttons@.len() != previous.buttons@.len() ==> activity(previous, current),
        current.hats@.len() != previous.hats@.len() ==> activity(previous, current),
{
}

} // verus!
