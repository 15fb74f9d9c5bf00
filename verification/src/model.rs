//! The data model: physical devices and their raw state, input bindings,
//! virtual Xbox 360 output controls, mapping entries and controller profiles.
use vstd::prelude::*;

use crate::text::{decimal, push_decimal};

verus! {

/// A physical controller as enumerated by the input backend.
#[derive(Clone, Debug, Default, PartialEq, Eq)]
pub struct DeviceDescriptor {
    pub instance_id: u32,
    pub name: String,
    pub guid: String,
    pub axes: u32,
    pub buttons: u32,
    pub hats: u32,
}

/// Position of a point-of-view hat.
#[derive(Clone, Copy, Debug, Default, PartialEq, Eq, Structural)]
pub enum HatDirection {
    #[default]
    Centered,
    Up,
    Right,
    Down,
    Left,
    RightUp,
    RightDown,
    LeftUp,
    LeftDown,
}

/// The display name of a hat direction.
pub open spec fn hat_label(h: HatDirection) -> Seq<char> {
    match h {
        HatDirection::Centered => "Centered"@,
        HatDirection::Up => "Up"@,
        HatDirection::Right => "Right"@,
        HatDirection::Down => "Down"@,
        HatDirection::Left => "Left"@,
        HatDirection::RightUp => "Up + Right"@,
        HatDirection::RightDown => "Down + Right"@,
        HatDirection::LeftUp => "Up + Left"@,
        HatDirection::LeftDown => "Down + Left"@,
    }
}

/// Whether hat position `h` counts as pressing `expected`: a cardinal
/// direction is pressed by itself and by both diagonals next to it; any
/// other expected value is pressed only by exactly that position.
pub open spec fn hat_contains(h: HatDirection, expected: HatDirection) -> bool {
    match expected {
        HatDirection::Up => h == HatDirection::Up || h == HatDirection::RightUp || h
            == HatDirection::LeftUp,
        HatDirection::Right => h == HatDirection::Right || h == HatDirection::RightUp || h
            == HatDirection::RightDown,
        HatDirection::Down => h == HatDirection::Down || h == HatDirection::RightDown || h
            == HatDirection::LeftDown,
        HatDirection::Left => h == HatDirection::Left || h == HatDirection::LeftUp || h
            == HatDirection::LeftDown,
        _ => h == expected,
    }
}

impl HatDirection {
    pub fn label(self) -> (r: &'static str)
        ensures
            r@ == hat_label(self),
    {
        match self {
            HatDirection::Centered => "Centered",
            HatDirection::Up => "Up",
            HatDirection::Right => "Right",
            HatDirection::Down => "Down",
            HatDirection::Left => "Left",
            HatDirection::RightUp => "Up + Right",
            HatDirection::RightDown => "Down + Right",
            HatDirection::LeftUp => "Up + Left",
            HatDirection::LeftDown => "Down + Left",
        }
    }

    pub fn contains(self, expected: HatDirection) -> (r: bool)
        ensures
            r == hat_contains(self, expected),
    {
        match expected {
            HatDirection::Up => matches!(
                self,
                HatDirection::Up | HatDirection::RightUp | HatDirection::LeftUp
            ),
            HatDirection::Right => matches!(
                self,
                HatDirection::Right | HatDirection::RightUp | HatDirection::RightDown
            ),
            HatDirection::Down => matches!(
                self,
                HatDirection::Down | HatDirection::RightDown | HatDirection::LeftDown
            ),
            HatDirection::Left => matches!(
                self,
                HatDirection::Left | HatDirection::LeftUp | HatDirection::LeftDown
            ),
            _ => self == expected,
        }
    }
}

/// A snapshot of a physical controller's axes, buttons and hats.
#[derive(Clone, Debug, Default, PartialEq, Eq)]
pub struct RawState {
    pub axes: Vec<i16>,
    pub buttons: Vec<bool>,
    pub hats: Vec<HatDirection>,
}

/// The physical input that drives one virtual control.
#[derive(Clone, Copy, Debug, Default, PartialEq, Eq, Structural)]
pub enum InputBinding {
    #[default]
    Unmapped,
    Button { index: u32 },
    AxisPositive { index: u32 },
    AxisNegative { index: u32 },
    Hat { index: u32, direction: HatDirection },
}

/// The one-based number shown to users for a zero-based input index.
pub open spec fn shown_number(index: u32) -> Seq<char> {
    decimal((index + 1) as nat)
}

/// The display text of a binding.
pub open spec fn binding_label(b: InputBinding) -> Seq<char> {
    match b {
        InputBinding::Unmapped => "Not mapped"@,
        InputBinding::Button { index } => "Button "@ + shown_number(index),
        InputBinding::AxisPositive { index } => "Axis "@ + shown_number(index) + " +"@,
        InputBinding::AxisNegative { index } => "Axis "@ + shown_number(index) + " -"@,
        InputBinding::Hat { index, direction } => "Hat "@ + shown_number(index) + " "@
            + hat_label(direction),
    }
}

/// The input index a binding refers to, where it has one.
pub open spec fn binding_index(b: InputBinding) -> Option<u32> {
    match b {
        InputBinding::Unmapped => None,
        InputBinding::Button { index } => Some(index),
        InputBinding::AxisPositive { index } => Some(index),
        InputBinding::AxisNegative { index } => Some(index),
        InputBinding::Hat { index, .. } => Some(index),
    }
}

/// A binding whose one-based number fits the 32-bit index type.
pub open spec fn binding_label_fits(b: InputBinding) -> bool {
    match binding_index(b) {
        Some(index) => index < u32::MAX,
        None => true,
    }
}

impl InputBinding {
    pub fn label(&self) -> (r: String)
        requires
            binding_label_fits(*self),
        ensures
            r@ == binding_label(*self),
    {
        match *self {
            InputBinding::Unmapped => String::from_str("Not mapped"),
            InputBinding::Button { index } => {
                let mut s = String::from_str("Button ");
                push_decimal(&mut s, (index + 1) as u64);
                s
            },
            InputBinding::AxisPositive { index } => {
                let mut s = String::from_str("Axis ");
                push_decimal(&mut s, (index + 1) as u64);
                s.append(" +");
                s
            },
            InputBinding::AxisNegative { index } => {
                let mut s = String::from_str("Axis ");
                push_decimal(&mut s, (index + 1) as u64);
                s.append(" -");
                s
            },
            InputBinding::Hat { index, direction } => {
                let mut s = String::from_str("Hat ");
                push_decimal(&mut s, (index + 1) as u64);
                s.append(" ");
                s.append(direction.label());
                s
            },
        }
    }
}

/// A control of the virtual Xbox 360 controller.
#[derive(Clone, Copy, Debug, Default, PartialEq, Eq, Hash, Structural)]
pub enum OutputControl {
    #[default]
    A,
    B,
    X,
    Y,
    LeftShoulder,
    RightShoulder,
    Back,
    Start,
    Guide,
    LeftThumb,
    RightThumb,
    DpadUp,
    DpadRight,
    DpadDown,
    DpadLeft,
    LeftTrigger,
    RightTrigger,
    LeftStickX,
    LeftStickY,
    RightStickX,
    RightStickY,
}

/// The digital controls, in report order.
pub open spec fn button_controls() -> Seq<OutputControl> {
    seq![
        OutputControl::A,
        OutputControl::B,
        OutputControl::X,
        OutputControl::Y,
        OutputControl::LeftShoulder,
        OutputControl::RightShoulder,
        OutputControl::Back,
        OutputControl::Start,
        OutputControl::Guide,
        OutputControl::LeftThumb,
        OutputControl::RightThumb,
        OutputControl::DpadUp,
        OutputControl::DpadRight,
        OutputControl::DpadDown,
        OutputControl::DpadLeft,
    ]
}

/// The analog controls: both triggers and the four stick axes.
pub open spec fn analog_controls() -> Seq<OutputControl> {
    seq![
        OutputControl::LeftTrigger,
        OutputControl::RightTrigger,
        OutputControl::LeftStickX,
        OutputControl::LeftStickY,
        OutputControl::RightStickX,
        OutputControl::RightStickY,
    ]
}

/// The display name of an output control.
pub open spec fn control_label(c: OutputControl) -> Seq<char> {
    match c {
        OutputControl::A => "A"@,
        OutputControl::B => "B"@,
        OutputControl::X => "X"@,
        OutputControl::Y => "Y"@,
        OutputControl::LeftShoulder => "Left shoulder"@,
        OutputControl::RightShoulder => "Right shoulder"@,
        OutputControl::Back => "Back"@,
        OutputControl::Start => "Start"@,
        OutputControl::Guide => "Guide"@,
        OutputControl::LeftThumb => "Left stick click"@,
        OutputControl::RightThumb => "Right stick click"@,
        OutputControl::DpadUp => "D-pad up"@,
        OutputControl::DpadRight => "D-pad right"@,
        OutputControl::DpadDown => "D-pad down"@,
        OutputControl::DpadLeft => "D-pad left"@,
        OutputControl::LeftTrigger => "Left trigger"@,
        OutputControl::RightTrigger => "Right trigger"@,
        OutputControl::LeftStickX => "Left stick X"@,
        OutputControl::LeftStickY => "Left stick Y"@,
        OutputControl::RightStickX => "Right stick X"@,
        OutputControl::RightStickY => "Right stick Y"@,
    }
}

/// The four stick axes.
pub open spec fn control_is_axis(c: OutputControl) -> bool {
    c == OutputControl::LeftStickX || c == OutputControl::LeftStickY || c
        == OutputControl::RightStickX || c == OutputControl::RightStickY
}

/// The two triggers.
pub open spec fn control_is_trigger(c: OutputControl) -> bool {
    c == OutputControl::LeftTrigger || c == OutputControl::RightTrigger
}

impl OutputControl {
    /// The digital controls, in report order.
    pub fn buttons() -> (r: Vec<OutputControl>)
        ensures
            r@ == button_controls(),
    {
        let r = vec![
            OutputControl::A,
            OutputControl::B,
            OutputControl::X,
            OutputControl::Y,
            OutputControl::LeftShoulder,
            OutputControl::RightShoulder,
            OutputControl::Back,
            OutputControl::Start,
            OutputControl::Guide,
            OutputControl::LeftThumb,
            OutputControl::RightThumb,
            OutputControl::DpadUp,
            OutputControl::DpadRight,
            OutputControl::DpadDown,
            OutputControl::DpadLeft,
        ];
        proof {
            assert(r@ =~= button_controls());
        }
        r
    }

    /// The analog controls: both triggers and the four stick axes.
    pub fn analogs() -> (r: Vec<OutputControl>)
        ensures
            r@ == analog_controls(),
    {
        let r = vec![
            OutputControl::LeftTrigger,
            OutputControl::RightTrigger,
            OutputControl::LeftStickX,
            OutputControl::LeftStickY,
            OutputControl::RightStickX,
            OutputControl::RightStickY,
        ];
        proof {
            assert(r@ =~= analog_controls());
        }
        r
    }

    pub fn label(self) -> (r: &'static str)
        ensures
            r@ == control_label(self),
    {
        match self {
            OutputControl::A => "A",
            OutputControl::B => "B",
            OutputControl::X => "X",
            OutputControl::Y => "Y",
            OutputControl::LeftShoulder => "Left shoulder",
            OutputControl::RightShoulder => "Right shoulder",
            OutputControl::Back => "Back",
            OutputControl::Start => "Start",
            OutputControl::Guide => "Guide",
            OutputControl::LeftThumb => "Left stick click",
            OutputControl::RightThumb => "Right stick click",
            OutputControl::DpadUp => "D-pad up",
            OutputControl::DpadRight => "D-pad right",
            OutputControl::DpadDown => "D-pad down",
            OutputControl::DpadLeft => "D-pad left",
            OutputControl::LeftTrigger => "Left trigger",
            OutputControl::RightTrigger => "Right trigger",
            OutputControl::LeftStickX => "Left stick X",
            OutputControl::LeftStickY => "Left stick Y",
            OutputControl::RightStickX => "Right stick X",
            OutputControl::RightStickY => "Right stick Y",
        }
    }

    pub fn is_axis(self) -> (r: bool)
        ensures
            r == control_is_axis(self),
    {
        matches!(
            self,
            OutputControl::LeftStickX | OutputControl::LeftStickY | OutputControl::RightStickX
                | OutputControl::RightStickY
        )
    }

    pub fn is_trigger(self) -> (r: bool)
        ensures
            r == control_is_trigger(self),
    {
        matches!(self, OutputControl::LeftTrigger | OutputControl::RightTrigger)
    }
}

/// The bit pattern of the single-precision deadzone a new mapping starts
/// with (0.12).
pub open spec fn default_deadzone_bits_spec() -> u32 {
    0x3df5_c28f
}

/// The bit pattern of the single-precision saturation a new mapping starts
/// with (1.0).
pub open spec fn default_saturation_bits_spec() -> u32 {
    0x3f80_0000
}

pub fn default_deadzone() -> (r: u32)
    ensures
        r == default_deadzone_bits_spec(),
{
    0x3df5_c28f
}

pub fn default_saturation() -> (r: u32)
    ensures
        r == default_saturation_bits_spec(),
{
    0x3f80_0000
}

/// How one virtual control is produced from a physical input.
///
/// The deadzone and saturation are single-precision numbers in the unit
/// range; the library only stores and copies them, so they are kept as
/// their IEEE-754 bit patterns (`f32::to_bits`), which round-trip exactly.
#[derive(Clone, Copy, Debug, PartialEq, Eq, Structural)]
pub struct MappingEntry {
    pub control: OutputControl,
    pub binding: InputBinding,
    pub invert: bool,
    pub centered_axis: bool,
    pub deadzone_bits: u32,
    pub saturation_bits: u32,
}

/// The entry a new mapping starts as: vertical stick axes are inverted
/// (stick up is positive on the virtual pad), nothing else is.
pub open spec fn new_entry(control: OutputControl, binding: InputBinding) -> MappingEntry {
    MappingEntry {
        control,
        binding,
        invert: control == OutputControl::LeftStickY || control == OutputControl::RightStickY,
        centered_axis: false,
        deadzone_bits: default_deadzone_bits_spec(),
        saturation_bits: default_saturation_bits_spec(),
    }
}

impl MappingEntry {
    pub fn new(control: OutputControl, binding: InputBinding) -> (r: MappingEntry)
        ensures
            r == new_entry(control, binding),
    {
        MappingEntry {
            control,
            binding,
            invert: matches!(control, OutputControl::LeftStickY | OutputControl::RightStickY),
            centered_axis: false,
            deadzone_bits: default_deadzone(),
            saturation_bits: default_saturation(),
        }
    }
}

/// The mappings of one physical controller.
#[derive(Clone, Debug)]
pub struct ControllerProfile {
    pub name: String,
    pub device_guid: String,
    pub entries: Vec<MappingEntry>,
}

/// `i` is the position of the first entry for `control`.
pub open spec fn is_first_entry(entries: Seq<MappingEntry>, control: OutputControl, i: int) -> bool {
    &&& 0 <= i < entries.len()
    &&& entries[i].control == control
    &&& forall|j: int| 0 <= j < i ==> entries[j].control != control
}

/// The position of the first entry for `control`, if there is one.
pub open spec fn entry_position(entries: Seq<MappingEntry>, control: OutputControl) -> Option<int> {
    if exists|i: int| is_first_entry(entries, control, i) {
        Some(choose|i: int| is_first_entry(entries, control, i))
    } else {
        None
    }
}

/// The entry that governs `control`: the first one for it.
pub open spec fn lookup_entry(entries: Seq<MappingEntry>, control: OutputControl) -> Option<
    MappingEntry,
> {
    match entry_position(entries, control) {
        Some(i) => Some(entries[i]),
        None => None,
    }
}

/// The mappings a new profile starts with: the usual layout of a
/// DirectInput pad (face buttons 1-4, shoulders 5-6, back/start/guide 7-9,
/// stick clicks 10-11, d-pad on the first hat, triggers on axes 5-6 and the
/// sticks on axes 1-4).
pub open spec fn default_entries() -> Seq<MappingEntry> {
    seq![
        new_entry(OutputControl::A, InputBinding::Button { index: 0 }),
        new_entry(OutputControl::B, InputBinding::Button { index: 1 }),
        new_entry(OutputControl::X, InputBinding::Button { index: 2 }),
        new_entry(OutputControl::Y, InputBinding::Button { index: 3 }),
        new_entry(OutputControl::LeftShoulder, InputBinding::Button { index: 4 }),
        new_entry(OutputControl::RightShoulder, InputBinding::Button { index: 5 }),
        new_entry(OutputControl::Back, InputBinding::Button { index: 6 }),
        new_entry(OutputControl::Start, InputBinding::Button { index: 7 }),
        new_entry(OutputControl::Guide, InputBinding::Button { index: 8 }),
        new_entry(OutputControl::LeftThumb, InputBinding::Button { index: 9 }),
        new_entry(OutputControl::RightThumb, InputBinding::Button { index: 10 }),
        new_entry(
            OutputControl::DpadUp,
            InputBinding::Hat { index: 0, direction: HatDirection::Up },
        ),
        new_entry(
            OutputControl::DpadRight,
            InputBinding::Hat { index: 0, direction: HatDirection::Right },
        ),
        new_entry(
            OutputControl::DpadDown,
            InputBinding::Hat { index: 0, direction: HatDirection::Down },
        ),
        new_entry(
            OutputControl::DpadLeft,
            InputBinding::Hat { index: 0, direction: HatDirection::Left },
        ),
        new_entry(OutputControl::LeftTrigger, InputBinding::AxisPositive { index: 4 }),
        new_entry(OutputControl::RightTrigger, InputBinding::AxisPositive { index: 5 }),
        new_entry(OutputControl::LeftStickX, InputBinding::AxisPositive { index: 0 }),
        new_entry(OutputControl::LeftStickY, InputBinding::AxisPositive { index: 1 }),
        new_entry(OutputControl::RightStickX, InputBinding::AxisPositive { index: 2 }),
        new_entry(OutputControl::RightStickY, InputBinding::AxisPositive { index: 3 }),
    ]
}

impl ControllerProfile {
    /// A copy of this profile with the same name, device and entries.
    pub fn duplicate(&self) -> (r: ControllerProfile)
        ensures
            r.name@ == self.name@,
            r.device_guid@ == self.device_guid@,
            r.entries@ == self.entries@,
    {
        ControllerProfile {
            name: self.name.clone(),
            device_guid: self.device_guid.clone(),
            entries: self.entries.clone(),
        }
    }

    pub fn default_for(device_guid: String) -> (r: ControllerProfile)
        ensures
            r.name@ == "Default profile"@,
            r.device_guid == device_guid,
            r.entries@ == default_entries(),
    {
        let entries = vec![
            MappingEntry::new(OutputControl::A, InputBinding::Button { index: 0 }),
            MappingEntry::new(OutputControl::B, InputBinding::Button { index: 1 }),
            MappingEntry::new(OutputControl::X, InputBinding::Button { index: 2 }),
            MappingEntry::new(OutputControl::Y, InputBinding::Button { index: 3 }),
            MappingEntry::new(OutputControl::LeftShoulder, InputBinding::Button { index: 4 }),
            MappingEntry::new(OutputControl::RightShoulder, InputBinding::Button { index: 5 }),
            MappingEntry::new(OutputControl::Back, InputBinding::Button { index: 6 }),
            MappingEntry::new(OutputControl::Start, InputBinding::Button { index: 7 }),
            MappingEntry::new(OutputControl::Guide, InputBinding::Button { index: 8 }),
            MappingEntry::new(OutputControl::LeftThumb, InputBinding::Button { index: 9 }),
            MappingEntry::new(OutputControl::RightThumb, InputBinding::Button { index: 10 }),
            MappingEntry::new(
                OutputControl::DpadUp,
                InputBinding::Hat { index: 0, direction: HatDirection::Up },
            ),
            MappingEntry::new(
                OutputControl::DpadRight,
                InputBinding::Hat { index: 0, direction: HatDirection::Right },
            ),
            MappingEntry::new(
                OutputControl::DpadDown,
                InputBinding::Hat { index: 0, direction: HatDirection::Down },
            ),
            MappingEntry::new(
                OutputControl::DpadLeft,
                InputBinding::Hat { index: 0, direction: HatDirection::Left },
            ),
            MappingEntry::new(OutputControl::LeftTrigger, InputBinding::AxisPositive { index: 4 }),
            MappingEntry::new(OutputControl::RightTrigger, InputBinding::AxisPositive { index: 5 }),
            MappingEntry::new(OutputControl::LeftStickX, InputBinding::AxisPositive { index: 0 }),
            MappingEntry::new(OutputControl::LeftStickY, InputBinding::AxisPositive { index: 1 }),
            MappingEntry::new(OutputControl::RightStickX, InputBinding::AxisPositive { index: 2 }),
            MappingEntry::new(OutputControl::RightStickY, InputBinding::AxisPositive { index: 3 }),
        ];
        proof {
            assert(entries@ =~= default_entries());
        }
        ControllerProfile { name: String::from_str("Default profile"), device_guid, entries }
    }

    /// The position of the first entry for `control`.
    pub fn position(&self, control: OutputControl) -> (r: Option<usize>)
        ensures
            match r {
                Some(i) => entry_position(self.entries@, control) == Some(i as int),
                None => entry_position(self.entries@, control) is None,
            },
    {
        let mut i: usize = 0;
        while i < self.entries.len()
            invariant
                i <= self.entries@.len(),
                forall|j: int| 0 <= j < i ==> self.entries@[j].control != control,
            decreases self.entries.len() - i,
        {
            if self.entries[i].control == control {
                proof {
                    lemma_first_entry_unique(self.entries@, control, i as int);
                }
                return Some(i);
            }
            i = i + 1;
        }
        proof {
            assert(!exists|k: int| is_first_entry(self.entries@, control, k));
        }
        None
    }

    pub fn entry(&self, control: OutputControl) -> (r: Option<&MappingEntry>)
        ensures
            match r {
                Some(e) => lookup_entry(self.entries@, control) == Some(*e),
                None => lookup_entry(self.entries@, control) is None,
            },
    {
        match self.position(control) {
            Some(i) => Some(&self.entries[i]),
            None => None,
        }
    }

    /// The entry for `control`, created unbound at the end when the profile
    /// has none.
    pub fn entry_mut(&mut self, control: OutputControl) -> (r: &mut MappingEntry)
        ensures
            final(self).name == old(self).name,
            final(self).device_guid == old(self).device_guid,
            match entry_position(old(self).entries@, control) {
                Some(i) => {
                    &&& *r == old(self).entries@[i]
                    &&& final(self).entries@ == old(self).entries@.update(i, *final(r))
                },
                None => {
                    &&& *r == new_entry(control, InputBinding::Unmapped)
                    &&& final(self).entries@ == old(self).entries@.push(*final(r))
                },
            },
    {
        match self.position(control) {
            Some(i) => &mut self.entries[i],
            None => {
                self.entries.push(MappingEntry::new(control, InputBinding::Unmapped));
                let last = self.entries.len() - 1;
                &mut self.entries[last]
            },
        }
    }
}

/// Axis positions this close to centre at the start of learning mark a
/// trigger as sharing one centred axis with the other trigger.
pub const CENTERED_AXIS_LIMIT: u32 = 8000;

/// The axis at `i` of a state, centred when missing.
pub open spec fn axis_or_zero(axes: Seq<i16>, i: int) -> int {
    if 0 <= i < axes.len() {
        axes[i] as int
    } else {
        0
    }
}

/// A trigger learned from an axis that rested near centre when learning
/// began is a split (centred) axis.
pub open spec fn learned_centered(control: OutputControl, binding: InputBinding, baseline: RawState) -> bool {
    control_is_trigger(control) && match binding {
        InputBinding::AxisPositive { index } => {
            let v = axis_or_zero(baseline.axes@, index as int);
            (if v < 0 {
                -v
            } else {
                v
            }) < CENTERED_AXIS_LIMIT
        },
        InputBinding::AxisNegative { index } => {
            let v = axis_or_zero(baseline.axes@, index as int);
            (if v < 0 {
                -v
            } else {
                v
            }) < CENTERED_AXIS_LIMIT
        },
        _ => false,
    }
}

/// An entry after learning `binding`: the binding and the split-axis flag
/// are set; a stick axis takes the asked output direction, a trigger is
/// never inverted, a button keeps its inversion.
pub open spec fn learned_entry(
    e: MappingEntry,
    control: OutputControl,
    binding: InputBinding,
    baseline: RawState,
    output_negative: bool,
) -> MappingEntry {
    MappingEntry {
        binding,
        centered_axis: learned_centered(control, binding, baseline),
        invert: if control_is_axis(control) {
            output_negative
        } else if control_is_trigger(control) {
            false
        } else {
            e.invert
        },
        ..e
    }
}

/// The entries after the entry for `control` (created unbound when
/// missing) is changed by `f`.
pub open spec fn edited_entries(
    entries: Seq<MappingEntry>,
    control: OutputControl,
    f: spec_fn(MappingEntry) -> MappingEntry,
) -> Seq<MappingEntry> {
    match entry_position(entries, control) {
        Some(i) => entries.update(i, f(entries[i])),
        None => entries.push(f(new_entry(control, InputBinding::Unmapped))),
    }
}

/// The direction-switched binding: an axis binding takes the asked
/// direction; other bindings have none.
pub open spec fn directed_binding(binding: InputBinding, positive: bool) -> Option<InputBinding> {
    match binding {
        InputBinding::AxisPositive { index } => Some(
            if positive {
                InputBinding::AxisPositive { index }
            } else {
                InputBinding::AxisNegative { index }
            },
        ),
        InputBinding::AxisNegative { index } => Some(
            if positive {
                InputBinding::AxisPositive { index }
            } else {
                InputBinding::AxisNegative { index }
            },
        ),
        _ => None,
    }
}

fn axis_magnitude_at(axes: &Vec<i16>, index: u32) -> (r: u32)
    ensures
        r as int == (if axis_or_zero(axes@, index as int) < 0 {
            -axis_or_zero(axes@, index as int)
        } else {
            axis_or_zero(axes@, index as int)
        }),
{
    let i = index as usize;
    let v: i16 = if i < axes.len() {
        axes[i]
    } else {
        0
    };
    if v < 0 {
        ((-(v as i32)) as u32)
    } else {
        v as u32
    }
}

impl ControllerProfile {
    /// Records a learned binding for `control`.
    pub fn learn_binding(
        &mut self,
        control: OutputControl,
        binding: InputBinding,
        baseline: &RawState,
        output_negative: bool,
    )
        ensures
            final(self).name == old(self).name,
            final(self).device_guid == old(self).device_guid,
            final(self).entries@ == edited_entries(
                old(self).entries@,
                control,
                |e: MappingEntry| learned_entry(e, control, binding, *baseline, output_negative),
            ),
    {
        let centered_axis = if control.is_trigger() {
            match binding {
                InputBinding::AxisPositive { index } => axis_magnitude_at(&baseline.axes, index)
                    < CENTERED_AXIS_LIMIT,
                InputBinding::AxisNegative { index } => axis_magnitude_at(&baseline.axes, index)
                    < CENTERED_AXIS_LIMIT,
                _ => false,
            }
        } else {
            false
        };
        let is_axis = control.is_axis();
        let is_trigger = control.is_trigger();
        let mapping = self.entry_mut(control);
        mapping.binding = binding;
        mapping.centered_axis = centered_axis;
        if is_axis {
            mapping.invert = output_negative;
        } else if is_trigger {
            mapping.invert = false;
        }
        proof {
            let f = |e: MappingEntry| learned_entry(e, control, binding, *baseline, output_negative);
            assert(final(self).entries@ =~= edited_entries(old(self).entries@, control, f));
        }
    }

    /// Removes the binding of `control`; the entry (created when missing)
    /// stays, unbound.
    pub fn clear_binding(&mut self, control: OutputControl)
        ensures
            final(self).name == old(self).name,
            final(self).device_guid == old(self).device_guid,
            final(self).entries@ == edited_entries(
                old(self).entries@,
                control,
                |e: MappingEntry| MappingEntry { binding: InputBinding::Unmapped, ..e },
            ),
    {
        let mapping = self.entry_mut(control);
        mapping.binding = InputBinding::Unmapped;
        proof {
            let f = |e: MappingEntry| MappingEntry { binding: InputBinding::Unmapped, ..e };
            assert(final(self).entries@ =~= edited_entries(old(self).entries@, control, f));
        }
    }

    /// Switches an axis binding of `control` to the positive or negative
    /// side of its axis. The entry is created when missing; bindings other
    /// than axes are left alone. The result says whether the binding
    /// changed.
    pub fn set_axis_direction(&mut self, control: OutputControl, positive: bool) -> (r: bool)
        ensures
            final(self).name == old(self).name,
            final(self).device_guid == old(self).device_guid,
            ({
                let e = match entry_position(old(self).entries@, control) {
                    Some(i) => old(self).entries@[i],
                    None => new_entry(control, InputBinding::Unmapped),
                };
                match directed_binding(e.binding, positive) {
                    Some(next) => {
                        &&& r == (next != e.binding)
                        &&& final(self).entries@ == edited_entries(
                            old(self).entries@,
                            control,
                            |m: MappingEntry| MappingEntry { binding: next, ..m },
                        )
                    },
                    None => {
                        &&& !r
                        &&& final(self).entries@ == edited_entries(
                            old(self).entries@,
                            control,
                            |m: MappingEntry| m,
                        )
                    },
                }
            }),
    {
        let mapping = self.entry_mut(control);
        let next = match mapping.binding {
            InputBinding::AxisPositive { index } => if positive {
                InputBinding::AxisPositive { index }
            } else {
                InputBinding::AxisNegative { index }
            },
            InputBinding::AxisNegative { index } => if positive {
                InputBinding::AxisPositive { index }
            } else {
                InputBinding::AxisNegative { index }
            },
            _ => {
                proof {
                    let f = |m: MappingEntry| m;
                    assert(final(self).entries@ =~= edited_entries(old(self).entries@, control, f));
                }
                return false;
            },
        };
        if mapping.binding == next {
            proof {
                let f = |m: MappingEntry| MappingEntry { binding: next, ..m };
                assert(final(self).entries@ =~= edited_entries(old(self).entries@, control, f));
            }
            false
        } else {
            mapping.binding = next;
            proof {
                let f = |m: MappingEntry| MappingEntry { binding: next, ..m };
                assert(final(self).entries@ =~= edited_entries(old(self).entries@, control, f));
            }
            true
        }
    }
}

/// A first entry for a control is the only one.
pub proof fn lemma_first_entry_unique(entries: Seq<MappingEntry>, control: OutputControl, i: int)
    requires
        is_first_entry(entries, control, i),
    ensures
        entry_position(entries, control) == Some(i),
{
    let k = choose|k: int| is_first_entry(entries, control, k);
    assert(is_first_entry(entries, control, k));
    if k < i {
        assert(entries[k].control != control);
    } else if i < k {
        assert(entries[i].control != control);
    }
}

/// What the controller engine reports to the user interface.
#[derive(Clone, Debug, Default)]
pub struct RuntimeSnapshot {
    pub devices: Vec<DeviceDescriptor>,
    pub selected_instance_id: Option<u32>,
    pub raw_state: RawState,
    pub virtual_connected: bool,
    pub forwarding_active: bool,
    pub driver_installed: bool,
    pub last_error: Option<String>,
    pub last_controller_activity_sequence: u64,
}

} // verus!
