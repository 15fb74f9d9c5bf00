//! What the main window and the tray show: control captions, the live
//! input summary, status chips, and when the window moves itself to the
//! tray.
use vstd::prelude::*;

use crate::mapper::{first_index, lemma_first_index_is, lemma_first_index_none};
use crate::model::{hat_label, HatDirection, InputBinding, OutputControl, RawState, control_label};
use crate::text::{decimal, push_char, push_decimal};

verus! {

/// The caption of a control on the controller picture.
pub open spec fn short_label(c: OutputControl) -> Seq<char> {
    match c {
        OutputControl::A => "A"@,
        OutputControl::B => "B"@,
        OutputControl::X => "X"@,
        OutputControl::Y => "Y"@,
        OutputControl::LeftShoulder => "LB"@,
        OutputControl::RightShoulder => "RB"@,
        OutputControl::Back => "◀"@,
        OutputControl::Start => "▶"@,
        OutputControl::Guide => "X"@,
        OutputControl::LeftThumb => "L3"@,
        OutputControl::RightThumb => "R3"@,
        OutputControl::DpadUp => "↑"@,
        OutputControl::DpadRight => "→"@,
        OutputControl::DpadDown => "↓"@,
        OutputControl::DpadLeft => "←"@,
        OutputControl::LeftTrigger => "LT"@,
        OutputControl::RightTrigger => "RT"@,
        OutputControl::LeftStickX => "LX"@,
        OutputControl::LeftStickY => "LY"@,
        OutputControl::RightStickX => "RX"@,
        OutputControl::RightStickY => "RY"@,
    }
}

pub fn short_control_label(control: OutputControl) -> (r: &'static str)
    ensures
        r@ == short_label(control),
{
    match control {
        OutputControl::A => "A",
        OutputControl::B => "B",
        OutputControl::X => "X",
        OutputControl::Y => "Y",
        OutputControl::LeftShoulder => "LB",
        OutputControl::RightShoulder => "RB",
        OutputControl::Back => "◀",
        OutputControl::Start => "▶",
        OutputControl::Guide => "X",
        OutputControl::LeftThumb => "L3",
        OutputControl::RightThumb => "R3",
        OutputControl::DpadUp => "↑",
        OutputControl::DpadRight => "→",
        OutputControl::DpadDown => "↓",
        OutputControl::DpadLeft => "←",
        OutputControl::LeftTrigger => "LT",
        OutputControl::RightTrigger => "RT",
        OutputControl::LeftStickX => "LX",
        OutputControl::LeftStickY => "LY",
        OutputControl::RightStickX => "RX",
        OutputControl::RightStickY => "RY",
    }
}

/// The caption of a control in the mapping list: short forms for the
/// shoulders, stick clicks, d-pad, triggers and stick axes; the full name
/// otherwise.
pub open spec fn compact_label(c: OutputControl) -> Seq<char> {
    match c {
        OutputControl::LeftShoulder => "LB"@,
        OutputControl::RightShoulder => "RB"@,
        OutputControl::LeftThumb => "L3"@,
        OutputControl::RightThumb => "R3"@,
        OutputControl::DpadUp => "D-pad ↑"@,
        OutputControl::DpadRight => "D-pad →"@,
        OutputControl::DpadDown => "D-pad ↓"@,
        OutputControl::DpadLeft => "D-pad ←"@,
        OutputControl::LeftTrigger => "LT"@,
        OutputControl::RightTrigger => "RT"@,
        OutputControl::LeftStickX => "Left X"@,
        OutputControl::LeftStickY => "Left Y"@,
        OutputControl::RightStickX => "Right X"@,
        OutputControl::RightStickY => "Right Y"@,
        _ => control_label(c),
    }
}

pub fn compact_control_label(control: OutputControl) -> (r: &'static str)
    ensures
        r@ == compact_label(control),
{
    match control {
        OutputControl::LeftShoulder => "LB",
        OutputControl::RightShoulder => "RB",
        OutputControl::LeftThumb => "L3",
        OutputControl::RightThumb => "R3",
        OutputControl::DpadUp => "D-pad ↑",
        OutputControl::DpadRight => "D-pad →",
        OutputControl::DpadDown => "D-pad ↓",
        OutputControl::DpadLeft => "D-pad ←",
        OutputControl::LeftTrigger => "LT",
        OutputControl::RightTrigger => "RT",
        OutputControl::LeftStickX => "Left X",
        OutputControl::LeftStickY => "Left Y",
        OutputControl::RightStickX => "Right X",
        OutputControl::RightStickY => "Right Y",
        _ => control.label(),
    }
}

/// A text cut to at most `max_chars` characters: longer texts keep their
/// first `max_chars - 1` characters and end in `…`.
pub open spec fn ellipsized(value: Seq<char>, max_chars: nat) -> Seq<char> {
    if value.len() <= max_chars {
        value
    } else {
        value.subrange(0, if max_chars > 0 {
            max_chars - 1
        } else {
            0
        }).push('…')
    }
}

pub fn ellipsize(value: &str, max_chars: usize) -> (r: String)
    ensures
        r@ == ellipsized(value@, max_chars as nat),
{
    let count = value.unicode_len();
    if count <= max_chars {
        return String::from_str(value);
    }
    let keep = if max_chars > 0 {
        max_chars - 1
    } else {
        0
    };
    let mut shortened = String::from_str(value.substring_char(0, keep));
    push_char(&mut shortened, '…');
    shortened
}

/// Smallest raw axis value shown as moved in the positive direction.
pub const LIVE_AXIS_POSITIVE: i16 = 5899;

/// Largest raw axis value shown as moved in the negative direction.
pub const LIVE_AXIS_NEGATIVE: i16 = -5899;

pub open spec fn axis_shown(v: i16) -> bool {
    v >= LIVE_AXIS_POSITIVE || v <= LIVE_AXIS_NEGATIVE
}

pub open spec fn pressed_buttons(raw: RawState) -> spec_fn(int) -> bool {
    |i: int| raw.buttons@[i]
}

pub open spec fn moved_axes(raw: RawState) -> spec_fn(int) -> bool {
    |i: int| axis_shown(raw.axes@[i])
}

pub open spec fn moved_hats(raw: RawState) -> spec_fn(int) -> bool {
    |i: int| raw.hats@[i] != HatDirection::Centered
}

/// The one input the live panel names: the first pressed button, else the
/// first axis out of its rest zone (more than 18% of travel) with its
/// direction, else the first hat off centre with its position, else `none`.
pub open spec fn live_input_text(raw: RawState) -> Seq<char> {
    match first_index(pressed_buttons(raw), raw.buttons@.len() as int) {
        Some(i) => "Button "@ + decimal((i + 1) as nat),
        None => match first_index(moved_axes(raw), raw.axes@.len() as int) {
            Some(i) => if raw.axes@[i] >= LIVE_AXIS_POSITIVE {
                "Axis "@ + decimal((i + 1) as nat) + " +"@
            } else {
                "Axis "@ + decimal((i + 1) as nat) + " -"@
            },
            None => match first_index(moved_hats(raw), raw.hats@.len() as int) {
                Some(i) => "Hat "@ + decimal((i + 1) as nat) + " "@ + hat_label(raw.hats@[i]),
                None => "none"@,
            },
        },
    }
}

pub fn primary_live_input_label(raw: &RawState) -> (r: String)
    ensures
        r@ == live_input_text(*raw),
{
    let ghost buttons = pressed_buttons(*raw);
    let ghost axes = moved_axes(*raw);
    let ghost hats = moved_hats(*raw);
    let mut index: usize = 0;
    while index < raw.buttons.len()
        invariant
            buttons == pressed_buttons(*raw),
            index <= raw.buttons@.len(),
            forall|j: int| 0 <= j < index ==> !#[trigger] buttons(j),
        decreases raw.buttons.len() - index,
    {
        assert(buttons(index as int) == raw.buttons@[index as int]);
        if raw.buttons[index] {
            proof {
                lemma_first_index_is(buttons, raw.buttons@.len() as int, index as int);
            }
            let mut s = String::from_str("Button ");
            push_decimal(&mut s, index as u64 + 1);
            return s;
        }
        index = index + 1;
    }
    proof {
        lemma_first_index_none(buttons, raw.buttons@.len() as int);
    }
    let mut index: usize = 0;
    while index < raw.axes.len()
        invariant
            axes == moved_axes(*raw),
            first_index(pressed_buttons(*raw), raw.buttons@.len() as int) is None,
            index <= raw.axes@.len(),
            forall|j: int| 0 <= j < index ==> !#[trigger] axes(j),
        decreases raw.axes.len() - index,
    {
        let value = raw.axes[index];
        assert(axes(index as int) == axis_shown(value));
        if value >= LIVE_AXIS_POSITIVE {
            proof {
                lemma_first_index_is(axes, raw.axes@.len() as int, index as int);
            }
            let mut s = String::from_str("Axis ");
            push_decimal(&mut s, index as u64 + 1);
            s.append(" +");
            return s;
        }
        if value <= LIVE_AXIS_NEGATIVE {
            proof {
                lemma_first_index_is(axes, raw.axes@.len() as int, index as int);
            }
            let mut s = String::from_str("Axis ");
            push_decimal(&mut s, index as u64 + 1);
            s.append(" -");
            return s;
        }
        index = index + 1;
    }
    proof {
        lemma_first_index_none(axes, raw.axes@.len() as int);
    }
    let mut index: usize = 0;
    while index < raw.hats.len()
        invariant
            hats == moved_hats(*raw),
            first_index(pressed_buttons(*raw), raw.buttons@.len() as int) is None,
            first_index(moved_axes(*raw), raw.axes@.len() as int) is None,
            index <= raw.hats@.len(),
            forall|j: int| 0 <= j < index ==> !#[trigger] hats(j),
        decreases raw.hats.len() - index,
    {
        let hat = raw.hats[index];
        assert(hats(index as int) == (hat != HatDirection::Centered));
        if hat != HatDirection::Centered {
            proof {
                lemma_first_index_is(hats, raw.hats@.len() as int, index as int);
            }
            let mut s = String::from_str("Hat ");
            push_decimal(&mut s, index as u64 + 1);
            s.append(" ");
            s.append(hat.label());
            return s;
        }
        index = index + 1;
    }
    proof {
        lemma_first_index_none(hats, raw.hats@.len() as int);
    }
    String::from_str("none")
}

/// The source direction of an axis binding: `true` for the positive side.
pub fn axis_binding_positive(binding: InputBinding) -> (r: Option<bool>)
    ensures
        r == match binding {
            InputBinding::AxisPositive { .. } => Some(true),
            InputBinding::AxisNegative { .. } => Some(false),
            _ => None::<bool>,
        },
{
    match binding {
        InputBinding::AxisPositive { .. } => Some(true),
        InputBinding::AxisNegative { .. } => Some(false),
        _ => None,
    }
}

/// The state the status bar reports.
#[derive(Clone, Copy, Debug, PartialEq, Eq, Structural)]
pub enum RuntimeStatus {
    DriverMissing,
    Configuring,
    Forwarding,
    Paused,
    Waiting,
}

/// The status bar's state: a missing driver first, then isolation while
/// configuring, then an active virtual controller, then paused output,
/// and otherwise waiting for a controller.
pub open spec fn runtime_status_spec(
    driver_installed: bool,
    window_visible: bool,
    forward_only_in_tray: bool,
    virtual_connected: bool,
    emulation_enabled: bool,
) -> RuntimeStatus {
    if !driver_installed {
        RuntimeStatus::DriverMissing
    } else if window_visible && forward_only_in_tray {
        RuntimeStatus::Configuring
    } else if virtual_connected {
        RuntimeStatus::Forwarding
    } else if !emulation_enabled {
        RuntimeStatus::Paused
    } else {
        RuntimeStatus::Waiting
    }
}

pub fn runtime_status(
    driver_installed: bool,
    window_visible: bool,
    forward_only_in_tray: bool,
    virtual_connected: bool,
    emulation_enabled: bool,
) -> (r: RuntimeStatus)
    ensures
        r == runtime_status_spec(
            driver_installed,
            window_visible,
            forward_only_in_tray,
            virtual_connected,
            emulation_enabled,
        ),
{
    if !driver_installed {
        RuntimeStatus::DriverMissing
    } else if window_visible && forward_only_in_tray {
        RuntimeStatus::Configuring
    } else if virtual_connected {
        RuntimeStatus::Forwarding
    } else if !emulation_enabled {
        RuntimeStatus::Paused
    } else {
        RuntimeStatus::Waiting
    }
}

pub open spec fn runtime_status_text(s: RuntimeStatus) -> Seq<char> {
    match s {
        RuntimeStatus::DriverMissing => "driver missing"@,
        RuntimeStatus::Configuring => "configuring"@,
        RuntimeStatus::Forwarding => "forwarding"@,
        RuntimeStatus::Paused => "paused"@,
        RuntimeStatus::Waiting => "waiting"@,
    }
}

impl RuntimeStatus {
    pub fn label(self) -> (r: &'static str)
        ensures
            r@ == runtime_status_text(self),
    {
        match self {
            RuntimeStatus::DriverMissing => "driver missing",
            RuntimeStatus::Configuring => "configuring",
            RuntimeStatus::Forwarding => "forwarding",
            RuntimeStatus::Paused => "paused",
            RuntimeStatus::Waiting => "waiting",
        }
    }
}

/// The output chip of the status bar.
pub open spec fn output_chip_text(
    window_visible: bool,
    forward_only_in_tray: bool,
    emulation_enabled: bool,
) -> Seq<char> {
    if window_visible && forward_only_in_tray {
        "output isolated"@
    } else if emulation_enabled {
        "virtual on"@
    } else {
        "virtual off"@
    }
}

pub fn output_chip(window_visible: bool, forward_only_in_tray: bool, emulation_enabled: bool) -> (r: &'static str)
    ensures
        r@ == output_chip_text(window_visible, forward_only_in_tray, emulation_enabled),
{
    if window_visible && forward_only_in_tray {
        "output isolated"
    } else if emulation_enabled {
        "virtual on"
    } else {
        "virtual off"
    }
}

/// The tray icon's tooltip.
pub open spec fn tray_tooltip_text(
    version_label: Seq<char>,
    emulation_enabled: bool,
    virtual_connected: bool,
) -> Seq<char> {
    "x360ce "@ + version_label + " — "@ + (if virtual_connected {
        "forwarding"@
    } else if emulation_enabled {
        "waiting for controller"@
    } else {
        "paused"@
    })
}

pub fn tray_tooltip(version_label: &str, emulation_enabled: bool, virtual_connected: bool) -> (r: String)
    ensures
        r@ == tray_tooltip_text(version_label@, emulation_enabled, virtual_connected),
{
    let mut s = String::from_str("x360ce ");
    s.append(version_label);
    s.append(" — ");
    s.append(
        if virtual_connected {
            "forwarding"
        } else if emulation_enabled {
            "waiting for controller"
        } else {
            "paused"
        },
    );
    s
}

/// What the automatic tray logic does in one frame.
#[derive(Clone, Copy, Debug, PartialEq, Eq, Structural)]
pub enum AutoTrayStep {
    /// No countdown runs.
    Idle,
    /// A countdown runs since the given time (milliseconds).
    CountingDown { started_ms: u64 },
    /// The countdown is over: hide the window to the tray.
    HideWindow,
}

/// At least one second.
pub open spec fn at_least_one(seconds: u64) -> int {
    if seconds == 0 {
        1
    } else {
        seconds as int
    }
}

/// The automatic tray decision. Nothing happens while the window is hidden
/// or the feature is off, nor before the idle period (at least a second)
/// has passed since the last activity; then a countdown starts, and when it
/// (at least a second) has run out the window is hidden.
pub open spec fn auto_tray_spec(
    window_visible: bool,
    auto_tray_enabled: bool,
    idle_seconds: u64,
    countdown_seconds: u64,
    last_activity_ms: u64,
    countdown_started_ms: Option<u64>,
    now_ms: u64,
) -> AutoTrayStep {
    if !window_visible || !auto_tray_enabled {
        AutoTrayStep::Idle
    } else if now_ms < last_activity_ms + at_least_one(idle_seconds) * 1000 {
        AutoTrayStep::Idle
    } else {
        let started = match countdown_started_ms {
            Some(t) => t,
            None => now_ms,
        };
        if now_ms >= started + at_least_one(countdown_seconds) * 1000 {
            AutoTrayStep::HideWindow
        } else {
            AutoTrayStep::CountingDown { started_ms: started }
        }
    }
}

fn seconds_to_ms(seconds: u64) -> (r: u128)
    ensures
        r == at_least_one(seconds) * 1000,
{
    let s: u128 = if seconds == 0 {
        1
    } else {
        seconds as u128
    };
    s * 1000
}

pub fn auto_tray_step(
    window_visible: bool,
    auto_tray_enabled: bool,
    idle_seconds: u64,
    countdown_seconds: u64,
    last_activity_ms: u64,
    countdown_started_ms: Option<u64>,
    now_ms: u64,
) -> (r: AutoTrayStep)
    ensures
        r == auto_tray_spec(
            window_visible,
            auto_tray_enabled,
            idle_seconds,
            countdown_seconds,
            last_activity_ms,
            countdown_started_ms,
            now_ms,
        ),
{
    if !window_visible || !auto_tray_enabled {
        return AutoTrayStep::Idle;
    }
    if (now_ms as u128) < (last_activity_ms as u128) + seconds_to_ms(idle_seconds) {
        return AutoTrayStep::Idle;
    }
    let started = match countdown_started_ms {
        Some(t) => t,
        None => now_ms,
    };
    if (now_ms as u128) >= (started as u128) + seconds_to_ms(countdown_seconds) {
        AutoTrayStep::HideWindow
    } else {
        AutoTrayStep::CountingDown { started_ms: started }
    }
}

/// Whole seconds left of a countdown, never shown as less than one.
pub open spec fn countdown_left(started_ms: u64, countdown_seconds: u64, now_ms: u64) -> int {
    let elapsed = if now_ms >= started_ms {
        (now_ms - started_ms) / 1000
    } else {
        0
    };
    let left = at_least_one(countdown_seconds) - elapsed;
    if left < 1 {
        1
    } else {
        left
    }
}

pub fn countdown_remaining(countdown_started_ms: Option<u64>, countdown_seconds: u64, now_ms: u64) -> (r: Option<u64>)
    ensures
        match countdown_started_ms {
            Some(started) => r == Some(countdown_left(started, countdown_seconds, now_ms) as u64),
            None => r is None,
        },
{
    let started = match countdown_started_ms {
        Some(t) => t,
        None => {
            return None;
        },
    };
    let total: u64 = if countdown_seconds == 0 {
        1
    } else {
        countdown_seconds
    };
    let elapsed: u64 = if now_ms >= started {
        (now_ms - started) / 1000
    } else {
        0
    };
    let left = if total > elapsed {
        total - elapsed
    } else {
        0
    };
    Some(
        if left < 1 {
            1
        } else {
            left
        },
    )
}

/// The program was started by Windows at log-in: one of its arguments is
/// `--startup`. Arguments that are not valid Unicode (`None`) never match.
pub open spec fn startup_flag_given(args: Seq<Option<String>>) -> bool {
    exists|i: int| 0 <= i < args.len() && is_startup_flag(#[trigger] args[i])
}

pub open spec fn is_startup_flag(arg: Option<String>) -> bool {
    match arg {
        Some(a) => a@ == "--startup"@,
        None => false,
    }
}

pub fn started_from_startup(args: &Vec<Option<String>>) -> (r: bool)
    ensures
        r == startup_flag_given(args@),
{
    let flag = crate::text::chars_of("--startup");
    let mut i: usize = 0;
    while i < args.len()
        invariant
            flag@ == "--startup"@,
            i <= args@.len(),
            forall|j: int| 0 <= j < i ==> !is_startup_flag(#[trigger] args@[j]),
        decreases args.len() - i,
    {
        match &args[i] {
            Some(a) => {
                if crate::text::same_chars(&crate::text::chars_of(a.as_str()), &flag) {
                    assert(is_startup_flag(args@[i as int]));
                    return true;
                }
            },
            None => {},
        }
        i = i + 1;
    }
    false
}

/// The window opens visible in development builds, and otherwise unless
/// the program was started at log-in or is set to start in the tray.
pub fn initial_window_visible(dev_build: bool, from_startup: bool, start_in_tray: bool) -> (r: bool)
    ensures
        r == (dev_build || (!from_startup && !start_in_tray)),
{
    dev_build || (!from_startup && !start_in_tray)
}

/// The entries of the tray menu.
#[derive(Clone, Copy, Debug, PartialEq, Eq, Structural)]
pub enum TrayAction {
    Open,
    ToggleEnabled,
    ToggleAutoTray,
    ToggleStartup,
    CheckUpdates,
    InstallUpdate,
    Quit,
}

pub open spec fn tray_menu_id(a: TrayAction) -> Seq<char> {
    match a {
        TrayAction::Open => "open"@,
        TrayAction::ToggleEnabled => "enabled"@,
        TrayAction::ToggleAutoTray => "auto-tray"@,
        TrayAction::ToggleStartup => "startup"@,
        TrayAction::CheckUpdates => "check"@,
        TrayAction::InstallUpdate => "install"@,
        TrayAction::Quit => "quit"@,
    }
}

impl TrayAction {
    /// The identifier of the menu entry.
    pub fn menu_id(self) -> (r: &'static str)
        ensures
            r@ == tray_menu_id(self),
    {
        match self {
            TrayAction::Open => "open",
            TrayAction::ToggleEnabled => "enabled",
            TrayAction::ToggleAutoTray => "auto-tray",
            TrayAction::ToggleStartup => "startup",
            TrayAction::CheckUpdates => "check",
            TrayAction::InstallUpdate => "install",
            TrayAction::Quit => "quit",
        }
    }
}

/// The menu entry with a given identifier, if any.
pub fn tray_action(id: &str) -> (r: Option<TrayAction>)
    ensures
        match r {
            Some(a) => tray_menu_id(a) == id@,
            None => forall|a: TrayAction| tray_menu_id(a) != id@,
        },
{
    let wanted = crate::text::chars_of(id);
    let actions = vec![
        TrayAction::Open,
        TrayAction::ToggleEnabled,
        TrayAction::ToggleAutoTray,
        TrayAction::ToggleStartup,
        TrayAction::CheckUpdates,
        TrayAction::InstallUpdate,
        TrayAction::Quit,
    ];
    let mut i: usize = 0;
    while i < actions.len()
        invariant
            wanted@ == id@,
            i <= actions@.len(),
            actions@ == seq![
                TrayAction::Open,
                TrayAction::ToggleEnabled,
                TrayAction::ToggleAutoTray,
                TrayAction::ToggleStartup,
                TrayAction::CheckUpdates,
                TrayAction::InstallUpdate,
                TrayAction::Quit,
            ],
            forall|j: int| 0 <= j < i ==> tray_menu_id(#[trigger] actions@[j]) != id@,
        decreases actions.len() - i,
    {
        let a = actions[i];
        if crate::text::same_chars(&crate::text::chars_of(a.menu_id()), &wanted) {
            return Some(a);
        }
        i = i + 1;
    }
    proof {
        assert forall|a: TrayAction| tray_menu_id(a) != id@ by {
            let j: int = match a {
                TrayAction::Open => 0,
                TrayAction::ToggleEnabled => 1,
                TrayAction::ToggleAutoTray => 2,
                TrayAction::ToggleStartup => 3,
                TrayAction::CheckUpdates => 4,
                TrayAction::InstallUpdate => 5,
                TrayAction::Quit => 6,
            };
            assert(actions@[j] == a);
        }
    }
    None
}

/// What the user is asked to do while a control is being learned: stick
/// axes name the output direction being learned.
pub open spec fn learning_prompt_text(control: OutputControl, output_negative: bool) -> Seq<char> {
    "Move or press "@ + (if crate::model::control_is_axis(control) {
        if output_negative {
            "negative output"@
        } else {
            "positive output"@
        }
    } else {
        "input"@
    }) + " for "@ + control_label(control) + "."@
}

pub fn learning_prompt(control: OutputControl, output_negative: bool) -> (r: String)
    ensures
        r@ == learning_prompt_text(control, output_negative),
{
    let mut s = String::from_str("Move or press ");
    s.append(
        if control.is_axis() {
            if output_negative {
                "negative output"
            } else {
                "positive output"
            }
        } else {
            "input"
        },
    );
    s.append(" for ");
    s.append(control.label());
    s.append(".");
    s
}

/// The status after a binding was learned.
pub fn learned_status(control: OutputControl, binding: InputBinding) -> (r: String)
    requires
        crate::model::binding_label_fits(binding),
    ensures
        r@ == control_label(control) + " mapped to "@ + crate::model::binding_label(binding) + "."@,
{
    let mut s = String::from_str(control.label());
    s.append(" mapped to ");
    let b = binding.label();
    s.append(b.as_str());
    s.append(".");
    s
}

} // verus!
