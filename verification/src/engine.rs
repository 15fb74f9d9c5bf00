//! The decisions of the controller engine's polling loop.
//!
//! The loop alternates outside work (reading the physical controller,
//! talking to the virtual-bus driver, sleeping) with decisions. The
//! decisions live here, on [`EngineCore`]: the loop hands each event in
//! (a command, the result of an enumeration, a fresh raw state, the outcome
//! of a connection attempt) and performs the action that comes back. Time
//! is given in milliseconds on a clock the loop chooses.
use vstd::prelude::*;

use crate::mapper::axis_at;
use crate::model::{ControllerProfile, DeviceDescriptor, HatDirection, RawState};
use crate::text::{contains_chars, contains_text, lower_chars_of, lower_text};

verus! {

/// How often devices are enumerated again without being asked.
pub const ENUMERATION_INTERVAL_MS: u64 = 2000;

/// How long to wait after a failed connection or report before connecting
/// to the virtual bus again.
pub const RECONNECT_DELAY_MS: u64 = 2000;

/// An axis change larger than this counts as controller activity.
pub const ACTIVITY_AXIS_DELTA: i32 = 1500;

/// A request sent to the engine.
pub enum EngineCommand {
    SelectDevice(String),
    SetProfile(ControllerProfile),
    SetEnabled(bool),
    SetForwardingActive(bool),
    Refresh,
    Shutdown,
}

/// What the loop does after a command.
#[derive(Clone, Copy, Debug, PartialEq, Eq, Structural)]
pub enum CommandEffect {
    /// Leave the loop.
    Shutdown,
    /// Go on; `reopen_device`: open the selected device again;
    /// `drop_gamepad`: remove the virtual controller.
    Continue { reopen_device: bool, drop_gamepad: bool },
}

/// The state the engine keeps between iterations.
pub struct EngineCore {
    pub selected_guid: String,
    pub profile: ControllerProfile,
    pub enabled: bool,
    pub forwarding_active: bool,
    pub previous_raw: RawState,
    pub sequence: u64,
    pub force_refresh: bool,
    pub last_enumeration_ms: u64,
    pub driver_installed: bool,
    pub gamepad_connected: bool,
    pub next_connect_attempt_ms: u64,
    pub last_virtual_error: Option<String>,
}

/// The message shown while forwarding is wanted but the bus driver is
/// missing.
pub open spec fn driver_missing_message() -> Seq<char> {
    "ViGEmBus driver is not installed."@
}

/// `a` and `b` differ by more than the activity threshold.
pub open spec fn axis_moved(previous: Seq<i16>, current: Seq<i16>, i: int) -> bool {
    let d = axis_at(current, i) - axis_at(previous, i);
    d > ACTIVITY_AXIS_DELTA || -d > ACTIVITY_AXIS_DELTA
}

/// The controller was used between two raw states: some button or hat
/// changed, the number of buttons or hats changed, or some axis (a missing
/// axis reads as centred) moved by more than the threshold.
pub open spec fn activity(previous: RawState, current: RawState) -> bool {
    ||| current.buttons@ != previous.buttons@
    ||| current.hats@ != previous.hats@
    ||| exists|i: int|
        (0 <= i < current.axes@.len() || 0 <= i < previous.axes@.len()) && #[trigger] axis_moved(
            previous.axes@,
            current.axes@,
            i,
        )
}

fn same_buttons(a: &Vec<bool>, b: &Vec<bool>) -> (r: bool)
    ensures
        r == (a@ == b@),
{
    if a.len() != b.len() {
        return false;
    }
    let mut i: usize = 0;
    while i < a.len()
        invariant
            a@.len() == b@.len(),
            i <= a@.len(),
            forall|j: int| 0 <= j < i ==> a@[j] == b@[j],
        decreases a.len() - i,
    {
        if a[i] != b[i] {
            return false;
        }
        i = i + 1;
    }
    proof {
        assert(a@ =~= b@);
    }
    true
}

fn same_hats(a: &Vec<HatDirection>, b: &Vec<HatDirection>) -> (r: bool)
    ensures
        r == (a@ == b@),
{
    if a.len() != b.len() {
        return false;
    }
    let mut i: usize = 0;
    while i < a.len()
        invariant
            a@.len() == b@.len(),
            i <= a@.len(),
            forall|j: int| 0 <= j < i ==> a@[j] == b@[j],
        decreases a.len() - i,
    {
        if a[i] != b[i] {
            return false;
        }
        i = i + 1;
    }
    proof {
        assert(a@ =~= b@);
    }
    true
}

fn axis_or_centre(axes: &Vec<i16>, i: usize) -> (r: i16)
    ensures
        r == axis_at(axes@, i as int),
{
    if i < axes.len() {
        axes[i]
    } else {
        0
    }
}

pub fn has_activity(previous: &RawState, current: &RawState) -> (r: bool)
    ensures
        r == activity(*previous, *current),
{
    if !same_buttons(&current.buttons, &previous.buttons) || !same_hats(
        &current.hats,
        &previous.hats,
    ) {
        return true;
    }
    let max_axes = if current.axes.len() >= previous.axes.len() {
        current.axes.len()
    } else {
        previous.axes.len()
    };
    let mut index: usize = 0;
    while index < max_axes
        invariant
            max_axes == current.axes@.len() || max_axes == previous.axes@.len(),
            max_axes >= current.axes@.len(),
            max_axes >= previous.axes@.len(),
            index <= max_axes,
            forall|j: int| 0 <= j < index ==> !#[trigger] axis_moved(previous.axes@, current.axes@, j),
        decreases max_axes - index,
    {
        let before = axis_or_centre(&previous.axes, index) as i32;
        let now = axis_or_centre(&current.axes, index) as i32;
        let d = now - before;
        if d > ACTIVITY_AXIS_DELTA || -d > ACTIVITY_AXIS_DELTA {
            proof {
                assert(axis_moved(previous.axes@, current.axes@, index as int));
            }
            return true;
        }
        index = index + 1;
    }
    proof {
        assert forall|i: int|
            !((0 <= i < current.axes@.len() || 0 <= i < previous.axes@.len()) && #[trigger] axis_moved(
                previous.axes@,
                current.axes@,
                i,
            )) by {
            if 0 <= i < max_axes {
                assert(!axis_moved(previous.axes@, current.axes@, i));
            }
        }
    }
    false
}

/// Names that identify a virtual controller (this program's own output or
/// another emulator), compared in ASCII lower case.
pub open spec fn virtual_output_name(name: Seq<char>) -> bool {
    let lower = lower_text(name);
    ||| contains_text(lower, "xbox 360 controller for windows"@)
    ||| contains_text(lower, "vigem"@)
    ||| contains_text(lower, "virtual xbox"@)
}

/// Whether a device is a virtual controller that must not be offered as
/// input (it would feed the virtual pad back into itself).
pub fn is_virtual_output(name: &str) -> (r: bool)
    ensures
        r == virtual_output_name(name@),
{
    let lower = lower_chars_of(name);
    let a = crate::text::chars_of("xbox 360 controller for windows");
    let b = crate::text::chars_of("vigem");
    let c = crate::text::chars_of("virtual xbox");
    contains_chars(&lower, &a) || contains_chars(&lower, &b) || contains_chars(&lower, &c)
}

/// The GUID of the device to open: the selected one, or the first
/// enumerated device when none is selected.
pub fn target_device_guid<'a>(devices: &'a Vec<DeviceDescriptor>, selected_guid: &'a String) -> (r: Option<&'a String>)
    ensures
        selected_guid@.len() > 0 ==> r == Some(selected_guid),
        selected_guid@.len() == 0 && devices@.len() > 0 ==> r == Some(&devices@[0].guid),
        selected_guid@.len() == 0 && devices@.len() == 0 ==> r is None,
{
    if selected_guid.as_str().unicode_len() == 0 {
        if devices.len() > 0 {
            Some(&devices[0].guid)
        } else {
            None
        }
    } else {
        Some(selected_guid)
    }
}

/// Whether two device GUIDs are the same, ignoring ASCII case.
pub fn guid_matches(a: &str, b: &str) -> (r: bool)
    ensures
        r == (lower_text(a@) == lower_text(b@)),
{
    crate::text::same_chars(&lower_chars_of(a), &lower_chars_of(b))
}

/// The engine keeps forwarding to the virtual controller: output is enabled,
/// not paused for configuration, a physical device is open and the bus driver
/// is installed.
pub open spec fn forwarding_wanted_spec(core: EngineCore, device_open: bool) -> bool {
    core.enabled && core.forwarding_active && device_open && core.driver_installed
}

impl EngineCore {
    /// The state at start-up: enumeration is due at once, a connection may
    /// be tried at once, nothing has been read yet.
    pub fn new(
        selected_guid: String,
        profile: ControllerProfile,
        enabled: bool,
        forwarding_active: bool,
        driver_installed: bool,
        now_ms: u64,
    ) -> (r: EngineCore)
        ensures
            r.selected_guid == selected_guid,
            r.profile == profile,
            r.enabled == enabled,
            r.forwarding_active == forwarding_active,
            r.driver_installed == driver_installed,
            r.previous_raw.axes@.len() == 0,
            r.previous_raw.buttons@.len() == 0,
            r.previous_raw.hats@.len() == 0,
            r.sequence == 0,
            r.force_refresh,
            r.last_enumeration_ms == now_ms,
            !r.gamepad_connected,
            r.next_connect_attempt_ms == now_ms,
            r.last_virtual_error is None,
    {
        EngineCore {
            selected_guid,
            profile,
            enabled,
            forwarding_active,
            previous_raw: RawState { axes: Vec::new(), buttons: Vec::new(), hats: Vec::new() },
            sequence: 0,
            force_refresh: true,
            last_enumeration_ms: now_ms,
            driver_installed,
            gamepad_connected: false,
            next_connect_attempt_ms: now_ms,
            last_virtual_error: None,
        }
    }

    /// Drops the virtual controller and allows a new connection at once.
    fn reset_gamepad(&mut self, now_ms: u64)
        ensures
            !final(self).gamepad_connected,
            final(self).next_connect_attempt_ms == now_ms,
            final(self).last_virtual_error is None,
            final(self).selected_guid == old(self).selected_guid,
            final(self).profile == old(self).profile,
            final(self).enabled == old(self).enabled,
            final(self).forwarding_active == old(self).forwarding_active,
            final(self).previous_raw == old(self).previous_raw,
            final(self).sequence == old(self).sequence,
            final(self).force_refresh == old(self).force_refresh,
            final(self).last_enumeration_ms == old(self).last_enumeration_ms,
            final(self).driver_installed == old(self).driver_installed,
    {
        self.gamepad_connected = false;
        self.next_connect_attempt_ms = now_ms;
        self.last_virtual_error = None;
    }

    /// Applies one command.
    pub fn handle_command(&mut self, command: EngineCommand, now_ms: u64) -> (r: CommandEffect)
        ensures
            final(self).sequence == old(self).sequence,
            final(self).driver_installed == old(self).driver_installed,
            final(self).last_enumeration_ms == old(self).last_enumeration_ms,
            match command {
                EngineCommand::SelectDevice(guid) => {
                    &&& r == CommandEffect::Continue { reopen_device: true, drop_gamepad: true }
                    &&& final(self).selected_guid == guid
                    &&& final(self).previous_raw.axes@.len() == 0
                    &&& final(self).previous_raw.buttons@.len() == 0
                    &&& final(self).previous_raw.hats@.len() == 0
                    &&& !final(self).gamepad_connected
                    &&& final(self).next_connect_attempt_ms == now_ms
                    &&& final(self).last_virtual_error is None
                    &&& final(self).profile == old(self).profile
                    &&& final(self).enabled == old(self).enabled
                    &&& final(self).forwarding_active == old(self).forwarding_active
                    &&& final(self).force_refresh == old(self).force_refresh
                },
                EngineCommand::SetProfile(profile) => {
                    &&& r == CommandEffect::Continue { reopen_device: false, drop_gamepad: false }
                    &&& final(self).profile == profile
                    &&& final(self).selected_guid == old(self).selected_guid
                    &&& final(self).enabled == old(self).enabled
                    &&& final(self).forwarding_active == old(self).forwarding_active
                    &&& final(self).previous_raw == old(self).previous_raw
                    &&& final(self).force_refresh == old(self).force_refresh
                    &&& final(self).gamepad_connected == old(self).gamepad_connected
                    &&& final(self).next_connect_attempt_ms == old(self).next_connect_attempt_ms
                    &&& final(self).last_virtual_error == old(self).last_virtual_error
                },
                EngineCommand::SetEnabled(enabled) => {
                    &&& r == CommandEffect::Continue { reopen_device: false, drop_gamepad: true }
                    &&& final(self).enabled == enabled
                    &&& !final(self).gamepad_connected
                    &&& final(self).next_connect_attempt_ms == now_ms
                    &&& final(self).last_virtual_error is None
                    &&& final(self).selected_guid == old(self).selected_guid
                    &&& final(self).profile == old(self).profile
                    &&& final(self).forwarding_active == old(self).forwarding_active
                    &&& final(self).previous_raw == old(self).previous_raw
                    &&& final(self).force_refresh == old(self).force_refresh
                },
                EngineCommand::SetForwardingActive(active) => {
                    &&& r == CommandEffect::Continue { reopen_device: false, drop_gamepad: true }
                    &&& final(self).forwarding_active == active
                    &&& !final(self).gamepad_connected
                    &&& final(self).next_connect_attempt_ms == now_ms
                    &&& final(self).last_virtual_error is None
                    &&& final(self).selected_guid == old(self).selected_guid
                    &&& final(self).profile == old(self).profile
                    &&& final(self).enabled == old(self).enabled
                    &&& final(self).previous_raw == old(self).previous_raw
                    &&& final(self).force_refresh == old(self).force_refresh
                },
                EngineCommand::Refresh => {
                    &&& r == CommandEffect::Continue { reopen_device: false, drop_gamepad: false }
                    &&& final(self).force_refresh
                    &&& final(self).selected_guid == old(self).selected_guid
                    &&& final(self).profile == old(self).profile
                    &&& final(self).enabled == old(self).enabled
                    &&& final(self).forwarding_active == old(self).forwarding_active
                    &&& final(self).previous_raw == old(self).previous_raw
                    &&& final(self).gamepad_connected == old(self).gamepad_connected
                    &&& final(self).next_connect_attempt_ms == old(self).next_connect_attempt_ms
                    &&& final(self).last_virtual_error == old(self).last_virtual_error
                },
                EngineCommand::Shutdown => {
                    &&& r == CommandEffect::Shutdown
                    &&& final(self).selected_guid == old(self).selected_guid
                    &&& final(self).profile == old(self).profile
                    &&& final(self).enabled == old(self).enabled
                    &&& final(self).forwarding_active == old(self).forwarding_active
                    &&& final(self).previous_raw == old(self).previous_raw
                    &&& final(self).force_refresh == old(self).force_refresh
                    &&& final(self).gamepad_connected == old(self).gamepad_connected
                    &&& final(self).next_connect_attempt_ms == old(self).next_connect_attempt_ms
                    &&& final(self).last_virtual_error == old(self).last_virtual_error
                },
            },
    {
        match command {
            EngineCommand::SelectDevice(guid) => {
                self.selected_guid = guid;
                self.previous_raw = RawState {
                    axes: Vec::new(),
                    buttons: Vec::new(),
                    hats: Vec::new(),
                };
                self.reset_gamepad(now_ms);
                CommandEffect::Continue { reopen_device: true, drop_gamepad: true }
            },
            EngineCommand::SetProfile(profile) => {
                self.profile = profile;
                CommandEffect::Continue { reopen_device: false, drop_gamepad: false }
            },
            EngineCommand::SetEnabled(enabled) => {
                self.enabled = enabled;
                self.reset_gamepad(now_ms);
                CommandEffect::Continue { reopen_device: false, drop_gamepad: true }
            },
            EngineCommand::SetForwardingActive(active) => {
                self.forwarding_active = active;
                self.reset_gamepad(now_ms);
                CommandEffect::Continue { reopen_device: false, drop_gamepad: true }
            },
            EngineCommand::Refresh => {
                self.force_refresh = true;
                CommandEffect::Continue { reopen_device: false, drop_gamepad: false }
            },
            EngineCommand::Shutdown => CommandEffect::Shutdown,
        }
    }

    /// Devices are enumerated again when a refresh was asked for or the
    /// interval has passed since the last enumeration.
    pub fn enumeration_due(&self, now_ms: u64) -> (r: bool)
        ensures
            r == (self.force_refresh || now_ms >= self.last_enumeration_ms
                + ENUMERATION_INTERVAL_MS),
    {
        self.force_refresh || (now_ms >= self.last_enumeration_ms && now_ms
            - self.last_enumeration_ms >= ENUMERATION_INTERVAL_MS)
    }

    /// Records an enumeration. When the selected device is no longer
    /// attached, the loop opens the selected device again and drops the
    /// virtual controller (the result is `true`).
    pub fn finish_enumeration(
        &mut self,
        now_ms: u64,
        driver_installed: bool,
        selected_attached: bool,
    ) -> (r: bool)
        ensures
            r == !selected_attached,
            final(self).driver_installed == driver_installed,
            !final(self).force_refresh,
            final(self).last_enumeration_ms == now_ms,
            final(self).selected_guid == old(self).selected_guid,
            final(self).profile == old(self).profile,
            final(self).enabled == old(self).enabled,
            final(self).forwarding_active == old(self).forwarding_active,
            final(self).previous_raw == old(self).previous_raw,
            final(self).sequence == old(self).sequence,
            selected_attached ==> {
                &&& final(self).gamepad_connected == old(self).gamepad_connected
                &&& final(self).next_connect_attempt_ms == old(self).next_connect_attempt_ms
                &&& final(self).last_virtual_error == old(self).last_virtual_error
            },
            !selected_attached ==> {
                &&& !final(self).gamepad_connected
                &&& final(self).next_connect_attempt_ms == now_ms
                &&& final(self).last_virtual_error is None
            },
    {
        self.driver_installed = driver_installed;
        if !selected_attached {
            self.reset_gamepad(now_ms);
        }
        self.force_refresh = false;
        self.last_enumeration_ms = now_ms;
        !selected_attached
    }

    /// Takes in the raw state read in this iteration. The activity sequence
    /// advances (wrapping) when the controller was used since the previous
    /// read; the result says whether it was.
    pub fn observe(&mut self, raw: RawState) -> (r: bool)
        ensures
            r == activity(old(self).previous_raw, raw),
            final(self).previous_raw == raw,
            r && old(self).sequence < u64::MAX ==> final(self).sequence == old(self).sequence + 1,
            r && old(self).sequence == u64::MAX ==> final(self).sequence == 0,
            !r ==> final(self).sequence == old(self).sequence,
            final(self).selected_guid == old(self).selected_guid,
            final(self).profile == old(self).profile,
            final(self).enabled == old(self).enabled,
            final(self).forwarding_active == old(self).forwarding_active,
            final(self).force_refresh == old(self).force_refresh,
            final(self).last_enumeration_ms == old(self).last_enumeration_ms,
            final(self).driver_installed == old(self).driver_installed,
            final(self).gamepad_connected == old(self).gamepad_connected,
            final(self).next_connect_attempt_ms == old(self).next_connect_attempt_ms,
            final(self).last_virtual_error == old(self).last_virtual_error,
    {
        let active = has_activity(&self.previous_raw, &raw);
        if active {
            self.sequence = if self.sequence == u64::MAX {
                0
            } else {
                self.sequence + 1
            };
        }
        self.previous_raw = raw;
        active
    }

    pub fn forwarding_wanted(&self, device_open: bool) -> (r: bool)
        ensures
            r == forwarding_wanted_spec(*self, device_open),
    {
        self.enabled && self.forwarding_active && device_open && self.driver_installed
    }

    /// A connection to the virtual bus is tried when forwarding is wanted,
    /// no virtual controller is connected and the retry delay has passed.
    pub fn should_connect(&self, device_open: bool, now_ms: u64) -> (r: bool)
        ensures
            r == (forwarding_wanted_spec(*self, device_open) && !self.gamepad_connected && now_ms
                >= self.next_connect_attempt_ms),
    {
        self.forwarding_wanted(device_open) && !self.gamepad_connected && now_ms
            >= self.next_connect_attempt_ms
    }

    pub fn connect_succeeded(&mut self)
        ensures
            final(self).gamepad_connected,
            final(self).last_virtual_error is None,
            final(self).next_connect_attempt_ms == old(self).next_connect_attempt_ms,
            final(self).selected_guid == old(self).selected_guid,
            final(self).profile == old(self).profile,
            final(self).enabled == old(self).enabled,
            final(self).forwarding_active == old(self).forwarding_active,
            final(self).previous_raw == old(self).previous_raw,
            final(self).sequence == old(self).sequence,
            final(self).force_refresh == old(self).force_refresh,
            final(self).last_enumeration_ms == old(self).last_enumeration_ms,
            final(self).driver_installed == old(self).driver_installed,
    {
        self.gamepad_connected = true;
        self.last_virtual_error = None;
    }

    /// Records a failed connection (or a failed report, which loses the
    /// virtual controller): the error is kept for display and the next
    /// attempt waits for the retry delay.
    pub fn virtual_failed(&mut self, error: String, now_ms: u64)
        ensures
            !final(self).gamepad_connected,
            final(self).last_virtual_error == Some(error),
            final(self).next_connect_attempt_ms == (if now_ms <= u64::MAX - RECONNECT_DELAY_MS {
                (now_ms + RECONNECT_DELAY_MS) as u64
            } else {
                u64::MAX
            }),
            final(self).selected_guid == old(self).selected_guid,
            final(self).profile == old(self).profile,
            final(self).enabled == old(self).enabled,
            final(self).forwarding_active == old(self).forwarding_active,
            final(self).previous_raw == old(self).previous_raw,
            final(self).sequence == old(self).sequence,
            final(self).force_refresh == old(self).force_refresh,
            final(self).last_enumeration_ms == old(self).last_enumeration_ms,
            final(self).driver_installed == old(self).driver_installed,
    {
        self.gamepad_connected = false;
        self.last_virtual_error = Some(error);
        self.next_connect_attempt_ms = now_ms.saturating_add(RECONNECT_DELAY_MS);
    }

    /// Stops forwarding when it is not wanted: the virtual controller goes
    /// away, and the driver-missing message is shown exactly when output is
    /// enabled, a device is open and the bus driver is missing.
    pub fn stop_forwarding(&mut self, device_open: bool)
        ensures
            !final(self).gamepad_connected,
            old(self).enabled && device_open && !old(self).driver_installed
                ==> (final(self).last_virtual_error matches Some(e) && e@ == driver_missing_message()),
            !(old(self).enabled && device_open && !old(self).driver_installed)
                ==> final(self).last_virtual_error is None,
            final(self).next_connect_attempt_ms == old(self).next_connect_attempt_ms,
            final(self).selected_guid == old(self).selected_guid,
            final(self).profile == old(self).profile,
            final(self).enabled == old(self).enabled,
            final(self).forwarding_active == old(self).forwarding_active,
            final(self).previous_raw == old(self).previous_raw,
            final(self).sequence == old(self).sequence,
            final(self).force_refresh == old(self).force_refresh,
            final(self).last_enumeration_ms == old(self).last_enumeration_ms,
            final(self).driver_installed == old(self).driver_installed,
    {
        self.gamepad_connected = false;
        self.last_virtual_error = if self.enabled && device_open && !self.driver_installed {
            Some(String::from_str("ViGEmBus driver is not installed."))
        } else {
            None
        };
    }
}

} // verus!
