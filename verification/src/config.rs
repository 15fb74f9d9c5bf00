//! Saved settings: the profile of each controller, the selected device and
//! the user's preferences, with the rules that read and change them.
use vstd::prelude::*;

use crate::model::{default_entries, ControllerProfile};

verus! {

pub open spec fn app_name_spec() -> Seq<char> {
    "x360ce"@
}

pub fn app_name() -> (r: &'static str)
    ensures
        r@ == app_name_spec(),
{
    "x360ce"
}

/// The version label shown to users: `v` and the version in production
/// builds; in development builds the label given by the developer (or
/// `v` and the version when none is given), always ending in `-dev`.
pub open spec fn version_label_text(
    dev_build: bool,
    override_label: Option<Seq<char>>,
    version: Seq<char>,
) -> Seq<char> {
    if !dev_build {
        "v"@ + version
    } else {
        match override_label {
            Some(o) => if crate::text::ends_with(o, "-dev"@) {
                o
            } else {
                o + "-dev"@
            },
            None => "v"@ + version + "-dev"@,
        }
    }
}

pub open spec fn opt_str(s: Option<&str>) -> Option<Seq<char>> {
    match s {
        Some(t) => Some(t@),
        None => None,
    }
}

proof fn lemma_ends_with_append(a: Seq<char>, b: Seq<char>)
    ensures
        crate::text::ends_with(a + b, b),
{
    assert((a + b).subrange((a + b).len() - b.len(), (a + b).len() as int) =~= b);
}

proof fn lemma_ends_with_prefixed(a: Seq<char>, b: Seq<char>, suffix: Seq<char>)
    requires
        crate::text::ends_with(b, suffix),
    ensures
        crate::text::ends_with(a + b, suffix),
{
    assert((a + b).subrange((a + b).len() - suffix.len(), (a + b).len() as int) =~= b.subrange(
        b.len() - suffix.len(),
        b.len() as int,
    ));
}

/// The version label of a build: see `version_label_text`.
pub fn version_label(dev_build: bool, override_label: Option<&str>, version: &str) -> (r: String)
    ensures
        r@ == version_label_text(dev_build, opt_str(override_label), version@),
        dev_build ==> crate::text::ends_with(r@, "-dev"@),
        !dev_build ==> r@ == "v"@ + version@,
{
    if !dev_build {
        let mut s = String::from_str("v");
        s.append(version);
        return s;
    }
    let suffix = crate::text::chars_of("-dev");
    match override_label {
        Some(o) => {
            let mut s = String::from_str(o);
            if !crate::text::ends_with_chars(&crate::text::chars_of(o), &suffix) {
                s.append("-dev");
                proof {
                    lemma_ends_with_append(o@, "-dev"@);
                }
            }
            s
        },
        None => {
            let mut s = String::from_str("v");
            s.append(version);
            s.append("-dev");
            proof {
                lemma_ends_with_append("v"@ + version@, "-dev"@);
            }
            s
        },
    }
}

/// The title of the main window: the program's name and the build's
/// version label; a development build's title ends in `-dev`.
pub fn window_title(dev_build: bool, override_label: Option<&str>, version: &str) -> (r: String)
    ensures
        r@ == app_name_spec() + " "@ + version_label_text(
            dev_build,
            opt_str(override_label),
            version@,
        ),
        dev_build ==> crate::text::ends_with(r@, "-dev"@),
        !dev_build ==> r@ == app_name_spec() + " v"@ + version@,
{
    let label = version_label(dev_build, override_label, version);
    let mut s = String::from_str(app_name());
    s.append(" ");
    s.append(label.as_str());
    proof {
        if dev_build {
            lemma_ends_with_prefixed(app_name_spec() + " "@, label@, "-dev"@);
        } else {
            reveal_strlit(" ");
            reveal_strlit("v");
            reveal_strlit(" v");
            assert(" "@ + ("v"@ + version@) =~= " v"@ + version@);
            assert(s@ =~= app_name_spec() + " v"@ + version@);
        }
    }
    s
}

/// The folder beside the executable that holds the settings.
pub const DATA_DIR_NAME: &'static str = ".x360ce-data";

/// The settings file inside the data folder.
pub const CONFIG_FILE_NAME: &'static str = "config.json";

/// A Windows path with a relative `name` appended: a separator is put
/// between them unless `base` is empty or already ends in one.
pub open spec fn path_join(base: Seq<char>, name: Seq<char>) -> Seq<char> {
    if base.len() == 0 || base.last() == '\\' || base.last() == '/' {
        base + name
    } else {
        base + "\\"@ + name
    }
}

/// The data folder: a non-empty folder given by the user, else the data
/// folder beside the executable; unknown when neither is known.
pub open spec fn data_dir_spec(override_dir: Option<Seq<char>>, exe_dir: Option<Seq<char>>) -> Option<
    Seq<char>,
> {
    match override_dir {
        Some(o) if o.len() > 0 => Some(o),
        _ => match exe_dir {
            Some(d) => Some(path_join(d, DATA_DIR_NAME@)),
            None => None,
        },
    }
}

fn join_path(base: &str, name: &str) -> (r: String)
    ensures
        r@ == path_join(base@, name@),
{
    let n = base.unicode_len();
    let mut s = String::from_str(base);
    if n == 0 {
        s.append(name);
        return s;
    }
    let last = base.get_char(n - 1);
    if last != '\\' && last != '/' {
        s.append("\\");
    }
    s.append(name);
    s
}

pub fn data_dir(override_dir: Option<&str>, exe_dir: Option<&str>) -> (r: Option<String>)
    ensures
        opt_string(r) == data_dir_spec(opt_str(override_dir), opt_str(exe_dir)),
{
    match override_dir {
        Some(o) => {
            if o.unicode_len() > 0 {
                return Some(String::from_str(o));
            }
        },
        None => {},
    }
    match exe_dir {
        Some(d) => Some(join_path(d, DATA_DIR_NAME)),
        None => None,
    }
}

pub open spec fn opt_string(s: Option<String>) -> Option<Seq<char>> {
    match s {
        Some(t) => Some(t@),
        None => None,
    }
}

/// The settings file: `config.json` in the data folder.
pub fn state_path(override_dir: Option<&str>, exe_dir: Option<&str>) -> (r: Option<String>)
    ensures
        opt_string(r) == (match data_dir_spec(opt_str(override_dir), opt_str(exe_dir)) {
            Some(d) => Some(path_join(d, CONFIG_FILE_NAME@)),
            None => None,
        }),
{
    match data_dir(override_dir, exe_dir) {
        Some(d) => Some(join_path(d.as_str(), CONFIG_FILE_NAME)),
        None => None,
    }
}

/// Seconds of inactivity before the window starts moving to the tray.
pub fn default_idle_seconds() -> (r: u64)
    ensures
        r == 60,
{
    60
}

/// Seconds the move-to-tray countdown lasts.
pub fn default_countdown_seconds() -> (r: u64)
    ensures
        r == 10,
{
    10
}

pub fn default_true() -> (r: bool)
    ensures
        r,
{
    true
}

/// `k` is stored at position `i`.
pub open spec fn key_at(entries: Seq<(String, ControllerProfile)>, i: int, k: Seq<char>) -> bool {
    0 <= i < entries.len() && entries[i].0@ == k
}

/// No key is stored twice.
pub open spec fn distinct_keys(entries: Seq<(String, ControllerProfile)>) -> bool {
    forall|a: int, b: int|
        0 <= a < entries.len() && 0 <= b < entries.len() && a != b ==> #[trigger] entries[a].0@
            != #[trigger] entries[b].0@
}

/// The map that a list of distinct keyed profiles stands for.
pub open spec fn pairs_view(entries: Seq<(String, ControllerProfile)>) -> Map<
    Seq<char>,
    ControllerProfile,
> {
    Map::new(
        |k: Seq<char>| exists|j: int| key_at(entries, j, k),
        |k: Seq<char>| entries[choose|j: int| key_at(entries, j, k)].1,
    )
}

proof fn lemma_pairs_lookup(entries: Seq<(String, ControllerProfile)>, i: int)
    requires
        distinct_keys(entries),
        0 <= i < entries.len(),
    ensures
        pairs_view(entries).dom().contains(entries[i].0@),
        pairs_view(entries)[entries[i].0@] == entries[i].1,
{
    let k = entries[i].0@;
    assert(key_at(entries, i, k));
    let j = choose|j: int| key_at(entries, j, k);
    assert(key_at(entries, j, k));
    if j != i {
        assert(entries[j].0@ != entries[i].0@);
    }
}

proof fn lemma_pairs_set(
    before: Seq<(String, ControllerProfile)>,
    after: Seq<(String, ControllerProfile)>,
    i: int,
)
    requires
        distinct_keys(before),
        0 <= i < before.len(),
        after.len() == before.len(),
        after[i].0@ == before[i].0@,
        forall|j: int| 0 <= j < before.len() && j != i ==> after[j] == before[j],
    ensures
        distinct_keys(after),
        pairs_view(after) == pairs_view(before).insert(before[i].0@, after[i].1),
{
    let key = before[i].0@;
    assert forall|a: int, b: int|
        0 <= a < after.len() && 0 <= b < after.len() && a != b implies #[trigger] after[a].0@
            != #[trigger] after[b].0@ by {
        if a == i {
            assert(before[b].0@ != before[i].0@);
        } else if b == i {
            assert(before[a].0@ != before[i].0@);
        } else {
            assert(before[a].0@ != before[b].0@);
        }
    }
    let target = pairs_view(before).insert(key, after[i].1);
    assert forall|k: Seq<char>| #[trigger] pairs_view(after).dom().contains(k) == target.dom().contains(k) by {
        if pairs_view(after).dom().contains(k) {
            let j = choose|j: int| key_at(after, j, k);
            if j != i {
                assert(key_at(before, j, k));
            }
        }
        if pairs_view(before).dom().contains(k) && k != key {
            let j = choose|j: int| key_at(before, j, k);
            assert(j != i);
            assert(key_at(after, j, k));
        }
        if k == key {
            assert(key_at(after, i, k));
        }
    }
    assert forall|k: Seq<char>| pairs_view(after).dom().contains(k) implies #[trigger] pairs_view(after)[k]
        == target[k] by {
        let j = choose|j: int| key_at(after, j, k);
        assert(key_at(after, j, k));
        lemma_pairs_lookup(after, j);
        if k == key {
            if j != i {
                assert(after[j].0@ != after[i].0@);
            }
        } else {
            assert(j != i);
            assert(key_at(before, j, k));
            lemma_pairs_lookup(before, j);
        }
    }
    assert(pairs_view(after) =~= target);
}

proof fn lemma_pairs_push(
    before: Seq<(String, ControllerProfile)>,
    after: Seq<(String, ControllerProfile)>,
)
    requires
        distinct_keys(before),
        after.len() == before.len() + 1,
        forall|j: int| 0 <= j < before.len() ==> after[j] == before[j],
        forall|j: int| 0 <= j < before.len() ==> before[j].0@ != after[before.len() as int].0@,
    ensures
        distinct_keys(after),
        pairs_view(after) == pairs_view(before).insert(
            after[before.len() as int].0@,
            after[before.len() as int].1,
        ),
{
    let n = before.len() as int;
    let key = after[n].0@;
    assert forall|a: int, b: int|
        0 <= a < after.len() && 0 <= b < after.len() && a != b implies #[trigger] after[a].0@
            != #[trigger] after[b].0@ by {
        if a == n {
            assert(before[b].0@ != key);
        } else if b == n {
            assert(before[a].0@ != key);
        } else {
            assert(before[a].0@ != before[b].0@);
        }
    }
    let target = pairs_view(before).insert(key, after[n].1);
    assert forall|k: Seq<char>| #[trigger] pairs_view(after).dom().contains(k) == target.dom().contains(k) by {
        if pairs_view(after).dom().contains(k) {
            let j = choose|j: int| key_at(after, j, k);
            if j != n {
                assert(key_at(before, j, k));
            }
        }
        if pairs_view(before).dom().contains(k) {
            let j = choose|j: int| key_at(before, j, k);
            assert(key_at(after, j, k));
        }
        if k == key {
            assert(key_at(after, n, k));
        }
    }
    assert forall|k: Seq<char>| pairs_view(after).dom().contains(k) implies #[trigger] pairs_view(after)[k]
        == target[k] by {
        let j = choose|j: int| key_at(after, j, k);
        assert(key_at(after, j, k));
        lemma_pairs_lookup(after, j);
        if k != key {
            assert(j != n);
            assert(key_at(before, j, k));
            lemma_pairs_lookup(before, j);
        } else {
            if j != n {
                assert(before[j].0@ != key);
            }
        }
    }
    assert(pairs_view(after) =~= target);
}

/// Profiles keyed by device GUID.
pub struct ProfileStore {
    entries: Vec<(String, ControllerProfile)>,
}

impl ProfileStore {
    #[verifier::type_invariant]
    closed spec fn keys_distinct(self) -> bool {
        distinct_keys(self.entries@)
    }

    pub closed spec fn view(self) -> Map<Seq<char>, ControllerProfile> {
        pairs_view(self.entries@)
    }

    /// The number of stored profiles.
    pub closed spec fn count(self) -> nat {
        self.entries@.len()
    }

    pub fn new() -> (r: ProfileStore)
        ensures
            r.view() == Map::<Seq<char>, ControllerProfile>::empty(),
            r.count() == 0,
    {
        let r = ProfileStore { entries: Vec::new() };
        proof {
            assert(r.view() =~= Map::<Seq<char>, ControllerProfile>::empty());
        }
        r
    }

    fn find_in(entries: &Vec<(String, ControllerProfile)>, guid: &str) -> (r: Option<usize>)
        ensures
            match r {
                Some(i) => key_at(entries@, i as int, guid@),
                None => forall|j: int| 0 <= j < entries@.len() ==> entries@[j].0@ != guid@,
            },
    {
        let wanted = crate::text::chars_of(guid);
        let mut i: usize = 0;
        while i < entries.len()
            invariant
                wanted@ == guid@,
                i <= entries@.len(),
                forall|j: int| 0 <= j < i ==> entries@[j].0@ != guid@,
            decreases entries.len() - i,
        {
            if crate::text::same_chars(&crate::text::chars_of(entries[i].0.as_str()), &wanted) {
                return Some(i);
            }
            i = i + 1;
        }
        None
    }

    pub fn len(&self) -> (r: usize)
        ensures
            r == self.count(),
    {
        self.entries.len()
    }

    /// The GUID and profile stored at position `i`.
    pub fn entry_at(&self, i: usize) -> (r: (&String, &ControllerProfile))
        requires
            i < self.count(),
        ensures
            self.view().dom().contains(r.0@),
            self.view()[r.0@] == *r.1,
    {
        proof {
            use_type_invariant(self);
            lemma_pairs_lookup(self.entries@, i as int);
        }
        (&self.entries[i].0, &self.entries[i].1)
    }

    pub fn get(&self, guid: &str) -> (r: Option<&ControllerProfile>)
        ensures
            match r {
                Some(p) => self.view().dom().contains(guid@) && self.view()[guid@] == *p,
                None => !self.view().dom().contains(guid@),
            },
    {
        proof {
            use_type_invariant(self);
        }
        match Self::find_in(&self.entries, guid) {
            Some(i) => {
                proof {
                    lemma_pairs_lookup(self.entries@, i as int);
                }
                Some(&self.entries[i].1)
            },
            None => None,
        }
    }

    pub fn insert(&mut self, guid: String, profile: ControllerProfile)
        ensures
            final(self).view() == old(self).view().insert(guid@, profile),
    {
        proof {
            use_type_invariant(&*self);
        }
        let mut entries: Vec<(String, ControllerProfile)> = Vec::new();
        std::mem::swap(&mut entries, &mut self.entries);
        let ghost before = entries@;
        let ghost key = guid@;
        match Self::find_in(&entries, guid.as_str()) {
            Some(i) => {
                entries.set(i, (guid, profile));
                proof {
                    lemma_pairs_set(before, entries@, i as int);
                }
            },
            None => {
                entries.push((guid, profile));
                proof {
                    lemma_pairs_push(before, entries@);
                }
            },
        }
        self.entries = entries;
    }
}

/// The settings kept between runs.
pub struct SavedState {
    pub emulation_enabled: bool,
    pub selected_device_guid: String,
    pub profiles: ProfileStore,
    pub auto_tray_enabled: bool,
    pub auto_tray_idle_seconds: u64,
    pub auto_tray_countdown_seconds: u64,
    pub start_in_tray: bool,
    pub startup_enabled: bool,
    pub include_prereleases: bool,
    pub forward_only_in_tray: bool,
    pub block_game_bar_controller_button: bool,
    pub last_auto_update_check_unix_seconds: u64,
    pub last_status: String,
}

/// The settings of a first run: output enabled and isolated while the
/// window is open, automatic tray after a minute of inactivity with a ten
/// second countdown, stable releases only, the Game Bar button blocked, no
/// device selected and no profiles.
pub open spec fn is_first_run_state(s: SavedState) -> bool {
    &&& s.emulation_enabled
    &&& s.selected_device_guid@ == Seq::<char>::empty()
    &&& s.profiles.view() == Map::<Seq<char>, ControllerProfile>::empty()
    &&& s.auto_tray_enabled
    &&& s.auto_tray_idle_seconds == 60
    &&& s.auto_tray_countdown_seconds == 10
    &&& !s.start_in_tray
    &&& !s.startup_enabled
    &&& !s.include_prereleases
    &&& s.forward_only_in_tray
    &&& s.block_game_bar_controller_button
    &&& s.last_auto_update_check_unix_seconds == 0
    &&& s.last_status@ == "Ready."@
}

impl Default for SavedState {
    fn default() -> (r: SavedState)
        ensures
            is_first_run_state(r),
    {
        SavedState {
            emulation_enabled: default_true(),
            selected_device_guid: String::new(),
            profiles: ProfileStore::new(),
            auto_tray_enabled: default_true(),
            auto_tray_idle_seconds: default_idle_seconds(),
            auto_tray_countdown_seconds: default_countdown_seconds(),
            start_in_tray: false,
            startup_enabled: false,
            include_prereleases: false,
            forward_only_in_tray: default_true(),
            block_game_bar_controller_button: default_true(),
            last_auto_update_check_unix_seconds: 0,
            last_status: String::from_str("Ready."),
        }
    }
}

/// Seconds between automatic update checks.
pub const AUTO_UPDATE_INTERVAL_SECONDS: u64 = 3600;

/// The profile used for the selected device: the stored one, or the
/// default profile for that device when none is stored.
pub open spec fn profile_for(state: SavedState) -> (Seq<char>, Seq<char>, Seq<crate::model::MappingEntry>) {
    let guid = state.selected_device_guid@;
    if state.profiles.view().dom().contains(guid) {
        let p = state.profiles.view()[guid];
        (p.name@, p.device_guid@, p.entries@)
    } else {
        ("Default profile"@, guid, default_entries())
    }
}

impl SavedState {
    /// The profile of the selected device (a copy).
    pub fn current_profile(&self) -> (r: ControllerProfile)
        ensures
            (r.name@, r.device_guid@, r.entries@) == profile_for(*self),
    {
        match self.profiles.get(self.selected_device_guid.as_str()) {
            Some(p) => p.duplicate(),
            None => ControllerProfile::default_for(self.selected_device_guid.clone()),
        }
    }

    /// Stores `profile` as the profile of the selected device.
    pub fn store_current_profile(&mut self, profile: ControllerProfile)
        ensures
            final(self).profiles.view() == old(self).profiles.view().insert(
                old(self).selected_device_guid@,
                profile,
            ),
            final(self).selected_device_guid == old(self).selected_device_guid,
    {
        let guid = self.selected_device_guid.clone();
        self.profiles.insert(guid, profile);
    }

    /// Makes sure the selected device has a stored profile, storing the
    /// default one when it has none.
    pub fn ensure_current_profile(&mut self)
        ensures
            final(self).selected_device_guid == old(self).selected_device_guid,
            final(self).profiles.view().dom().contains(old(self).selected_device_guid@),
            old(self).profiles.view().dom().contains(old(self).selected_device_guid@)
                ==> final(self).profiles.view() == old(self).profiles.view(),
            !old(self).profiles.view().dom().contains(old(self).selected_device_guid@) ==> {
                let p = final(self).profiles.view()[old(self).selected_device_guid@];
                &&& final(self).profiles.view().remove(old(self).selected_device_guid@)
                    == old(self).profiles.view()
                &&& p.name@ == "Default profile"@
                &&& p.device_guid@ == old(self).selected_device_guid@
                &&& p.entries@ == default_entries()
            },
    {
        if self.profiles.get(self.selected_device_guid.as_str()).is_none() {
            let guid = self.selected_device_guid.clone();
            let profile = ControllerProfile::default_for(guid.clone());
            self.profiles.insert(guid, profile);
            proof {
                assert(final(self).profiles.view().remove(old(self).selected_device_guid@)
                    =~= old(self).profiles.view());
            }
        }
    }

    /// Selects a device. Selecting the device already selected changes
    /// nothing (the result is `false`); otherwise the device becomes the
    /// selected one and gets a stored profile if it had none.
    pub fn select_device(&mut self, guid: String) -> (r: bool)
        ensures
            r == (guid@ != old(self).selected_device_guid@),
            final(self).selected_device_guid@ == guid@,
            !r ==> final(self).profiles.view() == old(self).profiles.view(),
            r ==> final(self).profiles.view().dom().contains(guid@),
            r && old(self).profiles.view().dom().contains(guid@) ==> final(self).profiles.view()
                == old(self).profiles.view(),
    {
        let same = crate::text::same_chars(
            &crate::text::chars_of(self.selected_device_guid.as_str()),
            &crate::text::chars_of(guid.as_str()),
        );
        if same {
            return false;
        }
        self.selected_device_guid = guid;
        self.ensure_current_profile();
        true
    }

    /// Virtual output is forwarded unless the window is open and output is
    /// isolated while configuring.
    pub fn forwarding_active(&self, window_visible: bool) -> (r: bool)
        ensures
            r == (!window_visible || !self.forward_only_in_tray),
    {
        !window_visible || !self.forward_only_in_tray
    }

    /// An automatic update check starts in production builds, when none is
    /// running and an hour has passed since the last one (a clock earlier
    /// than the last check counts as no time passed).
    pub fn automatic_update_due(&self, now_unix_seconds: u64, dev_build: bool, check_running: bool) -> (r: bool)
        ensures
            r == (!dev_build && !check_running && now_unix_seconds
                >= self.last_auto_update_check_unix_seconds + AUTO_UPDATE_INTERVAL_SECONDS),
    {
        if dev_build || check_running {
            return false;
        }
        let elapsed = if now_unix_seconds >= self.last_auto_update_check_unix_seconds {
            now_unix_seconds - self.last_auto_update_check_unix_seconds
        } else {
            0
        };
        elapsed >= AUTO_UPDATE_INTERVAL_SECONDS
    }
}

} // verus!
