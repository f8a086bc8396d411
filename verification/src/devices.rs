//! Audio input devices: the listing that `pactl list sources` prints, the
//! choice between that listing and the ALSA names, the fallback order for
//! picking an input device, and the choice of a mono capture configuration.
use vstd::prelude::*;
use crate::session::Platform;
use crate::text::{chars_of, prefixed, ends_with, has_prefix, has_suffix, lemma_trim_idempotent, split_lines, starts_with, trim, trim_range};

verus! {

/// An input device as the settings screen shows it.
#[derive(Debug, Clone)]
pub struct AudioDevice {
    /// The internal name used for recording (PulseAudio source name or ALSA device name).
    pub name: String,
    /// Human-readable label shown in the UI.
    pub label: String,
}

/// The mathematical content of an `AudioDevice`.
pub struct DeviceEntry {
    pub name: Seq<char>,
    pub label: Seq<char>,
}

impl View for AudioDevice {
    type V = DeviceEntry;

    open spec fn view(&self) -> DeviceEntry {
        DeviceEntry { name: self.name@, label: self.label@ }
    }
}

pub open spec fn entries(devices: Seq<AudioDevice>) -> Seq<DeviceEntry> {
    devices.map_values(|d: AudioDevice| d@)
}

/// What has been read of a `pactl list sources` listing: the devices of the
/// blocks already closed, and the name and description seen so far in the
/// open block.
pub struct PactlScan {
    pub devices: Seq<DeviceEntry>,
    pub name: Option<Seq<char>>,
    pub desc: Option<Seq<char>>,
}

/// Closing a block adds its device when the block had both a name and a
/// description, unless the name is that of a monitor source.
pub open spec fn close_block(
    devices: Seq<DeviceEntry>,
    name: Option<Seq<char>>,
    desc: Option<Seq<char>>,
) -> Seq<DeviceEntry> {
    match (name, desc) {
        (Some(n), Some(d)) => if ends_with(n, ".monitor"@) {
            devices
        } else {
            devices.push(DeviceEntry { name: n, label: d })
        },
        _ => devices,
    }
}

/// The value after `key` on a line whose trimmed text starts with `key`.
pub open spec fn field_value(line: Seq<char>, key: Seq<char>) -> Seq<char> {
    trim(trim(line).skip(key.len() as int))
}

/// One line of the listing: a `Source #` line closes the open block; a
/// `Name:` or `Description:` line records its value in the open block.
pub open spec fn scan_line(st: PactlScan, line: Seq<char>) -> PactlScan {
    if starts_with(line, "Source #"@) {
        PactlScan { devices: close_block(st.devices, st.name, st.desc), name: None, desc: None }
    } else if starts_with(trim(line), "Name:"@) {
        PactlScan { devices: st.devices, name: Some(field_value(line, "Name:"@)), desc: st.desc }
    } else if starts_with(trim(line), "Description:"@) {
        PactlScan {
            devices: st.devices,
            name: st.name,
            desc: Some(field_value(line, "Description:"@)),
        }
    } else {
        st
    }
}

pub open spec fn scan_lines(lines: Seq<Seq<char>>) -> PactlScan
    decreases lines.len(),
{
    if lines.len() == 0 {
        PactlScan { devices: Seq::empty(), name: None, desc: None }
    } else {
        scan_line(scan_lines(lines.drop_last()), lines.last())
    }
}

/// The input sources that a `pactl list sources` listing describes.
pub open spec fn pactl_sources(text: Seq<char>) -> Seq<DeviceEntry> {
    let st = scan_lines(split_lines(text));
    close_block(st.devices, st.name, st.desc)
}

pub open spec fn range_text(v: Seq<char>, r: Option<(usize, usize)>) -> Option<Seq<char>> {
    match r {
        Some((a, b)) => Some(v.subrange(a as int, b as int)),
        None => None,
    }
}

pub open spec fn range_ok(r: Option<(usize, usize)>, n: nat) -> bool {
    match r {
        Some((a, b)) => a <= b <= n,
        None => true,
    }
}

/// The listing's parts that the scan compares against.
struct PactlKeys {
    header: Vec<char>,
    name: Vec<char>,
    desc: Vec<char>,
    monitor: Vec<char>,
}

impl PactlKeys {
    spec fn wf(&self) -> bool {
        &&& self.header@ == "Source #"@
        &&& self.name@ == "Name:"@
        &&& self.desc@ == "Description:"@
        &&& self.monitor@ == ".monitor"@
    }

    fn new() -> (k: Self)
        ensures
            k.wf(),
    {
        PactlKeys {
            header: chars_of("Source #"),
            name: chars_of("Name:"),
            desc: chars_of("Description:"),
            monitor: chars_of(".monitor"),
        }
    }
}

/// Closes the open block `name`/`desc` of `v` into `devices`.
fn close_block_exec(
    text: &str,
    v: &Vec<char>,
    keys: &PactlKeys,
    devices: &mut Vec<AudioDevice>,
    name: Option<(usize, usize)>,
    desc: Option<(usize, usize)>,
)
    requires
        v@ == text@,
        keys.wf(),
        range_ok(name, v@.len()),
        range_ok(desc, v@.len()),
    ensures
        entries(final(devices)@) == close_block(
            entries(old(devices)@),
            range_text(v@, name),
            range_text(v@, desc),
        ),
{
    match (name, desc) {
        (Some((na, nb)), Some((da, db))) => {
            if !has_suffix(v, na, nb, &keys.monitor) {
                let n = String::from_str(text.substring_char(na, nb));
                let d = String::from_str(text.substring_char(da, db));
                let ghost before = devices@;
                devices.push(AudioDevice { name: n, label: d });
                assert(entries(devices@) =~= entries(before).push(
                    DeviceEntry { name: v@.subrange(na as int, nb as int), label: v@.subrange(da as int, db as int) },
                ));
            }
        },
        _ => {},
    }
}

/// Reads the line `v[lo..hi]` into the scan state.
fn scan_line_exec(
    text: &str,
    v: &Vec<char>,
    keys: &PactlKeys,
    lo: usize,
    hi: usize,
    devices: &mut Vec<AudioDevice>,
    name: &mut Option<(usize, usize)>,
    desc: &mut Option<(usize, usize)>,
)
    requires
        v@ == text@,
        keys.wf(),
        lo <= hi <= v@.len(),
        range_ok(*old(name), v@.len()),
        range_ok(*old(desc), v@.len()),
    ensures
        range_ok(*final(name), v@.len()),
        range_ok(*final(desc), v@.len()),
        (PactlScan {
            devices: entries(final(devices)@),
            name: range_text(v@, *final(name)),
            desc: range_text(v@, *final(desc)),
        }) == scan_line(
            PactlScan {
                devices: entries(old(devices)@),
                name: range_text(v@, *old(name)),
                desc: range_text(v@, *old(desc)),
            },
            v@.subrange(lo as int, hi as int),
        ),
{
    let ghost line = v@.subrange(lo as int, hi as int);
    if has_prefix(v, lo, hi, &keys.header) {
        close_block_exec(text, v, keys, devices, *name, *desc);
        *name = None;
        *desc = None;
        return;
    }
    let (ta, tb) = trim_range(v, lo, hi);
    if has_prefix(v, ta, tb, &keys.name) {
        let (a, b) = trim_range(v, ta + keys.name.len(), tb);
        assert(v@.subrange(ta as int, tb as int).skip(keys.name@.len() as int)
            =~= v@.subrange(ta + keys.name@.len(), tb as int));
        *name = Some((a, b));
    } else if has_prefix(v, ta, tb, &keys.desc) {
        let (a, b) = trim_range(v, ta + keys.desc.len(), tb);
        assert(v@.subrange(ta as int, tb as int).skip(keys.desc@.len() as int)
            =~= v@.subrange(ta + keys.desc@.len(), tb as int));
        *desc = Some((a, b));
    }
}

proof fn lemma_split_lines_step(s: Seq<char>, i: int)
    requires
        0 <= i < s.len(),
    ensures
        s.take(i + 1).drop_last() == s.take(i),
        s.take(i + 1).last() == s[i],
        s[i] == '\n' ==> split_lines(s.take(i + 1)) == split_lines(s.take(i)).push(Seq::<char>::empty()),
        s[i] != '\n' ==> split_lines(s.take(i + 1)) == ({
            let prev = split_lines(s.take(i));
            prev.update(prev.len() - 1, prev.last().push(s[i]))
        }),
{
    assert(s.take(i + 1).drop_last() =~= s.take(i));
}

/// The input sources described by the output of `pactl list sources`.
///
/// Each source block starts with a `Source #N` line and carries `Name:` and
/// `Description:` lines; a block with both becomes a device, unless its name
/// ends with `.monitor`.
pub fn parse_pactl_sources(text: &str) -> (devices: Vec<AudioDevice>)
    ensures
        entries(devices@) == pactl_sources(text@),
{
    let v = chars_of(text);
    let keys = PactlKeys::new();
    let mut devices: Vec<AudioDevice> = Vec::new();
    let mut name: Option<(usize, usize)> = None;
    let mut desc: Option<(usize, usize)> = None;
    let mut line_start: usize = 0;
    let mut i: usize = 0;
    assert(entries(devices@) =~= Seq::<DeviceEntry>::empty());
    assert(v@.take(0) =~= Seq::<char>::empty());
    assert(v@.subrange(0, 0) =~= Seq::<char>::empty());
    while i < v.len()
        invariant
            v@ == text@,
            keys.wf(),
            line_start <= i <= v@.len(),
            range_ok(name, v@.len()),
            range_ok(desc, v@.len()),
            split_lines(v@.take(i as int)).len() >= 1,
            split_lines(v@.take(i as int)).last() == v@.subrange(line_start as int, i as int),
            scan_lines(split_lines(v@.take(i as int)).drop_last()) == (PactlScan {
                devices: entries(devices@),
                name: range_text(v@, name),
                desc: range_text(v@, desc),
            }),
        decreases v@.len() - i,
    {
        let ghost prev = split_lines(v@.take(i as int));
        proof {
            lemma_split_lines_step(v@, i as int);
        }
        if v[i] == '\n' {
            scan_line_exec(text, &v, &keys, line_start, i, &mut devices, &mut name, &mut desc);
            assert(prev =~= prev.drop_last().push(prev.last()));
            assert(split_lines(v@.take(i + 1)).drop_last() =~= prev);
            line_start = i + 1;
            assert(v@.subrange(line_start as int, i + 1) =~= Seq::<char>::empty());
        } else {
            assert(split_lines(v@.take(i + 1)).drop_last() =~= prev.drop_last());
            assert(v@.subrange(line_start as int, i + 1) =~= v@.subrange(line_start as int, i as int).push(v@[i as int]));
        }
        i = i + 1;
    }
    let ghost all = split_lines(v@.take(i as int));
    assert(v@.take(i as int) =~= v@);
    assert(all =~= all.drop_last().push(all.last()));
    scan_line_exec(text, &v, &keys, line_start, i, &mut devices, &mut name, &mut desc);
    close_block_exec(text, &v, &keys, &mut devices, name, desc);
    devices
}

pub open spec fn names_view(names: Seq<Option<String>>) -> Seq<Option<Seq<char>>> {
    names.map_values(|n: Option<String>| match n {
        Some(s) => Some(s@),
        None => None,
    })
}

/// The devices of the ALSA listing: those whose name could be read, each
/// labelled with its name.
pub open spec fn alsa_entries(names: Seq<Option<Seq<char>>>) -> Seq<DeviceEntry>
    decreases names.len(),
{
    if names.len() == 0 {
        Seq::empty()
    } else {
        let prev = alsa_entries(names.drop_last());
        match names.last() {
            Some(n) => prev.push(DeviceEntry { name: n, label: n }),
            None => prev,
        }
    }
}

/// What listing the devices takes next.
pub enum DeviceListing {
    /// The PulseAudio/PipeWire sources, which is the answer.
    Ready(Vec<AudioDevice>),
    /// The ALSA input devices are to be enumerated.
    NeedAlsa,
}

/// The devices to show: the PulseAudio/PipeWire sources when there are any,
/// else the ALSA input devices are to be enumerated.
pub fn list_devices(pulse: Vec<AudioDevice>) -> (r: DeviceListing)
    ensures
        pulse@.len() > 0 ==> (r matches DeviceListing::Ready(d) && d@ == pulse@),
        pulse@.len() == 0 ==> r is NeedAlsa,
{
    if pulse.len() > 0 {
        DeviceListing::Ready(pulse)
    } else {
        DeviceListing::NeedAlsa
    }
}

/// The devices of an ALSA enumeration (`Err` with the enumeration's error).
pub fn alsa_devices(names: Result<Vec<Option<String>>, String>) -> (r: Result<Vec<AudioDevice>, String>)
    ensures
        match names {
            Ok(ns) => r matches Ok(d) && entries(d@) == alsa_entries(names_view(ns@)),
            Err(e) => r matches Err(m) && m@ == "Failed to enumerate input devices: "@ + e@,
        },
{
    match names {
        Err(e) => Err(prefixed("Failed to enumerate input devices: ", e.as_str())),
        Ok(ns) => {
            let mut devices: Vec<AudioDevice> = Vec::new();
            let mut i: usize = 0;
            assert(entries(devices@) =~= Seq::<DeviceEntry>::empty());
            while i < ns.len()
                invariant
                    i <= ns@.len(),
                    entries(devices@) == alsa_entries(names_view(ns@).take(i as int)),
                decreases ns@.len() - i,
            {
                assert(names_view(ns@).take(i + 1).drop_last() =~= names_view(ns@).take(i as int));
                match &ns[i] {
                    Some(n) => {
                        let ghost before = devices@;
                        devices.push(AudioDevice { name: n.clone(), label: n.clone() });
                        assert(entries(devices@) =~= entries(before).push(DeviceEntry { name: n@, label: n@ }));
                    },
                    None => {},
                }
                i = i + 1;
            }
            assert(names_view(ns@).take(i as int) =~= names_view(ns@));
            Ok(devices)
        },
    }
}

/// The first position of `target` among `names`.
pub open spec fn find_name(names: Seq<Option<Seq<char>>>, target: Seq<char>) -> Option<int>
    decreases names.len(),
{
    if names.len() == 0 {
        None
    } else {
        match find_name(names.drop_last(), target) {
            Some(i) => Some(i),
            None => if names.last() == Some(target) {
                Some(names.len() - 1)
            } else {
                None
            },
        }
    }
}

/// The first position of `target` among `names`.
pub fn position_of(names: &Vec<Option<String>>, target: &str) -> (r: Option<usize>)
    ensures
        match r {
            Some(i) => find_name(names_view(names@), target@) == Some(i as int),
            None => find_name(names_view(names@), target@) is None,
        },
{
    let wanted = String::from_str(target);
    let mut i: usize = 0;
    while i < names.len()
        invariant
            i <= names@.len(),
            wanted@ == target@,
            find_name(names_view(names@).take(i as int), target@) is None,
        decreases names@.len() - i,
    {
        assert(names_view(names@).take(i + 1).drop_last() =~= names_view(names@).take(i as int));
        let hit = match &names[i] {
            Some(n) => *n == wanted,
            None => false,
        };
        if hit {
            proof {
                lemma_find_name_prefix(names_view(names@), target@, i as int + 1);
            }
            return Some(i);
        }
        i = i + 1;
    }
    assert(names_view(names@).take(i as int) =~= names_view(names@));
    None
}

/// A match found in a prefix is the match of the whole list.
pub proof fn lemma_find_name_prefix(names: Seq<Option<Seq<char>>>, target: Seq<char>, k: int)
    requires
        0 <= k <= names.len(),
        find_name(names.take(k), target) is Some,
    ensures
        find_name(names, target) == find_name(names.take(k), target),
    decreases names.len() - k,
{
    if k < names.len() {
        assert(names.take(k + 1).drop_last() =~= names.take(k));
        lemma_find_name_prefix(names, target, k + 1);
    } else {
        assert(names.take(k) =~= names);
    }
}

/// Which input device to record from.
pub enum DevicePick {
    /// The host's default input device; the text is the error when there is none.
    Default(String),
    /// The device at this position of the enumeration.
    Listed(usize),
}

/// How to record from a requested device: the source to route the
/// PipeWire/PulseAudio bridge to (through `PULSE_SOURCE` and
/// `PIPEWIRE_NODE`), if any, and the device to open.
pub struct DevicePlan {
    pub route: Option<String>,
    pub pick: DevicePick,
}

pub enum PickModel {
    Default(Seq<char>),
    Listed(int),
}

pub struct PlanModel {
    pub route: Option<Seq<char>>,
    pub pick: PickModel,
}

impl View for DevicePlan {
    type V = PlanModel;

    open spec fn view(&self) -> PlanModel {
        PlanModel {
            route: match &self.route {
                Some(r) => Some(r@),
                None => None,
            },
            pick: match &self.pick {
                DevicePick::Default(e) => PickModel::Default(e@),
                DevicePick::Listed(i) => PickModel::Listed(*i as int),
            },
        }
    }
}

/// The device names that can carry a PipeWire/PulseAudio source, in the
/// order they are tried.
pub open spec fn bridges() -> Seq<Seq<char>> {
    seq!["pipewire"@, "pulse"@, "default"@, "sysdefault"@]
}

/// The first bridge device present among `names`, by position in the list.
pub open spec fn find_bridge(names: Seq<Option<Seq<char>>>, k: int) -> Option<int>
    decreases 4 - k,
{
    if k >= 4 || k < 0 {
        None
    } else {
        match find_name(names, bridges()[k]) {
            Some(i) => Some(i),
            None => find_bridge(names, k + 1),
        }
    }
}

/// The device chosen for `requested` among the enumerated `names` (`None`
/// when the enumeration failed): the default device when none is requested;
/// the first device of that name; on Linux, routing the bridge to the
/// requested source, the first bridge device; else the default device.
pub open spec fn device_plan(
    names: Option<Seq<Option<Seq<char>>>>,
    requested: Option<Seq<char>>,
    platform: Platform,
) -> PlanModel {
    let listed = match names {
        Some(ns) => ns,
        None => Seq::empty(),
    };
    match requested {
        None => PlanModel { route: None, pick: PickModel::Default("No default input device available"@) },
        Some(n) => match find_name(listed, n) {
            Some(i) => PlanModel { route: None, pick: PickModel::Listed(i) },
            None => {
                let fallback = PickModel::Default(
                    "Device '"@ + n + "' not found and no default available"@,
                );
                match platform {
                    Platform::Linux => PlanModel {
                        route: Some(n),
                        pick: match find_bridge(listed, 0) {
                            Some(i) => PickModel::Listed(i),
                            None => fallback,
                        },
                    },
                    Platform::Other => PlanModel { route: None, pick: fallback },
                }
            },
        },
    }
}

pub open spec fn opt_names_view(names: Option<Vec<Option<String>>>) -> Option<Seq<Option<Seq<char>>>> {
    match names {
        Some(ns) => Some(names_view(ns@)),
        None => None,
    }
}

/// Chooses the input device to record from.
pub fn select_input_device(
    names: Option<Vec<Option<String>>>,
    requested: Option<&str>,
    platform: Platform,
) -> (r: DevicePlan)
    ensures
        r@ == device_plan(
            opt_names_view(names),
            match requested {
                Some(s) => Some(s@),
                None => None,
            },
            platform,
        ),
{
    let listed: Vec<Option<String>> = match names {
        Some(ns) => ns,
        None => Vec::new(),
    };
    assert(names_view(listed@) == match opt_names_view(names) {
        Some(ns) => ns,
        None => Seq::<Option<Seq<char>>>::empty(),
    }) by {
        if names is None {
            assert(names_view(listed@) =~= Seq::<Option<Seq<char>>>::empty());
        }
    }
    let n = match requested {
        None => {
            return DevicePlan {
                route: None,
                pick: DevicePick::Default(String::from_str("No default input device available")),
            };
        },
        Some(n) => n,
    };
    if let Some(i) = position_of(&listed, n) {
        return DevicePlan { route: None, pick: DevicePick::Listed(i) };
    }
    let mut message = String::from_str("Device '");
    message.append(n);
    message.append("' not found and no default available");
    match platform {
        Platform::Other => DevicePlan { route: None, pick: DevicePick::Default(message) },
        Platform::Linux => {
            let ghost lv = names_view(listed@);
            reveal_with_fuel(find_bridge, 5);
            let pick = if let Some(i) = position_of(&listed, "pipewire") {
                DevicePick::Listed(i)
            } else if let Some(i) = position_of(&listed, "pulse") {
                DevicePick::Listed(i)
            } else if let Some(i) = position_of(&listed, "default") {
                DevicePick::Listed(i)
            } else if let Some(i) = position_of(&listed, "sysdefault") {
                DevicePick::Listed(i)
            } else {
                DevicePick::Default(message)
            };
            DevicePlan { route: Some(String::from_str(n)), pick }
        },
    }
}

/// A capture configuration range that an input device supports.
#[derive(Clone, Copy, Debug)]
pub struct ConfigRange {
    pub channels: u16,
    /// Whether its samples are 32-bit floats.
    pub is_f32: bool,
    pub min_rate: u32,
    pub max_rate: u32,
}

/// The rate that speech is recorded at when the device allows it, and the
/// rate a recording starts out with.
pub const SPEECH_SAMPLE_RATE: u32 = 16000;

/// The rate that speech is recorded at when the device allows it.
pub open spec fn target_rate() -> u32 {
    SPEECH_SAMPLE_RATE
}

pub open spec fn fits_mono_target(c: ConfigRange) -> bool {
    c.channels == 1 && c.is_f32 && c.min_rate <= target_rate() && c.max_rate >= target_rate()
}

/// 16 kHz when one of `ranges` is mono, 32-bit float and covers 16 kHz.
pub open spec fn mono_rate(ranges: Seq<ConfigRange>) -> Option<u32> {
    if exists|i: int| 0 <= i < ranges.len() && fits_mono_target(#[trigger] ranges[i]) {
        Some(target_rate())
    } else {
        None
    }
}

/// The sample rate of the mono capture configuration: 16 kHz when one of
/// the supported ranges is mono, 32-bit float and covers 16 kHz; `None` when
/// the default configuration's rate is to be used instead.
pub fn pick_mono_rate(ranges: Result<Vec<ConfigRange>, String>) -> (r: Result<Option<u32>, String>)
    ensures
        match ranges {
            Err(e) => r matches Err(m) && m@ == "Failed to get supported configs: "@ + e@,
            Ok(rs) => r == Ok::<Option<u32>, String>(mono_rate(rs@)),
        },
{
    match ranges {
        Err(e) => Err(prefixed("Failed to get supported configs: ", e.as_str())),
        Ok(rs) => {
            let mut i: usize = 0;
            while i < rs.len()
                invariant
                    ranges == Ok::<Vec<ConfigRange>, String>(rs),
                    i <= rs@.len(),
                    forall|j: int| 0 <= j < i ==> !fits_mono_target(#[trigger] rs@[j]),
                decreases rs@.len() - i,
            {
                let c = rs[i];
                if c.channels == 1 && c.is_f32 && c.min_rate <= SPEECH_SAMPLE_RATE && c.max_rate >= SPEECH_SAMPLE_RATE {
                    assert(fits_mono_target(rs@[i as int]));
                    return Ok(Some(SPEECH_SAMPLE_RATE));
                }
                i = i + 1;
            }
            Ok(None)
        },
    }
}

/// The sample rate of the fallback mono configuration: the default
/// configuration's rate.
pub fn default_mono_rate(default_rate: Result<u32, String>) -> (r: Result<u32, String>)
    ensures
        match default_rate {
            Ok(rate) => r == Ok::<u32, String>(rate),
            Err(e) => r matches Err(m) && m@ == "Failed to get default config: "@ + e@,
        },
{
    match default_rate {
        Ok(rate) => Ok(rate),
        Err(e) => Err(prefixed("Failed to get default config: ", e.as_str())),
    }
}

/// A listed source: its name is no monitor's, and neither its name nor its
/// label has whitespace at either end.
pub open spec fn clean_entry(d: DeviceEntry) -> bool {
    &&& !ends_with(d.name, ".monitor"@)
    &&& trim(d.name) == d.name
    &&& trim(d.label) == d.label
}

pub open spec fn clean_scan(st: PactlScan) -> bool {
    &&& forall|i: int| 0 <= i < st.devices.len() ==> clean_entry(#[trigger] st.devices[i])
    &&& (st.name matches Some(n) ==> trim(n) == n)
    &&& (st.desc matches Some(d) ==> trim(d) == d)
}

proof fn lemma_close_block_clean(devices: Seq<DeviceEntry>, name: Option<Seq<char>>, desc: Option<Seq<char>>)
    requires
        clean_scan(PactlScan { devices, name, desc }),
    ensures
        forall|i: int| 0 <= i < close_block(devices, name, desc).len()
            ==> clean_entry(#[trigger] close_block(devices, name, desc)[i]),
{
    let out = close_block(devices, name, desc);
    assert forall|i: int| 0 <= i < out.len() implies clean_entry(#[trigger] out[i]) by {
        let st = PactlScan { devices, name, desc };
        if i < devices.len() {
            assert(out[i] == devices[i]);
            assert(clean_entry(st.devices[i]));
        } else {
            match (name, desc) {
                (Some(n), Some(d)) => {
                    assert(out[i] == DeviceEntry { name: n, label: d });
                },
                _ => {},
            }
        }
    }
}

proof fn lemma_scan_lines_clean(lines: Seq<Seq<char>>)
    ensures
        clean_scan(scan_lines(lines)),
    decreases lines.len(),
{
    if lines.len() > 0 {
        lemma_scan_lines_clean(lines.drop_last());
        let st = scan_lines(lines.drop_last());
        let line = lines.last();
        lemma_close_block_clean(st.devices, st.name, st.desc);
        lemma_trim_idempotent(trim(line).skip("Name:"@.len() as int));
        lemma_trim_idempotent(trim(line).skip("Description:"@.len() as int));
    }
}

/// No source listed by `pactl` is a monitor source, and every name and label
/// comes without surrounding whitespace.
pub proof fn law_pactl_sources_clean(text: Seq<char>)
    ensures
        forall|i: int| 0 <= i < pactl_sources(text).len() ==> clean_entry(#[trigger] pactl_sources(text)[i]),
{
    let st = scan_lines(split_lines(text));
    lemma_scan_lines_clean(split_lines(text));
    lemma_close_block_clean(st.devices, st.name, st.desc);
}

/// A position that `find_name` gives holds the name looked for, and no
/// earlier position does.
pub proof fn lemma_find_name_hit(names: Seq<Option<Seq<char>>>, target: Seq<char>)
    ensures
        find_name(names, target) matches Some(i) ==> 0 <= i < names.len() && names[i] == Some(target)
            && forall|j: int| 0 <= j < i ==> names[j] != Some(target),
        find_name(names, target) is None ==> forall|j: int| 0 <= j < names.len() ==> names[j] != Some(target),
    decreases names.len(),
{
    if names.len() > 0 {
        lemma_find_name_hit(names.drop_last(), target);
        assert forall|j: int| 0 <= j < names.len() - 1 implies names[j] == names.drop_last()[j] by {}
    }
}

proof fn lemma_find_bridge_hit(names: Seq<Option<Seq<char>>>, k: int)
    ensures
        find_bridge(names, k) matches Some(i) ==> 0 <= i < names.len()
            && exists|b: int| 0 <= b < 4 && names[i] == Some(#[trigger] bridges()[b]),
    decreases 4 - k,
{
    if 0 <= k < 4 {
        lemma_find_name_hit(names, bridges()[k]);
        lemma_find_bridge_hit(names, k + 1);
    }
}

/// The device chosen for a request is the default one when nothing is
/// requested; a listed device is the first one of the requested name, or,
/// on Linux when no device has that name, a bridge device; and the bridge
/// is routed to the requested source only then.
pub proof fn law_device_plan(names: Seq<Option<Seq<char>>>, requested: Option<Seq<char>>, platform: Platform)
    ensures
        ({
            let plan = device_plan(Some(names), requested, platform);
            &&& (requested is None ==> plan.route is None && plan.pick is Default)
            &&& (plan.pick matches PickModel::Listed(i) ==> 0 <= i < names.len() && requested is Some)
            &&& (plan.pick matches PickModel::Listed(i) ==> requested matches Some(n) ==> (
                names[i] == Some(n)
                || (plan.route == Some(n) && platform == Platform::Linux
                    && (forall|j: int| 0 <= j < names.len() ==> names[j] != Some(n))
                    && exists|b: int| 0 <= b < 4 && names[i] == Some(#[trigger] bridges()[b]))))
            &&& (plan.route matches Some(r) ==> platform == Platform::Linux && requested == Some(r)
                && forall|j: int| 0 <= j < names.len() ==> names[j] != Some(r))
        }),
{
    match requested {
        Some(n) => {
            lemma_find_name_hit(names, n);
            lemma_find_bridge_hit(names, 0);
        },
        None => {},
    }
}

/// On every platform, when the requested name is among the enumerated
/// device names, the device recorded from is the first one of that name,
/// and nothing is routed.
pub proof fn law_device_plan_takes_requested(
    names: Seq<Option<Seq<char>>>,
    requested: Seq<char>,
    platform: Platform,
    i: int,
)
    requires
        0 <= i < names.len(),
        names[i] == Some(requested),
        forall|j: int| 0 <= j < i ==> names[j] != Some(requested),
    ensures
        device_plan(Some(names), Some(requested), platform) == (PlanModel { route: None, pick: PickModel::Listed(i) }),
{
    lemma_find_name_hit(names, requested);
    match find_name(names, requested) {
        Some(k) => {
            if k < i {
                assert(names[k] != Some(requested));
            } else if k > i {
                assert(names[i] != Some(requested));
            }
        },
        None => {
            assert(names[i] != Some(requested));
        },
    }
}

} // verus!
