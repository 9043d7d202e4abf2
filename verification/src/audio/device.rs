//! What is computed about audio devices once the host has listed them: the
//! capabilities of a device, the merged device list, and which device an
//! identifier names.

use vstd::prelude::*;
use vstd::string::StringExecFns;

use crate::error::AudioError;
use crate::protocol::AudioDeviceInfo;
use crate::text::with_text;

verus! {

/// How a WASAPI stream shares its device.
#[derive(Debug, Clone, Copy)]
pub enum WasapiMode {
    /// Shared with other applications.
    Shared,
    /// Exclusive, for the lowest latency.
    Exclusive,
}

/// Whether WASAPI is at hand on the named operating system: it is the audio
/// host on `windows` and nowhere else.
pub fn is_available(target_os: &str) -> (b: bool)
    ensures
        b == (target_os@ == "windows"@),
{
    String::from_str(target_os) == String::from_str("windows")
}

/// Whether a device captures or plays.
#[derive(Debug, Clone, Copy, PartialEq, Eq, Structural)]
pub enum DeviceKind {
    Input,
    Output,
}

/// One range of configurations that a device supports.
#[derive(Debug, Clone, Copy)]
pub struct ConfigRange {
    pub min_sample_rate: u32,
    pub max_sample_rate: u32,
    pub channels: u16,
}

/// The sample rates that are looked for in a device, in rising order.
pub open spec fn common_rates() -> Seq<u32> {
    seq![44100, 48000, 88200, 96000, 176400, 192000]
}

/// Whether some range of a device covers a sample rate.
pub open spec fn rate_supported(ranges: Seq<ConfigRange>, rate: u32) -> bool {
    exists|i: int|
        0 <= i < ranges.len() && (#[trigger] ranges[i]).min_sample_rate <= rate
            <= ranges[i].max_sample_rate
}

/// The common rates that a device supports, in rising order.
pub open spec fn supported_rates(ranges: Seq<ConfigRange>) -> Seq<u32> {
    common_rates().filter(|rate: u32| rate_supported(ranges, rate))
}

/// Whether some range of a device has a channel count.
pub open spec fn channels_supported(ranges: Seq<ConfigRange>, channels: u16) -> bool {
    exists|i: int| 0 <= i < ranges.len() && (#[trigger] ranges[i]).channels == channels
}

/// A sequence in strictly rising order.
pub open spec fn strictly_rising(s: Seq<u16>) -> bool {
    forall|i: int, j: int| 0 <= i < j < s.len() ==> s[i] < s[j]
}

fn common_rate(i: usize) -> (rate: u32)
    requires
        i < 6,
    ensures
        rate == common_rates()[i as int],
{
    if i == 0 {
        44100
    } else if i == 1 {
        48000
    } else if i == 2 {
        88200
    } else if i == 3 {
        96000
    } else if i == 4 {
        176400
    } else {
        192000
    }
}

fn covers(ranges: &Vec<ConfigRange>, rate: u32) -> (b: bool)
    ensures
        b == rate_supported(ranges@, rate),
{
    let mut i: usize = 0;
    while i < ranges.len()
        invariant
            i <= ranges@.len(),
            forall|k: int|
                0 <= k < i ==> !((#[trigger] ranges@[k]).min_sample_rate <= rate
                    <= ranges@[k].max_sample_rate),
        decreases ranges@.len() - i,
    {
        if ranges[i].min_sample_rate <= rate && rate <= ranges[i].max_sample_rate {
            return true;
        }
        i = i + 1;
    }
    false
}

/// The capabilities of a device with the given configuration ranges: the
/// common sample rates that some range covers, and the channel counts of the
/// ranges, each in rising order and without repeats.
pub fn get_device_capabilities(ranges: &Vec<ConfigRange>) -> (caps: (Vec<u32>, Vec<u16>))
    ensures
        caps.0@ == supported_rates(ranges@),
        strictly_rising(caps.1@),
        forall|c: u16| caps.1@.contains(c) <==> channels_supported(ranges@, c),
{
    let ghost supported = |rate: u32| rate_supported(ranges@, rate);
    let mut rates: Vec<u32> = Vec::new();
    let mut i: usize = 0;
    proof {
        reveal(Seq::filter);
    }
    while i < 6
        invariant
            i <= 6,
            supported == |rate: u32| rate_supported(ranges@, rate),
            rates@ == common_rates().take(i as int).filter(supported),
        decreases 6 - i,
    {
        let rate = common_rate(i);
        proof {
            reveal(Seq::filter);
            assert(common_rates().take(i + 1).drop_last() =~= common_rates().take(i as int));
        }
        if covers(ranges, rate) {
            rates.push(rate);
        }
        i = i + 1;
    }
    assert(common_rates().take(6) =~= common_rates());
    let mut channels: Vec<u16> = Vec::new();
    let mut k: usize = 0;
    while k < ranges.len()
        invariant
            k <= ranges@.len(),
            strictly_rising(channels@),
            forall|c: u16|
                channels@.contains(c) <==> exists|i: int|
                    0 <= i < k && (#[trigger] ranges@[i]).channels == c,
        decreases ranges@.len() - k,
    {
        let c = ranges[k].channels;
        let mut p: usize = 0;
        while p < channels.len() && channels[p] < c
            invariant
                p <= channels@.len(),
                forall|j: int| 0 <= j < p ==> channels@[j] < c,
            decreases channels@.len() - p,
        {
            p = p + 1;
        }
        let ghost before = channels@;
        if p == channels.len() || channels[p] != c {
            channels.insert(p, c);
            assert(channels@[p as int] == c);
            assert(strictly_rising(channels@));
            assert forall|x: u16| before.contains(x) implies channels@.contains(x) by {
                let j = choose|j: int| 0 <= j < before.len() && before[j] == x;
                if j < p {
                    assert(channels@[j] == x);
                } else {
                    assert(channels@[j + 1] == x);
                }
            }
        }
        assert forall|x: u16|
            channels@.contains(x) <==> exists|i: int|
                0 <= i < k + 1 && (#[trigger] ranges@[i]).channels == x by {
            if channels@.contains(x) && x != c {
                assert(before.contains(x));
            }
            if exists|i: int| 0 <= i < k + 1 && (#[trigger] ranges@[i]).channels == x {
                let i = choose|i: int| 0 <= i < k + 1 && (#[trigger] ranges@[i]).channels == x;
                if i < k {
                    assert(before.contains(x));
                }
            }
        }
        k = k + 1;
    }
    (rates, channels)
}

/// An audio device as plain values.
pub struct DeviceView {
    pub id: Seq<char>,
    pub name: Seq<char>,
    pub is_input: bool,
    pub is_output: bool,
    pub is_default: bool,
    pub sample_rates: Seq<u32>,
    pub channels: Seq<u16>,
}

impl View for AudioDeviceInfo {
    type V = DeviceView;

    open spec fn view(&self) -> DeviceView {
        DeviceView {
            id: self.id@,
            name: self.name@,
            is_input: self.is_input,
            is_output: self.is_output,
            is_default: self.is_default,
            sample_rates: self.sample_rates@,
            channels: self.channels@,
        }
    }
}

/// A device as the host lists it on one side, with its capabilities there.
pub struct DeviceEntry {
    pub name: String,
    pub sample_rates: Vec<u32>,
    pub channels: Vec<u16>,
}

/// The list entry of an input device.
pub open spec fn input_view(entry: DeviceEntry, default_name: Option<Seq<char>>) -> DeviceView {
    DeviceView {
        id: "input:"@ + entry.name@,
        name: entry.name@,
        is_input: true,
        is_output: false,
        is_default: default_name == Some(entry.name@),
        sample_rates: entry.sample_rates@,
        channels: entry.channels@,
    }
}

/// The list entry of a device that is only an output device.
pub open spec fn output_view(entry: DeviceEntry, default_name: Option<Seq<char>>) -> DeviceView {
    DeviceView {
        id: "output:"@ + entry.name@,
        name: entry.name@,
        is_input: false,
        is_output: true,
        is_default: default_name == Some(entry.name@),
        sample_rates: entry.sample_rates@,
        channels: entry.channels@,
    }
}

/// The first place in a list of a device of the given name: the length of
/// the list where no device has it.
pub open spec fn position_of(list: Seq<DeviceView>, name: Seq<char>) -> int
    decreases list.len(),
{
    if list.len() == 0 {
        0
    } else if list[0].name == name {
        0
    } else {
        1 + position_of(list.drop_first(), name)
    }
}

/// The list after an output device was taken in: a device of the same name
/// that is listed already, the first such, becomes an output device as well,
/// and the default device if either is; a new name is added at the end.
pub open spec fn with_output(
    list: Seq<DeviceView>,
    entry: DeviceEntry,
    default_name: Option<Seq<char>>,
) -> Seq<DeviceView> {
    let at = position_of(list, entry.name@);
    if at < list.len() {
        list.update(
            at,
            DeviceView {
                is_output: true,
                is_default: list[at].is_default || default_name == Some(entry.name@),
                ..list[at]
            },
        )
    } else {
        list.push(output_view(entry, default_name))
    }
}

/// The device list made of the first `n` input devices.
pub open spec fn inputs_listed(
    inputs: Seq<DeviceEntry>,
    default_name: Option<Seq<char>>,
    n: nat,
) -> Seq<DeviceView>
    decreases n,
{
    if n == 0 {
        Seq::empty()
    } else {
        inputs_listed(inputs, default_name, (n - 1) as nat).push(
            input_view(inputs[n - 1], default_name),
        )
    }
}

/// The device list after the first `n` output devices were taken in.
pub open spec fn outputs_listed(
    list: Seq<DeviceView>,
    outputs: Seq<DeviceEntry>,
    default_name: Option<Seq<char>>,
    n: nat,
) -> Seq<DeviceView>
    decreases n,
{
    if n == 0 {
        list
    } else {
        with_output(
            outputs_listed(list, outputs, default_name, (n - 1) as nat),
            outputs[n - 1],
            default_name,
        )
    }
}

/// The view of each device of a list.
pub open spec fn list_view(devices: Seq<AudioDeviceInfo>) -> Seq<DeviceView> {
    devices.map_values(|d: AudioDeviceInfo| d@)
}

/// The view of an optional name.
pub open spec fn name_view(name: Option<&str>) -> Option<Seq<char>> {
    match name {
        Some(n) => Some(n@),
        None => None,
    }
}

fn is_named(name: &String, wanted: Option<&str>) -> (b: bool)
    ensures
        b == (name_view(wanted) == Some(name@)),
{
    match wanted {
        Some(w) => *name == String::from_str(w),
        None => false,
    }
}

fn find_by_name(devices: &Vec<AudioDeviceInfo>, name: &String) -> (at: usize)
    ensures
        at == position_of(list_view(devices@), name@),
        at <= devices@.len(),
{
    let mut i: usize = 0;
    assert(list_view(devices@).skip(0) =~= list_view(devices@));
    while i < devices.len()
        invariant
            i <= devices@.len(),
            position_of(list_view(devices@), name@) == i + position_of(
                list_view(devices@).skip(i as int),
                name@,
            ),
        decreases devices@.len() - i,
    {
        let ghost rest = list_view(devices@).skip(i as int);
        if devices[i].name == *name {
            return i;
        }
        assert(rest.drop_first() =~= list_view(devices@).skip(i + 1));
        i = i + 1;
    }
    i
}

/// The device list of a host: every input device in the order listed, then
/// the output devices, each merged into the entry of the same name where
/// there is one and added at the end where there is none. `default_input`
/// and `default_output` are the names of the host's default devices.
pub fn list_devices(
    inputs: &Vec<DeviceEntry>,
    outputs: &Vec<DeviceEntry>,
    default_input: Option<&str>,
    default_output: Option<&str>,
) -> (devices: Vec<AudioDeviceInfo>)
    ensures
        list_view(devices@) == outputs_listed(
            inputs_listed(inputs@, name_view(default_input), inputs@.len()),
            outputs@,
            name_view(default_output),
            outputs@.len(),
        ),
{
    let mut devices: Vec<AudioDeviceInfo> = Vec::new();
    let mut i: usize = 0;
    while i < inputs.len()
        invariant
            i <= inputs@.len(),
            list_view(devices@) =~= inputs_listed(inputs@, name_view(default_input), i as nat),
        decreases inputs@.len() - i,
    {
        let entry = &inputs[i];
        let info = AudioDeviceInfo {
            id: with_text("input:", entry.name.as_str()),
            name: entry.name.clone(),
            is_input: true,
            is_output: false,
            is_default: is_named(&entry.name, default_input),
            sample_rates: copy_rates(&entry.sample_rates),
            channels: copy_channels(&entry.channels),
        };
        devices.push(info);
        i = i + 1;
    }
    let ghost listed = list_view(devices@);
    let mut k: usize = 0;
    while k < outputs.len()
        invariant
            k <= outputs@.len(),
            list_view(devices@) =~= outputs_listed(
                listed,
                outputs@,
                name_view(default_output),
                k as nat,
            ),
        decreases outputs@.len() - k,
    {
        let entry = &outputs[k];
        let is_default = is_named(&entry.name, default_output);
        let at = find_by_name(&devices, &entry.name);
        if at < devices.len() {
            let existing = devices.remove(at);
            let merged = AudioDeviceInfo {
                is_output: true,
                is_default: existing.is_default || is_default,
                ..existing
            };
            devices.insert(at, merged);
        } else {
            let info = AudioDeviceInfo {
                id: with_text("output:", entry.name.as_str()),
                name: entry.name.clone(),
                is_input: false,
                is_output: true,
                is_default,
                sample_rates: copy_rates(&entry.sample_rates),
                channels: copy_channels(&entry.channels),
            };
            devices.push(info);
        }
        k = k + 1;
    }
    devices
}

fn copy_rates(rates: &Vec<u32>) -> (copy: Vec<u32>)
    ensures
        copy@ == rates@,
{
    let mut copy: Vec<u32> = Vec::new();
    copy.extend_from_slice(rates.as_slice());
    copy
}

fn copy_channels(channels: &Vec<u16>) -> (copy: Vec<u16>)
    ensures
        copy@ == channels@,
{
    let mut copy: Vec<u16> = Vec::new();
    copy.extend_from_slice(channels.as_slice());
    copy
}

/// `str::strip_prefix`: the rest of the text where it starts with the
/// prefix, and `None` where it does not.
#[verifier::external_body]
fn strip_prefix<'a>(text: &'a str, prefix: &str) -> (rest: Option<&'a str>)
    ensures
        match rest {
            Some(r) => text@ == prefix@ + r@,
            None => !prefix@.is_prefix_of(text@),
        },
{
    text.strip_prefix(prefix)
}

/// The kind and the name that a device identifier stands for.
pub open spec fn device_of_id(id: Seq<char>) -> (DeviceKind, Seq<char>) {
    if "input:"@.is_prefix_of(id) {
        (DeviceKind::Input, id.skip("input:"@.len() as int))
    } else if "output:"@.is_prefix_of(id) {
        (DeviceKind::Output, id.skip("output:"@.len() as int))
    } else {
        (DeviceKind::Input, id)
    }
}

/// Reads a device identifier: `input:` or `output:` and the device's name.
/// An identifier without either prefix is the name of an input device.
pub fn parse_device_id(id: &str) -> (r: (DeviceKind, &str))
    ensures
        (r.0, r.1@) == device_of_id(id@),
{
    match strip_prefix(id, "input:") {
        Some(name) => {
            (DeviceKind::Input, name)
        },
        None => match strip_prefix(id, "output:") {
            Some(name) => {
                (DeviceKind::Output, name)
            },
            None => (DeviceKind::Input, id),
        },
    }
}

/// The first place of a name among device names: the number of names where
/// the name is not among them.
pub open spec fn name_position(names: Seq<String>, name: Seq<char>) -> int
    decreases names.len(),
{
    if names.len() == 0 {
        0
    } else if names[0]@ == name {
        0
    } else {
        1 + name_position(names.drop_first(), name)
    }
}

/// A position lies between zero and the number of names.
pub proof fn lemma_name_position_in_range(names: Seq<String>, name: Seq<char>)
    ensures
        0 <= name_position(names, name) <= names.len(),
    decreases names.len(),
{
    if names.len() > 0 && names[0]@ != name {
        lemma_name_position_in_range(names.drop_first(), name);
    }
}

/// Finds the device that an identifier names. `input_names` and
/// `output_names` are the names of the host's devices in the order listed.
/// Gives the kind of the device and its place among the devices of that
/// kind, the first of that name, or `DeviceNotFound` with the identifier
/// where no device of that kind has the name.
#[verifier::loop_isolation(false)]
pub fn get_device_by_id(id: &str, input_names: &Vec<String>, output_names: &Vec<String>) -> (r:
    Result<(DeviceKind, usize), AudioError>)
    ensures
        ({
            let (kind, name) = device_of_id(id@);
            let names = if kind == DeviceKind::Input {
                input_names@
            } else {
                output_names@
            };
            let at = name_position(names, name);
            if at < names.len() {
                r == Ok::<(DeviceKind, usize), AudioError>((kind, at as usize))
            } else {
                r is Err && (r->Err_0 matches AudioError::DeviceNotFound(msg) && msg@ == id@)
            }
        }),
{
    let (kind, name) = parse_device_id(id);
    let names = match kind {
        DeviceKind::Input => input_names,
        DeviceKind::Output => output_names,
    };
    let wanted = String::from_str(name);
    let mut i: usize = 0;
    assert(names@.skip(0) =~= names@);
    proof {
        lemma_name_position_in_range(names@, name@);
    }
    while i < names.len()
        invariant
            i <= names@.len(),
            wanted@ == name@,
            name_position(names@, name@) == i + name_position(names@.skip(i as int), name@),
        decreases names@.len() - i,
    {
        let ghost rest = names@.skip(i as int);
        if names[i] == wanted {
            return Ok((kind, i));
        }
        assert(rest.drop_first() =~= names@.skip(i + 1));
        i = i + 1;
    }
    Err(AudioError::DeviceNotFound(String::from_str(id)))
}

} // verus!
