//! Audio input settings, output devices, and the audio format that the music
//! daemon reports in its status text.

use vstd::prelude::*;
use crate::text::{
    starts_with, strip_all_prefix, split, lines, parse_unsigned, chars_of, lines_of, has_prefix,
    strip_prefixes, split_on, parse_uint, trim, trimmed, string_of, views, str_eq,
};
use crate::mpd::{string_views, opt_view};

verus! {

/// TCP port on which the daemon serves its HTTP audio stream.
pub const DEFAULT_PORT: u16 = 8000;

/// TCP port of the music daemon.
pub const MPD_PORT: u16 = 6600;

/// Where audio samples come from.
#[derive(Clone, Debug)]
pub enum AudioSource {
    /// HTTP stream of the daemon (16-bit only).
    Http { host: String, port: u16 },
    /// Named pipe for high-resolution audio (16, 24 or 32 bits).
    Fifo { path: String },
}

impl Default for AudioSource {
    /// The daemon's HTTP stream on this machine.
    fn default() -> (s: Self)
        ensures
            s matches AudioSource::Http { host, port } && host@ == "127.0.0.1"@ && port == DEFAULT_PORT,
    {
        AudioSource::Http { host: "127.0.0.1".to_owned(), port: DEFAULT_PORT }
    }
}

/// Format of the incoming audio.
#[derive(Clone, Copy, Debug, PartialEq, Eq, Structural)]
pub struct AudioInputFormat {
    pub sample_rate: u32,
    pub bits_per_sample: u16,
    pub channels: u16,
}

impl Default for AudioInputFormat {
    /// CD quality: 44.1 kHz, 16 bits, stereo.
    fn default() -> (f: Self)
        ensures
            f.sample_rate == 44100 && f.bits_per_sample == 16 && f.channels == 2,
    {
        AudioInputFormat { sample_rate: 44100, bits_per_sample: 16, channels: 2 }
    }
}

impl AudioInputFormat {
    /// Better than CD quality: a higher sample rate or more bits.
    pub fn is_hi_res(&self) -> (r: bool)
        ensures
            r == (self.sample_rate > 44100 || self.bits_per_sample > 16),
    {
        self.sample_rate > 44100 || self.bits_per_sample > 16
    }
}

/// Settings of the audio pipeline.
#[derive(Clone, Debug)]
pub struct AudioPipelineConfig {
    pub source: AudioSource,
    pub format: AudioInputFormat,
}

impl Default for AudioPipelineConfig {
    fn default() -> (c: Self)
        ensures
            c.source matches AudioSource::Http { host, port } && host@ == "127.0.0.1"@ && port == DEFAULT_PORT,
            c.format.sample_rate == 44100 && c.format.bits_per_sample == 16 && c.format.channels == 2,
    {
        AudioPipelineConfig { source: AudioSource::default(), format: AudioInputFormat::default() }
    }
}

/// What one status line says of the audio format: nothing where it is not
/// an `audio: ` line with three `:`-separated fields; else the three numbers,
/// or `None` where one of them does not parse.
pub open spec fn audio_line(line: Seq<char>) -> Option<Option<(u32, u16, u16)>> {
    if starts_with(line, "audio: "@) {
        let parts = split(strip_all_prefix(line, "audio: "@), ":"@);
        if parts.len() >= 3 {
            Some(
                match (
                    parse_unsigned(parts[0], u32::MAX as nat),
                    parse_unsigned(parts[1], u16::MAX as nat),
                    parse_unsigned(parts[2], u16::MAX as nat),
                ) {
                    (Some(a), Some(b), Some(c)) => Some((a as u32, b as u16, c as u16)),
                    _ => None,
                },
            )
        } else {
            None
        }
    } else {
        None
    }
}

/// The audio format of the first `audio: ` line with three fields.
pub open spec fn status_audio(ls: Seq<Seq<char>>) -> Option<(u32, u16, u16)>
    decreases ls.len(),
{
    if ls.len() == 0 {
        None
    } else {
        match audio_line(ls[0]) {
            Some(r) => r,
            None => status_audio(ls.drop_first()),
        }
    }
}

/// The audio format (sample rate, bits per sample, channels) that the
/// daemon's status text reports on its `audio: rate:bits:channels` line.
pub fn parse_mpd_status(response: &str) -> (r: Option<(u32, u16, u16)>)
    ensures
        r == status_audio(lines(response@)),
{
    let text = chars_of(response);
    let ls = lines_of(&text);
    let prefix = chars_of("audio: ");
    let colon = chars_of(":");
    proof {
        reveal_strlit(":");
        assert(colon@.len() == 1);
        reveal_strlit("audio: ");
        assert(prefix@.len() > 0);
    }
    let ghost all = views(ls@);
    let mut i: usize = 0;
    assert(all.skip(0) =~= all);
    while i < ls.len()
        invariant
            i <= ls.len(),
            all == views(ls@),
            prefix@ == "audio: "@,
            colon@ == ":"@,
            prefix@.len() > 0,
            colon@.len() > 0,
            status_audio(lines(response@)) == status_audio(all.skip(i as int)),
            all == lines(response@),
        decreases ls.len() - i,
    {
        let line = &ls[i];
        assert(all.skip(i as int)[0] == line@);
        assert(all.skip(i as int).drop_first() =~= all.skip(i + 1));
        if has_prefix(line, &prefix) {
            let rest = strip_prefixes(line, &prefix);
            let parts = split_on(&rest, &colon);
            if parts.len() >= 3 {
                assert(views(parts@)[0] == parts@[0]@);
                assert(views(parts@)[1] == parts@[1]@);
                assert(views(parts@)[2] == parts@[2]@);
                let a = parse_uint(&parts[0], 4294967295u64);
                let b = parse_uint(&parts[1], 65535u64);
                let c = parse_uint(&parts[2], 65535u64);
                match (a, b, c) {
                    (Some(a), Some(b), Some(c)) => {
                        return Some((a as u32, b as u16, c as u16));
                    },
                    _ => {
                        return None;
                    },
                }
            }
        }
        i = i + 1;
    }
    None
}

/// An audio output device.
#[derive(Clone, Debug)]
pub struct AudioDevice {
    pub name: String,
    pub is_default: bool,
}

/// Switches the system's audio output; this build has no way to, so it
/// reports failure.
pub fn switch_audio_device(device_name: &str) -> (r: bool)
    ensures
        !r,
{
    false
}

/// Output devices as the system's switching tool lists them; this build has
/// no such tool, so the list is empty.
pub fn get_devices_from_system() -> (r: Vec<String>)
    ensures
        r.len() == 0,
{
    Vec::new()
}

/// Name of the default output device, where no device library is built in.
pub fn get_output_device_name() -> (r: String)
    ensures
        r@ == "Audio Device"@,
{
    "Audio Device".to_owned()
}

/// The output devices, where no device library is built in: one default.
pub fn get_output_devices() -> (r: Vec<AudioDevice>)
    ensures
        r.len() == 1,
        r@[0].name@ == "Audio Device"@,
        r@[0].is_default,
{
    let mut v: Vec<AudioDevice> = Vec::new();
    v.push(AudioDevice { name: "Audio Device".to_owned(), is_default: true });
    v
}

/// The name shown for the default output device, from what the device
/// library reports: `None` where there is no default device, `Some(None)`
/// where its name cannot be read.
pub open spec fn default_device_label(default: Option<Option<Seq<char>>>) -> Seq<char> {
    match default {
        Some(Some(name)) => name,
        Some(None) => "Unknown Device"@,
        None => "No Output Device"@,
    }
}

pub open spec fn opt_opt_view(o: Option<Option<String>>) -> Option<Option<Seq<char>>> {
    match o {
        Some(Some(s)) => Some(Some(s@)),
        Some(None) => Some(None),
        None => None,
    }
}

/// Name of the default output device where a device library reports it
/// (see `default_device_label`).
pub fn device_name_from(default: Option<Option<String>>) -> (r: String)
    ensures
        r@ == default_device_label(opt_opt_view(default)),
{
    match default {
        Some(Some(name)) => name,
        Some(None) => "Unknown Device".to_owned(),
        None => "No Output Device".to_owned(),
    }
}

/// The name that output devices are compared with to find the default one:
/// the default device's name, or the empty text where there is none or it
/// cannot be read.
pub open spec fn default_name_of(default: Option<Option<Seq<char>>>) -> Seq<char> {
    match default {
        Some(Some(name)) => name,
        _ => Seq::empty(),
    }
}

/// The output devices from the names that the device library lists
/// (`None` where a name cannot be read): the readable names, each once, in
/// the order of their first listing, each marked as the default where it
/// is the default device's name.
pub open spec fn listed_devices(names: Seq<Option<Seq<char>>>, default_name: Seq<char>) -> Seq<(Seq<char>, bool)>
    decreases names.len(),
{
    if names.len() == 0 {
        seq![]
    } else {
        let rest = listed_devices(names.drop_last(), default_name);
        match names.last() {
            Some(n) => if exists|i: int| 0 <= i < rest.len() && #[trigger] rest[i].0 == n {
                rest
            } else {
                rest.push((n, n == default_name))
            },
            None => rest,
        }
    }
}

pub open spec fn device_views(v: Seq<AudioDevice>) -> Seq<(Seq<char>, bool)> {
    Seq::new(v.len(), |i: int| (v[i].name@, v[i].is_default))
}

pub open spec fn opt_views(v: Seq<Option<String>>) -> Seq<Option<Seq<char>>> {
    Seq::new(v.len(), |i: int| opt_view(v[i]))
}

fn listed_already(devices: &Vec<AudioDevice>, name: &str) -> (r: bool)
    ensures
        r == exists|i: int| 0 <= i < devices@.len() && #[trigger] device_views(devices@)[i].0 == name@,
{
    let mut i: usize = 0;
    while i < devices.len()
        invariant
            i <= devices.len(),
            forall|j: int| 0 <= j < i ==> #[trigger] device_views(devices@)[j].0 != name@,
        decreases devices.len() - i,
    {
        if str_eq(devices[i].name.as_str(), name) {
            assert(device_views(devices@)[i as int].0 == name@);
            return true;
        }
        i = i + 1;
    }
    false
}

/// The output devices where a device library lists them (see
/// `listed_devices`); `default` is what it reports of the default device.
pub fn devices_from(names: &Vec<Option<String>>, default: &Option<Option<String>>) -> (r: Vec<AudioDevice>)
    ensures
        device_views(r@) == listed_devices(opt_views(names@), default_name_of(opt_opt_view(*default))),
{
    let default_name: String = match default {
        Some(Some(n)) => n.clone(),
        _ => String::new(),
    };
    let ghost dn = default_name_of(opt_opt_view(*default));
    assert(default_name@ == dn);
    let ghost ns = opt_views(names@);
    let mut out: Vec<AudioDevice> = Vec::new();
    let mut i: usize = 0;
    while i < names.len()
        invariant
            i <= names.len(),
            ns == opt_views(names@),
            default_name@ == dn,
            device_views(out@) == listed_devices(ns.take(i as int), dn),
        decreases names.len() - i,
    {
        assert(ns.take(i + 1).drop_last() =~= ns.take(i as int));
        assert(ns.take(i + 1).last() == opt_view(names@[i as int]));
        match &names[i] {
            Some(n) => {
                if !listed_already(&out, n.as_str()) {
                    let ghost before = device_views(out@);
                    let is_default = str_eq(n.as_str(), default_name.as_str());
                    out.push(AudioDevice { name: n.clone(), is_default });
                    assert(device_views(out@) =~= before.push((n@, n@ == dn)));
                }
            },
            None => {},
        }
        i = i + 1;
    }
    assert(ns.take(names.len() as int) =~= ns);
    out
}

/// The non-blank lines of a text, trimmed, in order.
pub open spec fn nonblank_trimmed(ls: Seq<Seq<char>>) -> Seq<Seq<char>>
    decreases ls.len(),
{
    if ls.len() == 0 {
        seq![]
    } else {
        let rest = nonblank_trimmed(ls.drop_last());
        let t = trim(ls.last());
        if t.len() > 0 {
            rest.push(t)
        } else {
            rest
        }
    }
}

/// The device names that the switching tool prints, one per line: each line
/// trimmed, blank lines left out.
pub fn device_names(output: &str) -> (r: Vec<String>)
    ensures
        string_views(r@) == nonblank_trimmed(lines(output@)),
{
    let text = chars_of(output);
    let ls = lines_of(&text);
    let ghost all = views(ls@);
    let mut out: Vec<String> = Vec::new();
    let mut i: usize = 0;
    while i < ls.len()
        invariant
            i <= ls.len(),
            all == views(ls@),
            all == lines(output@),
            string_views(out@) == nonblank_trimmed(all.take(i as int)),
        decreases ls.len() - i,
    {
        assert(all.take(i + 1).drop_last() =~= all.take(i as int));
        assert(all[i as int] == ls@[i as int]@);
        let t = trimmed(&ls[i]);
        if t.len() > 0 {
            let ghost before = string_views(out@);
            out.push(string_of(&t));
            assert(string_views(out@) =~= before.push(t@));
        }
        i = i + 1;
    }
    assert(all.take(ls.len() as int) =~= all);
    out
}

/// Output devices and the one in use, as the device panel keeps them.
pub struct DeviceState {
    /// Name of the device in use.
    pub output_device: String,
    pub audio_devices: Vec<String>,
    pub selected_device_idx: usize,
}

/// Position of the first entry equal to `x`.
pub open spec fn position_of(v: Seq<Seq<char>>, x: Seq<char>, i: nat) -> Option<nat>
    decreases v.len() - i,
{
    if i >= v.len() {
        None
    } else if v[i as int] == x {
        Some(i)
    } else {
        position_of(v, x, i + 1)
    }
}

/// Position of the first string equal to `x`.
pub fn find_position(v: &Vec<String>, x: &str) -> (r: Option<usize>)
    ensures
        r matches Some(i) ==> i < v.len(),
        match r {
            Some(i) => position_of(string_views(v@), x@, 0) == Some(i as nat),
            None => position_of(string_views(v@), x@, 0) is None,
        },
{
    let ghost sv = string_views(v@);
    let mut i: usize = v.len();
    let mut found: Option<usize> = None;
    while i > 0
        invariant
            i <= v.len(),
            sv == string_views(v@),
            found matches Some(k) ==> k < v.len(),
            match found {
                Some(k) => position_of(sv, x@, i as nat) == Some(k as nat),
                None => position_of(sv, x@, i as nat) is None,
            },
        decreases i,
    {
        i = i - 1;
        if crate::text::str_eq(v[i].as_str(), x) {
            found = Some(i);
        }
    }
    found
}

/// The device panel after the device list was read again, `found` being the
/// new list (`refresh_devices`).
pub open spec fn refreshed(out: Seq<char>, devices: Seq<Seq<char>>, sel: usize, found: Seq<Seq<char>>) -> (Seq<char>, Seq<Seq<char>>, usize) {
    if found.len() == 0 {
        (out, devices, sel)
    } else {
        let sel2: usize = match position_of(found, out, 0) {
            Some(i) => i as usize,
            None => if sel >= found.len() {
                0
            } else {
                sel
            },
        };
        let out2 = if position_of(found, out, 0) is Some {
            out
        } else {
            found[sel2 as int]
        };
        (out2, found, sel2)
    }
}

impl DeviceState {
    /// The selection is on a listed device, where there is one.
    pub open spec fn wf(&self) -> bool {
        self.audio_devices.len() == 0 || self.selected_device_idx < self.audio_devices.len()
    }

    pub open spec fn view_tuple(&self) -> (Seq<char>, Seq<Seq<char>>, usize) {
        (self.output_device@, string_views(self.audio_devices@), self.selected_device_idx)
    }

    /// Takes a newly read device list: keeps the device in use selected where
    /// it is still listed, else keeps the selection where it is still in the
    /// list (else the first) and shows that device as the one in use. An
    /// empty list changes nothing.
    pub fn refresh_devices(&mut self, found: Vec<String>)
        requires
            old(self).wf(),
        ensures
            final(self).wf(),
            final(self).view_tuple() == refreshed(old(self).output_device@, string_views(old(self).audio_devices@), old(self).selected_device_idx, string_views(found@)),
    {
        if found.len() == 0 {
            return;
        }
        let pos = find_position(&found, self.output_device.as_str());
        match pos {
            Some(idx) => {
                self.selected_device_idx = idx;
            },
            None => {
                if self.selected_device_idx >= found.len() {
                    self.selected_device_idx = 0;
                }
            },
        }
        self.audio_devices = found;
        if pos.is_none() {
            let idx = self.selected_device_idx;
            assert(string_views(self.audio_devices@)[idx as int] == self.audio_devices@[idx as int]@);
            self.output_device = self.audio_devices[idx].clone();
        }
    }

    /// Refreshes the list, then selects the next device (after the last, the
    /// first) and returns its name, to switch to. Nothing where no device is
    /// listed.
    pub fn next_device(&mut self, found: Vec<String>) -> (r: Option<String>)
        requires
            old(self).wf(),
        ensures
            final(self).wf(),
            ({
                let (o, d, s) = refreshed(old(self).output_device@, string_views(old(self).audio_devices@), old(self).selected_device_idx, string_views(found@));
                &&& final(self).output_device@ == o
                &&& string_views(final(self).audio_devices@) == d
                &&& if d.len() == 0 {
                    r is None && final(self).selected_device_idx == s
                } else {
                    &&& final(self).selected_device_idx == (s + 1) % (d.len() as int)
                    &&& r matches Some(n) && n@ == d[(s + 1) % (d.len() as int)]
                }
            }),
    {
        self.refresh_devices(found);
        if self.audio_devices.len() == 0 {
            return None;
        }
        let n = self.audio_devices.len();
        let s = self.selected_device_idx;
        let next: usize = (s + 1) % n;
        self.selected_device_idx = next;
        assert(string_views(self.audio_devices@)[next as int] == self.audio_devices@[next as int]@);
        Some(self.audio_devices[next].clone())
    }

    /// Refreshes the list, then selects the previous device (before the
    /// first, the last) and returns its name, to switch to. Nothing where no
    /// device is listed.
    pub fn prev_device(&mut self, found: Vec<String>) -> (r: Option<String>)
        requires
            old(self).wf(),
        ensures
            final(self).wf(),
            ({
                let (o, d, s) = refreshed(old(self).output_device@, string_views(old(self).audio_devices@), old(self).selected_device_idx, string_views(found@));
                &&& final(self).output_device@ == o
                &&& string_views(final(self).audio_devices@) == d
                &&& if d.len() == 0 {
                    r is None && final(self).selected_device_idx == s
                } else {
                    let p = if s == 0 { d.len() - 1 } else { s - 1 };
                    &&& final(self).selected_device_idx == p
                    &&& r matches Some(n) && n@ == d[p]
                }
            }),
    {
        self.refresh_devices(found);
        if self.audio_devices.len() == 0 {
            return None;
        }
        let s = self.selected_device_idx;
        let p: usize = if s == 0 { self.audio_devices.len() - 1 } else { s - 1 };
        self.selected_device_idx = p;
        assert(string_views(self.audio_devices@)[p as int] == self.audio_devices@[p as int]@);
        Some(self.audio_devices[p].clone())
    }

    /// The switch to a device succeeded: it is now the one in use.
    pub fn device_switched(&mut self, name: String)
        requires
            old(self).wf(),
        ensures
            final(self).wf(),
            final(self).output_device == name,
            final(self).audio_devices == old(self).audio_devices,
            final(self).selected_device_idx == old(self).selected_device_idx,
    {
        self.output_device = name;
    }
}

/// The device list: the switching tool's, unless it lists none, else the
/// names of the devices that the device library reports.
pub fn device_list(system: Vec<String>, fallback: &Vec<AudioDevice>) -> (r: Vec<String>)
    ensures
        system.len() > 0 ==> r@ == system@,
        system.len() == 0 ==> r.len() == fallback.len() && forall|k: int| 0 <= k < r.len() ==> #[trigger] r@[k] == fallback@[k].name,
{
    if system.len() > 0 {
        return system;
    }
    let mut out: Vec<String> = Vec::new();
    let mut i: usize = 0;
    while i < fallback.len()
        invariant
            i <= fallback.len(),
            out.len() == i,
            forall|k: int| 0 <= k < i ==> #[trigger] out@[k] == fallback@[k].name,
        decreases fallback.len() - i,
    {
        out.push(fallback[i].name.clone());
        i = i + 1;
    }
    out
}

} // verus!
