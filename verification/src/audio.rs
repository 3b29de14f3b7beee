//! Audio input devices: how they are named to the user and which one a
//! selection resolves to; the frequency bands of the level meter and the
//! window of samples it analyses.

use vstd::prelude::*;

use crate::error::AppError;
use crate::settings::AudioInputSelection;
use crate::text::{decimal_seq, decimal_string, lemma_decimal_injective};

verus! {

/// Device availability state.
#[derive(Clone, Copy, Debug, PartialEq, Eq)]
pub enum DeviceState {
    Available,
    Unavailable,
    FormatUnsupported,
}

/// An input device as the host reports it: its name and whether it can record.
#[derive(Clone, Debug, PartialEq, Eq)]
pub struct DetectedInput {
    pub name: String,
    pub state: DeviceState,
}

/// Single audio input device for UI display.
#[derive(Clone, Debug, PartialEq, Eq)]
pub struct AudioDeviceInfo {
    pub name: String,
    pub is_default: bool,
    pub name_suffix: String,
    pub session_index: usize,
    pub state: DeviceState,
}

/// The names of the detected devices.
pub open spec fn input_names(devices: Seq<DetectedInput>) -> Seq<Seq<char>> {
    devices.map_values(|d: DetectedInput| d.name@)
}

/// How many times `name` occurs in `names`.
pub open spec fn name_count(names: Seq<Seq<char>>, name: Seq<char>) -> nat
    decreases names.len(),
{
    if names.len() == 0 {
        0
    } else {
        name_count(names.drop_last(), name) + if names.last() == name {
            1nat
        } else {
            0nat
        }
    }
}

/// The suffix that tells apart devices sharing a name: " — #k" for the k-th
/// device of that name, when there is more than one; empty otherwise.
pub open spec fn name_suffix_spec(names: Seq<Seq<char>>, i: int) -> Seq<char> {
    if name_count(names, names[i]) > 1 {
        " \u{2014} #"@ + decimal_seq(name_count(names.take(i), names[i]) + 1)
    } else {
        Seq::empty()
    }
}

proof fn lemma_name_count_bound(names: Seq<Seq<char>>, name: Seq<char>)
    ensures
        name_count(names, name) <= names.len(),
    decreases names.len(),
{
    if names.len() > 0 {
        lemma_name_count_bound(names.drop_last(), name);
    }
}

proof fn lemma_name_count_take_step(names: Seq<Seq<char>>, name: Seq<char>, k: int)
    requires
        0 <= k < names.len(),
    ensures
        name_count(names.take(k + 1), name) == name_count(names.take(k), name) + if names[k]
            == name {
            1nat
        } else {
            0nat
        },
{
    assert(names.take(k + 1).drop_last() =~= names.take(k));
}

proof fn lemma_name_count_take_monotone(names: Seq<Seq<char>>, name: Seq<char>, i: int, j: int)
    requires
        0 <= i <= j <= names.len(),
    ensures
        name_count(names.take(i), name) <= name_count(names.take(j), name),
    decreases j - i,
{
    if i < j {
        lemma_name_count_take_monotone(names, name, i, j - 1);
        lemma_name_count_take_step(names, name, j - 1);
    }
}

/// Devices that share a name are told apart: each gets a suffix, and the
/// suffixes differ.
pub proof fn lemma_shared_names_get_distinct_suffixes(names: Seq<Seq<char>>, i: int, j: int)
    requires
        0 <= i < j < names.len(),
        names[i] == names[j],
    ensures
        name_suffix_spec(names, i).len() > 0,
        name_suffix_spec(names, i) != name_suffix_spec(names, j),
{
    let n = names[i];
    lemma_name_count_take_step(names, n, i);
    lemma_name_count_take_monotone(names, n, i + 1, j);
    lemma_name_count_take_step(names, n, j);
    lemma_name_count_take_monotone(names, n, j + 1, names.len() as int);
    assert(names.take(names.len() as int) =~= names);
    let oi = name_count(names.take(i), n) + 1;
    let oj = name_count(names.take(j), n) + 1;
    assert(oi < oj);
    let prefix = " \u{2014} #"@;
    let si = name_suffix_spec(names, i);
    let sj = name_suffix_spec(names, j);
    assert(si == prefix + decimal_seq(oi));
    assert(sj == prefix + decimal_seq(oj));
    if si == sj {
        assert(si.subrange(prefix.len() as int, si.len() as int) =~= decimal_seq(oi));
        assert(sj.subrange(prefix.len() as int, sj.len() as int) =~= decimal_seq(oj));
        lemma_decimal_injective(oi, oj);
    }
}

/// A device whose name no other detected device shares gets no suffix.
pub proof fn lemma_unique_name_has_no_suffix(names: Seq<Seq<char>>, i: int)
    requires
        0 <= i < names.len(),
        forall|j: int| 0 <= j < names.len() && j != i ==> names[j] != names[i],
    ensures
        name_suffix_spec(names, i).len() == 0,
{
    let n = names[i];
    lemma_name_count_take_step(names, n, i);
    assert forall|k: int| 0 <= k <= names.len() implies #[trigger] name_count(names.take(k), n)
        == (if k > i { 1nat } else { 0nat }) by {
        lemma_unique_count_prefix(names, i, k);
    }
    assert(names.take(names.len() as int) =~= names);
}

proof fn lemma_unique_count_prefix(names: Seq<Seq<char>>, i: int, k: int)
    requires
        0 <= i < names.len(),
        0 <= k <= names.len(),
        forall|j: int| 0 <= j < names.len() && j != i ==> names[j] != names[i],
    ensures
        name_count(names.take(k), names[i]) == (if k > i { 1nat } else { 0nat }),
    decreases k,
{
    if k > 0 {
        lemma_unique_count_prefix(names, i, k - 1);
        lemma_name_count_take_step(names, names[i], k - 1);
    } else {
        assert(names.take(0) =~= Seq::<Seq<char>>::empty());
    }
}

/// Counts the devices among `devices[..end]` named `name`.
fn count_named(devices: &Vec<DetectedInput>, end: usize, name: &String) -> (n: usize)
    requires
        end <= devices.len(),
    ensures
        n == name_count(input_names(devices@).take(end as int), name@),
{
    let ghost names = input_names(devices@);
    let mut n: usize = 0;
    let mut j: usize = 0;
    assert(names.take(0) =~= Seq::<Seq<char>>::empty());
    while j < end
        invariant
            j <= end <= devices.len(),
            names == input_names(devices@),
            n == name_count(names.take(j as int), name@),
        decreases end - j,
    {
        assert(names.take(j + 1).drop_last() =~= names.take(j as int));
        proof {
            lemma_name_count_bound(names.take(j as int), name@);
        }
        if devices[j].name == *name {
            n = n + 1;
        }
        j = j + 1;
    }
    n
}

/// Describes the detected input devices for the user: duplicate names get a
/// numbered suffix, the host's default device is marked, and each device
/// keeps its position as its session index.
pub fn describe_audio_inputs(devices: &Vec<DetectedInput>, default_name: Option<&String>) -> (r: Vec<
    AudioDeviceInfo,
>)
    ensures
        r.len() == devices.len(),
        forall|i: int|
            0 <= i < r.len() ==> {
                &&& (#[trigger] r[i]).name@ == devices[i].name@
                &&& r[i].is_default == (default_name matches Some(d) && d@ == devices[i].name@)
                &&& r[i].name_suffix@ == name_suffix_spec(input_names(devices@), i)
                &&& r[i].session_index == i
                &&& r[i].state == devices[i].state
            },
{
    let ghost names = input_names(devices@);
    let mut r: Vec<AudioDeviceInfo> = Vec::new();
    let mut i: usize = 0;
    while i < devices.len()
        invariant
            i <= devices.len(),
            r.len() == i,
            names == input_names(devices@),
            forall|k: int|
                0 <= k < i ==> {
                    &&& (#[trigger] r[k]).name@ == devices[k].name@
                    &&& r[k].is_default == (default_name matches Some(d) && d@ == devices[k].name@)
                    &&& r[k].name_suffix@ == name_suffix_spec(names, k)
                    &&& r[k].session_index == k
                    &&& r[k].state == devices[k].state
                },
        decreases devices.len() - i,
    {
        let name = &devices[i].name;
        let total = count_named(devices, devices.len(), name);
        assert(names.take(devices.len() as int) =~= names);
        let suffix = if total > 1 {
            let before = count_named(devices, i, name);
            proof {
                lemma_name_count_bound(names.take(i as int), name@);
            }
            let mut s = String::from_str(" \u{2014} #");
            s.append(decimal_string((before + 1) as u64).as_str());
            s
        } else {
            String::new()
        };
        let is_default = match default_name {
            Some(d) => *d == *name,
            None => false,
        };
        r.push(
            AudioDeviceInfo {
                name: name.clone(),
                is_default,
                name_suffix: suffix,
                session_index: i,
                state: devices[i].state,
            },
        );
        i = i + 1;
    }
    r
}

/// Which device a selection resolves to.
#[derive(Clone, Copy, Debug, PartialEq, Eq)]
pub enum InputChoice {
    /// The host's default input device.
    SystemDefault,
    /// The detected device at this position.
    Detected(usize),
}

/// The resolution of a selection: a named device is used only when exactly one
/// detected device bears its name; otherwise the default device is used, and
/// when there is none the microphone is unavailable.
pub open spec fn resolve_choice_spec(
    selection: AudioInputSelection,
    names: Seq<Seq<char>>,
    has_default: bool,
    r: Result<InputChoice, AppError>,
) -> bool {
    let falls_back = match selection {
        AudioInputSelection::SystemDefault => true,
        AudioInputSelection::ByName(target) => name_count(names, target@) != 1,
    };
    if falls_back {
        if has_default {
            r == Ok::<InputChoice, AppError>(InputChoice::SystemDefault)
        } else {
            r == Err::<InputChoice, AppError>(AppError::MicrophoneUnavailable)
        }
    } else {
        r matches Ok(InputChoice::Detected(i)) && 0 <= i < names.len() && names[i as int]
            == selection->ByName_0@
    }
}

/// The system default selection never picks a detected device, whatever is
/// detected: it is the host's default input when there is one, and the
/// microphone is unavailable otherwise. A selection by name picks a device
/// only when it bears that name.
pub proof fn lemma_selection_resolution(
    selection: AudioInputSelection,
    names: Seq<Seq<char>>,
    has_default: bool,
    r: Result<InputChoice, AppError>,
)
    requires
        resolve_choice_spec(selection, names, has_default, r),
    ensures
        selection is SystemDefault && has_default ==> r == Ok::<InputChoice, AppError>(
            InputChoice::SystemDefault,
        ),
        selection is SystemDefault && !has_default ==> r == Err::<InputChoice, AppError>(
            AppError::MicrophoneUnavailable,
        ),
        r matches Ok(InputChoice::Detected(i)) ==> (selection matches AudioInputSelection::ByName(t)
            && 0 <= i < names.len() && names[i as int] == t@),
        r is Err ==> !has_default,
{
}

/// Position of the first detected device named `name`, if any.
fn find_named(devices: &Vec<DetectedInput>, name: &String) -> (r: Option<usize>)
    ensures
        match r {
            Some(i) => i < devices.len() && devices@[i as int].name@ == name@,
            None => name_count(input_names(devices@), name@) == 0,
        },
{
    let ghost names = input_names(devices@);
    let mut j: usize = 0;
    assert(names.take(0) =~= Seq::<Seq<char>>::empty());
    while j < devices.len()
        invariant
            j <= devices.len(),
            names == input_names(devices@),
            name_count(names.take(j as int), name@) == 0,
        decreases devices.len() - j,
    {
        assert(names.take(j + 1).drop_last() =~= names.take(j as int));
        if devices[j].name == *name {
            return Some(j);
        }
        j = j + 1;
    }
    assert(names.take(devices.len() as int) =~= names);
    None
}

/// Resolves an input selection against the detected devices.
pub fn resolve_audio_input(
    selection: &AudioInputSelection,
    devices: &Vec<DetectedInput>,
    has_default: bool,
) -> (r: Result<InputChoice, AppError>)
    ensures
        resolve_choice_spec(*selection, input_names(devices@), has_default, r),
{
    let ghost names = input_names(devices@);
    let chosen: Option<usize> = match selection {
        AudioInputSelection::SystemDefault => None,
        AudioInputSelection::ByName(target) => {
            let total = count_named(devices, devices.len(), target);
            assert(names.take(devices.len() as int) =~= names);
            if total == 1 {
                find_named(devices, target)
            } else {
                None
            }
        },
    };
    match chosen {
        Some(i) => Ok(InputChoice::Detected(i)),
        None => {
            if has_default {
                Ok(InputChoice::SystemDefault)
            } else {
                Err(AppError::MicrophoneUnavailable)
            }
        },
    }
}

/// Whether the recorder must be (re)spawned for `device_name`: there is none
/// yet, or it records from another device.
pub fn recorder_needs_respawn(current_device: Option<&String>, device_name: &String) -> (b: bool)
    ensures
        b == match current_device {
            None => true,
            Some(c) => c@ != device_name@,
        },
{
    match current_device {
        None => true,
        Some(c) => !(*c == *device_name),
    }
}

/// Number of frequency bands shown by the level meter.
pub const EQ_BAND_COUNT: usize = 7;

/// Centre frequencies (Hz) of the level-meter bands, log-spaced from 120 Hz to 8 kHz.
pub open spec fn band_centers() -> Seq<u32> {
    seq![120u32, 250u32, 500u32, 1000u32, 2000u32, 4000u32, 8000u32]
}

/// The integer nearest to `p / q`, halves rounded up (`q > 0`).
pub open spec fn round_div(p: nat, q: nat) -> nat {
    ((2 * p + q) / (2 * q)) as nat
}

/// `x` as a `usize`, saturating at `usize::MAX`.
pub open spec fn saturate_usize(x: nat) -> usize {
    if x > usize::MAX {
        usize::MAX
    } else {
        x as usize
    }
}

/// Lower edge of a band, in tenths of a hertz: 70% of the centre, but not below 120 Hz.
pub open spec fn band_low_tenths(center: nat) -> nat {
    if 7 * center > 1200 {
        7 * center
    } else {
        1200
    }
}

/// Upper edge of a band, in tenths of a hertz: 130% of the centre, but not above Nyquist.
pub open spec fn band_high_tenths(center: nat, sample_rate: nat) -> nat {
    if 13 * center < 5 * sample_rate {
        13 * center
    } else {
        5 * sample_rate
    }
}

/// FFT bins (start, end) of the band around `center`: the bins nearest to its
/// edges, for bins `sample_rate / fft_size` Hz wide. At a zero sample rate the
/// bin width is zero (or undefined for a zero FFT size) and the edges saturate
/// as a float conversion does.
pub open spec fn band_bins_spec(sample_rate: nat, fft_size: nat, center: nat) -> (usize, usize) {
    if sample_rate == 0 {
        if fft_size == 0 {
            (0, 0)
        } else {
            (usize::MAX, 0)
        }
    } else {
        (
            saturate_usize(round_div(band_low_tenths(center) * fft_size, 10 * sample_rate)),
            saturate_usize(
                round_div(band_high_tenths(center, sample_rate) * fft_size, 10 * sample_rate),
            ),
        )
    }
}

/// Nearest bin to `tenths / 10` Hz, for bins `sample_rate / fft_size` Hz wide.
fn nearest_bin(tenths: u64, fft_size: usize, sample_rate: u32) -> (b: usize)
    requires
        sample_rate > 0,
        tenths <= 104000,
    ensures
        b == saturate_usize(round_div(tenths as nat * fft_size as nat, 10 * sample_rate as nat)),
{
    assert((tenths as u128) * (fft_size as u128) <= 104000 * 0xffff_ffff_ffff_ffffu128) by (nonlinear_arith)
        requires
            tenths <= 104000,
            fft_size <= 0xffff_ffff_ffff_ffffu128,
    ;
    let p: u128 = (tenths as u128) * (fft_size as u128);
    let q: u128 = 10 * (sample_rate as u128);
    let r: u128 = (2 * p + q) / (2 * q);
    if r > usize::MAX as u128 {
        usize::MAX
    } else {
        r as usize
    }
}

proof fn lemma_round_div_monotone(p1: nat, p2: nat, q: nat)
    requires
        p1 <= p2,
        q > 0,
    ensures
        round_div(p1, q) <= round_div(p2, q),
{
    vstd::arithmetic::div_mod::lemma_div_is_ordered((2 * p1 + q) as int, (2 * p2 + q) as int, (2 * q) as int);
}

proof fn lemma_saturate_monotone(x: nat, y: nat)
    requires
        x <= y,
    ensures
        saturate_usize(x) <= saturate_usize(y),
{
}

/// A band's last bin is at most the Nyquist bin, rounded up.
proof fn lemma_band_end_bound(sample_rate: nat, fft_size: nat, center: nat)
    ensures
        band_bins_spec(sample_rate, fft_size, center).1 <= fft_size / 2 + 1,
{
    if sample_rate > 0 {
        let high = band_high_tenths(center, sample_rate);
        assert(high <= 5 * sample_rate);
        vstd::arithmetic::mul::lemma_mul_inequality(high as int, (5 * sample_rate) as int, fft_size as int);
        lemma_round_div_monotone(high * fft_size, 5 * sample_rate * fft_size, 10 * sample_rate);
        let q = 10 * sample_rate;
        assert(2 * (5 * sample_rate * fft_size) + q == q * (fft_size + 1)) by (nonlinear_arith)
            requires
                q == 10 * sample_rate,
        ;
        vstd::arithmetic::div_mod::lemma_div_denominator((q * (fft_size + 1)) as int, q as int, 2);
        vstd::arithmetic::div_mod::lemma_div_multiples_vanish((fft_size + 1) as int, q as int);
        assert(round_div(5 * sample_rate * fft_size, q) == (fft_size + 1) / 2);
    }
}

/// A band around a higher centre starts and ends at no lower bins.
proof fn lemma_band_bins_monotone(sample_rate: nat, fft_size: nat, c1: nat, c2: nat)
    requires
        c1 <= c2,
    ensures
        band_bins_spec(sample_rate, fft_size, c1).0 <= band_bins_spec(sample_rate, fft_size, c2).0,
        band_bins_spec(sample_rate, fft_size, c1).1 <= band_bins_spec(sample_rate, fft_size, c2).1,
{
    if sample_rate > 0 {
        let q = 10 * sample_rate;
        let l1 = band_low_tenths(c1);
        let l2 = band_low_tenths(c2);
        let h1 = band_high_tenths(c1, sample_rate);
        let h2 = band_high_tenths(c2, sample_rate);
        vstd::arithmetic::mul::lemma_mul_inequality(l1 as int, l2 as int, fft_size as int);
        vstd::arithmetic::mul::lemma_mul_inequality(h1 as int, h2 as int, fft_size as int);
        lemma_round_div_monotone(l1 * fft_size, l2 * fft_size, q);
        lemma_round_div_monotone(h1 * fft_size, h2 * fft_size, q);
        lemma_saturate_monotone(round_div(l1 * fft_size, q), round_div(l2 * fft_size, q));
        lemma_saturate_monotone(round_div(h1 * fft_size, q), round_div(h2 * fft_size, q));
    }
}

/// The FFT bins of one band.
pub fn band_bins(sample_rate: u32, fft_size: usize, center: u32) -> (r: (usize, usize))
    requires
        120 <= center <= 8000,
    ensures
        r == band_bins_spec(sample_rate as nat, fft_size as nat, center as nat),
        sample_rate >= 11200 ==> r.0 <= r.1,
{
    if sample_rate == 0 {
        if fft_size == 0 {
            return (0, 0);
        } else {
            return (usize::MAX, 0);
        }
    }
    let c = center as u64;
    let low: u64 = if 7 * c > 1200 {
        7 * c
    } else {
        1200
    };
    let high: u64 = if 13 * c < 5 * (sample_rate as u64) {
        13 * c
    } else {
        5 * (sample_rate as u64)
    };
    proof {
        if sample_rate >= 11200 {
            assert(low <= high);
            vstd::arithmetic::mul::lemma_mul_inequality(low as int, high as int, fft_size as int);
            lemma_round_div_monotone(
                low as nat * fft_size as nat,
                high as nat * fft_size as nat,
                10 * sample_rate as nat,
            );
        }
    }
    (nearest_bin(low, fft_size, sample_rate), nearest_bin(high, fft_size, sample_rate))
}

/// Computes the FFT bin ranges of the level-meter bands.
pub fn compute_band_bins(sample_rate: u32, fft_size: usize) -> (r: Vec<(usize, usize)>)
    ensures
        r.len() == EQ_BAND_COUNT,
        forall|i: int|
            0 <= i < EQ_BAND_COUNT ==> #[trigger] r[i] == band_bins_spec(
                sample_rate as nat,
                fft_size as nat,
                band_centers()[i] as nat,
            ),
        sample_rate >= 11200 ==> forall|i: int| 0 <= i < EQ_BAND_COUNT ==> (#[trigger] r[i]).0 <= r[i].1,
        forall|i: int| 0 <= i < EQ_BAND_COUNT ==> (#[trigger] r[i]).1 <= fft_size / 2 + 1,
        forall|i: int, j: int|
            0 <= i <= j < EQ_BAND_COUNT ==> (#[trigger] r[i]).0 <= (#[trigger] r[j]).0 && r[i].1
                <= r[j].1,
{
    let centers: Vec<u32> = vec![120, 250, 500, 1000, 2000, 4000, 8000];
    assert(centers@ =~= band_centers());
    let mut r: Vec<(usize, usize)> = Vec::new();
    let mut i: usize = 0;
    while i < centers.len()
        invariant
            i <= centers.len(),
            centers@ == band_centers(),
            r.len() == i,
            forall|k: int|
                0 <= k < i ==> #[trigger] r[k] == band_bins_spec(
                    sample_rate as nat,
                    fft_size as nat,
                    band_centers()[k] as nat,
                ),
            sample_rate >= 11200 ==> forall|k: int| 0 <= k < i ==> (#[trigger] r[k]).0 <= r[k].1,
        decreases centers.len() - i,
    {
        r.push(band_bins(sample_rate, fft_size, centers[i]));
        i = i + 1;
    }
    assert forall|i: int| 0 <= i < EQ_BAND_COUNT implies (#[trigger] r[i]).1 <= fft_size / 2 + 1 by {
        lemma_band_end_bound(sample_rate as nat, fft_size as nat, band_centers()[i] as nat);
    }
    assert forall|i: int, j: int|
        0 <= i <= j < EQ_BAND_COUNT implies (#[trigger] r[i]).0 <= (#[trigger] r[j]).0 && r[i].1
            <= r[j].1 by {
        assert(band_centers()[i] <= band_centers()[j]);
        lemma_band_bins_monotone(
            sample_rate as nat,
            fft_size as nat,
            band_centers()[i] as nat,
            band_centers()[j] as nat,
        );
    }
    r
}

/// The newest `n` items of `s` (all of them when there are fewer).
pub open spec fn newest<T>(s: Seq<T>, n: nat) -> Seq<T> {
    if s.len() <= n {
        s
    } else {
        s.subrange(s.len() - n, s.len() as int)
    }
}

/// Keeping the newest `n` items, then adding more and keeping the newest `n`
/// again, is keeping the newest `n` of everything.
pub proof fn lemma_newest_of_newest<T>(a: Seq<T>, b: Seq<T>, n: nat)
    ensures
        newest(newest(a, n) + b, n) == newest(a + b, n),
{
    if a.len() > n {
        let x = newest(newest(a, n) + b, n);
        let y = newest(a + b, n);
        assert(x.len() == y.len());
        assert forall|i: int| 0 <= i < x.len() implies x[i] == y[i] by {
            if b.len() + i < n {
            } else {
            }
        }
        assert(x =~= y);
    }
}

/// All the samples of a run of feeds, in order.
pub open spec fn fed_samples<T>(feeds: Seq<Seq<T>>) -> Seq<T>
    decreases feeds.len(),
{
    if feeds.len() == 0 {
        Seq::empty()
    } else {
        fed_samples(feeds.drop_last()) + feeds.last()
    }
}

/// What a window of `capacity` holds after a run of feeds from empty: each
/// feed adds its samples and the newest `capacity` are kept.
pub open spec fn window_after<T>(capacity: nat, feeds: Seq<Seq<T>>) -> Seq<T>
    decreases feeds.len(),
{
    if feeds.len() == 0 {
        Seq::empty()
    } else {
        newest(window_after(capacity, feeds.drop_last()) + feeds.last(), capacity)
    }
}

/// Over any run of feeds, the window holds the newest `capacity` samples fed
/// so far; so it is full, and a feed hands a window back, exactly when at
/// least `capacity` samples have been fed.
pub proof fn lemma_window_holds_newest<T>(capacity: nat, feeds: Seq<Seq<T>>)
    ensures
        window_after(capacity, feeds) == newest(fed_samples(feeds), capacity),
        (window_after(capacity, feeds).len() == capacity) <==> (fed_samples(feeds).len()
            >= capacity),
    decreases feeds.len(),
{
    if feeds.len() > 0 {
        lemma_window_holds_newest(capacity, feeds.drop_last());
        lemma_newest_of_newest(fed_samples(feeds.drop_last()), feeds.last(), capacity);
    }
}

/// The window of samples analysed by the level meter.
///
/// It holds the newest samples fed to it, up to its capacity; once it is
/// full, each feed hands the window of the newest samples back for analysis.
pub struct SampleWindow<T> {
    buf: Vec<T>,
    cap: usize,
}

impl<T: Copy> SampleWindow<T> {
    /// Number of samples the window holds when full.
    pub closed spec fn capacity(&self) -> nat {
        self.cap as nat
    }

    /// The newest samples held, oldest first.
    pub closed spec fn recent(&self) -> Seq<T> {
        self.buf@
    }

    /// Internal consistency of the window.
    pub closed spec fn wf(&self) -> bool {
        &&& self.cap > 0
        &&& self.buf.len() <= self.cap
    }

    /// An empty window of the given size.
    pub fn new(capacity: usize) -> (w: SampleWindow<T>)
        requires
            capacity > 0,
        ensures
            w.wf(),
            w.capacity() == capacity,
            w.recent() == Seq::<T>::empty(),
    {
        SampleWindow { buf: Vec::new(), cap: capacity }
    }

    /// Number of samples held.
    pub fn len(&self) -> (n: usize)
        requires
            self.wf(),
        ensures
            n == self.recent().len(),
    {
        self.buf.len()
    }

    /// Adds `samples` and keeps the newest ones; returns the window, oldest
    /// sample first, once it is full.
    pub fn feed(&mut self, samples: &[T]) -> (window: Option<Vec<T>>)
        requires
            old(self).wf(),
        ensures
            final(self).wf(),
            final(self).capacity() == old(self).capacity(),
            final(self).recent() == newest(old(self).recent() + samples@, old(self).capacity()),
            window is Some <==> final(self).recent().len() == final(self).capacity(),
            window matches Some(w) ==> w@ == final(self).recent(),
    {
        let cap = self.cap;
        let n = samples.len();
        let ghost all = self.buf@ + samples@;
        let mut nb: Vec<T> = Vec::new();
        if n >= cap {
            let mut i: usize = n - cap;
            while i < n
                invariant
                    cap <= n,
                    n - cap <= i <= n,
                    n == samples@.len(),
                    nb@ == samples@.subrange(n - cap, i as int),
                decreases n - i,
            {
                nb.push(samples[i]);
                i = i + 1;
                assert(nb@ =~= samples@.subrange(n - cap, i as int));
            }
            assert(nb@ =~= newest(all, cap as nat));
        } else {
            let old_len = self.buf.len();
            let keep = if old_len <= cap - n {
                old_len
            } else {
                cap - n
            };
            let mut i: usize = old_len - keep;
            while i < old_len
                invariant
                    keep <= old_len,
                    old_len - keep <= i <= old_len,
                    old_len == self.buf@.len(),
                    nb@ == self.buf@.subrange(old_len - keep, i as int),
                decreases old_len - i,
            {
                nb.push(self.buf[i]);
                i = i + 1;
                assert(nb@ =~= self.buf@.subrange(old_len - keep, i as int));
            }
            let mut j: usize = 0;
            while j < n
                invariant
                    j <= n,
                    n == samples@.len(),
                    nb@ == self.buf@.subrange(old_len - keep, old_len as int) + samples@.take(j as int),
                decreases n - j,
            {
                nb.push(samples[j]);
                j = j + 1;
                assert(nb@ =~= self.buf@.subrange(old_len - keep, old_len as int) + samples@.take(j as int));
            }
            assert(samples@.take(n as int) =~= samples@);
            assert(nb@ =~= newest(all, cap as nat));
        }
        self.buf = nb;
        if self.buf.len() < cap {
            None
        } else {
            let mut w: Vec<T> = Vec::new();
            let mut k: usize = 0;
            while k < self.buf.len()
                invariant
                    k <= self.buf.len(),
                    w@ == self.buf@.take(k as int),
                decreases self.buf.len() - k,
            {
                w.push(self.buf[k]);
                k = k + 1;
                assert(w@ =~= self.buf@.take(k as int));
            }
            assert(self.buf@.take(self.buf.len() as int) =~= self.buf@);
            Some(w)
        }
    }
}

} // verus!
