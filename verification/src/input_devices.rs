//! The audio inputs offered for recording: microphones and other inputs,
//! plus the system outputs that can be captured on platforms with output
//! loopback, described and ordered for the settings screen.  Asking the
//! audio backend which devices exist happens in the app.
use vstd::prelude::*;
use vstd::multiset::Multiset;

use crate::capture::{cut_on_boundary, prefix_within, utf8_prefix};
use crate::live::TargetOs;
use crate::models::AudioInputDeviceDescriptor;
use crate::templates::{lemma_lex_irreflexive, lemma_lex_transitive, lex_lt, lex_lt_exec, seq_eq};
use crate::text::{
    chars_of, is_digit, split_chars, split_on, str_eq, to_lowercase, trim, trim_spec,
    unicode_lowercase,
};
use crate::transcription_job::duplicate_opt;

verus! {

/// What the audio backend reports of one device; `id` is `None` when the
/// backend could not give one.
#[derive(Debug, Clone)]
pub struct RawAudioDevice {
    pub id: Option<String>,
    pub name: Option<String>,
    pub manufacturer: Option<String>,
    pub channels: Option<u16>,
    pub sample_rate_hz: Option<u32>,
}

/// Enumerating the inputs failed.
#[derive(Debug, Clone, PartialEq, Eq)]
pub enum InputDeviceError {
    EnumerateDevices(String),
}

impl InputDeviceError {
    /// The message shown for this error.
    pub fn to_string(&self) -> (r: String)
        ensures
            r@ == "Transcribe Kit could not enumerate audio input devices: "@ + self->EnumerateDevices_0@,
    {
        match self {
            InputDeviceError::EnumerateDevices(detail) => {
                let mut r = String::from_str("Transcribe Kit could not enumerate audio input devices: ");
                r.append(detail.as_str());
                proof {
                    reveal_strlit("Transcribe Kit could not enumerate audio input devices: ");
                }
                r
            },
        }
    }
}

/// The devices that have an id, in order.
pub open spec fn with_ids(raws: Seq<RawAudioDevice>) -> Seq<RawAudioDevice>
    decreases raws.len(),
{
    if raws.len() == 0 {
        Seq::empty()
    } else if raws.last().id is Some {
        with_ids(raws.drop_last()).push(raws.last())
    } else {
        with_ids(raws.drop_last())
    }
}

/// Every device without a name has an id that can be cut at 8 bytes.
pub open spec fn labels_cuttable(raws: Seq<RawAudioDevice>) -> bool {
    forall|i: int|
        0 <= i < raws.len() ==> (#[trigger] raws[i]).name is None ==> (raws[i].id matches Some(
            id,
        ) ==> cut_on_boundary(id@))
}

/// `d` describes the input `raw`: its name (or `Audio input` and the
/// first 8 bytes of its id), and whether it is the default input.
pub open spec fn describes_input(d: AudioInputDeviceDescriptor, raw: RawAudioDevice, default_id: Option<Seq<char>>) -> bool {
    &&& raw.id is Some
    &&& d.id@ == raw.id->Some_0@
    &&& d.label@ == match raw.name {
        Some(n) => n@,
        None => "Audio input "@ + prefix_within(raw.id->Some_0@, 8),
    }
    &&& d.manufacturer == raw.manufacturer
    &&& d.channels == raw.channels
    &&& d.sample_rate_hz == raw.sample_rate_hz
    &&& d.is_default == (default_id == Some(raw.id->Some_0@))
    &&& !d.is_output_loopback
}

/// `d` describes the system output `raw`, offered for loopback capture.
pub open spec fn describes_output(d: AudioInputDeviceDescriptor, raw: RawAudioDevice) -> bool {
    &&& raw.id is Some
    &&& d.id@ == raw.id->Some_0@
    &&& d.label@ == match raw.name {
        Some(n) => n@ + " (System Audio)"@,
        None => "System Audio "@ + prefix_within(raw.id->Some_0@, 8),
    }
    &&& d.manufacturer == raw.manufacturer
    &&& d.channels == raw.channels
    &&& d.sample_rate_hz == raw.sample_rate_hz
    &&& !d.is_default
    &&& d.is_output_loopback
}

/// The descriptor of an input device with an id.
pub fn input_device_descriptor(raw: &RawAudioDevice, default_id: Option<&str>) -> (r: AudioInputDeviceDescriptor)
    requires
        raw.id is Some,
        raw.name is None ==> cut_on_boundary(raw.id->Some_0@),
    ensures
        describes_input(
            r,
            *raw,
            match default_id {
                Some(d) => Some(d@),
                None => None,
            },
        ),
{
    let id = raw.id.as_ref().unwrap();
    let label = match &raw.name {
        Some(n) => n.clone(),
        None => {
            let mut l = String::from_str("Audio input ");
            proof {
                reveal_strlit("Audio input ");
            }
            l.append(utf8_prefix(id.as_str(), 8).as_str());
            l
        },
    };
    let is_default = match default_id {
        Some(d) => str_eq(d, id.as_str()),
        None => false,
    };
    AudioInputDeviceDescriptor {
        id: id.clone(),
        label,
        manufacturer: duplicate_opt(&raw.manufacturer),
        channels: raw.channels,
        sample_rate_hz: raw.sample_rate_hz,
        is_default,
        is_output_loopback: false,
    }
}

/// The descriptor of a system output with an id, offered for capture.
pub fn output_device_descriptor(raw: &RawAudioDevice) -> (r: AudioInputDeviceDescriptor)
    requires
        raw.id is Some,
        raw.name is None ==> cut_on_boundary(raw.id->Some_0@),
    ensures
        describes_output(r, *raw),
{
    let id = raw.id.as_ref().unwrap();
    let label = match &raw.name {
        Some(n) => {
            let mut l = n.clone();
            l.append(" (System Audio)");
            proof {
                reveal_strlit(" (System Audio)");
            }
            l
        },
        None => {
            let mut l = String::from_str("System Audio ");
            proof {
                reveal_strlit("System Audio ");
            }
            l.append(utf8_prefix(id.as_str(), 8).as_str());
            l
        },
    };
    AudioInputDeviceDescriptor {
        id: id.clone(),
        label,
        manufacturer: duplicate_opt(&raw.manufacturer),
        channels: raw.channels,
        sample_rate_hz: raw.sample_rate_hz,
        is_default: false,
        is_output_loopback: true,
    }
}

// ---------------------------------------------------------------------------
// Order
// ---------------------------------------------------------------------------

/// `a` is listed before `b`: the default first, then by lowercased label,
/// then by id.
pub open spec fn device_before(a: AudioInputDeviceDescriptor, b: AudioInputDeviceDescriptor) -> bool {
    let la = unicode_lowercase(a.label@);
    let lb = unicode_lowercase(b.label@);
    (a.is_default && !b.is_default) || (a.is_default == b.is_default && (lex_lt(la, lb) || (la
        == lb && lex_lt(a.id@, b.id@))))
}

/// No device is listed after one that should come later.
pub open spec fn devices_ordered(s: Seq<AudioInputDeviceDescriptor>) -> bool {
    forall|i: int, j: int| 0 <= i < j < s.len() ==> !device_before(#[trigger] s[j], #[trigger] s[i])
}

proof fn lemma_device_before_transitive(
    a: AudioInputDeviceDescriptor,
    b: AudioInputDeviceDescriptor,
    c: AudioInputDeviceDescriptor,
)
    requires
        device_before(a, b),
        device_before(b, c),
    ensures
        device_before(a, c),
{
    let la = unicode_lowercase(a.label@);
    let lb = unicode_lowercase(b.label@);
    let lc = unicode_lowercase(c.label@);
    if a.is_default == b.is_default && b.is_default == c.is_default {
        if lex_lt(la, lb) && lex_lt(lb, lc) {
            lemma_lex_transitive(la, lb, lc);
        } else if lex_lt(la, lb) {
            assert(lb == lc);
        } else if lex_lt(lb, lc) {
            assert(la == lb);
        } else {
            assert(la == lb && lb == lc);
            lemma_lex_transitive(a.id@, b.id@, c.id@);
        }
    }
}

proof fn lemma_insert_ordered(s: Seq<AudioInputDeviceDescriptor>, p: int, x: AudioInputDeviceDescriptor)
    requires
        devices_ordered(s),
        0 <= p <= s.len(),
        forall|k: int| 0 <= k < p ==> !device_before(x, #[trigger] s[k]),
        p < s.len() ==> device_before(x, s[p]),
    ensures
        devices_ordered(s.insert(p, x)),
{
    let t = s.insert(p, x);
    assert forall|i: int, j: int| 0 <= i < j < t.len() implies !device_before(
        #[trigger] t[j],
        #[trigger] t[i],
    ) by {
        if j < p {
            assert(t[i] == s[i] && t[j] == s[j]);
        } else if j == p {
            assert(t[i] == s[i] && t[j] == x);
        } else if i < p {
            assert(t[i] == s[i] && t[j] == s[j - 1]);
        } else if i == p {
            assert(t[i] == x && t[j] == s[j - 1]);
            if device_before(s[j - 1], x) {
                lemma_device_before_transitive(s[j - 1], x, s[p]);
                if j - 1 == p {
                    lemma_device_not_before_itself(s[p]);
                }
            }
        } else {
            assert(t[i] == s[i - 1] && t[j] == s[j - 1]);
        }
    }
}

proof fn lemma_device_not_before_itself(a: AudioInputDeviceDescriptor)
    ensures
        !device_before(a, a),
{
    lemma_lex_irreflexive(unicode_lowercase(a.label@));
    lemma_lex_irreflexive(a.id@);
}

/// Whether two devices have the same sort key, so that neither is listed
/// before the other.
pub open spec fn same_sort_key(a: AudioInputDeviceDescriptor, b: AudioInputDeviceDescriptor) -> bool {
    a.is_default == b.is_default && unicode_lowercase(a.label@) == unicode_lowercase(b.label@)
        && a.id@ == b.id@
}

/// The devices of `s` with the sort key of `d`, in order.
pub open spec fn sharing_key(s: Seq<AudioInputDeviceDescriptor>, d: AudioInputDeviceDescriptor) -> Seq<
    AudioInputDeviceDescriptor,
>
    decreases s.len(),
{
    if s.len() == 0 {
        s
    } else {
        let kept = sharing_key(s.drop_last(), d);
        if same_sort_key(s.last(), d) {
            kept.push(s.last())
        } else {
            kept
        }
    }
}

proof fn lemma_sharing_key_concat(
    a: Seq<AudioInputDeviceDescriptor>,
    b: Seq<AudioInputDeviceDescriptor>,
    d: AudioInputDeviceDescriptor,
)
    ensures
        sharing_key(a + b, d) == sharing_key(a, d) + sharing_key(b, d),
    decreases b.len(),
{
    if b.len() == 0 {
        assert(a + b =~= a);
        assert(sharing_key(a, d) + sharing_key(b, d) =~= sharing_key(a, d));
    } else {
        lemma_sharing_key_concat(a, b.drop_last(), d);
        assert((a + b).drop_last() =~= a + b.drop_last());
        assert((a + b).last() == b.last());
        let ka = sharing_key(a, d);
        let kb = sharing_key(b.drop_last(), d);
        if same_sort_key(b.last(), d) {
            assert((ka + kb).push(b.last()) =~= ka + kb.push(b.last()));
        }
    }
}

proof fn lemma_sharing_key_none(s: Seq<AudioInputDeviceDescriptor>, d: AudioInputDeviceDescriptor)
    requires
        forall|i: int| 0 <= i < s.len() ==> !same_sort_key(#[trigger] s[i], d),
    ensures
        sharing_key(s, d) == Seq::<AudioInputDeviceDescriptor>::empty(),
    decreases s.len(),
{
    if s.len() > 0 {
        assert forall|i: int| 0 <= i < s.drop_last().len() implies !same_sort_key(
            #[trigger] s.drop_last()[i],
            d,
        ) by {
            assert(s.drop_last()[i] == s[i]);
        }
        lemma_sharing_key_none(s.drop_last(), d);
        assert(s.last() == s[s.len() - 1]);
    }
}

proof fn lemma_sharing_key_single(x: AudioInputDeviceDescriptor, d: AudioInputDeviceDescriptor)
    ensures
        sharing_key(seq![x], d) == (if same_sort_key(x, d) {
            seq![x]
        } else {
            Seq::<AudioInputDeviceDescriptor>::empty()
        }),
{
    reveal_with_fuel(sharing_key, 2);
    assert(seq![x].drop_last() =~= Seq::<AudioInputDeviceDescriptor>::empty());
    assert(seq![x].last() == x);
    if same_sort_key(x, d) {
        assert(Seq::<AudioInputDeviceDescriptor>::empty().push(x) =~= seq![x]);
    }
}

/// Inserting `x` where the listing loop puts it keeps, for every sort key,
/// the order in which devices with that key arrived.
proof fn lemma_insert_keeps_ties(
    out: Seq<AudioInputDeviceDescriptor>,
    p: int,
    x: AudioInputDeviceDescriptor,
    d: AudioInputDeviceDescriptor,
)
    requires
        devices_ordered(out),
        0 <= p <= out.len(),
        p < out.len() ==> device_before(x, out[p]),
    ensures
        sharing_key(out.insert(p, x), d) == sharing_key(out, d) + sharing_key(seq![x], d),
{
    let head = out.subrange(0, p);
    let tail = out.subrange(p, out.len() as int);
    assert(out =~= head + tail);
    assert(out.insert(p, x) =~= head + (seq![x] + tail));
    lemma_sharing_key_concat(head, tail, d);
    lemma_sharing_key_concat(head, seq![x] + tail, d);
    lemma_sharing_key_concat(seq![x], tail, d);
    lemma_sharing_key_single(x, d);
    if same_sort_key(x, d) {
        assert forall|i: int| 0 <= i < tail.len() implies !same_sort_key(#[trigger] tail[i], d) by {
            assert(tail[i] == out[p + i]);
            if same_sort_key(tail[i], d) {
                assert(device_before(tail[i], out[p]) == device_before(x, out[p]));
                if i > 0 {
                    assert(!device_before(out[p + i], out[p]));
                } else {
                    lemma_device_not_before_itself(out[p]);
                }
            }
        }
        lemma_sharing_key_none(tail, d);
        assert(sharing_key(tail, d) =~= Seq::<AudioInputDeviceDescriptor>::empty());
    }
    let a = sharing_key(head, d);
    let b = sharing_key(seq![x], d);
    let c = sharing_key(tail, d);
    assert(a + (b + c) =~= (a + c) + b);
}

/// The sort key of a device: default flag, lowercased label, id.
struct DeviceKey {
    is_default: bool,
    label: Vec<char>,
    id: Vec<char>,
}

fn device_key(d: &AudioInputDeviceDescriptor) -> (k: DeviceKey)
    ensures
        k.is_default == d.is_default,
        k.label@ == unicode_lowercase(d.label@),
        k.id@ == d.id@,
{
    let lower = to_lowercase(d.label.as_str());
    DeviceKey { is_default: d.is_default, label: chars_of(lower.as_str()), id: chars_of(d.id.as_str()) }
}

fn key_before(a: &DeviceKey, b: &DeviceKey) -> (r: bool)
    ensures
        r == ((a.is_default && !b.is_default) || (a.is_default == b.is_default && (lex_lt(
            a.label@,
            b.label@,
        ) || (a.label@ == b.label@ && lex_lt(a.id@, b.id@))))),
{
    if a.is_default != b.is_default {
        return a.is_default;
    }
    if lex_lt_exec(&a.label, &b.label) {
        return true;
    }
    seq_eq(&a.label, &b.label) && lex_lt_exec(&a.id, &b.id)
}

/// The devices in listing order; none is added or lost.
pub fn sort_input_devices(devices: Vec<AudioInputDeviceDescriptor>) -> (r: Vec<AudioInputDeviceDescriptor>)
    ensures
        r@.to_multiset() == devices@.to_multiset(),
        devices_ordered(r@),
        forall|d: AudioInputDeviceDescriptor| #[trigger] sharing_key(r@, d) == sharing_key(devices@, d),
{
    broadcast use vstd::seq_lib::group_to_multiset_ensures;

    let ghost orig = devices@;
    let mut rest = devices;
    let mut out: Vec<AudioInputDeviceDescriptor> = Vec::new();
    assert(out@.to_multiset() =~= Multiset::empty());
    assert forall|d: AudioInputDeviceDescriptor| #[trigger] sharing_key(orig, d) == sharing_key(out@, d)
        + sharing_key(rest@, d) by {
        assert(sharing_key(out@, d) + sharing_key(rest@, d) =~= sharing_key(rest@, d));
    }
    while rest.len() > 0
        invariant
            out@.to_multiset().add(rest@.to_multiset()) == orig.to_multiset(),
            devices_ordered(out@),
            forall|d: AudioInputDeviceDescriptor| #[trigger] sharing_key(orig, d) == sharing_key(out@, d)
                + sharing_key(rest@, d),
        decreases rest@.len(),
    {
        let ghost before = rest@;
        let x = rest.remove(0);
        let kx = device_key(&x);
        let mut p: usize = 0;
        while p < out.len()
            invariant_except_break
                p <= out@.len(),
                forall|k: int| 0 <= k < p ==> !device_before(x, #[trigger] out@[k]),
            invariant
                kx.is_default == x.is_default,
                kx.label@ == unicode_lowercase(x.label@),
                kx.id@ == x.id@,
            ensures
                p <= out@.len(),
                forall|k: int| 0 <= k < p ==> !device_before(x, #[trigger] out@[k]),
                p < out@.len() ==> device_before(x, out@[p as int]),
            decreases out@.len() - p,
        {
            let ko = device_key(&out[p]);
            if key_before(&kx, &ko) {
                break;
            }
            p = p + 1;
        }
        proof {
            lemma_insert_ordered(out@, p as int, x);
            assert(before =~= seq![x] + rest@);
            assert forall|d: AudioInputDeviceDescriptor| #[trigger] sharing_key(orig, d) == sharing_key(
                out@.insert(p as int, x),
                d,
            ) + sharing_key(rest@, d) by {
                lemma_insert_keeps_ties(out@, p as int, x, d);
                lemma_sharing_key_concat(seq![x], rest@, d);
                let a = sharing_key(out@, d);
                let b = sharing_key(seq![x], d);
                let c = sharing_key(rest@, d);
                assert((a + b) + c =~= a + (b + c));
            }
        }
        let ghost old_out = out@;
        out.insert(p, x);
        proof {
            vstd::seq_lib::to_multiset_insert(old_out, p as int, x);
            vstd::seq_lib::to_multiset_remove(before, 0);
            vstd::seq_lib::to_multiset_contains(before, x);
            assert(x == before[0]);
            assert(before.contains(x));
            assert(out@.to_multiset().add(rest@.to_multiset()) =~= old_out.to_multiset().add(
                before.to_multiset(),
            ));
        }
    }
    assert(rest@.to_multiset() =~= Multiset::empty());
    assert(out@.to_multiset() =~= orig.to_multiset());
    assert forall|d: AudioInputDeviceDescriptor| #[trigger] sharing_key(out@, d) == sharing_key(orig, d) by {
        assert(sharing_key(out@, d) + sharing_key(rest@, d) =~= sharing_key(out@, d));
    }
    out
}

// ---------------------------------------------------------------------------
// The listing
// ---------------------------------------------------------------------------

/// `r` lists the inputs that have ids, then the outputs that have ids, each
/// described.
pub open spec fn describes_all(
    r: Seq<AudioInputDeviceDescriptor>,
    inputs: Seq<RawAudioDevice>,
    outputs: Seq<RawAudioDevice>,
    default_id: Option<Seq<char>>,
) -> bool {
    let ins = with_ids(inputs);
    let outs = with_ids(outputs);
    &&& r.len() == ins.len() + outs.len()
    &&& forall|i: int| 0 <= i < ins.len() ==> describes_input(#[trigger] r[i], ins[i], default_id)
    &&& forall|j: int|
        0 <= j < outs.len() ==> describes_output(#[trigger] r[ins.len() + j], outs[j])
}

proof fn lemma_with_ids_step(s: Seq<RawAudioDevice>, i: int)
    requires
        0 <= i < s.len(),
    ensures
        with_ids(s.subrange(0, i + 1)) == if s[i].id is Some {
            with_ids(s.subrange(0, i)).push(s[i])
        } else {
            with_ids(s.subrange(0, i))
        },
{
    assert(s.subrange(0, i + 1).drop_last() =~= s.subrange(0, i));
    assert(s.subrange(0, i + 1).last() == s[i]);
}

/// Describes the devices that have ids: the inputs, then the outputs.
pub fn collect_devices(
    inputs: &Vec<RawAudioDevice>,
    outputs: &Vec<RawAudioDevice>,
    default_id: Option<&str>,
) -> (r: Vec<AudioInputDeviceDescriptor>)
    requires
        labels_cuttable(inputs@),
        labels_cuttable(outputs@),
    ensures
        describes_all(
            r@,
            inputs@,
            outputs@,
            match default_id {
                Some(d) => Some(d@),
                None => None,
            },
        ),
{
    let ghost dflt = match default_id {
        Some(d) => Some(d@),
        None => None,
    };
    let mut out: Vec<AudioInputDeviceDescriptor> = Vec::new();
    let mut i: usize = 0;
    assert(inputs@.subrange(0, 0) =~= Seq::<RawAudioDevice>::empty());
    while i < inputs.len()
        invariant
            i <= inputs@.len(),
            labels_cuttable(inputs@),
            dflt == match default_id {
                Some(d) => Some(d@),
                None => None,
            },
            out@.len() == with_ids(inputs@.subrange(0, i as int)).len(),
            forall|k: int|
                0 <= k < out@.len() ==> describes_input(
                    #[trigger] out@[k],
                    with_ids(inputs@.subrange(0, i as int))[k],
                    dflt,
                ),
        decreases inputs@.len() - i,
    {
        proof {
            lemma_with_ids_step(inputs@, i as int);
        }
        if inputs[i].id.is_some() {
            proof {
                assert(inputs@[i as int].name is None ==> cut_on_boundary(
                    inputs@[i as int].id->Some_0@,
                ));
            }
            let d = input_device_descriptor(&inputs[i], default_id);
            out.push(d);
        }
        i = i + 1;
    }
    assert(inputs@.subrange(0, inputs@.len() as int) =~= inputs@);
    let n_in = out.len();
    let mut j: usize = 0;
    assert(outputs@.subrange(0, 0) =~= Seq::<RawAudioDevice>::empty());
    while j < outputs.len()
        invariant
            j <= outputs@.len(),
            labels_cuttable(outputs@),
            n_in == with_ids(inputs@).len(),
            out@.len() == n_in + with_ids(outputs@.subrange(0, j as int)).len(),
            forall|k: int| 0 <= k < n_in ==> describes_input(#[trigger] out@[k], with_ids(inputs@)[k], dflt),
            forall|k: int|
                0 <= k < with_ids(outputs@.subrange(0, j as int)).len() ==> describes_output(
                    #[trigger] out@[n_in + k],
                    with_ids(outputs@.subrange(0, j as int))[k],
                ),
        decreases outputs@.len() - j,
    {
        proof {
            lemma_with_ids_step(outputs@, j as int);
        }
        if outputs[j].id.is_some() {
            proof {
                assert(outputs@[j as int].name is None ==> cut_on_boundary(
                    outputs@[j as int].id->Some_0@,
                ));
            }
            let d = output_device_descriptor(&outputs[j]);
            let ghost prev = out@;
            out.push(d);
            proof {
                let before = with_ids(outputs@.subrange(0, j as int));
                let after = with_ids(outputs@.subrange(0, j + 1));
                assert forall|k: int| 0 <= k < after.len() implies describes_output(
                    #[trigger] out@[n_in + k],
                    after[k],
                ) by {
                    if k < before.len() {
                        assert(out@[n_in + k] == prev[n_in + k]);
                        assert(after[k] == before[k]);
                    } else {
                        assert(k == before.len());
                        assert(after[k] == outputs@[j as int]);
                    }
                }
            }
        }
        j = j + 1;
    }
    assert(outputs@.subrange(0, outputs@.len() as int) =~= outputs@);
    out
}

/// The devices offered for recording, in listing order: every input with
/// an id and, where the platform can capture its outputs, every output
/// with an id.  A failure to enumerate the inputs is reported.
pub fn list_input_devices(
    inputs: Result<Vec<RawAudioDevice>, String>,
    outputs: Option<Vec<RawAudioDevice>>,
    default_id: Option<String>,
    output_loopback_supported: bool,
) -> (r: Result<Vec<AudioInputDeviceDescriptor>, InputDeviceError>)
    requires
        inputs matches Ok(v) ==> labels_cuttable(v@),
        outputs matches Some(v) ==> labels_cuttable(v@),
    ensures
        inputs is Err ==> r == Err::<Vec<AudioInputDeviceDescriptor>, InputDeviceError>(
            InputDeviceError::EnumerateDevices(inputs->Err_0),
        ),
        inputs is Ok ==> r is Ok && exists|listed: Seq<AudioInputDeviceDescriptor>|
            #![trigger listed.to_multiset()]
            describes_all(
                listed,
                inputs->Ok_0@,
                if output_loopback_supported && outputs is Some {
                    outputs->Some_0@
                } else {
                    Seq::empty()
                },
                match default_id {
                    Some(d) => Some(d@),
                    None => None,
                },
            ) && r->Ok_0@.to_multiset() == listed.to_multiset() && devices_ordered(r->Ok_0@) && (
            forall|dev: AudioInputDeviceDescriptor| #[trigger] sharing_key(r->Ok_0@, dev) == sharing_key(
                listed,
                dev,
            )),
{
    let inputs = match inputs {
        Ok(v) => v,
        Err(e) => {
            return Err(InputDeviceError::EnumerateDevices(e));
        },
    };
    let outputs: Vec<RawAudioDevice> = if output_loopback_supported {
        match outputs {
            Some(v) => v,
            None => Vec::new(),
        }
    } else {
        Vec::new()
    };
    proof {
        assert(labels_cuttable(outputs@));
    }
    let default_ref: Option<&str> = match &default_id {
        Some(d) => Some(d.as_str()),
        None => None,
    };
    let listed = collect_devices(&inputs, &outputs, default_ref);
    proof {
        if !(output_loopback_supported) {
            assert(outputs@ =~= Seq::<RawAudioDevice>::empty());
        }
    }
    let sorted = sort_input_devices(listed);
    Ok(sorted)
}

// ---------------------------------------------------------------------------
// Output loopback support
// ---------------------------------------------------------------------------

/// The value of a run of decimal digits.
pub open spec fn digits_value(s: Seq<char>) -> int
    decreases s.len(),
{
    if s.len() == 0 {
        0
    } else {
        digits_value(s.drop_last()) * 10 + (s.last() as int - 48)
    }
}

/// Every character is a decimal digit.
pub open spec fn all_digits(s: Seq<char>) -> bool {
    forall|i: int| 0 <= i < s.len() ==> is_digit(#[trigger] s[i])
}

/// What `str::parse::<u32>` gives: an optional `+`, then one or more
/// digits whose value fits.
pub open spec fn parse_u32_spec(s: Seq<char>) -> Option<u32> {
    let d = if s.len() > 1 && s[0] == '+' {
        s.drop_first()
    } else {
        s
    };
    if d.len() > 0 && all_digits(d) && digits_value(d) <= u32::MAX {
        Some(digits_value(d) as u32)
    } else {
        None
    }
}

proof fn lemma_digits_value_nonneg(s: Seq<char>)
    requires
        forall|i: int| 0 <= i < s.len() ==> is_digit(#[trigger] s[i]),
    ensures
        digits_value(s) >= 0,
    decreases s.len(),
{
    if s.len() > 0 {
        assert forall|i: int| 0 <= i < s.drop_last().len() implies is_digit(
            #[trigger] s.drop_last()[i],
        ) by {
            assert(s.drop_last()[i] == s[i]);
        }
        lemma_digits_value_nonneg(s.drop_last());
        assert(is_digit(s[s.len() - 1]));
    }
}

/// Parses a decimal `u32` as `str::parse` does.
pub fn parse_u32(s: &str) -> (r: Option<u32>)
    ensures
        r == parse_u32_spec(s@),
{
    let v = chars_of(s);
    let start: usize = if v.len() > 1 && v[0] == '+' {
        1
    } else {
        0
    };
    let ghost d = if s@.len() > 1 && s@[0] == '+' {
        s@.drop_first()
    } else {
        s@
    };
    assert(d =~= v@.subrange(start as int, v@.len() as int));
    if start == v.len() {
        return None;
    }
    let mut value: u64 = 0;
    let mut over = false;
    let mut i: usize = start;
    while i < v.len()
        invariant
            start <= i <= v@.len(),
            v@ == s@,
            d == v@.subrange(start as int, v@.len() as int),
            d == (if s@.len() > 1 && s@[0] == '+' {
                s@.drop_first()
            } else {
                s@
            }),
            forall|k: int| start <= k < i ==> is_digit(#[trigger] v@[k]),
            !over ==> value == digits_value(v@.subrange(start as int, i as int)) && value
                <= u32::MAX,
            over ==> digits_value(v@.subrange(start as int, i as int)) > u32::MAX,
        decreases v@.len() - i,
    {
        let c = v[i];
        if !('0' <= c && c <= '9') {
            proof {
                assert(d[i - start] == c);
                assert(!is_digit(d[i - start]));
                assert(!all_digits(d));
            }
            return None;
        }
        let digit: u64 = (c as u32 - 48) as u64;
        proof {
            let p = v@.subrange(start as int, i as int);
            assert(v@.subrange(start as int, i + 1) =~= p.push(c));
            assert(p.push(c).drop_last() =~= p);
            assert forall|k: int| 0 <= k < p.len() implies is_digit(#[trigger] p[k]) by {
                assert(p[k] == v@[start + k]);
            }
            lemma_digits_value_nonneg(p);
        }
        if !over {
            value = value * 10 + digit;
            if value > 4294967295 {
                over = true;
            }
        }
        i = i + 1;
    }
    proof {
        assert(v@.subrange(start as int, i as int) =~= d);
        assert forall|k: int| 0 <= k < d.len() implies is_digit(#[trigger] d[k]) by {
            assert(d[k] == v@[start + k]);
        }
    }
    if over {
        None
    } else {
        Some(value as u32)
    }
}

/// The numeric version in `sw_vers` output: major, minor and patch, the
/// missing parts read as 0.
pub open spec fn parse_version_spec(version: Seq<char>) -> Option<(u32, u32, u32)> {
    let parts = split_on(version, '.');
    let major = parse_u32_spec(trim_spec(parts[0]));
    let minor = if parts.len() > 1 {
        parse_u32_spec(trim_spec(parts[1]))
    } else {
        Some(0u32)
    };
    let patch = if parts.len() > 2 {
        parse_u32_spec(trim_spec(parts[2]))
    } else {
        Some(0u32)
    };
    match (major, minor, patch) {
        (Some(a), Some(b), Some(c)) => Some((a, b, c)),
        _ => None,
    }
}

/// Parses a macOS version such as `14.2.1`.
pub fn parse_macos_version(version: &str) -> (r: Option<(u32, u32, u32)>)
    ensures
        r == parse_version_spec(version@),
{
    let parts = split_chars(version, '.');
    proof {
        crate::text::lemma_split_on_nonempty(version@, '.');
        assert(parts@.len() >= 1);
        assert(parts@[0]@ == split_on(version@, '.')[0]);
    }
    let major = match parse_u32(trim(parts[0].as_str()).as_str()) {
        Some(x) => x,
        None => {
            return None;
        },
    };
    let minor = if parts.len() > 1 {
        proof {
            assert(parts@[1]@ == split_on(version@, '.')[1]);
        }
        match parse_u32(trim(parts[1].as_str()).as_str()) {
            Some(x) => x,
            None => {
                return None;
            },
        }
    } else {
        0
    };
    let patch = if parts.len() > 2 {
        proof {
            assert(parts@[2]@ == split_on(version@, '.')[2]);
        }
        match parse_u32(trim(parts[2].as_str()).as_str()) {
            Some(x) => x,
            None => {
                return None;
            },
        }
    } else {
        0
    };
    Some((major, minor, patch))
}

/// Whether `sw_vers -productVersion` output names at least `major.minor`.
pub fn macos_version_at_least(version_output: &str, major: u32, minor: u32) -> (r: bool)
    ensures
        r == (parse_version_spec(trim_spec(version_output@)) matches Some(v) && (v.0 > major || (v.0
            == major && v.1 >= minor))),
{
    let trimmed = trim(version_output);
    match parse_macos_version(trimmed.as_str()) {
        Some((a, b, _)) => a > major || (a == major && b >= minor),
        None => false,
    }
}

/// Whether system outputs can be captured: always on Windows, on macOS
/// from 14.2 (`macos_version` is what `sw_vers` printed, if it ran), not
/// elsewhere.
pub fn platform_supports_output_loopback(os: TargetOs, macos_version: Option<&str>) -> (r: bool)
    ensures
        os == TargetOs::Windows ==> r,
        os == TargetOs::MacOs ==> r == (macos_version matches Some(v) && (parse_version_spec(
            trim_spec(v@),
        ) matches Some(x) && (x.0 > 14 || (x.0 == 14 && x.1 >= 2)))),
        os != TargetOs::Windows && os != TargetOs::MacOs ==> !r,
{
    match os {
        TargetOs::Windows => true,
        TargetOs::MacOs => match macos_version {
            Some(v) => macos_version_at_least(v, 14, 2),
            None => false,
        },
        _ => false,
    }
}

} // verus!
