//! The per-event step a pump thread performs, and what a whole raw
//! stream normalizes to.
//!
//! On every captured raw event the pump reads the class's callback
//! slot, normalizes the event, and delivers the result to the sink
//! only when both exist: an empty slot or an unsupported event means
//! the event is dropped, never buffered. The stream functions state
//! what a sequence of raw events turns into, and the law at the end
//! pins the auto-repeat guarantee: repeats of a held key never reach
//! the sink more than once per press.

use vstd::prelude::*;
use crate::controller::SinkHandle;
use crate::events::{CapturedEvent, Phase};
use crate::normalize::{
    RawDeviceEvent, RawKeyMessage, spec_is_key_down_msg, spec_normalize_device_key,
    spec_normalize_key_message, spec_normalize_mouse_message, normalize_device_key,
    normalize_device_mouse, normalize_key_message, normalize_mouse_message,
    spec_normalize_device_mouse,
};

verus! {

/// What a pump step delivers: the normalized event paired with the
/// sink it goes to, when the callback slot holds one and the raw event
/// normalizes; nothing otherwise.
pub open spec fn spec_deliver(sink: Option<SinkHandle>, ev: Option<CapturedEvent>) -> Option<
    (SinkHandle, CapturedEvent),
> {
    match (sink, ev) {
        (Some(s), Some(e)) => Some((s, e)),
        _ => None,
    }
}

/// One pump step of the hook backend's mouse path: normalize the raw
/// message and deliver it to the registered sink, dropping the event
/// when the slot is empty or the message is unsupported.
pub fn mouse_pump_step(
    sink: Option<SinkHandle>,
    msg: u32,
    mouse_data: u32,
    x: i32,
    y: i32,
) -> (r: Option<(SinkHandle, CapturedEvent)>)
    ensures
        r == spec_deliver(sink, spec_normalize_mouse_message(msg, mouse_data, x, y)),
{
    let ev = normalize_mouse_message(msg, mouse_data, x, y);
    match (sink, ev) {
        (Some(s), Some(e)) => Some((s, e)),
        _ => None,
    }
}

/// One pump step of the hook backend's keyboard path.
pub fn key_pump_step(sink: Option<SinkHandle>, raw: RawKeyMessage) -> (r: Option<
    (SinkHandle, CapturedEvent),
>)
    ensures
        r == spec_deliver(sink, spec_normalize_key_message(raw)),
{
    let ev = normalize_key_message(raw);
    match (sink, ev) {
        (Some(s), Some(e)) => Some((s, e)),
        _ => None,
    }
}

/// One pump step of the device-scan backend's mouse path.
pub fn device_mouse_pump_step(sink: Option<SinkHandle>, raw: RawDeviceEvent) -> (r: Option<
    (SinkHandle, CapturedEvent),
>)
    ensures
        r == spec_deliver(sink, spec_normalize_device_mouse(raw)),
{
    let ev = normalize_device_mouse(raw);
    match (sink, ev) {
        (Some(s), Some(e)) => Some((s, e)),
        _ => None,
    }
}

/// One pump step of the device-scan backend's keyboard path.
pub fn device_key_pump_step(sink: Option<SinkHandle>, raw: RawDeviceEvent) -> (r: Option<
    (SinkHandle, CapturedEvent),
>)
    ensures
        r == spec_deliver(sink, spec_normalize_device_key(raw)),
{
    let ev = normalize_device_key(raw);
    match (sink, ev) {
        (Some(s), Some(e)) => Some((s, e)),
        _ => None,
    }
}

/// The normalized stream a sequence of raw key messages yields: each
/// message normalizes independently and the dropped ones leave no
/// trace, so order is preserved.
pub open spec fn spec_normalize_key_stream(raws: Seq<RawKeyMessage>) -> Seq<CapturedEvent>
    decreases raws.len(),
{
    if raws.len() == 0 {
        Seq::empty()
    } else {
        spec_normalize_key_stream(raws.drop_last()) + (match spec_normalize_key_message(
            raws.last(),
        ) {
            Some(ev) => seq![ev],
            None => Seq::empty(),
        })
    }
}

/// Normalizes a whole sequence of raw key messages of the hook
/// encoding, in order, dropping auto-repeats and unsupported messages.
pub fn normalize_key_stream(raws: &Vec<RawKeyMessage>) -> (out: Vec<CapturedEvent>)
    ensures
        out@ == spec_normalize_key_stream(raws@),
{
    let mut out: Vec<CapturedEvent> = Vec::new();
    let n = raws.len();
    let mut i: usize = 0;
    while i < n
        invariant
            n == raws@.len(),
            0 <= i <= n,
            out@ == spec_normalize_key_stream(raws@.take(i as int)),
        decreases n - i,
    {
        proof {
            assert(raws@.take(i + 1int).drop_last() =~= raws@.take(i as int));
            assert(raws@.take(i + 1int).last() == raws@[i as int]);
        }
        match normalize_key_message(raws[i]) {
            Some(ev) => {
                out.push(ev);
            },
            None => {},
        }
        i = i + 1;
    }
    proof {
        assert(raws@.take(n as int) =~= raws@);
    }
    out
}

/// Whether a normalized event is a down transition of key `k`.
pub open spec fn spec_is_down_event_for(ev: CapturedEvent, k: u32) -> bool {
    ev == (CapturedEvent::Key { code: k, phase: Phase::Down })
}

/// How many down transitions of key `k` a normalized stream holds.
pub open spec fn spec_count_downs_for(evs: Seq<CapturedEvent>, k: u32) -> nat
    decreases evs.len(),
{
    if evs.len() == 0 {
        0
    } else {
        spec_count_downs_for(evs.drop_last(), k) + (if spec_is_down_event_for(evs.last(), k) {
            1nat
        } else {
            0nat
        })
    }
}

/// Whether a raw key message is a down message of key `k`, repeated or
/// not.
pub open spec fn spec_is_raw_down_for(raw: RawKeyMessage, k: u32) -> bool {
    spec_is_key_down_msg(raw.msg) && raw.vk_code == k
}

/// Whether a raw key message is a fresh (unrepeated) down of key `k`:
/// the only raw shape that normalizes to a down of `k`.
pub open spec fn spec_is_fresh_down_for(raw: RawKeyMessage, k: u32) -> bool {
    spec_is_raw_down_for(raw, k) && !raw.repeat
}

/// How many fresh downs of key `k` a raw stream holds.
pub open spec fn spec_count_fresh_downs_for(raws: Seq<RawKeyMessage>, k: u32) -> nat
    decreases raws.len(),
{
    if raws.len() == 0 {
        0
    } else {
        spec_count_fresh_downs_for(raws.drop_last(), k) + (if spec_is_fresh_down_for(
            raws.last(),
            k,
        ) {
            1nat
        } else {
            0nat
        })
    }
}

/// The normalized stream holds exactly one down of key `k` for each
/// raw down of `k` whose repeat marker is unset: marked repeats are
/// the only downs the normalizer removes, and it removes all of them.
pub proof fn lemma_down_count_exact(raws: Seq<RawKeyMessage>, k: u32)
    ensures
        spec_count_downs_for(spec_normalize_key_stream(raws), k) == spec_count_fresh_downs_for(
            raws,
            k,
        ),
    decreases raws.len(),
{
    if raws.len() == 0 {
    } else {
        lemma_down_count_exact(raws.drop_last(), k);
        let prefix = spec_normalize_key_stream(raws.drop_last());
        match spec_normalize_key_message(raws.last()) {
            Some(ev) => {
                assert(spec_normalize_key_stream(raws) =~= prefix + seq![ev]);
                assert(spec_normalize_key_stream(raws).drop_last() =~= prefix);
            },
            None => {
                assert(spec_normalize_key_stream(raws) =~= prefix);
            },
        }
    }
}

/// Helper for the auto-repeat law: a raw stream in which every down of
/// key `k` carries the repeat marker holds no fresh down of `k`.
pub proof fn lemma_all_repeats_no_fresh(raws: Seq<RawKeyMessage>, k: u32)
    requires
        forall|i: int|
            0 <= i < raws.len() && spec_is_raw_down_for(raws[i], k) ==> raws[i].repeat,
    ensures
        spec_count_fresh_downs_for(raws, k) == 0,
    decreases raws.len(),
{
    if raws.len() > 0 {
        assert(raws.drop_last() =~= raws.take(raws.len() - 1));
        lemma_all_repeats_no_fresh(raws.drop_last(), k);
        assert(raws.last() == raws[raws.len() - 1]);
    }
}

/// Law: auto-repeat suppression. In a raw key stream in which every
/// down of key `k` that follows an earlier down of `k` carries the
/// repeat marker — the shape the platform produces while `k` is held,
/// until its matching up — the normalized stream surfaces at most one
/// down of `k`.
pub proof fn lemma_auto_repeat_suppressed(raws: Seq<RawKeyMessage>, k: u32)
    requires
        forall|i: int, j: int|
            0 <= i < j < raws.len() && spec_is_raw_down_for(raws[i], k) && spec_is_raw_down_for(
                raws[j],
                k,
            ) ==> raws[j].repeat,
    ensures
        spec_count_downs_for(spec_normalize_key_stream(raws), k) <= 1,
    decreases raws.len(),
{
    lemma_down_count_exact(raws, k);
    if raws.len() > 0 {
        let last = raws.last();
        assert(raws.drop_last() =~= raws.take(raws.len() - 1));
        lemma_auto_repeat_suppressed(raws.drop_last(), k);
        lemma_down_count_exact(raws.drop_last(), k);
        if spec_is_fresh_down_for(last, k) {
            // No earlier down of `k` can exist: it would force the
            // repeat marker on the fresh last down.
            assert forall|i: int|
                0 <= i < raws.len() - 1 && spec_is_raw_down_for(raws.drop_last()[i], k)
                implies raws.drop_last()[i].repeat by {
                assert(spec_is_raw_down_for(raws[i], k));
                assert(spec_is_raw_down_for(raws[raws.len() - 1], k));
            }
            lemma_all_repeats_no_fresh(raws.drop_last(), k);
        }
    }
}

/// The normalized stream a sequence of raw device events yields on the
/// keyboard path.
pub open spec fn spec_normalize_device_key_stream(raws: Seq<RawDeviceEvent>) -> Seq<CapturedEvent>
    decreases raws.len(),
{
    if raws.len() == 0 {
        Seq::empty()
    } else {
        spec_normalize_device_key_stream(raws.drop_last()) + (match spec_normalize_device_key(
            raws.last(),
        ) {
            Some(ev) => seq![ev],
            None => Seq::empty(),
        })
    }
}

/// Normalizes a whole sequence of raw device events on the keyboard
/// path, in order, dropping mouse buttons, hardware auto-repeats and
/// non-key events.
pub fn normalize_device_key_stream(raws: &Vec<RawDeviceEvent>) -> (out: Vec<CapturedEvent>)
    ensures
        out@ == spec_normalize_device_key_stream(raws@),
{
    let mut out: Vec<CapturedEvent> = Vec::new();
    let n = raws.len();
    let mut i: usize = 0;
    while i < n
        invariant
            n == raws@.len(),
            0 <= i <= n,
            out@ == spec_normalize_device_key_stream(raws@.take(i as int)),
        decreases n - i,
    {
        proof {
            assert(raws@.take(i + 1int).drop_last() =~= raws@.take(i as int));
            assert(raws@.take(i + 1int).last() == raws@[i as int]);
        }
        match normalize_device_key(raws[i]) {
            Some(ev) => {
                out.push(ev);
            },
            None => {},
        }
        i = i + 1;
    }
    proof {
        assert(raws@.take(n as int) =~= raws@);
    }
    out
}

/// Whether a raw device event is a down transition of key code `k`,
/// counting the repeat value as a down: press and repeat are the two
/// shapes a held key produces.
pub open spec fn spec_is_raw_device_down_for(raw: RawDeviceEvent, k: u16) -> bool {
    raw.event_type == crate::normalize::DEV_TYPE_KEY && raw.code == k
        && crate::normalize::spec_device_button(k) is None && (raw.value
        == crate::normalize::DEV_VALUE_DOWN || raw.value == crate::normalize::DEV_VALUE_REPEAT)
}

/// Whether a raw device event is a fresh press of key code `k`: the
/// only raw shape the keyboard path surfaces as a down of `k`.
pub open spec fn spec_is_fresh_device_down_for(raw: RawDeviceEvent, k: u16) -> bool {
    spec_is_raw_device_down_for(raw, k) && raw.value == crate::normalize::DEV_VALUE_DOWN
}

/// How many fresh presses of key code `k` a raw device stream holds.
pub open spec fn spec_count_fresh_device_downs_for(raws: Seq<RawDeviceEvent>, k: u16) -> nat
    decreases raws.len(),
{
    if raws.len() == 0 {
        0
    } else {
        spec_count_fresh_device_downs_for(raws.drop_last(), k) + (if spec_is_fresh_device_down_for(
            raws.last(),
            k,
        ) {
            1nat
        } else {
            0nat
        })
    }
}

/// The device keyboard path surfaces exactly one down of key code `k`
/// for each raw press of `k`: the repeat value is the only down shape
/// it removes, and it removes every occurrence of it.
pub proof fn lemma_device_down_count_exact(raws: Seq<RawDeviceEvent>, k: u16)
    ensures
        spec_count_downs_for(spec_normalize_device_key_stream(raws), k as u32)
            == spec_count_fresh_device_downs_for(raws, k),
    decreases raws.len(),
{
    if raws.len() == 0 {
    } else {
        lemma_device_down_count_exact(raws.drop_last(), k);
        let prefix = spec_normalize_device_key_stream(raws.drop_last());
        match spec_normalize_device_key(raws.last()) {
            Some(ev) => {
                assert(spec_normalize_device_key_stream(raws) =~= prefix + seq![ev]);
                assert(spec_normalize_device_key_stream(raws).drop_last() =~= prefix);
            },
            None => {
                assert(spec_normalize_device_key_stream(raws) =~= prefix);
            },
        }
    }
}

/// Helper for the device auto-repeat law: a raw device stream in which
/// every down of key code `k` carries the repeat value holds no fresh
/// press of `k`.
pub proof fn lemma_device_all_repeats_no_fresh(raws: Seq<RawDeviceEvent>, k: u16)
    requires
        forall|i: int|
            0 <= i < raws.len() && spec_is_raw_device_down_for(raws[i], k) ==> raws[i].value
                == crate::normalize::DEV_VALUE_REPEAT,
    ensures
        spec_count_fresh_device_downs_for(raws, k) == 0,
    decreases raws.len(),
{
    if raws.len() > 0 {
        assert(raws.drop_last() =~= raws.take(raws.len() - 1));
        lemma_device_all_repeats_no_fresh(raws.drop_last(), k);
        assert(raws.last() == raws[raws.len() - 1]);
    }
}

/// Law: auto-repeat suppression on the device-scan keyboard path. In a
/// raw device stream in which every down of key code `k` that follows
/// an earlier down of `k` carries the repeat value — the shape the
/// kernel produces while `k` is held, until its matching release — the
/// normalized stream surfaces at most one down of `k`.
pub proof fn lemma_device_auto_repeat_suppressed(raws: Seq<RawDeviceEvent>, k: u16)
    requires
        forall|i: int, j: int|
            0 <= i < j < raws.len() && spec_is_raw_device_down_for(raws[i], k)
                && spec_is_raw_device_down_for(raws[j], k) ==> raws[j].value
                == crate::normalize::DEV_VALUE_REPEAT,
    ensures
        spec_count_downs_for(spec_normalize_device_key_stream(raws), k as u32) <= 1,
    decreases raws.len(),
{
    lemma_device_down_count_exact(raws, k);
    if raws.len() > 0 {
        let last = raws.last();
        assert(raws.drop_last() =~= raws.take(raws.len() - 1));
        lemma_device_auto_repeat_suppressed(raws.drop_last(), k);
        lemma_device_down_count_exact(raws.drop_last(), k);
        if spec_is_fresh_device_down_for(last, k) {
            assert forall|i: int|
                0 <= i < raws.len() - 1 && spec_is_raw_device_down_for(raws.drop_last()[i], k)
                implies raws.drop_last()[i].value == crate::normalize::DEV_VALUE_REPEAT by {
                assert(spec_is_raw_device_down_for(raws[i], k));
                assert(spec_is_raw_device_down_for(raws[raws.len() - 1], k));
            }
            lemma_device_all_repeats_no_fresh(raws.drop_last(), k);
        }
    }
}

} // verus!
