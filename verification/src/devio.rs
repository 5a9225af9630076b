//! The seam between the verified core and the raw device library.
//!
//! Everything the device-scan backend learns from a device node comes
//! through the trusted accessors here: the advertised capability set of
//! a scanned device, and the type, code and value fields of a fetched
//! event. Each accessor only converts an outside value to plain data,
//! and each read is named by an uninterpreted spec function — the reads
//! are pure field reads, or reads of capability sets the library caches
//! when the device is opened, so equal values give equal results. The
//! seam functions' contracts are exact over those names: all decisions
//! on the data are made by verified functions.

use vstd::prelude::*;
use crate::classify::{DeviceCaps, device_matches_class, spec_matches_class, spec_matches_class_of};
use crate::controller::SinkHandle;
use crate::events::{EventClass, CapturedEvent};
use crate::normalize::{DEV_TYPE_KEY, DEV_TYPE_RELATIVE, RawDeviceEvent, spec_normalize_device_event};
use crate::pump::{device_key_pump_step, device_mouse_pump_step, spec_deliver};

verus! {

#[verifier::external_type_specification]
#[verifier::external_body]
pub struct ExDevice(evdev::Device);

#[verifier::external_type_specification]
#[verifier::external_body]
pub struct ExInputEvent(evdev::InputEvent);

/// Whether a device's cached capability set contains a given event
/// type: what `Device::supported_events().contains(..)` returns.
pub uninterp spec fn spec_device_has_event_type(dev: evdev::Device, type_code: u16) -> bool;

/// The key codes a device's cached capability set advertises, in
/// iteration order, or `None` where the device reports no key
/// capability block: what `Device::supported_keys()` yields.
pub uninterp spec fn spec_device_key_codes(dev: evdev::Device) -> Option<Seq<u16>>;

/// The raw type field of a fetched event.
pub uninterp spec fn spec_event_type(ev: evdev::InputEvent) -> u16;

/// The raw code field of a fetched event.
pub uninterp spec fn spec_event_code(ev: evdev::InputEvent) -> u16;

/// The raw value field of a fetched event.
pub uninterp spec fn spec_event_value(ev: evdev::InputEvent) -> i32;

/// Relies on evdev::Device::supported_events and
/// AttributeSetRef::contains: whether the device advertises the event
/// type with this raw type code. The set is read once when the device
/// is opened and cached, so the result is a function of the device
/// value and the type code alone.
#[verifier::external_body]
fn device_supports_event_type(dev: &evdev::Device, type_code: u16) -> (r: bool)
    ensures
        r == spec_device_has_event_type(*dev, type_code),
{
    dev.supported_events().contains(evdev::EventType(type_code))
}

/// Relies on evdev::Device::supported_keys and AttributeSetRef::iter:
/// the raw key codes the device advertises, or `None` where it reports
/// no key capability block at all. Cached at open like the event
/// types, so a function of the device value alone.
#[verifier::external_body]
fn device_supported_key_codes(dev: &evdev::Device) -> (r: Option<Vec<u16>>)
    ensures
        (match r {
            Some(codes) => spec_device_key_codes(*dev) == Some(codes@),
            None => spec_device_key_codes(*dev) is None,
        }),
{
    match dev.supported_keys() {
        Some(keys) => Some(keys.iter().map(|k| k.0).collect()),
        None => None,
    }
}

/// Relies on evdev::InputEvent::event_type: the raw type field of a
/// fetched event, a pure field read.
#[verifier::external_body]
fn event_type_of(ev: &evdev::InputEvent) -> (r: u16)
    ensures
        r == spec_event_type(*ev),
{
    ev.event_type().0
}

/// Relies on evdev::InputEvent::code: the raw code field of a fetched
/// event, a pure field read.
pub assume_specification[ evdev::InputEvent::code ](ev: &evdev::InputEvent) -> (r: u16)
    ensures
        r == spec_event_code(*ev),
;

/// Relies on evdev::InputEvent::value: the raw value field of a
/// fetched event, a pure field read.
pub assume_specification[ evdev::InputEvent::value ](ev: &evdev::InputEvent) -> (r: i32)
    ensures
        r == spec_event_value(*ev),
;

/// The key codes a device advertises, as the classifier reads them: a
/// device with no key capability block contributes an empty list.
pub open spec fn spec_advertised_key_codes(dev: evdev::Device) -> Seq<u16> {
    match spec_device_key_codes(dev) {
        Some(codes) => codes,
        None => Seq::empty(),
    }
}

/// The plain raw-event record behind a fetched event's three fields.
pub open spec fn spec_raw_of(ev: evdev::InputEvent) -> RawDeviceEvent {
    RawDeviceEvent {
        event_type: spec_event_type(ev),
        code: spec_event_code(ev),
        value: spec_event_value(ev),
    }
}

/// Reads the capability summary a scanned device advertises: relative
/// motion, key capability, and the advertised key codes.
fn read_device_caps(dev: &evdev::Device) -> (caps: DeviceCaps)
    ensures
        caps.has_relative == spec_device_has_event_type(*dev, DEV_TYPE_RELATIVE),
        caps.has_keys == spec_device_has_event_type(*dev, DEV_TYPE_KEY),
        caps.key_codes@ == spec_advertised_key_codes(*dev),
{
    let has_relative = device_supports_event_type(dev, DEV_TYPE_RELATIVE);
    let has_keys = device_supports_event_type(dev, DEV_TYPE_KEY);
    let key_codes = match device_supported_key_codes(dev) {
        Some(codes) => codes,
        None => Vec::new(),
    };
    DeviceCaps { has_relative, has_keys, key_codes }
}

/// Decides whether a scanned device should be monitored for an event
/// class: exactly the classification heuristic applied to the
/// capability set the device advertises.
pub fn device_matches(dev: &evdev::Device, class: EventClass) -> (r: bool)
    ensures
        r == spec_matches_class_of(
            class,
            spec_device_has_event_type(*dev, DEV_TYPE_RELATIVE),
            spec_device_has_event_type(*dev, DEV_TYPE_KEY),
            spec_advertised_key_codes(*dev),
        ),
{
    let caps = read_device_caps(dev);
    let r = device_matches_class(class, &caps);
    proof {
        assert(r == spec_matches_class(class, caps));
    }
    r
}

/// One pump step on a fetched device event: decode the raw fields,
/// normalize them for the class, and deliver the result to the
/// registered sink. Exactly the event the raw fields normalize to is
/// delivered, exactly to the slot's own sink; nothing is delivered
/// while the slot is empty or when the event is unsupported.
pub fn handle_device_event(ev: &evdev::InputEvent, class: EventClass, sink: Option<
    SinkHandle,
>) -> (r: Option<(SinkHandle, CapturedEvent)>)
    ensures
        r == spec_deliver(sink, spec_normalize_device_event(class, spec_raw_of(*ev))),
        sink is None ==> r is None,
        r is Some ==> sink == Some(r->Some_0.0),
{
    let raw = RawDeviceEvent { event_type: event_type_of(ev), code: ev.code(), value: ev.value() };
    match class {
        EventClass::Mouse => device_mouse_pump_step(sink, raw),
        EventClass::Keyboard => device_key_pump_step(sink, raw),
    }
}

} // verus!
