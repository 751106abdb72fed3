//! The event translator: classification of the driver's poll/peek status
//! codes and translation of its flat raw records into structured events.
//!
//! The driver reports a status of `-1` for an OS-level error, `0` when no
//! event arrived within a bounded wait, and `1` or `2` when a record was
//! filled in. A filled record is decoded either verbatim (a raw key
//! event, for caller-side decoding) or into the typed [`Event`] variants.
//! A status or record field outside the documented set is a contract
//! violation by the driver — the translation reports it as a distinct
//! error instead of guessing, so that the caller can stop.

use vstd::prelude::*;

use crate::keyboard::Key;

verus! {

/// A key-event modifier. Only one is defined; any other nonzero modifier
/// code from the driver is a contract violation.
#[derive(Clone, Copy, PartialEq, Eq, Debug)]
pub enum Modifier {
    Alt,
}

/// The flat record the driver fills on a poll or peek call, before
/// translation: an event type tag, a modifier code, the key and character
/// channels, and the geometry fields of a resize.
#[derive(Clone, Copy, PartialEq, Eq, Debug)]
pub struct RawEvent {
    pub etype: u8,
    pub emod: u8,
    pub key: u16,
    pub ch: u32,
    pub w: i32,
    pub h: i32,
    pub x: i32,
    pub y: i32,
}

/// A translated terminal event. Constructed fresh per poll/peek call.
///
/// `KeyEventRaw` carries the modifier, key and character fields verbatim
/// for caller-side decoding. In a translated `KeyEvent`, the key is
/// absent when the character channel held no valid Unicode scalar — the
/// event itself is still valid. `NoEvent` means no input arrived within
/// a bounded wait; a blocking poll never yields it.
#[derive(Clone, Copy, PartialEq, Eq, Debug)]
pub enum Event {
    KeyEventRaw(u8, u16, u32),
    KeyEvent(Option<Modifier>, Option<Key>),
    ResizeEvent(i32, i32),
    NoEvent,
}

/// What went wrong while translating a driver notification.
///
/// `OsError` is the one recoverable case: the driver reported an
/// OS-level failure, whose detail the caller retrieves from the OS at
/// call time. Every other variant is a contract violation by the driver
/// (its ABI no longer matches this layer), and processing must stop on
/// it rather than continue with a degraded event.
#[derive(Clone, Copy, PartialEq, Eq, Debug)]
pub enum EventError {
    /// The driver reported an OS-level error.
    OsError,
    /// A key record carried a modifier code other than none or Alt.
    UnknownModifier(u8),
    /// A record carried an event type tag outside the documented set.
    UnknownEventType(u8),
    /// A poll or peek call returned a status outside `-1..=2`.
    UnexpectedStatus(i32),
    /// A blocking poll reported success and then delivered no event.
    MissingEvent,
}

/// Whether `u` is a Unicode scalar value, and so decodes to exactly one
/// character: any code point outside the surrogate range.
pub open spec fn is_unicode_scalar(u: u32) -> bool {
    u < 0xD800 || (0xDFFF < u && u <= 0x10FFFF)
}

/// Relies on `char::from_u32`: it returns the character with scalar value
/// `u`, and `None` exactly when `u` is a surrogate code point or larger
/// than `char::MAX` (`0x10FFFF`).
#[verifier::external_body]
fn char_from_u32(u: u32) -> (r: Option<char>)
    ensures
        r is Some <==> is_unicode_scalar(u),
        r matches Some(c) ==> c as u32 == u,
{
    char::from_u32(u)
}

/// The key a filled key record translates to: the key channel taken as a
/// coded key when nonzero, else the character channel decoded as a text
/// scalar, absent when it holds none.
pub open spec fn spec_key_of_record(key: u16, ch: u32) -> Option<Key> {
    if key == 0 {
        if is_unicode_scalar(ch) {
            Some(Key::Char(ch as char))
        } else {
            None
        }
    } else {
        Some(Key::Key(key))
    }
}

/// The translation of a filled raw record, in raw or translated mode.
pub open spec fn spec_unpack_event(ev: RawEvent, raw: bool) -> Result<Event, EventError> {
    if ev.etype == 0 {
        Ok(Event::NoEvent)
    } else if ev.etype == 1 {
        if raw {
            Ok(Event::KeyEventRaw(ev.emod, ev.key, ev.ch))
        } else if ev.emod == 0 {
            Ok(Event::KeyEvent(None, spec_key_of_record(ev.key, ev.ch)))
        } else if ev.emod == 1 {
            Ok(Event::KeyEvent(Some(Modifier::Alt), spec_key_of_record(ev.key, ev.ch)))
        } else {
            Err(EventError::UnknownModifier(ev.emod))
        }
    } else if ev.etype == 2 {
        Ok(Event::ResizeEvent(ev.w, ev.h))
    } else {
        Err(EventError::UnknownEventType(ev.etype))
    }
}

/// Translates one raw record into an [`Event`].
///
/// With `raw` set, a key record is handed back verbatim as
/// `KeyEventRaw`; otherwise it is decoded against the key model. Both
/// modes read the same record, so a caller can decode one notification
/// both ways without querying the driver again. An unrecognized modifier
/// or event type aborts the translation with the matching error.
pub fn unpack_event(ev: &RawEvent, raw: bool) -> (r: Result<Event, EventError>)
    ensures
        r == spec_unpack_event(*ev, raw),
{
    if ev.etype == 0 {
        Ok(Event::NoEvent)
    } else if ev.etype == 1 {
        if raw {
            Ok(Event::KeyEventRaw(ev.emod, ev.key, ev.ch))
        } else if ev.emod == 0 || ev.emod == 1 {
            let modifier = if ev.emod == 1 {
                Some(Modifier::Alt)
            } else {
                None
            };
            let k = if ev.key == 0 {
                match char_from_u32(ev.ch) {
                    Some(c) => Some(Key::Char(c)),
                    None => None,
                }
            } else {
                Some(Key::Key(ev.key))
            };
            proof {
                if ev.key == 0 && is_unicode_scalar(ev.ch) {
                    let c = k->0->Char_0;
                    vstd::utf8::char_u32_cast(c, ev.ch);
                }
            }
            Ok(Event::KeyEvent(modifier, k))
        } else {
            Err(EventError::UnknownModifier(ev.emod))
        }
    } else if ev.etype == 2 {
        Ok(Event::ResizeEvent(ev.w, ev.h))
    } else {
        Err(EventError::UnknownEventType(ev.etype))
    }
}

/// Classification of a status code from the driver's poll and peek
/// calls: `-1` is an OS error, `0` a bounded wait that expired, and `1`
/// or `2` a filled record; anything else is outside the driver's
/// documented set and yields `None`.
pub open spec fn spec_poll_status(ret: i32) -> Option<Result<bool, EventError>> {
    if ret == -1 {
        Some(Err(EventError::OsError))
    } else if ret == 0 {
        Some(Ok(false))
    } else if 1 <= ret && ret <= 2 {
        Some(Ok(true))
    } else {
        None
    }
}

/// Classifies a poll/peek status code: `Ok(true)` when a record was
/// filled, `Ok(false)` when the wait expired, `Err` for an OS-level
/// error, and `None` when the driver returned a status outside its
/// documented set.
pub fn handle_error(ret: i32) -> (r: Option<Result<bool, EventError>>)
    ensures
        r == spec_poll_status(ret),
{
    if ret == -1 {
        Some(Err(EventError::OsError))
    } else if ret == 0 {
        Some(Ok(false))
    } else if 1 <= ret && ret <= 2 {
        Some(Ok(true))
    } else {
        None
    }
}

/// The event a blocking poll yields for a driver status and record.
pub open spec fn spec_poll_event(status: i32, ev: RawEvent, raw: bool) -> Result<
    Event,
    EventError,
> {
    match spec_poll_status(status) {
        None => Err(EventError::UnexpectedStatus(status)),
        Some(Err(e)) => Err(e),
        Some(Ok(false)) => Err(EventError::MissingEvent),
        Some(Ok(true)) => match spec_unpack_event(ev, raw) {
            Ok(Event::NoEvent) => Err(EventError::MissingEvent),
            other => other,
        },
    }
}

/// Translates the outcome of a blocking poll call: the status the driver
/// returned and the record it filled.
///
/// A blocking poll owes an event: a status of `0`, or a record left
/// empty, is the driver breaking its contract, so the result is never
/// `NoEvent` — such an outcome becomes the `MissingEvent` error.
pub fn poll_event(status: i32, ev: &RawEvent, raw: bool) -> (r: Result<Event, EventError>)
    ensures
        r == spec_poll_event(status, *ev, raw),
        r != Ok::<Event, EventError>(Event::NoEvent),
{
    match handle_error(status) {
        None => Err(EventError::UnexpectedStatus(status)),
        Some(Err(e)) => Err(e),
        Some(Ok(false)) => Err(EventError::MissingEvent),
        Some(Ok(true)) => match unpack_event(ev, raw) {
            Ok(Event::NoEvent) => Err(EventError::MissingEvent),
            other => other,
        },
    }
}

/// The event a bounded-wait peek yields for a driver status and record.
pub open spec fn spec_peek_event(status: i32, ev: RawEvent, raw: bool) -> Result<
    Event,
    EventError,
> {
    match spec_poll_status(status) {
        None => Err(EventError::UnexpectedStatus(status)),
        Some(Err(e)) => Err(e),
        Some(Ok(false)) => Ok(Event::NoEvent),
        Some(Ok(true)) => spec_unpack_event(ev, raw),
    }
}

/// Translates the outcome of a bounded-wait peek call: the status the
/// driver returned and the record it filled.
///
/// An expired wait is not an error: it yields [`Event::NoEvent`].
pub fn peek_event(status: i32, ev: &RawEvent, raw: bool) -> (r: Result<Event, EventError>)
    ensures
        r == spec_peek_event(status, *ev, raw),
{
    match handle_error(status) {
        None => Err(EventError::UnexpectedStatus(status)),
        Some(Err(e)) => Err(e),
        Some(Ok(false)) => Ok(Event::NoEvent),
        Some(Ok(true)) => unpack_event(ev, raw),
    }
}

} // verus!
