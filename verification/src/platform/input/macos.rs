//! Simulated typing on macOS: one Unicode key event per character.

use std::time::Duration;

use vstd::prelude::*;

use crate::error::{ClipTypeError, Result};
use crate::platform::permission::macos::info;

verus! {

/// The virtual key code of Return.
pub const RETURN_KEY_CODE: u16 = 36;

/// Why typing is refused without the accessibility permission.
pub const PERMISSION_REQUIRED: &'static str = "accessibility permission is required before typing";

/// One step of typing on macOS.
#[derive(Debug, Clone, Copy, PartialEq, Eq)]
pub enum MacKeyEvent {
    /// Key down and key up of a keyboard event that carries the character.
    Character(char),
    /// Key down and key up of the key with this virtual key code.
    Key(u16),
    /// A pause (none when the duration is zero).
    Pause(Duration),
}

/// The event that types `c`.
pub open spec fn character_event(c: char) -> MacKeyEvent {
    MacKeyEvent::Character(c)
}

/// Each character of `s` in turn, each followed by a pause of `delay`.
pub open spec fn mac_char_events(s: Seq<char>, delay: Duration) -> Seq<MacKeyEvent> {
    Seq::new(
        2 * s.len(),
        |k: int|
            if k % 2 == 0 {
                character_event(s[k / 2])
            } else {
                MacKeyEvent::Pause(delay)
            },
    )
}

/// The events that type `s`, then press Return when `append_enter` holds.
pub open spec fn mac_events(s: Seq<char>, delay: Duration, append_enter: bool) -> Seq<MacKeyEvent> {
    mac_char_events(s, delay) + if append_enter {
        seq![MacKeyEvent::Key(RETURN_KEY_CODE)]
    } else {
        Seq::empty()
    }
}

/// The events that type `text`: an error when the accessibility permission
/// is missing (`accessibility_trusted` is the system's answer), else each
/// character followed by a pause of `delay`, and Return at the end when
/// `append_enter` holds.
pub fn type_text(text: &str, delay: Duration, append_enter: bool, accessibility_trusted: bool) -> (r:
    Result<Vec<MacKeyEvent>>)
    ensures
        accessibility_trusted ==> (r matches Ok(events) && events@ == mac_events(
            text@,
            delay,
            append_enter,
        )),
        !accessibility_trusted ==> (r matches Err(ClipTypeError::Permission(m)) && m@
            == PERMISSION_REQUIRED@),
{
    let permission = info(accessibility_trusted);
    if permission.accessibility_required && !permission.accessibility_granted {
        return Err(ClipTypeError::Permission(PERMISSION_REQUIRED.to_owned()));
    }
    let n = text.unicode_len();
    let mut events: Vec<MacKeyEvent> = Vec::new();
    let mut i: usize = 0;
    while i < n
        invariant
            n == text@.len(),
            0 <= i <= n,
            events@ == mac_char_events(text@.take(i as int), delay),
        decreases n - i,
    {
        let c = text.get_char(i);
        events.push(MacKeyEvent::Character(c));
        events.push(MacKeyEvent::Pause(delay));
        proof {
            let next = mac_char_events(text@.take(i + 1), delay);
            assert forall|k: int| 0 <= k < next.len() implies events@[k] == next[k] by {
                if k < 2 * i {
                    assert(k / 2 < i);
                }
            }
            assert(events@ =~= next);
        }
        i = i + 1;
    }
    assert(text@.take(n as int) =~= text@);
    if append_enter {
        events.push(MacKeyEvent::Key(RETURN_KEY_CODE));
    }
    Ok(events)
}

/// The events of typing alternate each character of the text, carried
/// unchanged, with a pause.
pub proof fn law_mac_events_type_each_char(s: Seq<char>, delay: Duration)
    ensures
        mac_char_events(s, delay).len() == 2 * s.len(),
        forall|i: int|
            0 <= i < s.len() ==> mac_char_events(s, delay)[2 * i] == MacKeyEvent::Character(s[i])
                && mac_char_events(s, delay)[2 * i + 1] == MacKeyEvent::Pause(delay),
{
    assert forall|i: int| 0 <= i < s.len() implies mac_char_events(s, delay)[2 * i]
        == MacKeyEvent::Character(s[i]) && mac_char_events(s, delay)[2 * i + 1]
        == MacKeyEvent::Pause(delay) by {
        assert((2 * i) % 2 == 0 && (2 * i) / 2 == i);
        assert((2 * i + 1) % 2 == 1);
        let c = s[i];
        assert(character_event(c) == MacKeyEvent::Character(c));
    }
}


/// Typing a text on macOS presses each of its characters with a pause after
/// each, then Return (key code 36) exactly when asked.
pub proof fn law_mac_events_end(s: Seq<char>, delay: Duration, append_enter: bool)
    ensures
        mac_events(s, delay, append_enter).len() == 2 * s.len() + if append_enter {
            1int
        } else {
            0int
        },
        forall|k: int|
            0 <= k < 2 * s.len() ==> mac_events(s, delay, append_enter)[k] == mac_char_events(
                s,
                delay,
            )[k],
        append_enter ==> mac_events(s, delay, append_enter).last() == MacKeyEvent::Key(36),
{
    law_mac_events_type_each_char(s, delay);
}

} // verus!
