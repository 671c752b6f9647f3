//! Simulated typing on Windows: a Unicode key down and key up per UTF-16
//! code unit.

use std::time::Duration;

use vstd::prelude::*;

use crate::error::{ClipTypeError, Result};
use crate::text::{
    char_to_utf16, decimal, decimal_string, encode_utf16, law_encode_utf16_len, utf16_len,
};

verus! {

/// The virtual key code of Enter (`VK_RETURN`).
pub const VK_RETURN: u16 = 0x0D;

/// `KEYEVENTF_KEYUP`: the event releases the key.
pub const KEYEVENTF_KEYUP: u32 = 0x0002;

/// `KEYEVENTF_UNICODE`: the event carries a UTF-16 code unit in its scan
/// code.
pub const KEYEVENTF_UNICODE: u32 = 0x0004;

/// A keyboard input for `SendInput` (its time stamp and extra information
/// are zero).
#[derive(Debug, Clone, Copy, PartialEq, Eq, Structural)]
pub struct KeyboardInput {
    pub virtual_key: u16,
    pub scan: u16,
    pub flags: u32,
}

/// One step of typing on Windows.
#[derive(Debug, Clone, Copy, PartialEq, Eq)]
pub enum WindowsKeyEvent {
    /// The two inputs given to one call of `SendInput`: key down, key up.
    Send(KeyboardInput, KeyboardInput),
    /// A pause (none when the duration is zero).
    Pause(Duration),
}

/// The keyboard input with these fields.
pub fn keyboard_input(w_vk: u16, w_scan: u16, flags: u32) -> (r: KeyboardInput)
    ensures
        r == (KeyboardInput { virtual_key: w_vk, scan: w_scan, flags: flags }),
{
    KeyboardInput { virtual_key: w_vk, scan: w_scan, flags: flags }
}

/// The key down and key up that type one UTF-16 code unit.
pub open spec fn unicode_pair(code_unit: u16) -> WindowsKeyEvent {
    WindowsKeyEvent::Send(
        KeyboardInput { virtual_key: 0, scan: code_unit, flags: KEYEVENTF_UNICODE },
        KeyboardInput { virtual_key: 0, scan: code_unit, flags: KEYEVENTF_UNICODE | KEYEVENTF_KEYUP },
    )
}

/// The key down and key up of a virtual key.
pub open spec fn virtual_key_pair(key: u16) -> WindowsKeyEvent {
    WindowsKeyEvent::Send(
        KeyboardInput { virtual_key: key, scan: 0, flags: 0 },
        KeyboardInput { virtual_key: key, scan: 0, flags: KEYEVENTF_KEYUP },
    )
}

/// The inputs that type one UTF-16 code unit.
pub fn send_unicode(code_unit: u16) -> (r: WindowsKeyEvent)
    ensures
        r == unicode_pair(code_unit),
{
    WindowsKeyEvent::Send(
        keyboard_input(0, code_unit, KEYEVENTF_UNICODE),
        keyboard_input(0, code_unit, KEYEVENTF_UNICODE | KEYEVENTF_KEYUP),
    )
}

/// The inputs that press and release a virtual key.
pub fn send_virtual_key(key: u16) -> (r: WindowsKeyEvent)
    ensures
        r == virtual_key_pair(key),
{
    WindowsKeyEvent::Send(keyboard_input(key, 0, 0), keyboard_input(key, 0, KEYEVENTF_KEYUP))
}

/// The message when `SendInput` took only `sent` of the two inputs.
pub open spec fn send_shortfall_message(sent: u32) -> Seq<char> {
    "SendInput sent "@ + decimal(sent as nat) + " of 2 input events"@
}

/// What one call of `SendInput` with two inputs comes to, where it
/// reported `sent` inputs as inserted: success when both were, else the
/// input error.
pub fn send_pair(sent: u32) -> (r: Result<()>)
    ensures
        sent == 2 ==> r matches Ok(()),
        sent != 2 ==> (r matches Err(ClipTypeError::Input(m)) && m@ == send_shortfall_message(sent)),
{
    if sent == 2 {
        Ok(())
    } else {
        let mut m = "SendInput sent ".to_owned();
        let count = decimal_string(sent as u64);
        m.append(count.as_str());
        m.append(" of 2 input events");
        Err(ClipTypeError::Input(m))
    }
}

/// Each code unit in turn, each followed by a pause of `delay`.
pub open spec fn unit_events(units: Seq<u16>, delay: Duration) -> Seq<WindowsKeyEvent>
    decreases units.len(),
{
    if units.len() == 0 {
        Seq::empty()
    } else {
        unit_events(units.drop_last(), delay) + seq![
            unicode_pair(units.last()),
            WindowsKeyEvent::Pause(delay),
        ]
    }
}

/// The events that type `s`, then press Enter when `append_enter` holds.
pub open spec fn windows_events(s: Seq<char>, delay: Duration, append_enter: bool) -> Seq<
    WindowsKeyEvent,
> {
    unit_events(encode_utf16(s), delay) + if append_enter {
        seq![virtual_key_pair(VK_RETURN)]
    } else {
        Seq::empty()
    }
}

/// The events that type `text`: each UTF-16 code unit followed by a pause
/// of `delay`, and Enter at the end when `append_enter` holds.
pub fn type_text(text: &str, delay: Duration, append_enter: bool) -> (events: Vec<WindowsKeyEvent>)
    ensures
        events@ == windows_events(text@, delay, append_enter),
{
    let n = text.unicode_len();
    let mut events: Vec<WindowsKeyEvent> = Vec::new();
    let mut i: usize = 0;
    while i < n
        invariant
            n == text@.len(),
            0 <= i <= n,
            events@ == unit_events(encode_utf16(text@.take(i as int)), delay),
        decreases n - i,
    {
        let units = char_to_utf16(text.get_char(i));
        let ghost done = encode_utf16(text@.take(i as int));
        let mut k: usize = 0;
        while k < units.len()
            invariant
                0 <= k <= units.len(),
                events@ == unit_events(done + units@.take(k as int), delay),
            decreases units.len() - k,
        {
            events.push(send_unicode(units[k]));
            events.push(WindowsKeyEvent::Pause(delay));
            proof {
                assert((done + units@.take(k + 1)).drop_last() =~= done + units@.take(k as int));
            }
            k = k + 1;
        }
        proof {
            assert(units@.take(units.len() as int) =~= units@);
            assert(text@.take(i + 1).drop_last() =~= text@.take(i as int));
        }
        i = i + 1;
    }
    assert(text@.take(n as int) =~= text@);
    if append_enter {
        events.push(send_virtual_key(VK_RETURN));
    }
    events
}

/// The events of typing alternate the key presses of each UTF-16 code unit
/// of the text with a pause.
pub proof fn law_windows_events_type_each_unit(units: Seq<u16>, delay: Duration)
    ensures
        unit_events(units, delay).len() == 2 * units.len(),
        forall|k: int|
            0 <= k < units.len() ==> unit_events(units, delay)[2 * k] == unicode_pair(units[k])
                && unit_events(units, delay)[2 * k + 1] == WindowsKeyEvent::Pause(delay),
    decreases units.len(),
{
    if units.len() > 0 {
        let p = units.drop_last();
        law_windows_events_type_each_unit(p, delay);
        let e = unit_events(units, delay);
        let tail = seq![unicode_pair(units.last()), WindowsKeyEvent::Pause(delay)];
        assert(e == unit_events(p, delay) + tail);
        assert(e.len() == 2 * units.len());
        assert forall|k: int| 0 <= k < units.len() implies e[2 * k] == unicode_pair(units[k])
            && e[2 * k + 1] == WindowsKeyEvent::Pause(delay) by {
            if k < units.len() - 1 {
                assert(p[k] == units[k]);
            } else {
                assert(e[2 * k] == tail[0]);
                assert(e[2 * k + 1] == tail[1]);
            }
        }
    }
}


/// Typing a text on Windows presses, in order, a Unicode key down and key up
/// for every UTF-16 code unit of the text, each followed by a pause, and
/// then Enter when asked: there are as many pairs as code units, one per
/// character of the basic multilingual plane and two per character above
/// it.
pub proof fn law_windows_events_type_text(s: Seq<char>, delay: Duration, append_enter: bool)
    ensures
        windows_events(s, delay, append_enter).len() == 2 * utf16_len(s) + if append_enter {
            1int
        } else {
            0int
        },
        forall|k: int|
            0 <= k < utf16_len(s) ==> windows_events(s, delay, append_enter)[2 * k]
                == WindowsKeyEvent::Send(
                KeyboardInput { virtual_key: 0, scan: encode_utf16(s)[k], flags: 4 },
                KeyboardInput { virtual_key: 0, scan: encode_utf16(s)[k], flags: 6 },
            ) && windows_events(s, delay, append_enter)[2 * k + 1] == WindowsKeyEvent::Pause(
                delay,
            ),
        append_enter ==> windows_events(s, delay, append_enter).last() == WindowsKeyEvent::Send(
            KeyboardInput { virtual_key: 0x0D, scan: 0, flags: 0 },
            KeyboardInput { virtual_key: 0x0D, scan: 0, flags: 2 },
        ),
{
    let units = encode_utf16(s);
    law_encode_utf16_len(s);
    law_windows_events_type_each_unit(units, delay);
    assert((KEYEVENTF_UNICODE | KEYEVENTF_KEYUP) == 6u32) by (bit_vector);
    let e = windows_events(s, delay, append_enter);
    assert forall|k: int| 0 <= k < utf16_len(s) implies e[2 * k] == WindowsKeyEvent::Send(
        KeyboardInput { virtual_key: 0, scan: units[k], flags: 4 },
        KeyboardInput { virtual_key: 0, scan: units[k], flags: 6 },
    ) && e[2 * k + 1] == WindowsKeyEvent::Pause(delay) by {
        assert(e[2 * k] == unit_events(units, delay)[2 * k]);
        assert(e[2 * k + 1] == unit_events(units, delay)[2 * k + 1]);
    }
}

} // verus!
