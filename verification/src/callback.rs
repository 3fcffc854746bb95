//! The message callback's decision logic: which messages produce a
//! notification dialog, with which body, and what result the host is
//! handed back.  The host invokes the callback; this module only
//! decides.

use vstd::prelude::*;
use vstd::string::StringExecFns;
use crate::dialog::Dialog;
use crate::dialog::info_dialog;

verus! {

/// The message tag the host uses for a key-release event (`WM_KEYUP`).
pub const WM_KEYUP: u32 = 0x0101;

/// The scan code packed into a key event's parameter: bits 16 through
/// 23, read as an 8-bit value.
pub open spec fn spec_scan_code(lparam: i64) -> u8 {
    (((lparam & 0x00FF0000) >> 16) as u8)
}

/// Extracts the scan code from the packed key-event parameter.
pub fn scan_code(lparam: i64) -> (sc: u8)
    ensures
        sc == spec_scan_code(lparam),
{
    let masked: i64 = (lparam & 0x00FF0000) >> 16;
    assert(0 <= ((lparam & 0x00FF0000) >> 16) <= 0xFF) by (bit_vector);
    masked as u8
}

/// Extraction reads only the masked bits: parameters that agree under
/// the mask extract the same scan code.
pub proof fn lemma_scan_code_mask_independent(a: i64, b: i64)
    by (bit_vector)
    requires
        a & 0x00FF0000 == b & 0x00FF0000,
    ensures
        spec_scan_code(a) == spec_scan_code(b),
{
}

/// Masking the parameter beforehand does not change the scan code:
/// extraction is idempotent under re-masking.
pub proof fn lemma_scan_code_remask(a: i64)
    by (bit_vector)
    ensures
        spec_scan_code(a & 0x00FF0000) == spec_scan_code(a),
{
}

/// The lowercase hexadecimal digit for a value below 16.
pub open spec fn spec_hex_digit(d: u8) -> char {
    if d == 0 {
        '0'
    } else if d == 1 {
        '1'
    } else if d == 2 {
        '2'
    } else if d == 3 {
        '3'
    } else if d == 4 {
        '4'
    } else if d == 5 {
        '5'
    } else if d == 6 {
        '6'
    } else if d == 7 {
        '7'
    } else if d == 8 {
        '8'
    } else if d == 9 {
        '9'
    } else if d == 10 {
        'a'
    } else if d == 11 {
        'b'
    } else if d == 12 {
        'c'
    } else if d == 13 {
        'd'
    } else if d == 14 {
        'e'
    } else {
        'f'
    }
}

/// The lowercase hexadecimal representation of a byte, without leading
/// zeros: one digit below 0x10, two digits otherwise.
pub open spec fn spec_hex_byte(n: u8) -> Seq<char> {
    if n < 0x10 {
        seq![spec_hex_digit(n)]
    } else {
        seq![spec_hex_digit(n / 0x10), spec_hex_digit(n % 0x10)]
    }
}

/// The notification body for a released key's scan code: fixed texts
/// for the escape and enter codes, else the code in hexadecimal.
pub open spec fn spec_key_body(sc: u8) -> Seq<char> {
    if sc == 0x01 {
        "ESCAPE PRESSED!"@
    } else if sc == 0x1C {
        "ENTER PRESSED!"@
    } else {
        "KEY PRESSED: "@ + spec_hex_byte(sc)
    }
}

/// One lowercase hexadecimal digit, as text.
fn hex_digit_str(d: u8) -> (r: &'static str)
    requires
        d < 0x10,
    ensures
        r@ == seq![spec_hex_digit(d)],
{
    let r: &'static str = match d {
        0 => "0",
        1 => "1",
        2 => "2",
        3 => "3",
        4 => "4",
        5 => "5",
        6 => "6",
        7 => "7",
        8 => "8",
        9 => "9",
        10 => "a",
        11 => "b",
        12 => "c",
        13 => "d",
        14 => "e",
        _ => "f",
    };
    proof {
        reveal_strlit("0");
        reveal_strlit("1");
        reveal_strlit("2");
        reveal_strlit("3");
        reveal_strlit("4");
        reveal_strlit("5");
        reveal_strlit("6");
        reveal_strlit("7");
        reveal_strlit("8");
        reveal_strlit("9");
        reveal_strlit("a");
        reveal_strlit("b");
        reveal_strlit("c");
        reveal_strlit("d");
        reveal_strlit("e");
        reveal_strlit("f");
        assert(r@ =~= seq![spec_hex_digit(d)]);
    }
    r
}

/// Builds the notification body for a scan code.
pub fn key_body(sc: u8) -> (body: String)
    ensures
        body@ == spec_key_body(sc),
{
    if sc == 0x01 {
        "ESCAPE PRESSED!".to_owned()
    } else if sc == 0x1C {
        "ENTER PRESSED!".to_owned()
    } else {
        let mut body = "KEY PRESSED: ".to_owned();
        if sc < 0x10 {
            body.append(hex_digit_str(sc));
        } else {
            body.append(hex_digit_str(sc / 0x10));
            body.append(hex_digit_str(sc % 0x10));
        }
        proof {
            assert(body@ =~= spec_key_body(sc));
        }
        body
    }
}

/// What the callback decides for one message: show a notification
/// dialog and report the message handled, or defer to the platform's
/// default handling.
#[derive(Debug)]
pub enum CallbackAction {
    Notify(Dialog),
    Defer,
}

impl CallbackAction {
    /// The integer result handed back to the host: 0 when a
    /// notification was shown ("handled"), and the platform default
    /// handler's own result, unmodified, when the action defers.
    pub fn host_result(&self, default_result: i64) -> (r: i64)
        ensures
            self is Notify ==> r == 0,
            self is Defer ==> r == default_result,
    {
        match self {
            CallbackAction::Notify(_) => 0,
            CallbackAction::Defer => default_result,
        }
    }
}

/// The callback's decision for one message: a key-release message
/// produces a notification titled "Info Message" whose body names the
/// released key's scan code; every other message defers to the
/// platform's default handling, untouched.
pub fn callback_action(umsg: u32, lparam: i64) -> (action: CallbackAction)
    ensures
        umsg == WM_KEYUP ==> (action matches CallbackAction::Notify(d)
            && d.title@ == "Info Message"@
            && d.body@ == spec_key_body(spec_scan_code(lparam))),
        umsg != WM_KEYUP ==> action is Defer,
{
    if umsg == WM_KEYUP {
        let sc = scan_code(lparam);
        CallbackAction::Notify(info_dialog(key_body(sc)))
    } else {
        CallbackAction::Defer
    }
}

} // verus!
