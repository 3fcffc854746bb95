//! The window wrapper: what the creation call asks of the host, how the
//! host's reply is classified, and when the message loop keeps running.
//! Registering the class, creating the window and pulling messages are
//! host work; this module fixes every value handed to those calls and
//! every decision taken on their results.

use vstd::prelude::*;
use crate::placement::CW_USEDEFAULT;
use crate::placement::WinRect;
use crate::placement::resolve_placement;
use crate::wide::wide_null;
use crate::wide::win32_str;

verus! {

/// Class style bit: the class's windows get a private device context
/// (`CS_OWNDC`).
pub const CS_OWNDC: u32 = 0x0020;

/// Class style bit: redraw on horizontal resize (`CS_HREDRAW`).
pub const CS_HREDRAW: u32 = 0x0002;

/// Class style bit: redraw on vertical resize (`CS_VREDRAW`).
pub const CS_VREDRAW: u32 = 0x0001;

/// Window style: overlapped-window chrome — title bar, system menu,
/// sizing border, minimize and maximize boxes (`WS_OVERLAPPEDWINDOW`).
pub const WS_OVERLAPPEDWINDOW: u32 = 0x00CF0000;

/// Window style bit: initially visible (`WS_VISIBLE`).
pub const WS_VISIBLE: u32 = 0x10000000;

/// Everything the wrapper asks of the host when creating a window: the
/// registered class's name and style, the window's title, style and
/// requested bounds.  Extended style, icon, cursor, background, menu
/// and parent are left at their null defaults.
#[derive(Debug)]
pub struct CreateRequest {
    pub class_name: Vec<u16>,
    pub window_title: Vec<u16>,
    pub class_style: u32,
    pub window_style: u32,
    pub x: i32,
    pub y: i32,
    pub width: i32,
    pub height: i32,
}

/// The host refused or failed window creation; carries the fixed
/// descriptive message shown to the user.
#[derive(Debug)]
pub struct WindowCreationError {
    pub message: String,
}

/// Exclusive owner of one native window handle.  The handle is never
/// null: creation failure yields a [`WindowCreationError`] and no
/// wrapper at all.
#[derive(Debug)]
pub struct Win32Window {
    handle: usize,
}

impl Win32Window {
    /// The wrapped raw handle.
    pub closed spec fn spec_handle(&self) -> usize {
        self.handle
    }

    /// A wrapper is well formed when its handle is non-null.
    pub closed spec fn wf(&self) -> bool {
        self.handle != 0
    }

    /// The full creation request for a window of class `name` titled
    /// `title`: null-terminated wide strings for both names, the fixed
    /// class and window styles, and the resolved placement — the given
    /// rectangle verbatim, or the default sentinel in all four fields
    /// when no placement is given.
    pub fn create_request(name: &str, title: &str, placement: Option<WinRect>) -> (req:
        CreateRequest)
        ensures
            req.class_name@ == wide_null(name@),
            req.window_title@ == wide_null(title@),
            req.class_style == CS_OWNDC | CS_HREDRAW | CS_VREDRAW,
            req.window_style == WS_OVERLAPPEDWINDOW | WS_VISIBLE,
            placement matches Some(p) ==> (req.x, req.y, req.width, req.height) == (
            p.x,
            p.y,
            p.width,
            p.height,
            ),
            placement is None ==> (req.x, req.y, req.width, req.height) == (
            CW_USEDEFAULT,
            CW_USEDEFAULT,
            CW_USEDEFAULT,
            CW_USEDEFAULT,
            ),
    {
        let (x, y, width, height) = resolve_placement(placement);
        CreateRequest {
            class_name: win32_str(name),
            window_title: win32_str(title),
            class_style: CS_OWNDC | CS_HREDRAW | CS_VREDRAW,
            window_style: WS_OVERLAPPEDWINDOW | WS_VISIBLE,
            x,
            y,
            width,
            height,
        }
    }

    /// Classifies the host's reply to a creation request: a null handle
    /// is the failure case and yields the fixed error message; any other
    /// handle yields the exclusive owning wrapper, well formed.
    pub fn from_create_result(raw_handle: usize) -> (r: Result<Win32Window, WindowCreationError>)
        ensures
            raw_handle == 0 ==> (r matches Err(e) && e.message@
                == "Could not create Win32 window!"@),
            raw_handle != 0 ==> (r matches Ok(w) && w.wf() && w.spec_handle() == raw_handle),
    {
        if raw_handle == 0 {
            Err(WindowCreationError { message: "Could not create Win32 window!".to_owned() })
        } else {
            Ok(Win32Window { handle: raw_handle })
        }
    }

    /// The raw handle, for host calls addressed to this window;
    /// non-null for a well-formed wrapper.
    pub fn raw_handle(&self) -> (h: usize)
        ensures
            h == self.spec_handle(),
            self.wf() ==> h != 0,
    {
        self.handle
    }
}

/// The message loop's continuation decision, from the status the host's
/// blocking message-retrieval call returned: keep pumping exactly when
/// a message was retrieved (positive status).  End-of-stream (zero) and
/// a fatal retrieval error (negative) both stop the loop; the two are
/// deliberately not distinguished.
pub fn pump_decision(status: i32) -> (keep: bool)
    ensures
        keep == (status > 0),
{
    status > 0
}

} // verus!
