//! Raw window/display handle pairs, tagged by host windowing system.
//!
//! A handle pair is a small owned value passed opaquely across the foreign
//! boundary and consumed by the GPU-canvas backend's constructor, which owns
//! it for the life of its surface.  Host pointers travel as plain words; the
//! embedder is responsible for their validity.

use vstd::prelude::*;

verus! {

/// The window half of a raw handle, by host windowing system.
#[derive(Clone, Copy, PartialEq, Eq, Structural, Debug)]
pub enum WindowHandleVariant {
    Win32 { hwnd: u64, hinstance: u64 },
    Xcb { window: u32, visual_id: u32 },
    Wayland { surface: u64 },
    AppKit { ns_view: u64, ns_window: u64 },
}

/// The display half of a raw handle, by host windowing system.
#[derive(Clone, Copy, PartialEq, Eq, Structural, Debug)]
pub enum DisplayHandleVariant {
    Windows,
    Xcb { connection: u64, screen: i32 },
    Wayland { display: u64 },
    AppKit,
}

/// An owned window/display handle pair of one host windowing system.
#[derive(Clone, Copy, PartialEq, Eq, Structural, Debug)]
pub struct RawHandlePair {
    pub window: WindowHandleVariant,
    pub display: DisplayHandleVariant,
}

impl RawHandlePair {
    /// A Win32 handle pair: window and instance handles.
    pub fn new_win32(hwnd: u64, hinstance: u64) -> (r: Self)
        ensures
            r.window == (WindowHandleVariant::Win32 { hwnd, hinstance }),
            r.display == DisplayHandleVariant::Windows,
    {
        RawHandlePair {
            window: WindowHandleVariant::Win32 { hwnd, hinstance },
            display: DisplayHandleVariant::Windows,
        }
    }

    /// An X-protocol handle pair: window id, visual id, connection pointer
    /// and screen index.
    pub fn new_xcb(window: u32, visual_id: u32, connection: u64, screen: i32) -> (r: Self)
        ensures
            r.window == (WindowHandleVariant::Xcb { window, visual_id }),
            r.display == (DisplayHandleVariant::Xcb { connection, screen }),
    {
        RawHandlePair {
            window: WindowHandleVariant::Xcb { window, visual_id },
            display: DisplayHandleVariant::Xcb { connection, screen },
        }
    }

    /// A Wayland handle pair: surface and display pointers.
    pub fn new_wayland(surface: u64, display: u64) -> (r: Self)
        ensures
            r.window == (WindowHandleVariant::Wayland { surface }),
            r.display == (DisplayHandleVariant::Wayland { display }),
    {
        RawHandlePair {
            window: WindowHandleVariant::Wayland { surface },
            display: DisplayHandleVariant::Wayland { display },
        }
    }

    /// A macOS handle pair: view and window pointers.
    pub fn new_appkit(ns_view: u64, ns_window: u64) -> (r: Self)
        ensures
            r.window == (WindowHandleVariant::AppKit { ns_view, ns_window }),
            r.display == DisplayHandleVariant::AppKit,
    {
        RawHandlePair {
            window: WindowHandleVariant::AppKit { ns_view, ns_window },
            display: DisplayHandleVariant::AppKit,
        }
    }

    /// The window half.
    pub fn raw_window_handle(&self) -> (r: WindowHandleVariant)
        ensures
            r == self.window,
    {
        self.window
    }

    /// The display half.
    pub fn raw_display_handle(&self) -> (r: DisplayHandleVariant)
        ensures
            r == self.display,
    {
        self.display
    }
}

} // verus!
