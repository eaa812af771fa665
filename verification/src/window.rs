//! What is asked of the window system at start-up.

use crate::settings::{Settings, SettingsView};
use vstd::prelude::*;

verus! {

/// A window request as plain values.
pub struct WindowRequestView {
    pub title: Seq<char>,
    pub width: u32,
    pub height: u32,
    pub vsync: bool,
    pub newest_api: bool,
}

/// The window to open and the graphics context to bind to it. The context comes back
/// current on no thread: the render thread makes it current, and no other thread ever does.
#[derive(Debug)]
pub struct WindowRequest {
    /// The window's title.
    pub title: String,
    /// The inner width, in logical pixels.
    pub width: u32,
    /// The inner height, in logical pixels.
    pub height: u32,
    /// Whether presenting a frame waits for the display.
    pub vsync: bool,
    /// Whether the newest version of the graphics interface that is to be had is asked for.
    pub newest_api: bool,
}

/// The request that the given settings call for.
pub open spec fn request_for(settings: SettingsView) -> WindowRequestView {
    WindowRequestView {
        title: settings.title,
        width: settings.width,
        height: settings.height,
        vsync: settings.vsync,
        newest_api: true,
    }
}

impl View for WindowRequest {
    type V = WindowRequestView;

    open spec fn view(&self) -> WindowRequestView {
        WindowRequestView {
            title: self.title@,
            width: self.width,
            height: self.height,
            vsync: self.vsync,
            newest_api: self.newest_api,
        }
    }
}

impl WindowRequest {
    /// The request that the settings call for: their title, their size as the logical size
    /// of the window, their vertical sync, and the newest version of the graphics
    /// interface.
    pub fn from_settings(settings: &Settings) -> (request: WindowRequest)
        ensures
            request@ == request_for(settings@),
    {
        WindowRequest {
            title: settings.get_title().clone(),
            width: settings.get_width(),
            height: settings.get_height(),
            vsync: settings.get_vsync(),
            newest_api: true,
        }
    }
}

} // verus!
