//! Window configuration, and what a window is created with.

use crate::logger::{ErrorModel, IdioError};
use vstd::prelude::*;
use vstd::string::*;

verus! {

/// How a window occupies the screen.
#[derive(Clone, Copy, Debug, PartialEq, Eq, Structural)]
pub enum ScreenMode {
    /// An ordinary window on the desktop.
    Normal,
    /// The window covers its monitor without changing the video mode.
    BorderlessFullscr,
    /// The window takes the monitor over in a video mode of its own.
    ExclusiveFullscr,
}

/// What the caller asks of the main window.
#[derive(Clone, Copy, Debug)]
pub struct WindowConfig {
    /// No title bar and no frame.
    pub borderless: bool,
    /// The user may resize the window between `size_min` and `size_max`. A
    /// window whose size is fixed cannot be resized, whatever this says.
    pub allow_resize: bool,
    /// The smallest size of the window, width then height.
    pub size_min: (u32, u32),
    /// The largest size of the window; `(0, 0)` fixes the window at `size_min`.
    pub size_max: (u32, u32),
    pub title: &'static str,
    pub screen_mode: ScreenMode,
}

/// The fullscreen mode a window is created in.
#[derive(Clone, Copy, Debug, PartialEq, Eq, Structural)]
pub enum Fullscreen {
    /// Borderless, on the monitor the window system picks.
    Borderless,
    /// Exclusive, in the first video mode of the first monitor.
    Exclusive,
}

/// What the window system is asked for when the window is created. A size
/// that is `None` is left to the window system.
#[derive(Clone, Copy, Debug)]
pub struct WindowAttributes {
    pub title: &'static str,
    pub decorations: bool,
    pub resizable: bool,
    pub fullscreen: Option<Fullscreen>,
    /// The size the window opens with.
    pub inner_size: Option<(u32, u32)>,
    /// The lower bound the window system enforces on the size.
    pub min_inner_size: Option<(u32, u32)>,
    /// The upper bound the window system enforces on the size.
    pub max_inner_size: Option<(u32, u32)>,
}

/// The words for a system that has no video mode to offer.
pub open spec fn no_video_mode_text() -> Seq<char> {
    "No monitor with a video mode to go fullscreen on"@
}

impl WindowAttributes {
    /// Whether a video mode has to be found before the window is created:
    /// only exclusive fullscreen needs one.
    pub fn needs_video_mode(&self) -> (needed: bool)
        ensures
            needed == (self.fullscreen == Some(Fullscreen::Exclusive)),
    {
        match self.fullscreen {
            Some(Fullscreen::Exclusive) => true,
            _ => false,
        }
    }

    /// The error of a window that needs a video mode on a system that has
    /// none: a platform error.
    pub fn no_video_mode() -> (error: IdioError)
        ensures
            error@ == ErrorModel::Platform(no_video_mode_text()),
    {
        IdioError::PlatformError(String::from_str("No monitor with a video mode to go fullscreen on"))
    }
}

impl WindowConfig {
    /// Whether the configuration fixes the window at `size_min`.
    pub open spec fn fixed_size(self) -> bool {
        self.size_max == (0u32, 0u32)
    }

    /// The attributes that the configuration stands for. A fixed-size
    /// configuration opens the window at `size_min`, sets no bounds and does
    /// not let the user resize it, so that the window stays of exactly that
    /// size. Any other sets both bounds, leaves the opening size open, and
    /// lets the user resize the window where `allow_resize` says so.
    pub open spec fn to_attributes(self) -> WindowAttributes {
        WindowAttributes {
            title: self.title,
            decorations: !self.borderless,
            resizable: self.allow_resize && !self.fixed_size(),
            fullscreen: match self.screen_mode {
                ScreenMode::Normal => None,
                ScreenMode::BorderlessFullscr => Some(Fullscreen::Borderless),
                ScreenMode::ExclusiveFullscr => Some(Fullscreen::Exclusive),
            },
            inner_size: if self.fixed_size() {
                Some(self.size_min)
            } else {
                None
            },
            min_inner_size: if self.fixed_size() {
                None
            } else {
                Some(self.size_min)
            },
            max_inner_size: if self.fixed_size() {
                None
            } else {
                Some(self.size_max)
            },
        }
    }

    /// The attributes to create the window with.
    pub fn attributes(&self) -> (attrs: WindowAttributes)
        ensures
            attrs == self.to_attributes(),
    {
        let fullscreen = match self.screen_mode {
            ScreenMode::Normal => None,
            ScreenMode::BorderlessFullscr => Some(Fullscreen::Borderless),
            ScreenMode::ExclusiveFullscr => Some(Fullscreen::Exclusive),
        };
        let fixed = self.size_max.0 == 0 && self.size_max.1 == 0;
        WindowAttributes {
            title: self.title,
            decorations: !self.borderless,
            resizable: self.allow_resize && !fixed,
            fullscreen,
            inner_size: if fixed {
                Some(self.size_min)
            } else {
                None
            },
            min_inner_size: if fixed {
                None
            } else {
                Some(self.size_min)
            },
            max_inner_size: if fixed {
                None
            } else {
                Some(self.size_max)
            },
        }
    }
}

/// A configuration whose maximum size is `(0, 0)` stands for a window of
/// exactly its minimum size: it opens at that size, no bounds are set on it,
/// and the user cannot resize it, whether or not resizing is allowed.
pub proof fn law_fixed_size_window(cfg: WindowConfig)
    requires
        cfg.size_max == (0u32, 0u32),
    ensures
        cfg.to_attributes().inner_size == Some(cfg.size_min),
        cfg.to_attributes().min_inner_size is None,
        cfg.to_attributes().max_inner_size is None,
        !cfg.to_attributes().resizable,
{
}

impl Default for WindowConfig {
    /// A borderless window of 1280 by 720, fixed at that size, titled "Idiot",
    /// not fullscreen. It allows resizing, which takes effect once a maximum
    /// size is given.
    fn default() -> (cfg: Self)
        ensures
            cfg.borderless,
            cfg.allow_resize,
            cfg.size_min == (1280u32, 720u32),
            cfg.size_max == (0u32, 0u32),
            cfg.title@ == "Idiot"@,
            cfg.screen_mode == ScreenMode::Normal,
    {
        Self {
            borderless: true,
            allow_resize: true,
            size_min: (1280, 720),
            size_max: (0, 0),
            title: "Idiot",
            screen_mode: ScreenMode::Normal,
        }
    }
}

/// The identity of a window: a token that is unique per window and compared by
/// value.
#[derive(Clone, Copy, Debug, PartialEq, Eq, Structural)]
pub struct WindowId {
    pub raw: u64,
}

/// A window of the program, known by its identity.
#[derive(Clone, Copy, Debug, PartialEq, Eq, Structural)]
pub struct Window {
    pub id: WindowId,
}

impl Window {
    /// The window that the window system reported: its identity where the
    /// window was created, a platform error with the system's words where it
    /// was not.
    pub fn new(built: Result<WindowId, String>) -> (window: Result<Window, IdioError>)
        ensures
            match built {
                Ok(id) => window == Ok::<Window, IdioError>(Window { id }),
                Err(reason) => window == Err::<Window, IdioError>(IdioError::PlatformError(reason)),
            },
    {
        match built {
            Ok(id) => Ok(Window { id }),
            Err(reason) => Err(IdioError::PlatformError(reason)),
        }
    }
}

} // verus!
