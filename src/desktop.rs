//! Window bookkeeping of the desktop: which windows exist, in creation order, and
//! which one is active. Drawing them is left to the display driver.
use vstd::prelude::*;

verus! {

#[derive(Debug, Clone, Copy, PartialEq, Eq, Structural)]
pub enum Color {
    Black,
    Magenta,
    LightMagenta,
    LightCyan,
    DarkGray,
    LightGray,
    White,
    Rgb(u8, u8, u8),
}

impl Color {
    pub fn from_rgb(r: u8, g: u8, b: u8) -> (c: Color)
        ensures
            c == Color::Rgb(r, g, b),
    {
        Color::Rgb(r, g, b)
    }
}

#[derive(Debug, Clone, Copy, PartialEq, Eq, Structural)]
pub struct Theme {
    pub background: Color,
    pub foreground: Color,
    pub accent: Color,
    pub window_active_bg: Color,
    pub window_active_fg: Color,
    pub window_inactive_bg: Color,
    pub window_inactive_fg: Color,
    pub button_bg: Color,
    pub button_fg: Color,
}

pub open spec fn islamic_dark_theme() -> Theme {
    Theme {
        background: Color::Black,
        foreground: Color::LightMagenta,
        accent: Color::Magenta,
        window_active_bg: Color::Black,
        window_active_fg: Color::LightMagenta,
        window_inactive_bg: Color::DarkGray,
        window_inactive_fg: Color::LightGray,
        button_bg: Color::Magenta,
        button_fg: Color::White,
    }
}

pub open spec fn purple_dark_theme() -> Theme {
    Theme {
        background: Color::Black,
        foreground: Color::LightCyan,
        accent: Color::LightMagenta,
        window_active_bg: Color::Rgb(30, 0, 50),
        window_active_fg: Color::LightMagenta,
        window_inactive_bg: Color::Rgb(20, 0, 30),
        window_inactive_fg: Color::LightGray,
        button_bg: Color::Rgb(100, 0, 150),
        button_fg: Color::White,
    }
}

impl Theme {
    /// Light magenta on black with grey inactive windows.
    pub fn islamic_dark() -> (t: Self)
        ensures
            t == islamic_dark_theme(),
    {
        Theme {
            background: Color::Black,
            foreground: Color::LightMagenta,
            accent: Color::Magenta,
            window_active_bg: Color::Black,
            window_active_fg: Color::LightMagenta,
            window_inactive_bg: Color::DarkGray,
            window_inactive_fg: Color::LightGray,
            button_bg: Color::Magenta,
            button_fg: Color::White,
        }
    }

    /// Light cyan on black with deep purple windows.
    pub fn purple_dark() -> (t: Self)
        ensures
            t == purple_dark_theme(),
    {
        Theme {
            background: Color::Black,
            foreground: Color::LightCyan,
            accent: Color::LightMagenta,
            window_active_bg: Color::from_rgb(30, 0, 50),
            window_active_fg: Color::LightMagenta,
            window_inactive_bg: Color::from_rgb(20, 0, 30),
            window_inactive_fg: Color::LightGray,
            button_bg: Color::from_rgb(100, 0, 150),
            button_fg: Color::White,
        }
    }
}

#[derive(Debug, Clone, Copy, PartialEq, Eq, Structural)]
pub enum BackgroundPattern {
    Solid,
    Gradient,
    Islamic,
}

#[derive(Debug, Clone, Copy, PartialEq, Eq, Structural)]
pub struct Background {
    pub pattern: BackgroundPattern,
    pub color: Color,
}

impl Background {
    /// A solid black desktop.
    pub fn plain() -> (b: Self)
        ensures
            b.pattern == BackgroundPattern::Solid,
            b.color == Color::Black,
    {
        Background { pattern: BackgroundPattern::Solid, color: Color::Black }
    }
}

/// Index of a window in its manager.
#[derive(Debug, Clone, Copy, PartialEq, Eq, Structural)]
pub struct WindowHandle(pub usize);

#[derive(Debug)]
pub struct Window {
    pub title: String,
    pub x: u32,
    pub y: u32,
    pub width: u32,
    pub height: u32,
    pub is_minimized: bool,
    pub is_maximized: bool,
}

impl Window {
    /// A restored window with the given title and geometry.
    pub fn new(title: &str, x: u32, y: u32, width: u32, height: u32) -> (w: Self)
        ensures
            w.title@ == title@,
            w.x == x && w.y == y && w.width == width && w.height == height,
            !w.is_minimized && !w.is_maximized,
    {
        Window { title: title.to_string(), x, y, width, height, is_minimized: false, is_maximized: false }
    }
}

pub struct WindowManager {
    windows: Vec<Window>,
    active_window: Option<usize>,
    theme: Theme,
    desktop_background: Background,
}

impl WindowManager {
    pub closed spec fn windows(&self) -> Seq<Window> {
        self.windows@
    }

    pub closed spec fn active(&self) -> Option<usize> {
        self.active_window
    }

    pub closed spec fn theme_spec(&self) -> Theme {
        self.theme
    }

    pub closed spec fn background(&self) -> Background {
        self.desktop_background
    }

    /// An empty desktop in the dark theme on a plain background.
    pub fn new() -> (r: Self)
        ensures
            r.windows().len() == 0,
            r.active() is None,
            r.theme_spec() == islamic_dark_theme(),
            r.background().pattern == BackgroundPattern::Solid,
            r.background().color == Color::Black,
    {
        WindowManager {
            windows: Vec::new(),
            active_window: None,
            theme: Theme::islamic_dark(),
            desktop_background: Background::plain(),
        }
    }

    /// Opens a window on top of the others and makes it active; its handle is its index.
    pub fn create_window(&mut self, title: &str, x: u32, y: u32, width: u32, height: u32) -> (h:
        WindowHandle)
        ensures
            h.0 == old(self).windows().len(),
            final(self).windows().len() == old(self).windows().len() + 1,
            final(self).windows().subrange(0, h.0 as int) == old(self).windows(),
            final(self).windows()[h.0 as int].title@ == title@,
            final(self).windows()[h.0 as int].width == width,
            final(self).windows()[h.0 as int].height == height,
            final(self).windows()[h.0 as int].x == x,
            final(self).windows()[h.0 as int].y == y,
            !final(self).windows()[h.0 as int].is_minimized,
            !final(self).windows()[h.0 as int].is_maximized,
            final(self).background() == old(self).background(),
            final(self).active() == Some(h.0),
            final(self).theme_spec() == old(self).theme_spec(),
    {
        let window = Window::new(title, x, y, width, height);
        let handle = self.windows.len();
        self.windows.push(window);
        self.active_window = Some(handle);
        assert(self.windows@.subrange(0, handle as int) =~= old(self).windows@);
        WindowHandle(handle)
    }

    pub fn active_window(&self) -> (r: Option<usize>)
        ensures
            r == self.active(),
    {
        self.active_window
    }

    pub fn window_count(&self) -> (r: usize)
        ensures
            r == self.windows().len(),
    {
        self.windows.len()
    }

    pub fn theme(&self) -> (r: Theme)
        ensures
            r == self.theme_spec(),
    {
        self.theme
    }
}

} // verus!
