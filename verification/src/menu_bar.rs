use vstd::prelude::*;

verus! {

/// Which top-level menu of the in-window menu bar is open.
pub struct MenuBar {
    open_menu: Option<usize>,
}

impl MenuBar {
    pub closed spec fn open_spec(&self) -> Option<usize> {
        self.open_menu
    }

    /// A menu bar with all menus closed.
    pub fn new() -> (r: Self)
        ensures
            r.open_spec() is None,
    {
        Self { open_menu: None }
    }

    pub fn open_menu(&self) -> (r: Option<usize>)
        ensures
            r == self.open_spec(),
    {
        self.open_menu
    }

    /// Clicking a menu's button opens it, or closes it when it is the open one.
    pub fn click(&mut self, index: usize)
        ensures
            final(self).open_spec() == if old(self).open_spec() == Some(index) {
                None
            } else {
                Some(index)
            },
    {
        if self.open_menu == Some(index) {
            self.open_menu = None;
        } else {
            self.open_menu = Some(index);
        }
    }

    /// Moving the pointer over a menu's button switches to that menu while another is open.
    pub fn hover(&mut self, index: usize)
        ensures
            final(self).open_spec() == if old(self).open_spec() is Some {
                Some(index)
            } else {
                None
            },
    {
        if self.open_menu.is_some() && self.open_menu != Some(index) {
            self.open_menu = Some(index);
        }
    }

    /// Choosing an item, or clicking outside, closes the open menu.
    pub fn close(&mut self)
        ensures
            final(self).open_spec() is None,
    {
        self.open_menu = None;
    }
}

/// Clicking a menu's button twice leaves the menu bar as it was when that menu was closed
/// or open, and hovering never opens a menu on its own.
pub proof fn click_twice_restores(open: Option<usize>, index: usize)
    ensures
        ({
            let once = if open == Some(index) {
                None
            } else {
                Some(index)
            };
            let twice = if once == Some(index) {
                None
            } else {
                Some(index)
            };
            (open is None || open == Some(index)) ==> twice == open
        }),
{
}

/// A button of a window's title bar.
#[derive(Clone, Copy, Debug, PartialEq, Eq, Structural)]
pub enum WindowButton {
    Close,
    Minimize,
    Maximize,
}

/// What a title-bar button does to the window.
#[derive(Clone, Copy, Debug, PartialEq, Eq, Structural)]
pub enum WindowCommand {
    Close,
    Minimize,
    Zoom,
}

pub fn window_button_command(button: WindowButton) -> (r: WindowCommand)
    ensures
        r == match button {
            WindowButton::Close => WindowCommand::Close,
            WindowButton::Minimize => WindowCommand::Minimize,
            WindowButton::Maximize => WindowCommand::Zoom,
        },
{
    match button {
        WindowButton::Close => WindowCommand::Close,
        WindowButton::Minimize => WindowCommand::Minimize,
        WindowButton::Maximize => WindowCommand::Zoom,
    }
}

/// Whether a title-bar button uses the close colours.
pub fn uses_close_colors(button: WindowButton) -> (r: bool)
    ensures
        r == (button is Close),
{
    match button {
        WindowButton::Close => true,
        _ => false,
    }
}

/// A press on the title bar starts moving the window, unless it is the second of a double
/// click, which zooms the window instead.
pub fn title_bar_press_moves(click_count: usize) -> (r: bool)
    ensures
        r == (click_count != 2),
{
    click_count != 2
}

} // verus!
