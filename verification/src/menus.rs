use vstd::prelude::*;

verus! {

/// The application-wide actions that menus, key bindings and the command palette trigger.
#[derive(Clone, Copy, Debug, PartialEq, Eq, Structural)]
pub enum AppAction {
    Quit,
    About,
    Search,
    Settings,
    PlayPause,
    Next,
    Previous,
    ForceScan,
    HideSelf,
    HideOthers,
    ShowAll,
    OpenPalette,
}

/// An entry of an application menu.
#[derive(Debug)]
pub enum MenuItem {
    Action { label: &'static str, action: AppAction },
    Separator,
    Submenu { name: &'static str, items: Vec<MenuItem> },
}

/// An application menu: its name and entries.
#[derive(Debug)]
pub struct Menu {
    pub name: &'static str,
    pub items: Vec<MenuItem>,
}

/// What a menu entry is, with a submenu taken by its name and its number of entries.
pub enum EntryShape {
    Action(&'static str, AppAction),
    Separator,
    Submenu(&'static str, nat),
}

pub open spec fn entry_shape(item: MenuItem) -> EntryShape {
    match item {
        MenuItem::Action { label, action } => EntryShape::Action(label, action),
        MenuItem::Separator => EntryShape::Separator,
        MenuItem::Submenu { name, items } => EntryShape::Submenu(name, items@.len()),
    }
}

/// The shapes of a menu's entries, in order.
pub open spec fn entry_shapes(items: Seq<MenuItem>) -> Seq<EntryShape> {
    items.map_values(|i: MenuItem| entry_shape(i))
}

/// Whether an entry marked macOS-only is included on this platform.
pub open spec fn included(macos_only: bool, is_macos: bool) -> bool {
    !macos_only || is_macos
}

/// Builds one application menu: a name and its entries. A menu marked macOS-only is left out
/// elsewhere.
pub struct MenuBuilder {
    name: &'static str,
    items: Vec<MenuItem>,
    macos_only: bool,
}

impl MenuBuilder {
    pub closed spec fn name_spec(&self) -> &'static str {
        self.name
    }

    pub closed spec fn items_spec(&self) -> Seq<MenuItem> {
        self.items@
    }

    pub closed spec fn macos_only_spec(&self) -> bool {
        self.macos_only
    }

    pub fn new(name: &'static str) -> (r: Self)
        ensures
            r.name_spec() == name,
            r.items_spec() == Seq::<MenuItem>::empty(),
            !r.macos_only_spec(),
    {
        Self { name, items: Vec::new(), macos_only: false }
    }

    pub fn macos_only(self, macos_only: bool) -> (r: Self)
        ensures
            r.name_spec() == self.name_spec(),
            r.items_spec() == self.items_spec(),
            r.macos_only_spec() == macos_only,
    {
        let mut this = self;
        this.macos_only = macos_only;
        this
    }

    /// Adds an entry, unless it was left out (`None`).
    pub fn add_item(self, item: Option<MenuItem>) -> (r: Self)
        ensures
            r.name_spec() == self.name_spec(),
            r.macos_only_spec() == self.macos_only_spec(),
            r.items_spec() == match item {
                Some(i) => self.items_spec().push(i),
                None => self.items_spec(),
            },
    {
        let mut this = self;
        if let Some(i) = item {
            this.items.push(i);
        }
        this
    }

    /// The menu, unless it is macOS-only and this is not macOS.
    pub fn build(self, is_macos: bool) -> (r: Option<Menu>)
        ensures
            included(self.macos_only_spec(), is_macos) ==> (r matches Some(m) && m.name
                == self.name_spec() && m.items@ == self.items_spec()),
            !included(self.macos_only_spec(), is_macos) ==> r is None,
    {
        if self.macos_only && !is_macos {
            return None;
        }
        Some(Menu { name: self.name, items: self.items })
    }

    /// The menu as a submenu entry of another, unless it is macOS-only and this is not macOS.
    pub fn build_item(self, is_macos: bool) -> (r: Option<MenuItem>)
        ensures
            included(self.macos_only_spec(), is_macos) ==> (r matches Some(
                MenuItem::Submenu { name, items },
            ) && name == self.name_spec() && items@ == self.items_spec()),
            !included(self.macos_only_spec(), is_macos) ==> r is None,
    {
        match self.build(is_macos) {
            Some(menu) => Some(MenuItem::Submenu { name: menu.name, items: menu.items }),
            None => None,
        }
    }
}

/// The application's menus, in order.
pub struct MenusBuilder {
    menus: Vec<Menu>,
}

impl MenusBuilder {
    pub closed spec fn menus_spec(&self) -> Seq<Menu> {
        self.menus@
    }

    pub fn new() -> (r: Self)
        ensures
            r.menus_spec().len() == 0,
    {
        Self { menus: Vec::new() }
    }

    /// Adds a menu, unless it is left out on this platform.
    pub fn add_menu(self, builder: MenuBuilder, is_macos: bool) -> (r: Self)
        ensures
            included(builder.macos_only_spec(), is_macos) ==> r.menus_spec().len()
                == self.menus_spec().len() + 1 && r.menus_spec().last().name == builder.name_spec()
                && r.menus_spec().last().items@ == builder.items_spec(),
            !included(builder.macos_only_spec(), is_macos) ==> r.menus_spec()
                == self.menus_spec(),
            forall|i: int|
                0 <= i < self.menus_spec().len() ==> r.menus_spec()[i] == self.menus_spec()[i],
    {
        let mut this = self;
        if let Some(menu) = builder.build(is_macos) {
            this.menus.push(menu);
        }
        this
    }

    /// The menus, to hand to the application.
    pub fn into_menus(self) -> (r: Vec<Menu>)
        ensures
            r@ == self.menus_spec(),
    {
        self.menus
    }
}

/// A menu entry that triggers `action`, unless it is macOS-only and this is not macOS.
pub fn menu_item(label: &'static str, action: AppAction, macos_only: bool, is_macos: bool) -> (r:
    Option<MenuItem>)
    ensures
        included(macos_only, is_macos) ==> r == Some(MenuItem::Action { label, action }),
        !included(macos_only, is_macos) ==> r is None,
{
    if macos_only && !is_macos {
        return None;
    }
    Some(MenuItem::Action { label, action })
}

/// A separator, unless it is macOS-only and this is not macOS.
pub fn menu_separator(macos_only: bool, is_macos: bool) -> (r: Option<MenuItem>)
    ensures
        included(macos_only, is_macos) ==> r == Some(MenuItem::Separator),
        !included(macos_only, is_macos) ==> r is None,
{
    if macos_only && !is_macos {
        return None;
    }
    Some(MenuItem::Separator)
}

} // verus!
