use vstd::prelude::*;
use crate::menus::{
    entry_shapes, menu_item, menu_separator, AppAction, EntryShape, Menu, MenuBuilder,
    MenusBuilder,
};

verus! {

/// The key bindings, in the order they are bound: on macOS the Command shortcuts first,
/// elsewhere Ctrl+W to quit, then those of every platform.
pub open spec fn key_bindings_spec(is_macos: bool) -> Seq<(&'static str, AppAction)> {
    let platform = if is_macos {
        seq![
            ("cmd-q", AppAction::Quit),
            ("cmd-right", AppAction::Next),
            ("cmd-left", AppAction::Previous),
            ("cmd-h", AppAction::HideSelf),
            ("cmd-alt-h", AppAction::HideOthers),
        ]
    } else {
        seq![("ctrl-w", AppAction::Quit)]
    };
    platform + seq![
        ("secondary-right", AppAction::Next),
        ("secondary-left", AppAction::Previous),
        ("secondary-p", AppAction::Search),
        ("secondary-f", AppAction::Search),
        ("secondary-shift-p", AppAction::OpenPalette),
        ("secondary-,", AppAction::Settings),
        ("alt-shift-s", AppAction::ForceScan),
        ("space", AppAction::PlayPause),
    ]
}

/// The key bindings of the application, in the order they are bound.
pub fn key_bindings(is_macos: bool) -> (r: Vec<(&'static str, AppAction)>)
    ensures
        r@ == key_bindings_spec(is_macos),
{
    let mut r: Vec<(&'static str, AppAction)> = Vec::new();
    if is_macos {
        r.push(("cmd-q", AppAction::Quit));
        r.push(("cmd-right", AppAction::Next));
        r.push(("cmd-left", AppAction::Previous));
        r.push(("cmd-h", AppAction::HideSelf));
        r.push(("cmd-alt-h", AppAction::HideOthers));
    } else {
        r.push(("ctrl-w", AppAction::Quit));
    }
    r.push(("secondary-right", AppAction::Next));
    r.push(("secondary-left", AppAction::Previous));
    r.push(("secondary-p", AppAction::Search));
    r.push(("secondary-f", AppAction::Search));
    r.push(("secondary-shift-p", AppAction::OpenPalette));
    r.push(("secondary-,", AppAction::Settings));
    r.push(("alt-shift-s", AppAction::ForceScan));
    r.push(("space", AppAction::PlayPause));
    proof {
        assert(r@ =~= key_bindings_spec(is_macos));
    }
    r
}

/// The menus by name and entry shapes.
pub open spec fn menus_shape(menus: Seq<Menu>) -> Seq<(&'static str, Seq<EntryShape>)> {
    menus.map_values(|m: Menu| (m.name, entry_shapes(m.items@)))
}

/// The application menu's entries: on macOS with the system's Services submenu and the
/// entries that hide and show applications.
pub open spec fn app_menu_spec(is_macos: bool) -> Seq<EntryShape> {
    if is_macos {
        seq![
            EntryShape::Action("About Hummingbird", AppAction::About),
            EntryShape::Separator,
            EntryShape::Action("Settings", AppAction::Settings),
            EntryShape::Separator,
            EntryShape::Submenu("Services", 0),
            EntryShape::Separator,
            EntryShape::Action("Hide Hummingbird", AppAction::HideSelf),
            EntryShape::Action("Hide Others", AppAction::HideOthers),
            EntryShape::Action("Show All", AppAction::ShowAll),
            EntryShape::Separator,
            EntryShape::Action("Quit Hummingbird", AppAction::Quit),
        ]
    } else {
        seq![
            EntryShape::Action("About Hummingbird", AppAction::About),
            EntryShape::Separator,
            EntryShape::Action("Settings", AppAction::Settings),
            EntryShape::Separator,
            EntryShape::Action("Quit Hummingbird", AppAction::Quit),
        ]
    }
}

/// The menus of the menu bar: the application menu, View, Library, and on macOS an empty
/// Window menu that the system fills.
pub open spec fn app_menus_spec(is_macos: bool) -> Seq<(&'static str, Seq<EntryShape>)> {
    let common = seq![
        ("Hummingbird", app_menu_spec(is_macos)),
        (
            "View",
            seq![
                EntryShape::Action("Command Palette", AppAction::OpenPalette),
                EntryShape::Action("Search", AppAction::Search),
            ],
        ),
        ("Library", seq![EntryShape::Action("Rescan Entire Library", AppAction::ForceScan)]),
    ];
    if is_macos {
        common.push(("Window", Seq::<EntryShape>::empty()))
    } else {
        common
    }
}

/// The application menu.
fn app_menu(is_macos: bool) -> (r: MenuBuilder)
    ensures
        r.name_spec() == "Hummingbird",
        !r.macos_only_spec(),
        entry_shapes(r.items_spec()) == app_menu_spec(is_macos),
{
    let services = MenuBuilder::new("Services").macos_only(true).build_item(is_macos);
    let r = MenuBuilder::new("Hummingbird").add_item(
        menu_item("About Hummingbird", AppAction::About, false, is_macos),
    ).add_item(menu_separator(false, is_macos)).add_item(
        menu_item("Settings", AppAction::Settings, false, is_macos),
    ).add_item(menu_separator(true, is_macos)).add_item(services).add_item(
        menu_separator(true, is_macos),
    ).add_item(menu_item("Hide Hummingbird", AppAction::HideSelf, true, is_macos)).add_item(
        menu_item("Hide Others", AppAction::HideOthers, true, is_macos),
    ).add_item(menu_item("Show All", AppAction::ShowAll, true, is_macos)).add_item(
        menu_separator(false, is_macos),
    ).add_item(menu_item("Quit Hummingbird", AppAction::Quit, false, is_macos));
    proof {
        assert(entry_shapes(r.items_spec()) =~= app_menu_spec(is_macos));
    }
    r
}

/// The menus of the menu bar, in order.
pub fn app_menus(is_macos: bool) -> (r: Vec<Menu>)
    ensures
        menus_shape(r@) == app_menus_spec(is_macos),
{
    let view = MenuBuilder::new("View").add_item(
        menu_item("Command Palette", AppAction::OpenPalette, false, is_macos),
    ).add_item(menu_item("Search", AppAction::Search, false, is_macos));
    let library = MenuBuilder::new("Library").add_item(
        menu_item("Rescan Entire Library", AppAction::ForceScan, false, is_macos),
    );
    let window = MenuBuilder::new("Window").macos_only(true);
    let app = app_menu(is_macos);
    let b0 = MenusBuilder::new();
    let b1 = b0.add_menu(app, is_macos);
    let b2 = b1.add_menu(view, is_macos);
    let b3 = b2.add_menu(library, is_macos);
    let b4 = b3.add_menu(window, is_macos);
    let r = b4.into_menus();
    proof {
        assert(entry_shapes(b2.menus_spec()[1].items@) =~= seq![
            EntryShape::Action("Command Palette", AppAction::OpenPalette),
            EntryShape::Action("Search", AppAction::Search),
        ]);
        assert(entry_shapes(b3.menus_spec()[2].items@) =~= seq![
            EntryShape::Action("Rescan Entire Library", AppAction::ForceScan),
        ]);
        assert(r@[0] == b1.menus_spec()[0]);
        assert(r@[1] == b2.menus_spec()[1]);
        assert(r@[2] == b3.menus_spec()[2]);
        if is_macos {
            assert(entry_shapes(r@[3].items@) =~= Seq::<EntryShape>::empty());
        }
        assert(menus_shape(r@) =~= app_menus_spec(is_macos));
    }
    r
}

/// The keyboard actions of an open dropdown.
#[derive(Clone, Copy, Debug, PartialEq, Eq, Structural)]
pub enum DropdownAction {
    Close,
    SelectNext,
    SelectPrev,
    Confirm,
    SelectFirst,
    SelectLast,
}

pub open spec fn dropdown_key_bindings_spec() -> Seq<(&'static str, DropdownAction)> {
    seq![
        ("escape", DropdownAction::Close),
        ("down", DropdownAction::SelectNext),
        ("up", DropdownAction::SelectPrev),
        ("tab", DropdownAction::SelectNext),
        ("shift-tab", DropdownAction::SelectPrev),
        ("enter", DropdownAction::Confirm),
        ("space", DropdownAction::Confirm),
        ("home", DropdownAction::SelectFirst),
        ("end", DropdownAction::SelectLast),
    ]
}

/// The keys of an open dropdown.
pub fn dropdown_key_bindings() -> (r: Vec<(&'static str, DropdownAction)>)
    ensures
        r@ == dropdown_key_bindings_spec(),
{
    let r = vec![
        ("escape", DropdownAction::Close),
        ("down", DropdownAction::SelectNext),
        ("up", DropdownAction::SelectPrev),
        ("tab", DropdownAction::SelectNext),
        ("shift-tab", DropdownAction::SelectPrev),
        ("enter", DropdownAction::Confirm),
        ("space", DropdownAction::Confirm),
        ("home", DropdownAction::SelectFirst),
        ("end", DropdownAction::SelectLast),
    ];
    proof {
        assert(r@ =~= dropdown_key_bindings_spec());
    }
    r
}

/// Moving through the library's history.
#[derive(Clone, Copy, Debug, PartialEq, Eq, Structural)]
pub enum LibraryAction {
    NavigateBack,
    NavigateForward,
}

pub open spec fn library_key_bindings_spec() -> Seq<(&'static str, LibraryAction)> {
    seq![
        ("backspace", LibraryAction::NavigateBack),
        ("alt-left", LibraryAction::NavigateBack),
        ("alt-right", LibraryAction::NavigateForward),
    ]
}

/// The keys that move through the history while the library has the focus.
pub fn library_key_bindings() -> (r: Vec<(&'static str, LibraryAction)>)
    ensures
        r@ == library_key_bindings_spec(),
{
    let r = vec![
        ("backspace", LibraryAction::NavigateBack),
        ("alt-left", LibraryAction::NavigateBack),
        ("alt-right", LibraryAction::NavigateForward),
    ];
    proof {
        assert(r@ =~= library_key_bindings_spec());
    }
    r
}

} // verus!
