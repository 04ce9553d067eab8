use hummingbird::command_palette::{accept_command, command_palette, default_commands, keystroke_label, Command};
use hummingbird::global_actions::{
    app_menus, dropdown_key_bindings, key_bindings, library_key_bindings, DropdownAction, LibraryAction,
};
use hummingbird::menus::{menu_item, menu_separator, AppAction, Menu, MenuBuilder, MenuItem, MenusBuilder};
use hummingbird::search::FinderItemLeft;

fn shape(menu: &Menu) -> Vec<String> {
    menu.items
        .iter()
        .map(|item| match item {
            MenuItem::Action { label, .. } => label.to_string(),
            MenuItem::Separator => "-".to_string(),
            MenuItem::Submenu { name, items } => format!("{}>{}", name, items.len()),
        })
        .collect()
}

#[test]
fn key_bindings_elsewhere_quit_with_ctrl_w() {
    let bindings = key_bindings(false);
    assert_eq!(bindings[0], ("ctrl-w", AppAction::Quit));
    assert_eq!(bindings.len(), 9);
    assert_eq!(bindings[8], ("space", AppAction::PlayPause));
    assert!(bindings.contains(&("secondary-shift-p", AppAction::OpenPalette)));
}

#[test]
fn key_bindings_on_macos_use_command() {
    let bindings = key_bindings(true);
    assert_eq!(bindings.len(), 13);
    assert_eq!(bindings[0], ("cmd-q", AppAction::Quit));
    assert_eq!(bindings[4], ("cmd-alt-h", AppAction::HideOthers));
    assert!(!bindings.contains(&("ctrl-w", AppAction::Quit)));
}

#[test]
fn menus_elsewhere_leave_out_macos_entries() {
    let menus = app_menus(false);
    let names: Vec<&str> = menus.iter().map(|m| m.name).collect();
    assert_eq!(names, vec!["Hummingbird", "View", "Library"]);
    assert_eq!(shape(&menus[0]), vec!["About Hummingbird", "-", "Settings", "-", "Quit Hummingbird"]);
    assert_eq!(shape(&menus[1]), vec!["Command Palette", "Search"]);
    assert_eq!(shape(&menus[2]), vec!["Rescan Entire Library"]);
}

#[test]
fn menus_on_macos_have_services_and_window() {
    let menus = app_menus(true);
    let names: Vec<&str> = menus.iter().map(|m| m.name).collect();
    assert_eq!(names, vec!["Hummingbird", "View", "Library", "Window"]);
    assert_eq!(
        shape(&menus[0]),
        vec![
            "About Hummingbird", "-", "Settings", "-", "Services>0", "-", "Hide Hummingbird",
            "Hide Others", "Show All", "-", "Quit Hummingbird"
        ]
    );
    assert!(menus[3].items.is_empty());
}

#[test]
fn macos_only_items_and_menus_are_dropped_elsewhere() {
    assert!(menu_item("Hide", AppAction::HideSelf, true, false).is_none());
    assert!(menu_separator(true, false).is_none());
    assert!(matches!(menu_separator(true, true), Some(MenuItem::Separator)));
    let built = MenusBuilder::new()
        .add_menu(MenuBuilder::new("Window").macos_only(true), false)
        .add_menu(MenuBuilder::new("View"), false)
        .into_menus();
    assert_eq!(built.len(), 1);
    assert_eq!(built[0].name, "View");
    assert!(MenuBuilder::new("Services").macos_only(true).build_item(false).is_none());
}

#[test]
fn the_palette_offers_seven_commands() {
    let commands = default_commands();
    assert_eq!(commands.len(), 7);
    assert_eq!(commands[3].name, "Pause/Resume Current Track");
    assert_eq!(commands[6].action, AppAction::ForceScan);
    assert!(matches!(commands[0].left_content(), Some(FinderItemLeft::Text(t)) if t == "Hummingbird"));
    assert!(Command::new(None, "x", AppAction::Quit).left_content().is_none());
    assert_eq!(commands[4].middle_content(), "Next Track");
}

#[test]
fn accepting_a_command_gives_its_action() {
    let mut palette = command_palette();
    palette.set_query("rescan".to_string());
    for _ in 0..500 {
        palette.poll();
        if palette.matches().len() == 1 {
            break;
        }
    }
    assert_eq!(accept_command(&palette), Some(AppAction::ForceScan));
}

#[test]
fn keystrokes_are_joined_with_plus() {
    assert_eq!(keystroke_label(&vec![]), "");
    assert_eq!(keystroke_label(&vec!["cmd-q".to_string()]), "cmd-q");
    assert_eq!(keystroke_label(&vec!["ctrl-k".to_string(), "ctrl-s".to_string()]), "ctrl-k + ctrl-s");
}

#[test]
fn dropdown_and_library_keys() {
    let d = dropdown_key_bindings();
    assert_eq!(d.len(), 9);
    assert_eq!(d[0], ("escape", DropdownAction::Close));
    assert_eq!(d[4], ("shift-tab", DropdownAction::SelectPrev));
    assert_eq!(d[8], ("end", DropdownAction::SelectLast));
    assert_eq!(
        library_key_bindings(),
        vec![
            ("backspace", LibraryAction::NavigateBack),
            ("alt-left", LibraryAction::NavigateBack),
            ("alt-right", LibraryAction::NavigateForward)
        ]
    );
}
