use vstd::prelude::*;
use crate::finder::{injected, matched_text, FuzzyFinder};
use crate::menus::AppAction;
use crate::search::FinderItemLeft;
use crate::text::push_str;

verus! {

/// An entry of the command palette: the group it is shown under, its name, and the action it
/// triggers.
#[derive(Clone, Copy, Debug, PartialEq)]
pub struct Command {
    pub category: Option<&'static str>,
    pub name: &'static str,
    pub action: AppAction,
}

impl Command {
    pub fn new(category: Option<&'static str>, name: &'static str, action: AppAction) -> (r: Self)
        ensures
            r == (Command { category, name, action }),
    {
        Command { category, name, action }
    }

    /// The palette row shows the command's group on its left.
    pub fn left_content(&self) -> (r: Option<FinderItemLeft>)
        ensures
            match self.category {
                Some(c) => r matches Some(FinderItemLeft::Text(t)) && t@ == c@,
                None => r is None,
            },
    {
        match self.category {
            Some(c) => {
                let mut t = String::new();
                push_str(&mut t, c);
                Some(FinderItemLeft::Text(t))
            },
            None => None,
        }
    }

    /// The name in the middle.
    pub fn middle_content(&self) -> (r: &'static str)
        ensures
            r == self.name,
    {
        self.name
    }
}

/// The commands the palette offers.
pub open spec fn default_commands_spec() -> Seq<Command> {
    seq![
        Command { category: Some("Hummingbird"), name: "Quit", action: AppAction::Quit },
        Command { category: Some("Hummingbird"), name: "About", action: AppAction::About },
        Command { category: Some("Hummingbird"), name: "Search", action: AppAction::Search },
        Command {
            category: Some("Playback"),
            name: "Pause/Resume Current Track",
            action: AppAction::PlayPause,
        },
        Command { category: Some("Playback"), name: "Next Track", action: AppAction::Next },
        Command {
            category: Some("Playback"),
            name: "Previous Track",
            action: AppAction::Previous,
        },
        Command {
            category: Some("Scan"),
            name: "Rescan Entire Library",
            action: AppAction::ForceScan,
        },
    ]
}

/// The commands the palette offers.
pub fn default_commands() -> (r: Vec<Command>)
    ensures
        r@ == default_commands_spec(),
{
    let mut r: Vec<Command> = Vec::new();
    r.push(Command::new(Some("Hummingbird"), "Quit", AppAction::Quit));
    r.push(Command::new(Some("Hummingbird"), "About", AppAction::About));
    r.push(Command::new(Some("Hummingbird"), "Search", AppAction::Search));
    r.push(Command::new(Some("Playback"), "Pause/Resume Current Track", AppAction::PlayPause));
    r.push(Command::new(Some("Playback"), "Next Track", AppAction::Next));
    r.push(Command::new(Some("Playback"), "Previous Track", AppAction::Previous));
    r.push(Command::new(Some("Scan"), "Rescan Entire Library", AppAction::ForceScan));
    proof {
        assert(r@ =~= default_commands_spec());
    }
    r
}

/// What the command palette injects: each command's number with the matcher's form of its
/// name.
pub open spec fn command_entries(commands: Seq<Command>) -> Seq<(u64, Seq<char>)> {
    Seq::new(commands.len(), |k: int| (k as u64, matched_text(commands[k].name@)))
}

/// The command palette's finder over the commands, each matched by its name.
pub fn command_palette() -> (r: FuzzyFinder<Command>)
    ensures
        r.wf(),
        r.items_seq() == default_commands_spec(),
        r.query_seq() == Seq::<char>::empty(),
        r.base_number() == 0,
        r.listed() == Seq::<u64>::empty(),
        r.selected() == 0,
        injected(r.matcher_state()) == command_entries(default_commands_spec()),
{
    let commands = default_commands();
    let mut texts: Vec<String> = Vec::new();
    let mut i: usize = 0;
    while i < commands.len()
        invariant
            commands@ == default_commands_spec(),
            i <= commands@.len(),
            texts@.len() == i,
            forall|k: int| 0 <= k < i ==> #[trigger] texts@[k]@ == commands@[k].name@,
        decreases commands.len() - i,
    {
        let mut t = String::new();
        push_str(&mut t, commands[i].name);
        texts.push(t);
        i = i + 1;
    }
    let r = FuzzyFinder::new(commands, &texts);
    proof {
        assert(crate::finder::numbered(0, texts@) =~= command_entries(default_commands_spec()));
    }
    r
}

/// The action of the selected command, if one is selected; accepting it also closes the
/// palette.
pub fn accept_command(finder: &FuzzyFinder<Command>) -> (r: Option<AppAction>)
    requires
        finder.wf(),
    ensures
        r == match finder.selected_item() {
            Some(c) => Some(c.action),
            None => None,
        },
{
    match finder.accept() {
        Some(c) => Some(c.action),
        None => None,
    }
}

/// The keystrokes of a key binding as the palette shows them: joined by " + ".
pub open spec fn keystroke_label_spec(keys: Seq<String>) -> Seq<char>
    decreases keys.len(),
{
    if keys.len() == 0 {
        Seq::empty()
    } else if keys.len() == 1 {
        keys[0]@
    } else {
        keystroke_label_spec(keys.drop_last()) + " + "@ + keys.last()@
    }
}

/// The label of a key binding, from the text of each of its keystrokes.
pub fn keystroke_label(keys: &Vec<String>) -> (r: String)
    ensures
        r@ == keystroke_label_spec(keys@),
{
    let mut r = String::new();
    let mut i: usize = 0;
    while i < keys.len()
        invariant
            i <= keys@.len(),
            r@ == keystroke_label_spec(keys@.take(i as int)),
        decreases keys.len() - i,
    {
        if i > 0 {
            push_str(&mut r, " + ");
        }
        push_str(&mut r, keys[i].as_str());
        proof {
            assert(keys@.take(i + 1).drop_last() =~= keys@.take(i as int));
        }
        i = i + 1;
    }
    proof {
        assert(keys@.take(i as int) =~= keys@);
    }
    r
}

/// Every command of the palette triggers the action its name says, and each action has one
/// command: "Next Track" skips forward, "Previous Track" goes back, "Pause/Resume Current
/// Track" plays or pauses, "Rescan Entire Library" rescans, "Quit" quits, "About" shows the
/// about dialog, "Search" opens the search.
pub proof fn each_command_does_what_its_name_says()
    ensures
        forall|i: int|
            0 <= i < default_commands_spec().len() ==> {
                let c = #[trigger] default_commands_spec()[i];
                &&& (c.name@ == "Next Track"@ <==> c.action is Next)
                &&& (c.name@ == "Previous Track"@ <==> c.action is Previous)
                &&& (c.name@ == "Pause/Resume Current Track"@ <==> c.action is PlayPause)
                &&& (c.name@ == "Rescan Entire Library"@ <==> c.action is ForceScan)
                &&& (c.name@ == "Quit"@ <==> c.action is Quit)
                &&& (c.name@ == "About"@ <==> c.action is About)
                &&& (c.name@ == "Search"@ <==> c.action is Search)
            },
        forall|i: int, j: int|
            0 <= i < j < default_commands_spec().len() ==> default_commands_spec()[i].action
                != default_commands_spec()[j].action,
{
    reveal_strlit("Next Track");
    reveal_strlit("Previous Track");
    reveal_strlit("Pause/Resume Current Track");
    reveal_strlit("Rescan Entire Library");
    reveal_strlit("Quit");
    reveal_strlit("About");
    reveal_strlit("Search");
    let cs = default_commands_spec();
    assert(cs.len() == 7);
    assert(cs[0].name@ == "Quit"@ && cs[0].action is Quit);
    assert(cs[1].name@ == "About"@ && cs[1].action is About);
    assert(cs[2].name@ == "Search"@ && cs[2].action is Search);
    assert(cs[3].name@ == "Pause/Resume Current Track"@ && cs[3].action is PlayPause);
    assert(cs[4].name@ == "Next Track"@ && cs[4].action is Next);
    assert(cs[5].name@ == "Previous Track"@ && cs[5].action is Previous);
    assert(cs[6].name@ == "Rescan Entire Library"@ && cs[6].action is ForceScan);
    assert("Quit"@.len() == 4 && "About"@.len() == 5 && "Search"@.len() == 6);
    assert("Next Track"@.len() == 10 && "Previous Track"@.len() == 14);
    assert("Pause/Resume Current Track"@.len() == 26 && "Rescan Entire Library"@.len() == 21);
}

/// Accepting a command the palette offers gives the action its name says: the one named
/// "Next Track" gives `Next`, the one named "Previous Track" gives `Previous`.
pub proof fn accepting_next_track_skips_forward(finder: FuzzyFinder<Command>)
    requires
        finder.selected_item() matches Some(c) && default_commands_spec().contains(c),
    ensures
        finder.selected_item() matches Some(c) ==> (c.name@ == "Next Track"@ ==> c.action is Next),
        finder.selected_item() matches Some(c) ==> (c.name@ == "Previous Track"@ ==> c.action
            is Previous),
{
    each_command_does_what_its_name_says();
}

} // verus!
