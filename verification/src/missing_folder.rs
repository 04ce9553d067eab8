use vstd::prelude::*;
use vstd::string::StrSliceExecFns;

verus! {

/// What to do with the library items of folders that went missing.
#[derive(Clone, Copy, Debug, PartialEq, Eq, Structural)]
pub enum MissingFolderAction {
    KeepInLibrary,
    DeleteFromLibrary,
}

/// The stored answer to the missing-folder question.
#[derive(Clone, Copy, Debug, PartialEq, Eq, Structural)]
pub enum MissingFolderPolicy {
    Ask,
    KeepInLibrary,
    DeleteFromLibrary,
}

pub open spec fn policy_for(action: MissingFolderAction) -> MissingFolderPolicy {
    match action {
        MissingFolderAction::KeepInLibrary => MissingFolderPolicy::KeepInLibrary,
        MissingFolderAction::DeleteFromLibrary => MissingFolderPolicy::DeleteFromLibrary,
    }
}

/// The dialog that asks what to do about missing library folders.
pub struct MissingFolderDialog {
    remember_choice: bool,
}

impl MissingFolderDialog {
    pub closed spec fn remembers(&self) -> bool {
        self.remember_choice
    }

    pub fn new() -> (r: Self)
        ensures
            !r.remembers(),
    {
        Self { remember_choice: false }
    }

    /// The "don't ask again" box was clicked.
    pub fn toggle_remember_choice(&mut self)
        ensures
            final(self).remembers() == !old(self).remembers(),
    {
        self.remember_choice = !self.remember_choice;
    }

    pub fn remember_choice(&self) -> (r: bool)
        ensures
            r == self.remembers(),
    {
        self.remember_choice
    }

    /// The policy to store for a chosen action: the matching policy when "don't ask again" is
    /// ticked, nothing otherwise. The box is cleared either way.
    fn maybe_persist_policy(&mut self, action: MissingFolderAction) -> (r: Option<
        MissingFolderPolicy,
    >)
        ensures
            !final(self).remembers(),
            r == if old(self).remembers() {
                Some(policy_for(action))
            } else {
                None
            },
    {
        let r = if self.remember_choice {
            Some(
                match action {
                    MissingFolderAction::KeepInLibrary => MissingFolderPolicy::KeepInLibrary,
                    MissingFolderAction::DeleteFromLibrary => MissingFolderPolicy::DeleteFromLibrary,
                },
            )
        } else {
            None
        };
        self.remember_choice = false;
        r
    }

    /// Resolves the dialog with an action: returns the policy to store (when "don't ask again"
    /// was ticked) and the action to hand to the scanner.
    pub fn resolve_action(&mut self, action: MissingFolderAction) -> (r: (
        Option<MissingFolderPolicy>,
        MissingFolderAction,
    ))
        ensures
            !final(self).remembers(),
            r.1 == action,
            r.0 == if old(self).remembers() {
                Some(policy_for(action))
            } else {
                None
            },
    {
        let policy = self.maybe_persist_policy(action);
        (policy, action)
    }
}

/// `s` with every leading copy of `prefix` removed, as `str::trim_start_matches` does.
pub open spec fn trim_start_matches_spec(s: Seq<char>, prefix: Seq<char>) -> Seq<char>
    decreases s.len(),
{
    if prefix.len() > 0 && prefix.len() <= s.len() && s.take(prefix.len() as int) == prefix {
        trim_start_matches_spec(s.skip(prefix.len() as int), prefix)
    } else {
        s
    }
}

/// The prefix that marks an extended-length Windows path.
pub open spec fn verbatim_prefix() -> Seq<char> {
    seq!['\\', '\\', '?', '\\']
}

/// Whether the verbatim prefix starts at character `start` of `path`.
fn prefix_at(path: &str, start: usize, n: usize) -> (r: bool)
    requires
        n == path@.len(),
        start <= n,
    ensures
        r == (4 <= path@.skip(start as int).len() && path@.skip(start as int).take(4)
            == verbatim_prefix()),
{
    let ghost rest = path@.skip(start as int);
    if n - start < 4 {
        return false;
    }
    let a = path.get_char(start);
    let b = path.get_char(start + 1);
    let c = path.get_char(start + 2);
    let d = path.get_char(start + 3);
    assert(rest[0] == a && rest[1] == b && rest[2] == c && rest[3] == d);
    let r = a == '\\' && b == '\\' && c == '?' && d == '\\';
    if r {
        assert(rest.take(4) =~= verbatim_prefix());
    } else {
        assert(rest.take(4)[0] == a && rest.take(4)[1] == b && rest.take(4)[2] == c
            && rest.take(4)[3] == d);
    }
    r
}

/// A missing folder as the dialog shows it: without the extended-length path prefix.
pub fn display_path(path: &str) -> (r: String)
    ensures
        r@ == trim_start_matches_spec(path@, verbatim_prefix()),
{
    let n = path.unicode_len();
    let mut start: usize = 0;
    assert(path@.skip(0) == path@);
    while prefix_at(path, start, n)
        invariant
            n == path@.len(),
            start <= n,
            trim_start_matches_spec(path@, verbatim_prefix()) == trim_start_matches_spec(
                path@.skip(start as int),
                verbatim_prefix(),
            ),
        decreases n - start,
    {
        let ghost rest = path@.skip(start as int);
        assert(rest.skip(4) == path@.skip(start + 4));
        start = start + 4;
    }
    let ghost rest = path@.skip(start as int);
    let mut r = String::new();
    let mut i: usize = start;
    while i < n
        invariant
            n == path@.len(),
            start <= i <= n,
            r@ == path@.subrange(start as int, i as int),
        decreases n - i,
    {
        let c = path.get_char(i);
        crate::text::push_char(&mut r, c);
        assert(path@.subrange(start as int, i + 1) == path@.subrange(start as int, i as int).push(c));
        i = i + 1;
    }
    assert(path@.subrange(start as int, n as int) == rest);
    r
}

} // verus!
