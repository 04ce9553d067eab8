use vstd::prelude::*;

verus! {

/// A line between groups of sidebar items.
#[derive(Clone, Copy, Debug, PartialEq, Eq, Structural)]
pub struct SidebarSeparator {}

pub fn sidebar_separator() -> (r: SidebarSeparator)
    ensures
        r == (SidebarSeparator {}),
{
    SidebarSeparator {}
}

} // verus!
