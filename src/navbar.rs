//! The navigation bar: its tabs and the mobile menu's open state.
use vstd::prelude::*;

verus! {

/// One navigation tab: its label and whether it is the current page.
pub struct Tab {
    pub name: &'static str,
    pub active: bool,
}

/// The labels of the tabs, in the order they are drawn.
pub open spec fn tab_names() -> Seq<Seq<char>> {
    seq!["Diary"@, "Shopping List"@, "Analytics"@, "Logout"@]
}

/// The tabs of the bar; the diary tab is the current page, no other is.
pub fn tabs() -> (r: Vec<Tab>)
    ensures
        r@.len() == tab_names().len(),
        forall|k: int| 0 <= k < r@.len() ==> (#[trigger] r@[k]).name@ == tab_names()[k],
        forall|k: int| 0 <= k < r@.len() ==> (#[trigger] r@[k]).active == (k == 0),
{
    let mut r: Vec<Tab> = Vec::new();
    r.push(Tab { name: "Diary", active: true });
    r.push(Tab { name: "Shopping List", active: false });
    r.push(Tab { name: "Analytics", active: false });
    r.push(Tab { name: "Logout", active: false });
    proof {
        reveal_strlit("Diary");
        reveal_strlit("Shopping List");
        reveal_strlit("Analytics");
        reveal_strlit("Logout");
    }
    r
}

/// Whether the mobile menu panel is open.
pub struct MenuState {
    pub open: bool,
}

impl MenuState {
    /// The menu starts closed.
    pub fn new() -> (r: MenuState)
        ensures
            !r.open,
    {
        MenuState { open: false }
    }

    /// The burger button flips whether the menu is open.
    pub fn toggle(&mut self)
        ensures
            final(self).open == !old(self).open,
    {
        self.open = !self.open;
    }

    /// The CSS classes of the mobile menu panel: hidden unless it is open.
    pub fn panel_class(&self) -> (r: &'static str)
        ensures
            r@ == (if self.open { "w-full"@ } else { "hidden w-full"@ }),
    {
        proof {
            reveal_strlit("w-full");
            reveal_strlit("hidden w-full");
        }
        if self.open {
            "w-full"
        } else {
            "hidden w-full"
        }
    }
}

} // verus!
