//! Which menu is open, and the trail of menus that "back" returns along.
use vstd::prelude::*;

verus! {

/// The menu on screen; `NoMenu` while the game is played.
#[derive(Clone, Copy, Debug, PartialEq, Eq, Hash, Structural)]
pub enum OpenMenu {
    Main,
    Settings,
    Pause,
    Skins,
    NoMenu,
}

impl Default for OpenMenu {
    fn default() -> (r: OpenMenu)
        ensures
            r == OpenMenu::Main,
    {
        OpenMenu::Main
    }
}

/// The menus opened so far, the one on screen last.
pub struct MenuTree(pub Vec<OpenMenu>);

/// The trail after the menu on screen became `open` (when `changed`): it
/// is added unless it is already the last one.
pub open spec fn spec_update_tree(tree: Seq<OpenMenu>, open: OpenMenu, changed: bool) -> Seq<
    OpenMenu,
> {
    if !changed || (tree.len() > 0 && tree.last() == open) {
        tree
    } else {
        tree.push(open)
    }
}

/// The menu that "back" opens from the trail `tree` after the current one
/// is dropped: the one before it, or the main menu.
pub open spec fn spec_back_target(tree: Seq<OpenMenu>) -> OpenMenu {
    let rest = if tree.len() > 0 {
        tree.drop_last()
    } else {
        tree
    };
    if rest.len() > 0 {
        rest.last()
    } else {
        OpenMenu::Main
    }
}

impl MenuTree {
    pub fn new() -> (r: MenuTree)
        ensures
            r.0@ == Seq::<OpenMenu>::empty(),
    {
        MenuTree(Vec::new())
    }

    /// Forgets the trail.
    pub fn clear_tree(&mut self)
        ensures
            final(self).0@ == Seq::<OpenMenu>::empty(),
    {
        self.0.clear();
    }

    /// Records that the menu on screen is now `open`; `changed` tells
    /// whether it has just changed.
    pub fn update_tree(&mut self, open: OpenMenu, changed: bool)
        ensures
            final(self).0@ == spec_update_tree(old(self).0@, open, changed),
    {
        if !changed {
            return;
        }
        let n = self.0.len();
        if n > 0 && self.0[n - 1] == open {
            return;
        }
        self.0.push(open);
    }

    /// Goes back: drops the current menu from the trail and gives the menu
    /// to open next.
    pub fn go_back(&mut self) -> (r: OpenMenu)
        ensures
            final(self).0@ == if old(self).0@.len() > 0 {
                old(self).0@.drop_last()
            } else {
                old(self).0@
            },
            r == spec_back_target(old(self).0@),
    {
        self.0.pop();
        let n = self.0.len();
        if n > 0 {
            self.0[n - 1]
        } else {
            OpenMenu::Main
        }
    }
}

/// Opening a new menu and going back returns to the menu before it and
/// leaves the trail as it was; once that menu is on screen again the trail
/// does not grow.
pub proof fn lemma_back_undoes_open(tree: Seq<OpenMenu>, open: OpenMenu)
    requires
        tree.len() == 0 || tree.last() != open,
    ensures
        spec_update_tree(tree, open, true).drop_last() == tree,
        spec_back_target(spec_update_tree(tree, open, true)) == if tree.len() > 0 {
            tree.last()
        } else {
            OpenMenu::Main
        },
        tree.len() > 0 ==> spec_update_tree(tree, tree.last(), true) == tree,
{
    assert(tree.push(open).drop_last() =~= tree);
}

/// No menu follows itself in the trail.
pub open spec fn no_repeats(tree: Seq<OpenMenu>) -> bool {
    forall|i: int| 0 < i < tree.len() ==> #[trigger] tree[i] != tree[i - 1]
}

/// Recording a menu and going back both keep a trail free of repeats.
pub proof fn lemma_trail_has_no_repeats(tree: Seq<OpenMenu>, open: OpenMenu, changed: bool)
    requires
        no_repeats(tree),
    ensures
        no_repeats(spec_update_tree(tree, open, changed)),
        tree.len() > 0 ==> no_repeats(tree.drop_last()),
{
    let t = spec_update_tree(tree, open, changed);
    assert forall|i: int| 0 < i < t.len() implies #[trigger] t[i] != t[i - 1] by {
        if i < tree.len() {
            assert(t[i] == tree[i] && t[i - 1] == tree[i - 1]);
        }
    }
    if tree.len() > 0 {
        let d = tree.drop_last();
        assert forall|i: int| 0 < i < d.len() implies #[trigger] d[i] != d[i - 1] by {
            assert(d[i] == tree[i] && d[i - 1] == tree[i - 1]);
        }
    }
}

} // verus!
