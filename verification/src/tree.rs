//! The whole menu: the menus of the application in the order in which the
//! host shows them.

use crate::actions::{action_ids, lemma_action_ids_distinct};
use crate::menus::{
    app_entries, app_menu, app_menu_model, edit_entries, edit_menu, edit_menu_model, file_entries,
    file_menu, file_menu_model, help_entries, help_menu, help_menu_model, view_entries, view_menu,
    view_menu_model, window_entries, window_menu, window_menu_model,
};
use crate::node::{
    forest_ids, lemma_forest_ids_concat, lemma_forest_ids_push, lemma_models_index, models, texts,
    MenuNode,
    NodeView,
};
use crate::text::str_eq;
use vstd::prelude::*;

verus! {

/// The two kinds of host that the menu is built for.
#[derive(Clone, Copy, Debug, PartialEq, Eq, Structural)]
pub enum Platform {
    /// A host with one menu bar for the whole application, which expects the
    /// application's own menu at its head.
    GlobalMenuBar,
    /// Any other host.
    WindowMenuBar,
}

/// The kind of host that runs the operating system called `os`.
pub open spec fn platform_of(os: Seq<char>) -> Platform {
    if os == "macos"@ {
        Platform::GlobalMenuBar
    } else {
        Platform::WindowMenuBar
    }
}

impl Platform {
    /// Tells the kind of host from the name of its operating system.
    pub fn of_os(os: &str) -> (platform: Platform)
        ensures
            platform == platform_of(os@),
    {
        if str_eq(os, "macos") {
            Platform::GlobalMenuBar
        } else {
            Platform::WindowMenuBar
        }
    }
}

/// The menus that every host shows, in order.
pub open spec fn common_menus() -> Seq<NodeView> {
    seq![
        file_menu_model(),
        edit_menu_model(),
        view_menu_model(),
        window_menu_model(),
        help_menu_model(),
    ]
}

/// The menus that a host of the given kind shows, in order: the common ones,
/// and before them the application menu where the host has a global menu bar.
pub open spec fn menu_model(platform: Platform) -> Seq<NodeView> {
    match platform {
        Platform::GlobalMenuBar => seq![app_menu_model()] + common_menus(),
        Platform::WindowMenuBar => common_menus(),
    }
}

/// What holds of every menu tree: its top level is made of submenus, and no
/// identifier stands on two of its action entries.
pub open spec fn well_formed(menus: Seq<NodeView>) -> bool {
    &&& forall|i: int| 0 <= i < menus.len() ==> #[trigger] menus[i] is Submenu
    &&& forest_ids(menus).no_duplicates()
}

/// The application menu has no action entry.
pub proof fn lemma_app_ids()
    ensures
        forest_ids(app_entries()) == Seq::<Seq<char>>::empty(),
{
    reveal_with_fuel(forest_ids, 8);
    assert(forest_ids(app_entries()) =~= Seq::<Seq<char>>::empty());
}

/// The action entries of the File menu.
pub proof fn lemma_file_ids()
    ensures
        forest_ids(file_entries()) == action_ids().subrange(0, 5),
{
    reveal_with_fuel(forest_ids, 9);
    assert(forest_ids(file_entries()) =~= action_ids().subrange(0, 5));
}

/// The Edit menu has no action entry.
pub proof fn lemma_edit_ids()
    ensures
        forest_ids(edit_entries()) == Seq::<Seq<char>>::empty(),
{
    reveal_with_fuel(forest_ids, 9);
    assert(forest_ids(edit_entries()) =~= Seq::<Seq<char>>::empty());
}

/// The action entries of the View menu.
pub proof fn lemma_view_ids()
    ensures
        forest_ids(view_entries()) == action_ids().subrange(5, 16),
{
    reveal_with_fuel(forest_ids, 15);
    assert(forest_ids(view_entries()) =~= action_ids().subrange(5, 16));
}

/// The Window menu has no action entry.
pub proof fn lemma_window_ids()
    ensures
        forest_ids(window_entries()) == Seq::<Seq<char>>::empty(),
{
    reveal_with_fuel(forest_ids, 5);
    assert(forest_ids(window_entries()) =~= Seq::<Seq<char>>::empty());
}

/// The action entry of the Help menu.
pub proof fn lemma_help_ids()
    ensures
        forest_ids(help_entries()) == action_ids().subrange(16, 17),
{
    reveal_with_fuel(forest_ids, 2);
    assert(forest_ids(help_entries()) =~= action_ids().subrange(16, 17));
}

/// The action entries of the common menus are the application's actions, in
/// order.
pub proof fn lemma_common_ids()
    ensures
        forest_ids(common_menus()) == action_ids(),
{
    lemma_file_ids();
    lemma_edit_ids();
    lemma_view_ids();
    lemma_window_ids();
    lemma_help_ids();
    reveal_with_fuel(forest_ids, 6);
    assert(forest_ids(common_menus()) =~= action_ids());
}

/// The action entries of the whole menu are the application's actions, in
/// order, whatever the host.
pub proof fn lemma_menu_ids(platform: Platform)
    ensures
        forest_ids(menu_model(platform)) == action_ids(),
{
    lemma_common_ids();
    match platform {
        Platform::GlobalMenuBar => {
            lemma_app_ids();
            lemma_forest_ids_concat(seq![app_menu_model()], common_menus());
            reveal_with_fuel(forest_ids, 2);
            assert(forest_ids(seq![app_menu_model()]) =~= Seq::<Seq<char>>::empty());
            assert(forest_ids(menu_model(platform)) =~= action_ids());
        },
        Platform::WindowMenuBar => {},
    }
}

/// The menu of either kind of host is well formed.
pub proof fn lemma_menu_well_formed(platform: Platform)
    ensures
        well_formed(menu_model(platform)),
{
    lemma_menu_ids(platform);
    lemma_action_ids_distinct();
}

/// The menu of the application: its top-level menus, in the order in which
/// the host shows them. A tree is built whole and never changes afterwards.
#[derive(Debug, PartialEq, Eq)]
pub struct MenuTree {
    menus: Vec<MenuNode>,
}

impl View for MenuTree {
    type V = Seq<NodeView>;

    closed spec fn view(&self) -> Seq<NodeView> {
        models(self.menus@)
    }
}

impl MenuTree {
    #[verifier::type_invariant]
    spec fn inv(&self) -> bool {
        well_formed(models(self.menus@))
    }

    /// The top-level menus, in display order.
    pub fn menus(&self) -> (menus: &Vec<MenuNode>)
        ensures
            models(menus@) == self@,
            well_formed(self@),
    {
        proof {
            use_type_invariant(self);
        }
        &self.menus
    }

    /// The identifiers of the action entries of the tree, in display order.
    pub fn action_ids(&self) -> (ids: Vec<String>)
        ensures
            texts(ids@) == forest_ids(self@),
            texts(ids@).no_duplicates(),
    {
        let mut ids: Vec<String> = Vec::new();
        let mut i: usize = 0;
        proof {
            use_type_invariant(self);
            assert(models(self.menus@).take(0) =~= Seq::<NodeView>::empty());
            assert(texts(ids@) =~= forest_ids(models(self.menus@).take(0)));
        }
        while i < self.menus.len()
            invariant
                i <= self.menus.len(),
                texts(ids@) == forest_ids(models(self.menus@).take(i as int)),
            decreases self.menus.len() - i,
        {
            self.menus[i].collect_ids(&mut ids);
            proof {
                let all = models(self.menus@);
                lemma_models_index(self.menus@);
                assert(all.take(i + 1) =~= all.take(i as int).push(self.menus[i as int]@));
                lemma_forest_ids_push(all.take(i as int), self.menus[i as int]@);
            }
            i += 1;
        }
        proof {
            lemma_models_index(self.menus@);
            assert(models(self.menus@).take(i as int) =~= models(self.menus@));
        }
        ids
    }
}

/// Builds the menu for a host of the given kind.
pub fn build_menu(platform: Platform) -> (tree: MenuTree)
    ensures
        tree@ == menu_model(platform),
        well_formed(tree@),
{
    let mut menus: Vec<MenuNode> = Vec::new();
    match platform {
        Platform::GlobalMenuBar => {
            menus.push(app_menu());
        },
        Platform::WindowMenuBar => {},
    }
    menus.push(file_menu());
    menus.push(edit_menu());
    menus.push(view_menu());
    menus.push(window_menu());
    menus.push(help_menu());
    proof {
        lemma_models_index(menus@);
        assert(models(menus@) =~= menu_model(platform));
        lemma_menu_well_formed(platform);
    }
    MenuTree { menus }
}

} // verus!
