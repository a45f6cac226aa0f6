//! What holds of the menu and of the routing of its entries, proved from the
//! models that the building and dispatching functions are held to.

use crate::actions::{is_action, lemma_action_ids_distinct, lemma_action_ids_namespaced};
use crate::dispatch::{announcement, node_outcome, outcome, outcomes, NotificationView};
use crate::menus::{app_menu_model, view_entries, view_menu_model};
use crate::node::{forest_ids, node_ids, NodeView, Predefined};
use crate::tree::{lemma_menu_ids, menu_model, Platform};
use vstd::prelude::*;

verus! {

/// The identifier of an action entry is among the identifiers of any run of
/// nodes that holds the entry.
pub proof fn lemma_ids_hold_entry(nodes: Seq<NodeView>, at: int)
    requires
        0 <= at < nodes.len(),
        nodes[at] is Action,
    ensures
        forest_ids(nodes).contains(nodes[at]->id),
    decreases nodes.len(),
{
    let rest = forest_ids(nodes.drop_last());
    let last = node_ids(nodes.last());
    if at == nodes.len() - 1 {
        assert(last[0] == nodes[at]->id);
        assert((rest + last)[rest.len() as int] == nodes[at]->id);
    } else {
        lemma_ids_hold_entry(nodes.drop_last(), at);
        let k = choose|k: int| 0 <= k < rest.len() && rest[k] == nodes[at]->id;
        assert((rest + last)[k] == nodes[at]->id);
    }
}

/// The identifiers below a submenu are among the identifiers of any run of
/// nodes that holds the submenu.
pub proof fn lemma_ids_hold_submenu(nodes: Seq<NodeView>, at: int, id: Seq<char>)
    requires
        0 <= at < nodes.len(),
        nodes[at] is Submenu,
        forest_ids(nodes[at]->children).contains(id),
    ensures
        forest_ids(nodes).contains(id),
    decreases nodes.len(),
{
    let rest = forest_ids(nodes.drop_last());
    let last = node_ids(nodes.last());
    if at == nodes.len() - 1 {
        let k = choose|k: int| 0 <= k < last.len() && last[k] == id;
        assert((rest + last)[rest.len() + k] == id);
    } else {
        lemma_ids_hold_submenu(nodes.drop_last(), at, id);
        let k = choose|k: int| 0 <= k < rest.len() && rest[k] == id;
        assert((rest + last)[k] == id);
    }
}

/// On either kind of host, the choice of any action entry of any menu sends
/// out exactly one notification: the announcement of the entry's identifier,
/// letter for letter.
pub proof fn lemma_action_entry_is_announced(platform: Platform, menu: int, at: int)
    requires
        0 <= menu < menu_model(platform).len(),
        menu_model(platform)[menu] is Submenu,
        0 <= at < menu_model(platform)[menu]->children.len(),
        menu_model(platform)[menu]->children[at] is Action,
    ensures
        ({
            let chosen = menu_model(platform)[menu]->children[at];
            &&& is_action(chosen->id)
            &&& node_outcome(chosen) == Some(announcement(chosen->id))
            &&& outcomes(seq![chosen->id]) == seq![announcement(chosen->id)]
        }),
{
    let menus = menu_model(platform);
    let chosen = menus[menu]->children[at];
    lemma_ids_hold_entry(menus[menu]->children, at);
    lemma_ids_hold_submenu(menus, menu, chosen->id);
    lemma_menu_ids(platform);
    lemma_single_outcome(chosen->id);
}

/// Every identifier of an action is announced when it is chosen, letter for
/// letter, and every identifier is the identifier of an entry of the menu on
/// either kind of host.
pub proof fn lemma_action_is_announced(platform: Platform, id: Seq<char>)
    requires
        is_action(id),
    ensures
        outcome(id) == Some(announcement(id)),
        announcement(id).payload == id,
        forest_ids(menu_model(platform)).contains(id),
{
    lemma_menu_ids(platform);
}

/// The choice of a node that is no action entry sends nothing out: not that
/// of a separator or a submenu, and not that of any entry that the host
/// handles.
pub proof fn lemma_host_entry_is_silent(node: NodeView)
    requires
        !(node is Action),
    ensures
        node_outcome(node) is None,
{
}

/// Each of the entries that the host handles is silent.
pub proof fn lemma_predefined_is_silent(kind: Predefined)
    ensures
        node_outcome(NodeView::Predefined(kind)) is None,
{
}

/// Whether `c` is a decimal digit.
pub open spec fn is_digit(c: char) -> bool {
    c == '0' || c == '1' || c == '2' || c == '3' || c == '4' || c == '5' || c == '6' || c == '7'
        || c == '8' || c == '9'
}

/// An identifier written in decimal digits alone, such as a host hands out
/// by counting to the entries that it handles itself, names no action: its
/// choice sends nothing out.
pub proof fn lemma_numbered_id_is_silent(id: Seq<char>)
    requires
        forall|i: int| 0 <= i < id.len() ==> is_digit(#[trigger] id[i]),
    ensures
        outcome(id) is None,
{
    if is_action(id) {
        lemma_action_ids_namespaced(id);
        reveal_strlit("file.");
        reveal_strlit("view.");
        reveal_strlit("help.");
        assert(id.subrange(0, 5)[0] == id[0]);
        assert(is_digit(id[0]));
    }
}

/// On either kind of host, no identifier stands on two action entries of the
/// menu.
pub proof fn lemma_identifiers_unique(platform: Platform)
    ensures
        forest_ids(menu_model(platform)).no_duplicates(),
{
    lemma_menu_ids(platform);
    lemma_action_ids_distinct();
}

/// One choice sends out the announcement of its identifier where that names
/// an action, and nothing otherwise.
pub proof fn lemma_single_outcome(id: Seq<char>)
    ensures
        is_action(id) ==> outcomes(seq![id]) == seq![announcement(id)],
        !is_action(id) ==> outcomes(seq![id]) == Seq::<NotificationView>::empty(),
{
    assert(seq![id].drop_last() =~= Seq::<Seq<char>>::empty());
    assert(outcomes(Seq::<Seq<char>>::empty()) =~= Seq::<NotificationView>::empty());
    if is_action(id) {
        assert(outcomes(seq![id]) =~= seq![announcement(id)]);
    }
}

/// Choices do not merge: what two runs of choices send out, one after the
/// other, is what the first sends out followed by what the second sends out.
pub proof fn lemma_outcomes_concat(first: Seq<Seq<char>>, second: Seq<Seq<char>>)
    ensures
        outcomes(first + second) == outcomes(first) + outcomes(second),
    decreases second.len(),
{
    if second.len() == 0 {
        assert(first + second =~= first);
        assert(outcomes(first) + outcomes(second) =~= outcomes(first));
    } else {
        lemma_outcomes_concat(first, second.drop_last());
        assert((first + second).drop_last() =~= first + second.drop_last());
        assert((first + second).last() == second.last());
        assert(outcomes(first + second) =~= outcomes(first) + outcomes(second));
    }
}

/// Each choice sends out at most one notification.
pub proof fn lemma_outcomes_bounded(ids: Seq<Seq<char>>)
    ensures
        outcomes(ids).len() <= ids.len(),
    decreases ids.len(),
{
    if ids.len() > 0 {
        lemma_outcomes_bounded(ids.drop_last());
    }
}

/// An action chosen twice in a row is announced twice.
pub proof fn lemma_repeated_choice(id: Seq<char>)
    requires
        is_action(id),
    ensures
        outcomes(seq![id, id]) == seq![announcement(id), announcement(id)],
{
    lemma_single_outcome(id);
    lemma_outcomes_concat(seq![id], seq![id]);
    assert(seq![id] + seq![id] =~= seq![id, id]);
    assert(seq![announcement(id)] + seq![announcement(id)] =~= seq![
        announcement(id),
        announcement(id),
    ]);
}

/// An identifier that names no action sends nothing out when it is chosen.
pub proof fn lemma_unknown_is_silent(id: Seq<char>)
    requires
        !is_action(id),
    ensures
        outcome(id) is None,
        outcomes(seq![id]) == Seq::<NotificationView>::empty(),
{
    lemma_single_outcome(id);
}

/// The host with a global menu bar shows one menu more than the other kind
/// of host: the application menu, which comes first. The menus after it are
/// those of the other kind of host, in the same order.
pub proof fn lemma_platform_structure()
    ensures
        menu_model(Platform::GlobalMenuBar).len() == menu_model(Platform::WindowMenuBar).len() + 1,
        menu_model(Platform::GlobalMenuBar)[0] == app_menu_model(),
        menu_model(Platform::GlobalMenuBar).subrange(
            1,
            menu_model(Platform::GlobalMenuBar).len() as int,
        ) == menu_model(Platform::WindowMenuBar),
        forall|i: int|
            0 <= i < menu_model(Platform::WindowMenuBar).len() ==> #[trigger] menu_model(
                Platform::WindowMenuBar,
            )[i] != app_menu_model(),
{
    let global = menu_model(Platform::GlobalMenuBar);
    let other = menu_model(Platform::WindowMenuBar);
    assert(global.subrange(1, global.len() as int) =~= other);
    reveal_strlit("Jot");
    reveal_strlit("File");
    reveal_strlit("Edit");
    reveal_strlit("View");
    reveal_strlit("Window");
    reveal_strlit("Help");
    assert forall|i: int| 0 <= i < other.len() implies #[trigger] other[i] != app_menu_model() by {
        assert(other[i] matches NodeView::Submenu { label, .. } && label.len() != 3);
    }
}

/// The place of the View menu among the menus of a host.
pub open spec fn view_menu_index(platform: Platform) -> int {
    match platform {
        Platform::GlobalMenuBar => 3,
        Platform::WindowMenuBar => 2,
    }
}

/// The identifier that an entry carries, if it is an action entry.
pub open spec fn entry_id(node: NodeView) -> Option<Seq<char>> {
    match node {
        NodeView::Action { id, .. } => Some(id),
        _ => None,
    }
}

/// The identifiers that the entries of a menu carry, place by place.
pub open spec fn entry_ids(entries: Seq<NodeView>) -> Seq<Option<Seq<char>>> {
    Seq::new(entries.len(), |i: int| entry_id(entries[i]))
}

/// On either kind of host, the View menu lists the fonts, the widths, the
/// zoom entries and the themes, in this order, with a separator between each
/// group and the next and nowhere else.
pub proof fn lemma_view_menu_order(platform: Platform)
    ensures
        menu_model(platform)[view_menu_index(platform)] == view_menu_model(),
        view_menu_model() matches NodeView::Submenu { children, .. } && children == view_entries(),
        entry_ids(view_entries()) == seq![
            Some("view.font.serif"@),
            Some("view.font.sans"@),
            Some("view.font.mono"@),
            None,
            Some("view.width.narrow"@),
            Some("view.width.wide"@),
            None,
            Some("view.zoom_in"@),
            Some("view.zoom_out"@),
            Some("view.zoom_reset"@),
            None,
            Some("view.theme.system"@),
            Some("view.theme.light"@),
            Some("view.theme.dark"@),
        ],
        forall|i: int|
            0 <= i < view_entries().len() ==> (#[trigger] view_entries()[i] is Separator <==> (i
                == 3 || i == 6 || i == 10)),
{
    assert(entry_ids(view_entries()) =~= seq![
        Some("view.font.serif"@),
        Some("view.font.sans"@),
        Some("view.font.mono"@),
        None,
        Some("view.width.narrow"@),
        Some("view.width.wide"@),
        None,
        Some("view.zoom_in"@),
        Some("view.zoom_out"@),
        Some("view.zoom_reset"@),
        None,
        Some("view.theme.system"@),
        Some("view.theme.light"@),
        Some("view.theme.dark"@),
    ]);
}

} // verus!
