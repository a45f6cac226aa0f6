//! The identifiers by which the rest of the program knows the menu's actions.

use crate::text::str_eq;
use vstd::prelude::*;

verus! {

/// The identifiers of the application's actions, in the order in which the
/// menu shows their entries.
pub open spec fn action_ids() -> Seq<Seq<char>> {
    seq![
        "file.new"@,
        "file.open"@,
        "file.save"@,
        "file.save_as"@,
        "file.rename"@,
        "view.font.serif"@,
        "view.font.sans"@,
        "view.font.mono"@,
        "view.width.narrow"@,
        "view.width.wide"@,
        "view.zoom_in"@,
        "view.zoom_out"@,
        "view.zoom_reset"@,
        "view.theme.system"@,
        "view.theme.light"@,
        "view.theme.dark"@,
        "help.docs"@,
    ]
}

/// Whether `id` names one of the application's actions.
pub open spec fn is_action(id: Seq<char>) -> bool {
    action_ids().contains(id)
}

/// Whether `id` lies in one of the namespaces of the application's actions:
/// it begins with `file.`, `view.` or `help.` and goes on after the dot.
pub open spec fn namespaced(id: Seq<char>) -> bool {
    &&& id.len() > 5
    &&& id.subrange(0, 5) == "file."@ || id.subrange(0, 5) == "view."@ || id.subrange(0, 5)
        == "help."@
}

/// Every identifier of an action lies in one of the namespaces.
pub proof fn lemma_action_ids_namespaced(id: Seq<char>)
    requires
        is_action(id),
    ensures
        namespaced(id),
{
    reveal_strlit("file.");
    reveal_strlit("view.");
    reveal_strlit("help.");
    reveal_strlit("file.new");
    reveal_strlit("file.open");
    reveal_strlit("file.save");
    reveal_strlit("file.save_as");
    reveal_strlit("file.rename");
    reveal_strlit("view.font.serif");
    reveal_strlit("view.font.sans");
    reveal_strlit("view.font.mono");
    reveal_strlit("view.width.narrow");
    reveal_strlit("view.width.wide");
    reveal_strlit("view.zoom_in");
    reveal_strlit("view.zoom_out");
    reveal_strlit("view.zoom_reset");
    reveal_strlit("view.theme.system");
    reveal_strlit("view.theme.light");
    reveal_strlit("view.theme.dark");
    reveal_strlit("help.docs");
    let ids = action_ids();
    let k = choose|k: int| 0 <= k < ids.len() && ids[k] == id;
    if k < 5 {
        assert(id.subrange(0, 5) =~= "file."@);
    } else if k < 16 {
        assert(id.subrange(0, 5) =~= "view."@);
    } else {
        assert(id.subrange(0, 5) =~= "help."@);
    }
}

/// Three marks of a string of characters that tell the identifiers of the
/// actions apart: the length and two of the characters.
pub open spec fn marks(id: Seq<char>) -> (nat, char, char) {
    (id.len(), id[5], id[10])
}

/// No identifier stands for two actions.
pub proof fn lemma_action_ids_distinct()
    ensures
        action_ids().no_duplicates(),
{
    reveal_strlit("file.new");
    reveal_strlit("file.open");
    reveal_strlit("file.save");
    reveal_strlit("file.save_as");
    reveal_strlit("file.rename");
    reveal_strlit("view.font.serif");
    reveal_strlit("view.font.sans");
    reveal_strlit("view.font.mono");
    reveal_strlit("view.width.narrow");
    reveal_strlit("view.width.wide");
    reveal_strlit("view.zoom_in");
    reveal_strlit("view.zoom_out");
    reveal_strlit("view.zoom_reset");
    reveal_strlit("view.theme.system");
    reveal_strlit("view.theme.light");
    reveal_strlit("view.theme.dark");
    reveal_strlit("help.docs");
    let ids = action_ids();
    assert forall|i: int, j: int| 0 <= i < ids.len() && 0 <= j < ids.len() && i != j implies ids[i]
        != ids[j] by {
        assert(marks(ids[i]) != marks(ids[j]));
    }
}

/// Tells whether `id` names one of the application's actions.
pub fn is_action_id(id: &str) -> (known: bool)
    ensures
        known == is_action(id@),
{
    let file = str_eq(id, "file.new") || str_eq(id, "file.open") || str_eq(id, "file.save")
        || str_eq(id, "file.save_as") || str_eq(id, "file.rename");
    let font = str_eq(id, "view.font.serif") || str_eq(id, "view.font.sans") || str_eq(
        id,
        "view.font.mono",
    );
    let width = str_eq(id, "view.width.narrow") || str_eq(id, "view.width.wide");
    let zoom = str_eq(id, "view.zoom_in") || str_eq(id, "view.zoom_out") || str_eq(
        id,
        "view.zoom_reset",
    );
    let theme = str_eq(id, "view.theme.system") || str_eq(id, "view.theme.light") || str_eq(
        id,
        "view.theme.dark",
    );
    let help = str_eq(id, "help.docs");
    let known = file || font || width || zoom || theme || help;
    proof {
        let ids = action_ids();
        assert(ids.len() == 17);
        if known {
            let k = choose|k: int| 0 <= k < 17 && ids[k] == id@;
            assert(ids[k] == id@);
        } else {
            assert forall|k: int| 0 <= k < 17 implies ids[k] != id@ by {}
        }
    }
    known
}

} // verus!
