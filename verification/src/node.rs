//! The nodes of a menu and their mathematical model.

use vstd::prelude::*;

verus! {

/// A standard entry whose behaviour the host platform supplies.
#[derive(Clone, Copy, Debug, PartialEq, Eq, Structural)]
pub enum Predefined {
    Undo,
    Redo,
    Cut,
    Copy,
    Paste,
    SelectAll,
    Minimize,
    Maximize,
    CloseWindow,
    About,
    Hide,
    HideOthers,
    ShowAll,
    Quit,
}

/// What a [`MenuNode`] is, as a mathematical value: strings are sequences of
/// characters and children form a sequence of models.
pub enum NodeView {
    /// An entry of the application: its identifier, what it shows, the keys
    /// that choose it, if any, and whether it can be chosen.
    Action { id: Seq<char>, label: Seq<char>, accelerator: Option<Seq<char>>, enabled: bool },
    /// An entry that the host handles by itself.
    Predefined(Predefined),
    /// A dividing line.
    Separator,
    /// A labelled list of further nodes, in display order.
    Submenu { label: Seq<char>, children: Seq<NodeView> },
}

/// One node of the menu.
#[derive(Debug, PartialEq, Eq)]
pub enum MenuNode {
    /// An entry of the application, known to the rest of the program by `id`.
    Action { id: String, label: String, accelerator: Option<String>, enabled: bool },
    /// An entry that the host handles by itself.
    Predefined(Predefined),
    /// A dividing line.
    Separator,
    /// A labelled list of further nodes, in display order.
    Submenu { label: String, children: Vec<MenuNode> },
}

/// The characters of an optional string.
pub open spec fn opt_text(s: Option<String>) -> Option<Seq<char>> {
    match s {
        Some(t) => Some(t@),
        None => None,
    }
}

/// The characters of each string of a sequence.
pub open spec fn texts(s: Seq<String>) -> Seq<Seq<char>> {
    Seq::new(s.len(), |i: int| s[i]@)
}

/// The models of a sequence of nodes, in the same order.
pub open spec fn models(nodes: Seq<MenuNode>) -> Seq<NodeView>
    decreases nodes,
{
    if nodes.len() == 0 {
        Seq::empty()
    } else {
        models(nodes.drop_last()).push(model(nodes.last()))
    }
}

/// The model of one node.
pub open spec fn model(node: MenuNode) -> NodeView
    decreases node,
{
    match node {
        MenuNode::Action { id, label, accelerator, enabled } => NodeView::Action {
            id: id@,
            label: label@,
            accelerator: opt_text(accelerator),
            enabled,
        },
        MenuNode::Predefined(kind) => NodeView::Predefined(kind),
        MenuNode::Separator => NodeView::Separator,
        MenuNode::Submenu { label, children } => NodeView::Submenu {
            label: label@,
            children: models(children@),
        },
    }
}

impl View for MenuNode {
    type V = NodeView;

    open spec fn view(&self) -> NodeView {
        model(*self)
    }
}

/// The identifiers of the action entries at or below `node`, in display order.
pub open spec fn node_ids(node: NodeView) -> Seq<Seq<char>>
    decreases node,
{
    match node {
        NodeView::Action { id, .. } => seq![id],
        NodeView::Predefined(_) => Seq::empty(),
        NodeView::Separator => Seq::empty(),
        NodeView::Submenu { children, .. } => forest_ids(children),
    }
}

/// The identifiers of the action entries at or below any of `nodes`, in
/// display order.
pub open spec fn forest_ids(nodes: Seq<NodeView>) -> Seq<Seq<char>>
    decreases nodes,
{
    if nodes.len() == 0 {
        Seq::empty()
    } else {
        forest_ids(nodes.drop_last()) + node_ids(nodes.last())
    }
}

/// The models of a sequence of nodes stand at the places of the nodes.
pub proof fn lemma_models_index(nodes: Seq<MenuNode>)
    ensures
        models(nodes).len() == nodes.len(),
        forall|i: int| 0 <= i < nodes.len() ==> #[trigger] models(nodes)[i] == nodes[i]@,
    decreases nodes.len(),
{
    if nodes.len() > 0 {
        lemma_models_index(nodes.drop_last());
    }
}

/// Appending a node appends its identifiers.
pub proof fn lemma_forest_ids_push(nodes: Seq<NodeView>, node: NodeView)
    ensures
        forest_ids(nodes.push(node)) == forest_ids(nodes) + node_ids(node),
{
    assert(nodes.push(node).drop_last() =~= nodes);
}

/// The identifiers of two runs of nodes, one after the other.
pub proof fn lemma_forest_ids_concat(a: Seq<NodeView>, b: Seq<NodeView>)
    ensures
        forest_ids(a + b) == forest_ids(a) + forest_ids(b),
    decreases b.len(),
{
    if b.len() == 0 {
        assert(a + b =~= a);
        assert(forest_ids(a) + forest_ids(b) =~= forest_ids(a));
    } else {
        lemma_forest_ids_concat(a, b.drop_last());
        assert((a + b).drop_last() =~= a + b.drop_last());
        assert(forest_ids(a + b) =~= forest_ids(a) + forest_ids(b));
    }
}

impl MenuNode {
    /// An action entry known as `id`, which shows `label` and is chosen by
    /// the keys of `accelerator`, if there are any.
    pub fn action(id: &str, label: &str, enabled: bool, accelerator: Option<&str>) -> (node:
        MenuNode)
        ensures
            node@ == (NodeView::Action {
                id: id@,
                label: label@,
                accelerator: match accelerator {
                    Some(keys) => Some(keys@),
                    None => None,
                },
                enabled,
            }),
    {
        let accelerator = match accelerator {
            Some(keys) => Some(keys.to_owned()),
            None => None,
        };
        MenuNode::Action { id: id.to_owned(), label: label.to_owned(), accelerator, enabled }
    }

    /// A submenu with the given children, in the given order.
    pub fn submenu(label: &str, children: Vec<MenuNode>) -> (node: MenuNode)
        ensures
            node@ == (NodeView::Submenu { label: label@, children: models(children@) }),
    {
        MenuNode::Submenu { label: label.to_owned(), children }
    }

    /// Appends to `out` the identifiers of the action entries at or below
    /// this node, in display order.
    pub fn collect_ids(&self, out: &mut Vec<String>)
        ensures
            texts(final(out)@) == texts(old(out)@) + node_ids(self@),
        decreases self,
    {
        match self {
            MenuNode::Action { id, .. } => {
                out.push(id.clone());
                assert(texts(out@) =~= texts(old(out)@) + node_ids(self@));
            },
            MenuNode::Predefined(_) => {
                assert(texts(out@) =~= texts(old(out)@) + node_ids(self@));
            },
            MenuNode::Separator => {
                assert(texts(out@) =~= texts(old(out)@) + node_ids(self@));
            },
            MenuNode::Submenu { children, .. } => {
                proof {
                    lemma_models_index(children@);
                }
                let mut i: usize = 0;
                assert(models(children@).take(0) =~= Seq::<NodeView>::empty());
                assert(texts(out@) =~= texts(old(out)@) + forest_ids(models(children@).take(0)));
                while i < children.len()
                    invariant
                        i <= children.len(),
                        texts(out@) == texts(old(out)@) + forest_ids(
                            models(children@).take(i as int),
                        ),
                        forall|k: int|
                            0 <= k < children.len() ==> decreases_to!(self => #[trigger] children[k]),
                    decreases children.len() - i,
                {
                    children[i].collect_ids(out);
                    proof {
                        let all = models(children@);
                        lemma_models_index(children@);
                        assert(all.take(i + 1) =~= all.take(i as int).push(children[i as int]@));
                        lemma_forest_ids_push(all.take(i as int), children[i as int]@);
                        assert(texts(out@) =~= texts(old(out)@) + forest_ids(all.take(i + 1)));
                    }
                    i += 1;
                }
                assert(models(children@).take(i as int) =~= models(children@));
            },
        }
    }
}

} // verus!
