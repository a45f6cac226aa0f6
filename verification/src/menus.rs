//! The menus of the application, one by one.
//!
//! Each menu is stated twice: as a model, which says what the menu holds, and
//! as a function that builds the menu and is proved to build exactly the model.

use crate::node::{lemma_models_index, models, MenuNode, NodeView, Predefined};
use vstd::prelude::*;

verus! {

/// The model of an enabled action entry.
pub open spec fn entry(id: Seq<char>, label: Seq<char>, accelerator: Option<Seq<char>>) -> NodeView {
    NodeView::Action { id, label, accelerator, enabled: true }
}

/// The model of an entry that the host handles.
pub open spec fn host(kind: Predefined) -> NodeView {
    NodeView::Predefined(kind)
}

/// The entries of the application menu: about, the three that hide and show
/// windows, and quit, each group set off by a separator.
pub open spec fn app_entries() -> Seq<NodeView> {
    seq![
        host(Predefined::About),
        NodeView::Separator,
        host(Predefined::Hide),
        host(Predefined::HideOthers),
        host(Predefined::ShowAll),
        NodeView::Separator,
        host(Predefined::Quit),
    ]
}

/// The entries of the File menu: the four that create, open and save, then
/// rename, then close-window, each group set off by a separator.
pub open spec fn file_entries() -> Seq<NodeView> {
    seq![
        entry("file.new"@, "New"@, Some("CmdOrCtrl+N"@)),
        entry("file.open"@, "Open..."@, Some("CmdOrCtrl+O"@)),
        entry("file.save"@, "Save"@, Some("CmdOrCtrl+S"@)),
        entry("file.save_as"@, "Save As..."@, Some("CmdOrCtrl+Shift+S"@)),
        NodeView::Separator,
        entry("file.rename"@, "Rename..."@, Some("CmdOrCtrl+Shift+R"@)),
        NodeView::Separator,
        host(Predefined::CloseWindow),
    ]
}

/// The entries of the Edit menu, all handled by the host: undo and redo, the
/// clipboard, and select-all, each group set off by a separator.
pub open spec fn edit_entries() -> Seq<NodeView> {
    seq![
        host(Predefined::Undo),
        host(Predefined::Redo),
        NodeView::Separator,
        host(Predefined::Cut),
        host(Predefined::Copy),
        host(Predefined::Paste),
        NodeView::Separator,
        host(Predefined::SelectAll),
    ]
}

/// The entries of the View menu: fonts, widths, zoom and themes, each group
/// set off by a separator.
pub open spec fn view_entries() -> Seq<NodeView> {
    seq![
        entry("view.font.serif"@, "Serif Font"@, None),
        entry("view.font.sans"@, "Sans Font"@, None),
        entry("view.font.mono"@, "Mono Font"@, None),
        NodeView::Separator,
        entry("view.width.narrow"@, "Narrow Width"@, None),
        entry("view.width.wide"@, "Wide Width"@, None),
        NodeView::Separator,
        entry("view.zoom_in"@, "Zoom In"@, Some("CmdOrCtrl+="@)),
        entry("view.zoom_out"@, "Zoom Out"@, Some("CmdOrCtrl+-"@)),
        entry("view.zoom_reset"@, "Actual Size"@, Some("CmdOrCtrl+0"@)),
        NodeView::Separator,
        entry("view.theme.system"@, "Theme: System"@, None),
        entry("view.theme.light"@, "Theme: Light"@, None),
        entry("view.theme.dark"@, "Theme: Dark"@, None),
    ]
}

/// The entries of the Window menu, all handled by the host.
pub open spec fn window_entries() -> Seq<NodeView> {
    seq![
        host(Predefined::Minimize),
        host(Predefined::Maximize),
        NodeView::Separator,
        host(Predefined::CloseWindow),
    ]
}

/// The one entry of the Help menu.
pub open spec fn help_entries() -> Seq<NodeView> {
    seq![entry("help.docs"@, "Writing Tips"@, None)]
}

/// The application menu, which carries the application's name.
pub open spec fn app_menu_model() -> NodeView {
    NodeView::Submenu { label: "Jot"@, children: app_entries() }
}

/// The File menu.
pub open spec fn file_menu_model() -> NodeView {
    NodeView::Submenu { label: "File"@, children: file_entries() }
}

/// The Edit menu.
pub open spec fn edit_menu_model() -> NodeView {
    NodeView::Submenu { label: "Edit"@, children: edit_entries() }
}

/// The View menu.
pub open spec fn view_menu_model() -> NodeView {
    NodeView::Submenu { label: "View"@, children: view_entries() }
}

/// The Window menu.
pub open spec fn window_menu_model() -> NodeView {
    NodeView::Submenu { label: "Window"@, children: window_entries() }
}

/// The Help menu.
pub open spec fn help_menu_model() -> NodeView {
    NodeView::Submenu { label: "Help"@, children: help_entries() }
}

/// Builds the application menu.
pub fn app_menu() -> (menu: MenuNode)
    ensures
        menu@ == app_menu_model(),
{
    let mut items: Vec<MenuNode> = Vec::new();
    items.push(MenuNode::Predefined(Predefined::About));
    items.push(MenuNode::Separator);
    items.push(MenuNode::Predefined(Predefined::Hide));
    items.push(MenuNode::Predefined(Predefined::HideOthers));
    items.push(MenuNode::Predefined(Predefined::ShowAll));
    items.push(MenuNode::Separator);
    items.push(MenuNode::Predefined(Predefined::Quit));
    proof {
        lemma_models_index(items@);
        assert(models(items@) =~= app_entries());
    }
    MenuNode::submenu("Jot", items)
}

/// Builds the File menu.
pub fn file_menu() -> (menu: MenuNode)
    ensures
        menu@ == file_menu_model(),
{
    let mut items: Vec<MenuNode> = Vec::new();
    items.push(MenuNode::action("file.new", "New", true, Some("CmdOrCtrl+N")));
    items.push(MenuNode::action("file.open", "Open...", true, Some("CmdOrCtrl+O")));
    items.push(MenuNode::action("file.save", "Save", true, Some("CmdOrCtrl+S")));
    items.push(MenuNode::action("file.save_as", "Save As...", true, Some("CmdOrCtrl+Shift+S")));
    items.push(MenuNode::Separator);
    items.push(MenuNode::action("file.rename", "Rename...", true, Some("CmdOrCtrl+Shift+R")));
    items.push(MenuNode::Separator);
    items.push(MenuNode::Predefined(Predefined::CloseWindow));
    proof {
        lemma_models_index(items@);
        assert(models(items@) =~= file_entries());
    }
    MenuNode::submenu("File", items)
}

/// Builds the Edit menu.
pub fn edit_menu() -> (menu: MenuNode)
    ensures
        menu@ == edit_menu_model(),
{
    let mut items: Vec<MenuNode> = Vec::new();
    items.push(MenuNode::Predefined(Predefined::Undo));
    items.push(MenuNode::Predefined(Predefined::Redo));
    items.push(MenuNode::Separator);
    items.push(MenuNode::Predefined(Predefined::Cut));
    items.push(MenuNode::Predefined(Predefined::Copy));
    items.push(MenuNode::Predefined(Predefined::Paste));
    items.push(MenuNode::Separator);
    items.push(MenuNode::Predefined(Predefined::SelectAll));
    proof {
        lemma_models_index(items@);
        assert(models(items@) =~= edit_entries());
    }
    MenuNode::submenu("Edit", items)
}

/// Builds the View menu.
pub fn view_menu() -> (menu: MenuNode)
    ensures
        menu@ == view_menu_model(),
{
    let mut items: Vec<MenuNode> = Vec::new();
    items.push(MenuNode::action("view.font.serif", "Serif Font", true, None));
    items.push(MenuNode::action("view.font.sans", "Sans Font", true, None));
    items.push(MenuNode::action("view.font.mono", "Mono Font", true, None));
    items.push(MenuNode::Separator);
    items.push(MenuNode::action("view.width.narrow", "Narrow Width", true, None));
    items.push(MenuNode::action("view.width.wide", "Wide Width", true, None));
    items.push(MenuNode::Separator);
    items.push(MenuNode::action("view.zoom_in", "Zoom In", true, Some("CmdOrCtrl+=")));
    items.push(MenuNode::action("view.zoom_out", "Zoom Out", true, Some("CmdOrCtrl+-")));
    items.push(MenuNode::action("view.zoom_reset", "Actual Size", true, Some("CmdOrCtrl+0")));
    items.push(MenuNode::Separator);
    items.push(MenuNode::action("view.theme.system", "Theme: System", true, None));
    items.push(MenuNode::action("view.theme.light", "Theme: Light", true, None));
    items.push(MenuNode::action("view.theme.dark", "Theme: Dark", true, None));
    proof {
        lemma_models_index(items@);
        assert(models(items@) =~= view_entries());
    }
    MenuNode::submenu("View", items)
}

/// Builds the Window menu.
pub fn window_menu() -> (menu: MenuNode)
    ensures
        menu@ == window_menu_model(),
{
    let mut items: Vec<MenuNode> = Vec::new();
    items.push(MenuNode::Predefined(Predefined::Minimize));
    items.push(MenuNode::Predefined(Predefined::Maximize));
    items.push(MenuNode::Separator);
    items.push(MenuNode::Predefined(Predefined::CloseWindow));
    proof {
        lemma_models_index(items@);
        assert(models(items@) =~= window_entries());
    }
    MenuNode::submenu("Window", items)
}

/// Builds the Help menu.
pub fn help_menu() -> (menu: MenuNode)
    ensures
        menu@ == help_menu_model(),
{
    let mut items: Vec<MenuNode> = Vec::new();
    items.push(MenuNode::action("help.docs", "Writing Tips", true, None));
    proof {
        lemma_models_index(items@);
        assert(models(items@) =~= help_entries());
    }
    MenuNode::submenu("Help", items)
}

} // verus!
