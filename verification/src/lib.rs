//! The application menu of a note editor: the tree of menus that the shell
//! shows, and the routing of chosen entries to the program as named actions.

pub mod actions;
pub mod dispatch;
pub mod laws;
pub mod menus;
pub mod node;
pub mod text;
pub mod tree;
