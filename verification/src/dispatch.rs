//! Routing of chosen menu entries to the program.
//!
//! The host reports each chosen entry by an identifier. An identifier of one
//! of the application's actions is passed on, once, as a notification on the
//! action channel; every other identifier is left to the host.

use crate::actions::{is_action, is_action_id};
use crate::node::{MenuNode, NodeView};
use vstd::prelude::*;

verus! {

/// The name of the channel on which chosen actions are announced.
pub open spec fn action_channel() -> Seq<char> {
    "menu-action"@
}

/// A message to the program: an action was chosen.
#[derive(Debug, PartialEq, Eq)]
pub struct Notification {
    /// The channel on which the message goes out.
    pub channel: String,
    /// The identifier of the chosen action.
    pub payload: String,
}

/// A [`Notification`] as a mathematical value.
pub struct NotificationView {
    pub channel: Seq<char>,
    pub payload: Seq<char>,
}

impl View for Notification {
    type V = NotificationView;

    open spec fn view(&self) -> NotificationView {
        NotificationView { channel: self.channel@, payload: self.payload@ }
    }
}

/// The notification that announces the action `id`.
pub open spec fn announcement(id: Seq<char>) -> NotificationView {
    NotificationView { channel: action_channel(), payload: id }
}

/// What the choice of the entry known as `id` sends out: the announcement of
/// `id` where it names an action, nothing otherwise.
pub open spec fn outcome(id: Seq<char>) -> Option<NotificationView> {
    if is_action(id) {
        Some(announcement(id))
    } else {
        None
    }
}

/// What the choice of a node sends out. Only action entries carry an
/// identifier of the application; the host handles the other nodes alone.
pub open spec fn node_outcome(node: NodeView) -> Option<NotificationView> {
    match node {
        NodeView::Action { id, .. } => outcome(id),
        _ => None,
    }
}

/// What a run of choices sends out: the outcome of each, in order.
pub open spec fn outcomes(ids: Seq<Seq<char>>) -> Seq<NotificationView>
    decreases ids.len(),
{
    if ids.len() == 0 {
        Seq::empty()
    } else {
        let earlier = outcomes(ids.drop_last());
        match outcome(ids.last()) {
            Some(sent) => earlier.push(sent),
            None => earlier,
        }
    }
}

/// The model of an optional notification.
pub open spec fn opt_notification(sent: Option<Notification>) -> Option<NotificationView> {
    match sent {
        Some(n) => Some(n@),
        None => None,
    }
}

/// The models of a sequence of notifications, in the same order.
pub open spec fn notifications(sent: Seq<Notification>) -> Seq<NotificationView> {
    Seq::new(sent.len(), |i: int| sent[i]@)
}

/// Decides what the choice of the entry known as `id` sends out.
pub fn dispatch(id: &str) -> (sent: Option<Notification>)
    ensures
        opt_notification(sent) == outcome(id@),
{
    if is_action_id(id) {
        Some(Notification { channel: "menu-action".to_owned(), payload: id.to_owned() })
    } else {
        None
    }
}

impl MenuNode {
    /// Decides what the choice of this node sends out.
    pub fn activation(&self) -> (sent: Option<Notification>)
        ensures
            opt_notification(sent) == node_outcome(self@),
    {
        match self {
            MenuNode::Action { id, .. } => dispatch(id.as_str()),
            _ => None,
        }
    }
}

/// A listener that keeps every notification it is handed, in order of
/// arrival.
#[derive(Debug, PartialEq, Eq)]
pub struct Recorder {
    sent: Vec<Notification>,
}

impl View for Recorder {
    type V = Seq<NotificationView>;

    closed spec fn view(&self) -> Seq<NotificationView> {
        notifications(self.sent@)
    }
}

impl Recorder {
    /// A recorder that has heard nothing yet.
    pub fn new() -> (recorder: Recorder)
        ensures
            recorder@ == Seq::<NotificationView>::empty(),
    {
        let recorder = Recorder { sent: Vec::new() };
        assert(recorder@ =~= Seq::<NotificationView>::empty());
        recorder
    }

    /// Handles the choice of the entry known as `id`: records what it sends
    /// out, if anything.
    pub fn activate(&mut self, id: &str)
        ensures
            final(self)@ == old(self)@ + outcomes(seq![id@]),
    {
        proof {
            assert(seq![id@].drop_last() =~= Seq::<Seq<char>>::empty());
            assert(outcomes(Seq::<Seq<char>>::empty()) =~= Seq::<NotificationView>::empty());
        }
        match dispatch(id) {
            Some(sent) => {
                self.sent.push(sent);
                assert(self@ =~= old(self)@ + outcomes(seq![id@]));
            },
            None => {
                assert(self@ =~= old(self)@ + outcomes(seq![id@]));
            },
        }
    }

    /// The notifications recorded so far, oldest first.
    pub fn sent(&self) -> (sent: &Vec<Notification>)
        ensures
            notifications(sent@) == self@,
    {
        &self.sent
    }
}

} // verus!
