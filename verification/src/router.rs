//! The event router: the one place where interaction changes the selection
//! state. A submitted draft leaves as an `OutgoingMessage` for the caller to
//! hand to a transport; it is never appended to the entity model here.

use crate::error::CoreError;
use crate::model::{User, UserView};
use crate::selection::{SelectionState, SelectionView};
use crate::text::{trim, trimmed};
use crate::workspace::{Workspace, WorkspaceView};
use vstd::prelude::*;

verus! {

/// The key of a key press in the compose box, as far as the router cares.
#[derive(Clone, Copy, PartialEq, Eq, Debug, Structural)]
pub enum Key {
    Enter,
    Other,
}

#[derive(PartialEq, Eq, Debug)]
pub enum Event {
    ServerIconClicked(String),
    ChannelRowClicked(String),
    ComposeInputChanged(String),
    ComposeSubmit,
    ComposeKeydown { key: Key, shift_held: bool },
}

pub enum EventView {
    ServerIconClicked(Seq<char>),
    ChannelRowClicked(Seq<char>),
    ComposeInputChanged(Seq<char>),
    ComposeSubmit,
    ComposeKeydown { key: Key, shift_held: bool },
}

impl View for Event {
    type V = EventView;

    open spec fn view(&self) -> EventView {
        match self {
            Event::ServerIconClicked(id) => EventView::ServerIconClicked(id@),
            Event::ChannelRowClicked(id) => EventView::ChannelRowClicked(id@),
            Event::ComposeInputChanged(text) => EventView::ComposeInputChanged(text@),
            Event::ComposeSubmit => EventView::ComposeSubmit,
            Event::ComposeKeydown { key, shift_held } => EventView::ComposeKeydown {
                key: *key,
                shift_held: *shift_held,
            },
        }
    }
}

impl Clone for Event {
    fn clone(&self) -> (r: Self)
        ensures
            r@ == self@,
    {
        match self {
            Event::ServerIconClicked(id) => Event::ServerIconClicked(id.clone()),
            Event::ChannelRowClicked(id) => Event::ChannelRowClicked(id.clone()),
            Event::ComposeInputChanged(text) => Event::ComposeInputChanged(text.clone()),
            Event::ComposeSubmit => Event::ComposeSubmit,
            Event::ComposeKeydown { key, shift_held } => Event::ComposeKeydown {
                key: *key,
                shift_held: *shift_held,
            },
        }
    }
}

impl Event {
    /// Whether the event asks for the draft to be sent.
    pub fn is_submit(&self) -> (b: bool)
        ensures
            b == self@.is_submit(),
    {
        match self {
            Event::ComposeSubmit => true,
            Event::ComposeKeydown { key, shift_held } => *key == Key::Enter && !*shift_held,
            _ => false,
        }
    }
}

/// A message on its way to the transport.
#[derive(PartialEq, Eq, Debug)]
pub struct OutgoingMessage {
    pub channel_id: String,
    pub content: String,
    pub author: User,
}

pub struct OutgoingMessageView {
    pub channel_id: Seq<char>,
    pub content: Seq<char>,
    pub author: UserView,
}

impl View for OutgoingMessage {
    type V = OutgoingMessageView;

    open spec fn view(&self) -> OutgoingMessageView {
        OutgoingMessageView {
            channel_id: self.channel_id@,
            content: self.content@,
            author: self.author@,
        }
    }
}

impl Clone for OutgoingMessage {
    fn clone(&self) -> (r: Self)
        ensures
            r@ == self@,
    {
        OutgoingMessage {
            channel_id: self.channel_id.clone(),
            content: self.content.clone(),
            author: self.author.clone(),
        }
    }
}

impl SelectionView {
    /// Whether a submit sends anything: the draft is not blank.
    pub open spec fn submits(self) -> bool {
        trimmed(self.compose_draft).len() > 0
    }

    /// The message that a submit sends: the trimmed draft, addressed to the
    /// active channel id.
    pub open spec fn outgoing(self, author: UserView) -> OutgoingMessageView {
        OutgoingMessageView {
            channel_id: self.active_channel_id,
            content: trimmed(self.compose_draft),
            author,
        }
    }

    /// The state after a submit: the draft is cleared if it was sent and
    /// left as it is if it was blank.
    pub open spec fn after_submit(self) -> SelectionView {
        if self.submits() {
            self.clear_compose_draft()
        } else {
            self
        }
    }
}

impl EventView {
    /// Whether the event asks for the draft to be sent: a submit, or Enter
    /// without Shift.
    pub open spec fn is_submit(self) -> bool {
        match self {
            EventView::ComposeSubmit => true,
            EventView::ComposeKeydown { key, shift_held } => key == Key::Enter && !shift_held,
            _ => false,
        }
    }
}

/// The selection state after `e`. A click on a server icon selects the
/// server if the workspace has one with that id. A click on a channel row
/// selects the channel if the id refers to a text channel of the server that
/// is shown. A change of the input sets the draft. A submit, or Enter
/// without Shift, clears the draft if it was sent. Any other key press
/// changes nothing.
pub open spec fn next_state(s: SelectionView, w: WorkspaceView, e: EventView) -> SelectionView {
    match e {
        EventView::ServerIconClicked(id) => if w.has_server(id) {
            s.select_server(id)
        } else {
            s
        },
        EventView::ChannelRowClicked(id) => s.select_channel(s.active_server(w), id),
        EventView::ComposeInputChanged(text) => s.set_compose_draft(text),
        _ => if e.is_submit() {
            s.after_submit()
        } else {
            s
        },
    }
}

/// What `e` sends, if anything: a submit of a draft that is not blank sends
/// one message, and nothing else sends.
pub open spec fn emitted(s: SelectionView, e: EventView, author: UserView) -> Option<
    OutgoingMessageView,
> {
    if e.is_submit() && s.submits() {
        Some(s.outgoing(author))
    } else {
        None
    }
}

/// Whether a submit would send anything: the send button is disabled when
/// it would not.
pub fn can_submit(state: &SelectionState) -> (b: bool)
    ensures
        b == state@.submits(),
{
    !trim(state.compose_draft().as_str()).is_empty()
}

/// Sends `content`, the draft already trimmed, unless it is empty. What is
/// sent goes to the active channel id as it stands in the state, and the
/// draft is cleared. Empty content changes nothing.
pub fn submit_content(state: &mut SelectionState, content: String, author: &User) -> (r: Result<
    OutgoingMessage,
    CoreError,
>)
    ensures
        match r {
            Ok(m) => {
                &&& content@.len() > 0
                &&& m@ == (OutgoingMessageView {
                    channel_id: old(state)@.active_channel_id,
                    content: content@,
                    author: author@,
                })
                &&& final(state)@ == old(state)@.clear_compose_draft()
            },
            Err(e) => {
                &&& e == CoreError::InvalidComposeSubmission
                &&& content@.len() == 0
                &&& final(state)@ == old(state)@
            },
        },
{
    if content.as_str().is_empty() {
        return Err(CoreError::InvalidComposeSubmission);
    }
    let message = OutgoingMessage {
        channel_id: state.active_channel_id().clone(),
        content,
        author: author.clone(),
    };
    state.clear_compose_draft();
    Ok(message)
}

/// Sends the trimmed draft, unless it is blank: then nothing is sent and
/// the draft stays as it is.
pub fn compose_submit(state: &mut SelectionState, author: &User) -> (r: Result<
    OutgoingMessage,
    CoreError,
>)
    ensures
        final(state)@ == old(state)@.after_submit(),
        match r {
            Ok(m) => old(state)@.submits() && m@ == old(state)@.outgoing(author@),
            Err(e) => e == CoreError::InvalidComposeSubmission && !old(state)@.submits(),
        },
{
    let content = trim(state.compose_draft().as_str()).to_owned();
    submit_content(state, content, author)
}

/// Applies one event to the selection state and returns what is to be sent.
pub fn handle_event(
    state: &mut SelectionState,
    model: &Workspace,
    current_user: &User,
    event: Event,
) -> (out: Option<OutgoingMessage>)
    ensures
        final(state)@ == next_state(old(state)@, model@, event@),
        match out {
            Some(m) => emitted(old(state)@, event@, current_user@) == Some(m@),
            None => emitted(old(state)@, event@, current_user@) is None,
        },
{
    match event {
        Event::ServerIconClicked(id) => {
            if model.find_server(&id).is_ok() {
                state.select_server(id);
            }
            None
        },
        Event::ChannelRowClicked(id) => {
            let server = state.resolve_active_server(model);
            state.select_channel(server, id);
            None
        },
        Event::ComposeInputChanged(text) => {
            state.set_compose_draft(text);
            None
        },
        other => {
            if other.is_submit() {
                match compose_submit(state, current_user) {
                    Ok(m) => Some(m),
                    Err(_) => None,
                }
            } else {
                None
            }
        },
    }
}

} // verus!
