//! The selection state of a session: which server and which channel are
//! active, and the text that is being composed.
//!
//! The state stores ids and never checks them against the entity model when
//! they are set. They are resolved when they are read, with a fallback, so
//! that a stale id still leads to something that can be shown.

use crate::model::{Channel, ChannelView, Server, ServerView};
use crate::workspace::{Workspace, WorkspaceView};
use vstd::prelude::*;

verus! {

pub struct SelectionView {
    pub active_server_id: Seq<char>,
    pub active_channel_id: Seq<char>,
    pub compose_draft: Seq<char>,
}

impl SelectionView {
    /// The state of a session that begins with the guess `server_id`,
    /// `channel_id`.
    pub open spec fn initial(server_id: Seq<char>, channel_id: Seq<char>) -> SelectionView {
        SelectionView {
            active_server_id: server_id,
            active_channel_id: channel_id,
            compose_draft: Seq::empty(),
        }
    }

    /// The active server becomes `id`, whether or not a server has that id.
    /// The active channel stays.
    pub open spec fn select_server(self, id: Seq<char>) -> SelectionView {
        SelectionView { active_server_id: id, ..self }
    }

    /// The active channel becomes `id` if the channel of `server` that `id`
    /// refers to is a text channel; otherwise nothing changes.
    pub open spec fn select_channel(self, server: ServerView, id: Seq<char>) -> SelectionView {
        if server.refers_to_text_channel(id) {
            SelectionView { active_channel_id: id, ..self }
        } else {
            self
        }
    }

    pub open spec fn set_compose_draft(self, text: Seq<char>) -> SelectionView {
        SelectionView { compose_draft: text, ..self }
    }

    pub open spec fn clear_compose_draft(self) -> SelectionView {
        SelectionView { compose_draft: Seq::empty(), ..self }
    }

    /// The server that is shown: the first with the active id, else the
    /// first of all.
    pub open spec fn active_server(self, w: WorkspaceView) -> ServerView {
        w.servers[w.resolve_server(self.active_server_id)]
    }

    /// The channel that is shown: of the server that is shown, the first
    /// text channel with the active id, else the first channel.
    pub open spec fn active_channel(self, w: WorkspaceView) -> ChannelView {
        let server = self.active_server(w);
        server.channels[server.resolve_channel(self.active_channel_id)]
    }
}

#[derive(PartialEq, Eq, Debug)]
pub struct SelectionState {
    active_server_id: String,
    active_channel_id: String,
    compose_draft: String,
}

impl View for SelectionState {
    type V = SelectionView;

    closed spec fn view(&self) -> SelectionView {
        SelectionView {
            active_server_id: self.active_server_id@,
            active_channel_id: self.active_channel_id@,
            compose_draft: self.compose_draft@,
        }
    }
}

impl Clone for SelectionState {
    fn clone(&self) -> (r: Self)
        ensures
            r@ == self@,
    {
        SelectionState {
            active_server_id: self.active_server_id.clone(),
            active_channel_id: self.active_channel_id.clone(),
            compose_draft: self.compose_draft.clone(),
        }
    }
}

impl SelectionState {
    /// The state at the start of a session: a first guess at the active
    /// server and channel, which need not exist, and an empty draft.
    pub fn new(active_server_id: String, active_channel_id: String) -> (r: SelectionState)
        ensures
            r@ == SelectionView::initial(active_server_id@, active_channel_id@),
    {
        SelectionState { active_server_id, active_channel_id, compose_draft: String::new() }
    }

    pub fn active_server_id(&self) -> (r: &String)
        ensures
            r@ == self@.active_server_id,
    {
        &self.active_server_id
    }

    pub fn active_channel_id(&self) -> (r: &String)
        ensures
            r@ == self@.active_channel_id,
    {
        &self.active_channel_id
    }

    pub fn compose_draft(&self) -> (r: &String)
        ensures
            r@ == self@.compose_draft,
    {
        &self.compose_draft
    }

    pub fn select_server(&mut self, id: String)
        ensures
            final(self)@ == old(self)@.select_server(id@),
    {
        self.active_server_id = id;
    }

    /// Accepts `id` as the active channel only if it refers to a text
    /// channel of `server`; a voice channel, a category or an unknown id
    /// changes nothing.
    pub fn select_channel(&mut self, server: &Server, id: String)
        ensures
            final(self)@ == old(self)@.select_channel(server@, id@),
    {
        match server.find_channel(&id) {
            Ok(i) => {
                if server.channels[i].channel_type.is_text() {
                    self.active_channel_id = id;
                }
            },
            Err(_) => {},
        }
    }

    pub fn set_compose_draft(&mut self, text: String)
        ensures
            final(self)@ == old(self)@.set_compose_draft(text@),
    {
        self.compose_draft = text;
    }

    pub fn clear_compose_draft(&mut self)
        ensures
            final(self)@ == old(self)@.clear_compose_draft(),
    {
        self.compose_draft = String::new();
    }

    /// The server to show. It is always one of the workspace's servers: the
    /// first with the active id, or the first of all when none has it.
    pub fn resolve_active_server<'a>(&self, model: &'a Workspace) -> (r: &'a Server)
        ensures
            0 <= model@.resolve_server(self@.active_server_id) < model@.servers.len(),
            r@ == model@.servers[model@.resolve_server(self@.active_server_id)],
            r@.channels.len() > 0,
    {
        let servers = model.servers();
        match model.find_server(&self.active_server_id) {
            Ok(i) => &servers[i],
            Err(_) => &servers[0],
        }
    }

    /// The channel to show. It is always one of `server`'s channels: the
    /// first text channel with the active id, or the server's first channel,
    /// whatever its kind, when there is none.
    pub fn resolve_active_channel<'a>(&self, server: &'a Server) -> (r: &'a Channel)
        requires
            server@.channels.len() > 0,
        ensures
            0 <= server@.resolve_channel(self@.active_channel_id) < server@.channels.len(),
            r@ == server@.channels[server@.resolve_channel(self@.active_channel_id)],
    {
        match server.find_text_channel(&self.active_channel_id) {
            Ok(i) => &server.channels[i],
            Err(_) => &server.channels[0],
        }
    }
}

} // verus!
