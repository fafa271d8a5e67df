//! The loaded entity model, held read-only for the length of a session, and
//! the lookups by id in it.

use crate::error::CoreError;
use crate::model::{views, ChannelType, Server, ServerView, User, UserView};
use vstd::prelude::*;

verus! {

pub struct WorkspaceView {
    pub servers: Seq<ServerView>,
    pub users: Seq<UserView>,
}

impl ServerView {
    /// Channel `i` exists and has the id `id`.
    pub open spec fn is_channel(self, i: int, id: Seq<char>) -> bool {
        0 <= i < self.channels.len() && self.channels[i].id == id
    }

    pub open spec fn has_channel(self, id: Seq<char>) -> bool {
        exists|i: int| self.is_channel(i, id)
    }

    /// Channel `i` is the first channel with the id `id`.
    pub open spec fn is_first_channel(self, i: int, id: Seq<char>) -> bool {
        &&& self.is_channel(i, id)
        &&& forall|j: int| 0 <= j < i ==> !self.is_channel(j, id)
    }

    /// The position of the channel that `id` refers to: the first with that
    /// id.
    pub open spec fn first_channel(self, id: Seq<char>) -> int {
        choose|i: int| self.is_first_channel(i, id)
    }

    /// Whether the channel that `id` refers to is a text channel.
    pub open spec fn refers_to_text_channel(self, id: Seq<char>) -> bool {
        self.has_channel(id) && self.channels[self.first_channel(id)].channel_type
            == ChannelType::Text
    }

    /// Channel `i` exists, has the id `id` and is a text channel.
    pub open spec fn is_text_channel(self, i: int, id: Seq<char>) -> bool {
        &&& 0 <= i < self.channels.len()
        &&& self.channels[i].id == id
        &&& self.channels[i].channel_type == ChannelType::Text
    }

    pub open spec fn has_text_channel(self, id: Seq<char>) -> bool {
        exists|i: int| self.is_text_channel(i, id)
    }

    /// Channel `i` is the first text channel with the id `id`.
    pub open spec fn is_first_text_channel(self, i: int, id: Seq<char>) -> bool {
        &&& self.is_text_channel(i, id)
        &&& forall|j: int| 0 <= j < i ==> !self.is_text_channel(j, id)
    }

    /// The position of the first text channel with the id `id`.
    pub open spec fn first_text_channel(self, id: Seq<char>) -> int {
        choose|i: int| self.is_first_text_channel(i, id)
    }

    /// The position of the channel that is shown when `id` is the selected
    /// channel: the first text channel with that id, else the server's first
    /// channel, whatever its kind.
    pub open spec fn resolve_channel(self, id: Seq<char>) -> int {
        if self.has_text_channel(id) {
            self.first_text_channel(id)
        } else {
            0
        }
    }
}

impl ServerView {
    /// No two channels share an id.
    pub open spec fn channel_ids_distinct(self) -> bool {
        forall|i: int, j: int|
            0 <= i < j < self.channels.len() ==> (#[trigger] self.channels[i]).id
                != (#[trigger] self.channels[j]).id
    }

    /// Channel `i` is a category with the id `id`.
    pub open spec fn is_category(self, i: int, id: Seq<char>) -> bool {
        &&& 0 <= i < self.channels.len()
        &&& self.channels[i].id == id
        &&& self.channels[i].channel_type == ChannelType::Category
    }

    /// Every parent reference names a category of this server.
    pub open spec fn parents_are_categories(self) -> bool {
        forall|i: int|
            0 <= i < self.channels.len() ==> match (#[trigger] self.channels[i]).parent_id {
                Some(p) => exists|j: int| self.is_category(j, p),
                None => true,
            }
    }

    /// A category only groups: it carries no messages.
    pub open spec fn categories_are_empty(self) -> bool {
        forall|i: int|
            0 <= i < self.channels.len() && (#[trigger] self.channels[i]).channel_type
                == ChannelType::Category ==> self.channels[i].messages.len() == 0
    }

    /// What the data provider owes of every server.
    pub open spec fn well_formed(self) -> bool {
        &&& self.channels.len() > 0
        &&& self.channel_ids_distinct()
        &&& self.parents_are_categories()
        &&& self.categories_are_empty()
    }
}

/// There is a server, no two servers share an id, and every server is well
/// formed.
pub open spec fn servers_well_formed(servers: Seq<ServerView>) -> bool {
    &&& servers.len() > 0
    &&& forall|i: int, j: int|
        0 <= i < j < servers.len() ==> (#[trigger] servers[i]).id != (#[trigger] servers[j]).id
    &&& forall|i: int| 0 <= i < servers.len() ==> (#[trigger] servers[i]).well_formed()
}

/// No two users share an id.
pub open spec fn user_ids_distinct(users: Seq<UserView>) -> bool {
    forall|i: int, j: int|
        0 <= i < j < users.len() ==> (#[trigger] users[i]).id != (#[trigger] users[j]).id
}

impl WorkspaceView {
    /// What the data provider owes of all it loads. The core itself relies
    /// on `populated` alone.
    pub open spec fn well_formed(self) -> bool {
        servers_well_formed(self.servers) && user_ids_distinct(self.users)
    }

    /// Server `i` exists and has the id `id`.
    pub open spec fn is_server(self, i: int, id: Seq<char>) -> bool {
        0 <= i < self.servers.len() && self.servers[i].id == id
    }

    pub open spec fn has_server(self, id: Seq<char>) -> bool {
        exists|i: int| self.is_server(i, id)
    }

    /// Server `i` is the first server with the id `id`.
    pub open spec fn is_first_server(self, i: int, id: Seq<char>) -> bool {
        &&& self.is_server(i, id)
        &&& forall|j: int| 0 <= j < i ==> !self.is_server(j, id)
    }

    /// The position of the first server with the id `id`.
    pub open spec fn first_server(self, id: Seq<char>) -> int {
        choose|i: int| self.is_first_server(i, id)
    }

    /// The position of the server that is shown when `id` is the selected
    /// server: the first server with that id, else the first server.
    pub open spec fn resolve_server(self, id: Seq<char>) -> int {
        if self.has_server(id) {
            self.first_server(id)
        } else {
            0
        }
    }

    /// There is a server, and every server has a channel: whatever is
    /// selected, something can be shown.
    pub open spec fn populated(self) -> bool {
        &&& self.servers.len() > 0
        &&& forall|i: int|
            0 <= i < self.servers.len() ==> (#[trigger] self.servers[i]).channels.len() > 0
    }
}

/// A server that matches has a first one.
pub proof fn lemma_first_server_exists(w: WorkspaceView, id: Seq<char>, i: int)
    requires
        w.is_server(i, id),
    ensures
        w.has_server(id),
        w.is_first_server(w.first_server(id), id),
        w.first_server(id) <= i,
    decreases i,
{
    if exists|j: int| 0 <= j < i && w.is_server(j, id) {
        let j = choose|j: int| 0 <= j < i && w.is_server(j, id);
        lemma_first_server_exists(w, id, j);
    } else {
        assert(w.is_first_server(i, id));
        let c = w.first_server(id);
        assert(w.is_first_server(c, id));
        assert(c <= i);
    }
}

/// A channel that matches has a first one.
pub proof fn lemma_first_channel_exists(s: ServerView, id: Seq<char>, i: int)
    requires
        s.is_channel(i, id),
    ensures
        s.has_channel(id),
        s.is_first_channel(s.first_channel(id), id),
        s.first_channel(id) <= i,
    decreases i,
{
    if exists|j: int| 0 <= j < i && s.is_channel(j, id) {
        let j = choose|j: int| 0 <= j < i && s.is_channel(j, id);
        lemma_first_channel_exists(s, id, j);
    } else {
        assert(s.is_first_channel(i, id));
        let c = s.first_channel(id);
        assert(s.is_first_channel(c, id));
        assert(c <= i);
    }
}

/// A text channel that matches has a first one.
pub proof fn lemma_first_text_channel_exists(s: ServerView, id: Seq<char>, i: int)
    requires
        s.is_text_channel(i, id),
    ensures
        s.has_text_channel(id),
        s.is_first_text_channel(s.first_text_channel(id), id),
        s.first_text_channel(id) <= i,
    decreases i,
{
    if exists|j: int| 0 <= j < i && s.is_text_channel(j, id) {
        let j = choose|j: int| 0 <= j < i && s.is_text_channel(j, id);
        lemma_first_text_channel_exists(s, id, j);
    } else {
        assert(s.is_first_text_channel(i, id));
        let c = s.first_text_channel(id);
        assert(s.is_first_text_channel(c, id));
        assert(c <= i);
    }
}

impl Server {
    /// The position of the channel that `id` refers to, the first with that
    /// id; `SelectionNotFound` exactly when no channel has it.
    pub fn find_channel(&self, id: &String) -> (r: Result<usize, CoreError>)
        ensures
            match r {
                Ok(i) => self@.is_first_channel(i as int, id@) && i == self@.first_channel(id@),
                Err(e) => e == CoreError::SelectionNotFound && !self@.has_channel(id@),
            },
    {
        let mut i: usize = 0;
        while i < self.channels.len()
            invariant
                0 <= i <= self.channels.len(),
                forall|j: int| 0 <= j < i ==> !self@.is_channel(j, id@),
            decreases self.channels.len() - i,
        {
            if self.channels[i].id == *id {
                proof {
                    assert(self@.is_first_channel(i as int, id@));
                    lemma_first_channel_exists(self@, id@, i as int);
                }
                return Ok(i);
            }
            i += 1;
        }
        Err(CoreError::SelectionNotFound)
    }

    /// The position of the first text channel with the id `id`;
    /// `SelectionNotFound` exactly when no text channel has it.
    pub fn find_text_channel(&self, id: &String) -> (r: Result<usize, CoreError>)
        ensures
            match r {
                Ok(i) => self@.is_first_text_channel(i as int, id@) && i
                    == self@.first_text_channel(id@),
                Err(e) => e == CoreError::SelectionNotFound && !self@.has_text_channel(id@),
            },
    {
        let mut i: usize = 0;
        while i < self.channels.len()
            invariant
                0 <= i <= self.channels.len(),
                forall|j: int| 0 <= j < i ==> !self@.is_text_channel(j, id@),
            decreases self.channels.len() - i,
        {
            if self.channels[i].id == *id && self.channels[i].channel_type.is_text() {
                proof {
                    assert(self@.is_first_text_channel(i as int, id@));
                    lemma_first_text_channel_exists(self@, id@, i as int);
                }
                return Ok(i);
            }
            i += 1;
        }
        Err(CoreError::SelectionNotFound)
    }
}

/// A workspace that passed the activation check.
#[derive(PartialEq, Eq, Debug)]
pub struct Workspace {
    servers: Vec<Server>,
    users: Vec<User>,
}

impl View for Workspace {
    type V = WorkspaceView;

    closed spec fn view(&self) -> WorkspaceView {
        WorkspaceView { servers: views(self.servers@), users: views(self.users@) }
    }
}

impl Clone for Workspace {
    fn clone(&self) -> (r: Self)
        ensures
            r@ == self@,
    {
        proof {
            use_type_invariant(self);
        }
        let servers = self.servers.clone();
        let users = self.users.clone();
        assert(views(servers@) =~= views(self.servers@));
        assert(views(users@) =~= views(self.users@));
        Workspace { servers, users }
    }
}

impl Workspace {
    #[verifier::type_invariant]
    spec fn is_populated(&self) -> bool {
        self@.populated()
    }

    /// Takes what the data provider loaded. Fails with `EmptyWorkspace`
    /// exactly when there is no server or some server has no channel.
    pub fn new(servers: Vec<Server>, users: Vec<User>) -> (r: Result<Workspace, CoreError>)
        ensures
            match r {
                Ok(w) => w@ == (WorkspaceView { servers: views(servers@), users: views(users@) })
                    && w@.populated(),
                Err(e) => e == CoreError::EmptyWorkspace && !(WorkspaceView {
                    servers: views(servers@),
                    users: views(users@),
                }).populated(),
            },
    {
        let ghost w = WorkspaceView { servers: views(servers@), users: views(users@) };
        if servers.len() == 0 {
            return Err(CoreError::EmptyWorkspace);
        }
        let mut i: usize = 0;
        while i < servers.len()
            invariant
                0 <= i <= servers.len(),
                w.servers == views(servers@),
                forall|j: int| 0 <= j < i ==> (#[trigger] w.servers[j]).channels.len() > 0,
            decreases servers.len() - i,
        {
            if servers[i].channels.len() == 0 {
                assert(w.servers[i as int].channels.len() == 0);
                return Err(CoreError::EmptyWorkspace);
            }
            i += 1;
        }
        Ok(Workspace { servers, users })
    }

    /// The servers, in the order in which they were loaded. Every workspace
    /// is populated.
    pub fn servers(&self) -> (r: &Vec<Server>)
        ensures
            views(r@) == self@.servers,
            self@.populated(),
    {
        proof {
            use_type_invariant(self);
        }
        &self.servers
    }

    pub fn users(&self) -> (r: &Vec<User>)
        ensures
            views(r@) == self@.users,
    {
        &self.users
    }

    /// The position of the first server with the id `id`; `SelectionNotFound`
    /// exactly when no server has it.
    pub fn find_server(&self, id: &String) -> (r: Result<usize, CoreError>)
        ensures
            match r {
                Ok(i) => self@.is_first_server(i as int, id@) && i == self@.first_server(id@),
                Err(e) => e == CoreError::SelectionNotFound && !self@.has_server(id@),
            },
    {
        let mut i: usize = 0;
        while i < self.servers.len()
            invariant
                0 <= i <= self.servers.len(),
                forall|j: int| 0 <= j < i ==> !self@.is_server(j, id@),
            decreases self.servers.len() - i,
        {
            if self.servers[i].id == *id {
                proof {
                    assert(self@.is_first_server(i as int, id@));
                    lemma_first_server_exists(self@, id@, i as int);
                }
                return Ok(i);
            }
            i += 1;
        }
        Err(CoreError::SelectionNotFound)
    }
}

} // verus!
