//! The entity model: servers, channels, messages and users.
//!
//! Each type has a view that holds its strings as sequences of characters
//! and its vectors as sequences of views. All contracts of the crate are
//! stated over these views.

use vstd::prelude::*;

verus! {

/// What a channel is for.
#[derive(Clone, Copy, PartialEq, Eq, Debug, Structural)]
pub enum ChannelType {
    Text,
    Voice,
    Category,
}

impl ChannelType {
    pub fn is_text(&self) -> (b: bool)
        ensures
            b == (*self == ChannelType::Text),
    {
        match self {
            ChannelType::Text => true,
            _ => false,
        }
    }

    pub fn is_category(&self) -> (b: bool)
        ensures
            b == (*self == ChannelType::Category),
    {
        match self {
            ChannelType::Category => true,
            _ => false,
        }
    }
}

/// A user's presence.
#[derive(Clone, Copy, PartialEq, Eq, Debug, Structural)]
pub enum UserStatus {
    Online,
    Idle,
    DoNotDisturb,
    Offline,
}

/// The views of the elements of `s`, in order.
pub open spec fn views<T: View>(s: Seq<T>) -> Seq<T::V> {
    s.map_values(|x: T| x@)
}

/// Someone who can write messages and has a presence.
#[derive(PartialEq, Eq, Debug)]
pub struct User {
    pub id: String,
    pub username: String,
    /// A url, or empty.
    pub avatar: String,
    pub status: UserStatus,
}

pub struct UserView {
    pub id: Seq<char>,
    pub username: Seq<char>,
    pub avatar: Seq<char>,
    pub status: UserStatus,
}

impl View for User {
    type V = UserView;

    open spec fn view(&self) -> UserView {
        UserView {
            id: self.id@,
            username: self.username@,
            avatar: self.avatar@,
            status: self.status,
        }
    }
}

impl Clone for User {
    fn clone(&self) -> (r: Self)
        ensures
            r == *self,
    {
        User {
            id: self.id.clone(),
            username: self.username.clone(),
            avatar: self.avatar.clone(),
            status: self.status,
        }
    }
}

/// A message of a channel.
#[derive(PartialEq, Eq, Debug)]
pub struct Message {
    pub id: String,
    pub content: String,
    pub author: User,
    /// Shown as it is; never parsed.
    pub timestamp: String,
}

pub struct MessageView {
    pub id: Seq<char>,
    pub content: Seq<char>,
    pub author: UserView,
    pub timestamp: Seq<char>,
}

impl View for Message {
    type V = MessageView;

    open spec fn view(&self) -> MessageView {
        MessageView {
            id: self.id@,
            content: self.content@,
            author: self.author@,
            timestamp: self.timestamp@,
        }
    }
}

impl Clone for Message {
    fn clone(&self) -> (r: Self)
        ensures
            r == *self,
    {
        Message {
            id: self.id.clone(),
            content: self.content.clone(),
            author: self.author.clone(),
            timestamp: self.timestamp.clone(),
        }
    }
}

/// A channel of a server. A category only groups other channels: it is
/// never listed for navigation and carries no messages.
#[derive(PartialEq, Eq, Debug)]
pub struct Channel {
    /// Unique within its server.
    pub id: String,
    pub name: String,
    pub channel_type: ChannelType,
    /// The id of the category that groups this channel, if any.
    pub parent_id: Option<String>,
    pub messages: Vec<Message>,
}

pub struct ChannelView {
    pub id: Seq<char>,
    pub name: Seq<char>,
    pub channel_type: ChannelType,
    pub parent_id: Option<Seq<char>>,
    pub messages: Seq<MessageView>,
}

impl View for Channel {
    type V = ChannelView;

    open spec fn view(&self) -> ChannelView {
        ChannelView {
            id: self.id@,
            name: self.name@,
            channel_type: self.channel_type,
            parent_id: match self.parent_id {
                Some(p) => Some(p@),
                None => None,
            },
            messages: views(self.messages@),
        }
    }
}

impl Clone for Channel {
    fn clone(&self) -> (r: Self)
        ensures
            r@ == self@,
    {
        let r = Channel {
            id: self.id.clone(),
            name: self.name.clone(),
            channel_type: self.channel_type,
            parent_id: match &self.parent_id {
                Some(p) => Some(p.clone()),
                None => None,
            },
            messages: self.messages.clone(),
        };
        assert(views(r.messages@) =~= views(self.messages@));
        r
    }
}

/// A community that the user can switch into, with its channels in the
/// order in which they were declared.
#[derive(PartialEq, Eq, Debug)]
pub struct Server {
    pub id: String,
    pub name: String,
    /// A glyph, or empty.
    pub icon: String,
    pub channels: Vec<Channel>,
}

pub struct ServerView {
    pub id: Seq<char>,
    pub name: Seq<char>,
    pub icon: Seq<char>,
    pub channels: Seq<ChannelView>,
}

impl View for Server {
    type V = ServerView;

    open spec fn view(&self) -> ServerView {
        ServerView {
            id: self.id@,
            name: self.name@,
            icon: self.icon@,
            channels: views(self.channels@),
        }
    }
}

impl Clone for Server {
    fn clone(&self) -> (r: Self)
        ensures
            r@ == self@,
    {
        let r = Server {
            id: self.id.clone(),
            name: self.name.clone(),
            icon: self.icon.clone(),
            channels: self.channels.clone(),
        };
        assert(views(r.channels@) =~= views(self.channels@));
        r
    }
}

} // verus!
