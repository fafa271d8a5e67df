//! The derived views: what is shown, computed afresh from the entity model
//! and the selection state after every change.

use crate::model::{
    views, Channel, ChannelType, ChannelView, MessageView, Server, ServerView, User, UserStatus,
    UserView,
};
use crate::router::{Event, EventView};
use crate::selection::{SelectionState, SelectionView};
use crate::workspace::{Workspace, WorkspaceView};
use vstd::prelude::*;

verus! {

/// One row of the channel list.
#[derive(PartialEq, Eq, Debug)]
pub struct ChannelNavEntry {
    pub id: String,
    pub name: String,
    pub channel_type: ChannelType,
    pub icon: &'static str,
    /// Whether this row's id is the active channel id.
    pub active: bool,
}

pub struct ChannelNavEntryView {
    pub id: Seq<char>,
    pub name: Seq<char>,
    pub channel_type: ChannelType,
    pub icon: Seq<char>,
    pub active: bool,
}

impl View for ChannelNavEntry {
    type V = ChannelNavEntryView;

    open spec fn view(&self) -> ChannelNavEntryView {
        ChannelNavEntryView {
            id: self.id@,
            name: self.name@,
            channel_type: self.channel_type,
            icon: self.icon@,
            active: self.active,
        }
    }
}

impl Clone for ChannelNavEntry {
    fn clone(&self) -> (r: Self)
        ensures
            r@ == self@,
    {
        ChannelNavEntry {
            id: self.id.clone(),
            name: self.name.clone(),
            channel_type: self.channel_type,
            icon: self.icon,
            active: self.active,
        }
    }
}

impl ChannelNavEntry {
    /// What a click on this row sends to the router.
    pub fn click(&self) -> (e: Event)
        ensures
            e@ == EventView::ChannelRowClicked(self@.id),
    {
        Event::ChannelRowClicked(self.id.clone())
    }
}

/// The icon shown before a channel's name: `#` for a text channel, a
/// loudspeaker for a voice channel, nothing for a category.
pub open spec fn channel_icon(t: ChannelType) -> Seq<char> {
    match t {
        ChannelType::Text => seq!['#'],
        ChannelType::Voice => seq!['\u{1F50A}'],
        ChannelType::Category => Seq::empty(),
    }
}

/// The channels that get a row: all but the categories.
pub open spec fn navigable() -> spec_fn(ChannelView) -> bool {
    |c: ChannelView| c.channel_type != ChannelType::Category
}

/// The row for channel `c` when `active_id` is the active channel id. The
/// row is marked by the id alone, text channel or not.
pub open spec fn nav_entry(c: ChannelView, active_id: Seq<char>) -> ChannelNavEntryView {
    ChannelNavEntryView {
        id: c.id,
        name: c.name,
        channel_type: c.channel_type,
        icon: channel_icon(c.channel_type),
        active: c.id == active_id,
    }
}

pub open spec fn to_nav_entry(active_id: Seq<char>) -> spec_fn(ChannelView) -> ChannelNavEntryView
{
    |c: ChannelView| nav_entry(c, active_id)
}

/// The channel list of `server`: a row for each channel that is no
/// category, in the order of the server's channels.
pub open spec fn channel_nav(server: ServerView, active_id: Seq<char>) -> Seq<
    ChannelNavEntryView,
> {
    server.channels.filter(navigable()).map_values(to_nav_entry(active_id))
}

impl ChannelType {
    /// The icon shown before the name of a channel of this kind.
    pub fn icon(&self) -> (r: &'static str)
        ensures
            r@ == channel_icon(*self),
    {
        proof {
            reveal_strlit("#");
            reveal_strlit("\u{1F50A}");
            reveal_strlit("");
        }
        let r = match self {
            ChannelType::Text => "#",
            ChannelType::Voice => "\u{1F50A}",
            ChannelType::Category => "",
        };
        assert(r@ =~= channel_icon(*self));
        r
    }
}

/// The channel list of `server`, with the row marked whose id is
/// `active_channel_id`.
pub fn compute_channel_nav(server: &Server, active_channel_id: &String) -> (nav: Vec<
    ChannelNavEntry,
>)
    ensures
        views(nav@) == channel_nav(server@, active_channel_id@),
{
    let mut nav: Vec<ChannelNavEntry> = Vec::new();
    let ghost all = server@.channels;
    let ghost f = to_nav_entry(active_channel_id@);
    let mut i: usize = 0;
    assert(all.take(0) =~= Seq::<ChannelView>::empty());
    assert(Seq::<ChannelView>::empty().filter(navigable()) =~= Seq::<ChannelView>::empty()) by {
        reveal(Seq::filter);
    }
    while i < server.channels.len()
        invariant
            0 <= i <= server.channels.len(),
            all == server@.channels,
            f == to_nav_entry(active_channel_id@),
            views(nav@) =~= all.take(i as int).filter(navigable()).map_values(f),
        decreases server.channels.len() - i,
    {
        let c = &server.channels[i];
        proof {
            let before = all.take(i as int);
            assert(all.take(i + 1) =~= before.push(c@));
            before.lemma_filter_push(c@, navigable());
            before.filter(navigable()).lemma_push_map_commute(f, c@);
        }
        if !c.channel_type.is_category() {
            let ghost old_nav = nav@;
            let entry = ChannelNavEntry {
                id: c.id.clone(),
                name: c.name.clone(),
                channel_type: c.channel_type,
                icon: c.channel_type.icon(),
                active: c.id == *active_channel_id,
            };
            assert(entry@ == nav_entry(c@, active_channel_id@));
            nav.push(entry);
            assert(views(nav@) =~= views(old_nav).push(entry@));
        }
        i += 1;
    }
    assert(all.take(i as int) =~= all);
    nav
}

/// The member list: who is online and who is offline. A user who is idle or
/// does not want to be disturbed is in neither group.
#[derive(PartialEq, Eq, Debug)]
pub struct UserRoster {
    pub online: Vec<User>,
    pub offline: Vec<User>,
}

pub struct UserRosterView {
    pub online: Seq<UserView>,
    pub offline: Seq<UserView>,
}

impl View for UserRoster {
    type V = UserRosterView;

    open spec fn view(&self) -> UserRosterView {
        UserRosterView { online: views(self.online@), offline: views(self.offline@) }
    }
}

impl Clone for UserRoster {
    fn clone(&self) -> (r: Self)
        ensures
            r@ == self@,
    {
        let r = UserRoster { online: self.online.clone(), offline: self.offline.clone() };
        assert(views(r.online@) =~= views(self.online@));
        assert(views(r.offline@) =~= views(self.offline@));
        r
    }
}

impl UserRoster {
    pub fn online_count(&self) -> (n: usize)
        ensures
            n == self@.online.len(),
    {
        self.online.len()
    }

    pub fn offline_count(&self) -> (n: usize)
        ensures
            n == self@.offline.len(),
    {
        self.offline.len()
    }
}

/// The users whose status is `status`.
pub open spec fn with_status(status: UserStatus) -> spec_fn(UserView) -> bool {
    |u: UserView| u.status == status
}

/// The two groups of the member list, each in the order of `users`.
pub open spec fn user_roster(users: Seq<UserView>) -> UserRosterView {
    UserRosterView {
        online: users.filter(with_status(UserStatus::Online)),
        offline: users.filter(with_status(UserStatus::Offline)),
    }
}

/// The member list of `users`.
pub fn compute_user_roster(users: &Vec<User>) -> (roster: UserRoster)
    ensures
        roster@ == user_roster(views(users@)),
{
    let mut online: Vec<User> = Vec::new();
    let mut offline: Vec<User> = Vec::new();
    let ghost all = views(users@);
    let ghost on = with_status(UserStatus::Online);
    let ghost off = with_status(UserStatus::Offline);
    let mut i: usize = 0;
    assert(all.take(0) =~= Seq::<UserView>::empty());
    assert(Seq::<UserView>::empty().filter(on) =~= Seq::<UserView>::empty()
        && Seq::<UserView>::empty().filter(off) =~= Seq::<UserView>::empty()) by {
        reveal(Seq::filter);
    }
    while i < users.len()
        invariant
            0 <= i <= users.len(),
            all == views(users@),
            on == with_status(UserStatus::Online),
            off == with_status(UserStatus::Offline),
            views(online@) =~= all.take(i as int).filter(on),
            views(offline@) =~= all.take(i as int).filter(off),
        decreases users.len() - i,
    {
        let u = &users[i];
        proof {
            let before = all.take(i as int);
            assert(all.take(i + 1) =~= before.push(u@));
            before.lemma_filter_push(u@, on);
            before.lemma_filter_push(u@, off);
        }
        if u.status == UserStatus::Online {
            let ghost old_online = online@;
            online.push(u.clone());
            assert(views(online@) =~= views(old_online).push(u@));
        } else if u.status == UserStatus::Offline {
            let ghost old_offline = offline@;
            offline.push(u.clone());
            assert(views(offline@) =~= views(old_offline).push(u@));
        }
        i += 1;
    }
    assert(all.take(i as int) =~= all);
    UserRoster { online, offline }
}

/// One message as it is shown.
#[derive(PartialEq, Eq, Debug)]
pub struct MessageEntry {
    pub id: String,
    pub author_username: String,
    pub timestamp: String,
    pub content: String,
}

pub struct MessageEntryView {
    pub id: Seq<char>,
    pub author_username: Seq<char>,
    pub timestamp: Seq<char>,
    pub content: Seq<char>,
}

impl View for MessageEntry {
    type V = MessageEntryView;

    open spec fn view(&self) -> MessageEntryView {
        MessageEntryView {
            id: self.id@,
            author_username: self.author_username@,
            timestamp: self.timestamp@,
            content: self.content@,
        }
    }
}

impl Clone for MessageEntry {
    fn clone(&self) -> (r: Self)
        ensures
            r@ == self@,
    {
        MessageEntry {
            id: self.id.clone(),
            author_username: self.author_username.clone(),
            timestamp: self.timestamp.clone(),
            content: self.content.clone(),
        }
    }
}

/// What the message pane shows. A channel without messages gives `Empty`,
/// never `Messages` with nothing in it.
#[derive(PartialEq, Eq, Debug)]
pub enum MessageFeed {
    Empty,
    Messages(Vec<MessageEntry>),
}

pub enum MessageFeedView {
    Empty,
    Messages(Seq<MessageEntryView>),
}

impl View for MessageFeed {
    type V = MessageFeedView;

    open spec fn view(&self) -> MessageFeedView {
        match self {
            MessageFeed::Empty => MessageFeedView::Empty,
            MessageFeed::Messages(entries) => MessageFeedView::Messages(views(entries@)),
        }
    }
}

impl Clone for MessageFeed {
    fn clone(&self) -> (r: Self)
        ensures
            r@ == self@,
    {
        match self {
            MessageFeed::Empty => MessageFeed::Empty,
            MessageFeed::Messages(entries) => {
                let copy = entries.clone();
                assert(views(copy@) =~= views(entries@));
                MessageFeed::Messages(copy)
            },
        }
    }
}

pub open spec fn message_entry(m: MessageView) -> MessageEntryView {
    MessageEntryView {
        id: m.id,
        author_username: m.author.username,
        timestamp: m.timestamp,
        content: m.content,
    }
}

pub open spec fn to_message_entry() -> spec_fn(MessageView) -> MessageEntryView {
    |m: MessageView| message_entry(m)
}

/// The feed of `channel`: the empty state if it has no messages, else its
/// messages in their order.
pub open spec fn message_feed(channel: ChannelView) -> MessageFeedView {
    if channel.messages.len() == 0 {
        MessageFeedView::Empty
    } else {
        MessageFeedView::Messages(channel.messages.map_values(to_message_entry()))
    }
}

/// The feed of `channel`.
pub fn compute_message_feed(channel: &Channel) -> (feed: MessageFeed)
    ensures
        feed@ == message_feed(channel@),
        feed is Empty <==> channel@.messages.len() == 0,
{
    if channel.messages.len() == 0 {
        return MessageFeed::Empty;
    }
    let mut entries: Vec<MessageEntry> = Vec::new();
    let mut i: usize = 0;
    while i < channel.messages.len()
        invariant
            0 <= i <= channel.messages.len(),
            views(entries@) =~= channel@.messages.take(i as int).map_values(to_message_entry()),
        decreases channel.messages.len() - i,
    {
        let m = &channel.messages[i];
        let ghost old_entries = entries@;
        let entry = MessageEntry {
            id: m.id.clone(),
            author_username: m.author.username.clone(),
            timestamp: m.timestamp.clone(),
            content: m.content.clone(),
        };
        assert(entry@ == message_entry(m@));
        entries.push(entry);
        assert(views(entries@) =~= views(old_entries).push(entry@));
        i += 1;
    }
    assert(channel@.messages.take(i as int) =~= channel@.messages);
    MessageFeed::Messages(entries)
}

/// One icon of the server bar.
#[derive(PartialEq, Eq, Debug)]
pub struct ServerNavEntry {
    pub id: String,
    pub glyph: String,
    /// Whether this icon's id is the active server id.
    pub active: bool,
}

pub struct ServerNavEntryView {
    pub id: Seq<char>,
    pub glyph: Seq<char>,
    pub active: bool,
}

impl View for ServerNavEntry {
    type V = ServerNavEntryView;

    open spec fn view(&self) -> ServerNavEntryView {
        ServerNavEntryView { id: self.id@, glyph: self.glyph@, active: self.active }
    }
}

impl Clone for ServerNavEntry {
    fn clone(&self) -> (r: Self)
        ensures
            r@ == self@,
    {
        ServerNavEntry { id: self.id.clone(), glyph: self.glyph.clone(), active: self.active }
    }
}

impl ServerNavEntry {
    /// What a click on this icon sends to the router.
    pub fn click(&self) -> (e: Event)
        ensures
            e@ == EventView::ServerIconClicked(self@.id),
    {
        Event::ServerIconClicked(self.id.clone())
    }
}

/// What stands for a server in the server bar: its icon, or without one the
/// first character of its name, or `S` if it has no name either.
pub open spec fn server_glyph(s: ServerView) -> Seq<char> {
    if s.icon.len() > 0 {
        s.icon
    } else if s.name.len() > 0 {
        seq![s.name[0]]
    } else {
        seq!['S']
    }
}

pub open spec fn server_entry(s: ServerView, active_id: Seq<char>) -> ServerNavEntryView {
    ServerNavEntryView { id: s.id, glyph: server_glyph(s), active: s.id == active_id }
}

pub open spec fn to_server_entry(active_id: Seq<char>) -> spec_fn(ServerView) -> ServerNavEntryView
{
    |s: ServerView| server_entry(s, active_id)
}

/// The server bar: an icon for each server, in their order.
pub open spec fn server_nav(servers: Seq<ServerView>, active_id: Seq<char>) -> Seq<
    ServerNavEntryView,
> {
    servers.map_values(to_server_entry(active_id))
}

impl Server {
    /// What stands for this server in the server bar.
    pub fn glyph(&self) -> (r: String)
        ensures
            r@ == server_glyph(self@),
    {
        if !self.icon.as_str().is_empty() {
            self.icon.clone()
        } else if !self.name.as_str().is_empty() {
            let first = self.name.as_str().substring_char(0, 1).to_owned();
            assert(first@ =~= seq![self.name@[0]]);
            first
        } else {
            proof {
                reveal_strlit("S");
            }
            let s = "S".to_owned();
            assert(s@ =~= seq!['S']);
            s
        }
    }
}

/// The server bar of `servers`, with the icon marked whose id is
/// `active_server_id`.
pub fn compute_server_nav(servers: &Vec<Server>, active_server_id: &String) -> (nav: Vec<
    ServerNavEntry,
>)
    ensures
        views(nav@) == server_nav(views(servers@), active_server_id@),
{
    let mut nav: Vec<ServerNavEntry> = Vec::new();
    let ghost all = views(servers@);
    let ghost f = to_server_entry(active_server_id@);
    let mut i: usize = 0;
    while i < servers.len()
        invariant
            0 <= i <= servers.len(),
            all == views(servers@),
            f == to_server_entry(active_server_id@),
            views(nav@) =~= all.take(i as int).map_values(f),
        decreases servers.len() - i,
    {
        let s = &servers[i];
        let ghost old_nav = nav@;
        let entry = ServerNavEntry {
            id: s.id.clone(),
            glyph: s.glyph(),
            active: s.id == *active_server_id,
        };
        assert(entry@ == server_entry(s@, active_server_id@));
        nav.push(entry);
        assert(views(nav@) =~= views(old_nav).push(entry@));
        i += 1;
    }
    assert(all.take(i as int) =~= all);
    nav
}

/// All that one rendering needs.
#[derive(PartialEq, Eq, Debug)]
pub struct DerivedViews {
    pub server_nav: Vec<ServerNavEntry>,
    /// The name of the server that is shown.
    pub server_name: String,
    pub channel_nav: Vec<ChannelNavEntry>,
    /// The name of the channel that is shown.
    pub channel_name: String,
    pub message_feed: MessageFeed,
    pub user_roster: UserRoster,
}

pub struct DerivedViewsView {
    pub server_nav: Seq<ServerNavEntryView>,
    pub server_name: Seq<char>,
    pub channel_nav: Seq<ChannelNavEntryView>,
    pub channel_name: Seq<char>,
    pub message_feed: MessageFeedView,
    pub user_roster: UserRosterView,
}

impl View for DerivedViews {
    type V = DerivedViewsView;

    open spec fn view(&self) -> DerivedViewsView {
        DerivedViewsView {
            server_nav: views(self.server_nav@),
            server_name: self.server_name@,
            channel_nav: views(self.channel_nav@),
            channel_name: self.channel_name@,
            message_feed: self.message_feed@,
            user_roster: self.user_roster@,
        }
    }
}

impl Clone for DerivedViews {
    fn clone(&self) -> (r: Self)
        ensures
            r@ == self@,
    {
        let r = DerivedViews {
            server_nav: self.server_nav.clone(),
            server_name: self.server_name.clone(),
            channel_nav: self.channel_nav.clone(),
            channel_name: self.channel_name.clone(),
            message_feed: self.message_feed.clone(),
            user_roster: self.user_roster.clone(),
        };
        assert(views(r.server_nav@) =~= views(self.server_nav@));
        assert(views(r.channel_nav@) =~= views(self.channel_nav@));
        r
    }
}

/// What is shown for the workspace `w` in the selection state `s`: the
/// server bar, the resolved server's name and channel list, the resolved
/// channel's name and feed, and the member list.
pub open spec fn derived_views(w: WorkspaceView, s: SelectionView) -> DerivedViewsView {
    let server = s.active_server(w);
    let channel = s.active_channel(w);
    DerivedViewsView {
        server_nav: server_nav(w.servers, s.active_server_id),
        server_name: server.name,
        channel_nav: channel_nav(server, s.active_channel_id),
        channel_name: channel.name,
        message_feed: message_feed(channel),
        user_roster: user_roster(w.users),
    }
}

/// All derived views at once, for the server and the channel that the
/// selection resolves to.
pub fn compute_views(model: &Workspace, state: &SelectionState) -> (v: DerivedViews)
    ensures
        v@ == derived_views(model@, state@),
{
    let server = state.resolve_active_server(model);
    let channel = state.resolve_active_channel(server);
    DerivedViews {
        server_nav: compute_server_nav(model.servers(), state.active_server_id()),
        server_name: server.name.clone(),
        channel_nav: compute_channel_nav(server, state.active_channel_id()),
        channel_name: channel.name.clone(),
        message_feed: compute_message_feed(channel),
        user_roster: compute_user_roster(model.users()),
    }
}

} // verus!
