//! What holds of selection, resolution and the derived views, for every
//! workspace and every state.

use crate::derived::{
    channel_nav, message_feed, nav_entry, navigable, server_nav, user_roster, with_status,
    MessageFeedView,
};
use crate::model::{ChannelType, ChannelView, ServerView, UserStatus, UserView};
use crate::router::{emitted, next_state, EventView};
use crate::selection::SelectionView;
use crate::text::{
    is_whitespace, lemma_skip_leading_is_suffix, lemma_skip_trailing_is_prefix, skip_leading,
    trimmed,
};
use crate::workspace::{
    lemma_first_channel_exists, lemma_first_server_exists, lemma_first_text_channel_exists,
    WorkspaceView,
};
use vstd::prelude::*;

verus! {

/// Filtering keeps the order: the elements that stay come from positions of
/// `s` that increase, and every position whose element meets `p` is among
/// them.
pub proof fn lemma_filter_positions<A>(s: Seq<A>, p: spec_fn(A) -> bool) -> (at: Seq<int>)
    ensures
        at.len() == s.filter(p).len(),
        forall|k: int|
            0 <= k < at.len() ==> 0 <= #[trigger] at[k] < s.len() && p(s[at[k]]) && s.filter(p)[k]
                == s[at[k]],
        forall|k: int, l: int| 0 <= k < l < at.len() ==> at[k] < at[l],
        forall|i: int| 0 <= i < s.len() && p(s[i]) ==> at.contains(i),
    decreases s.len(),
{
    reveal(Seq::filter);
    if s.len() == 0 {
        Seq::empty()
    } else {
        let front = s.drop_last();
        let rest = lemma_filter_positions(front, p);
        let at = if p(s.last()) {
            rest.push(s.len() - 1)
        } else {
            rest
        };
        assert forall|i: int| 0 <= i < s.len() && p(s[i]) implies at.contains(i) by {
            if i < s.len() - 1 {
                assert(front[i] == s[i]);
                assert(p(front[i]));
                assert(rest.contains(i));
                let k = choose|k: int| 0 <= k < rest.len() && rest[k] == i;
                assert(at[k] == i);
            } else {
                assert(at[at.len() - 1] == i);
            }
        }
        at
    }
}

/// Resolution never fails: with at least one server, the server that is
/// shown is one of the workspace's servers. It has the active id when any
/// server has it, and is the first server otherwise.
pub proof fn lemma_active_server_is_in_workspace(s: SelectionView, w: WorkspaceView)
    requires
        w.servers.len() > 0,
    ensures
        0 <= w.resolve_server(s.active_server_id) < w.servers.len(),
        w.servers.contains(s.active_server(w)),
        w.has_server(s.active_server_id) ==> s.active_server(w).id == s.active_server_id,
        !w.has_server(s.active_server_id) ==> s.active_server(w) == w.servers[0],
{
    let id = s.active_server_id;
    if w.has_server(id) {
        let i = choose|i: int| w.is_server(i, id);
        lemma_first_server_exists(w, id, i);
    }
}

/// With at least one channel, the channel that is shown is one of the
/// server's channels. It is a text channel with the active id when the
/// server has one, and the server's first channel, of whatever kind,
/// otherwise.
pub proof fn lemma_active_channel_is_in_server(server: ServerView, id: Seq<char>)
    requires
        server.channels.len() > 0,
    ensures
        0 <= server.resolve_channel(id) < server.channels.len(),
        server.has_text_channel(id) ==> server.is_first_text_channel(
            server.resolve_channel(id),
            id,
        ),
        !server.has_text_channel(id) ==> server.resolve_channel(id) == 0,
{
    if server.has_text_channel(id) {
        let i = choose|i: int| server.is_text_channel(i, id);
        lemma_first_text_channel_exists(server, id, i);
    }
}

/// Selecting a category or a voice channel changes nothing: when channel
/// `i`, the one that `id` refers to, is no text channel, the state stays as
/// it is.
pub proof fn lemma_select_non_text_channel_is_rejected(
    s: SelectionView,
    server: ServerView,
    id: Seq<char>,
    i: int,
)
    requires
        server.is_first_channel(i, id),
        server.channels[i].channel_type != ChannelType::Text,
    ensures
        s.select_channel(server, id) == s,
{
    lemma_first_channel_exists(server, id, i);
    let c = server.first_channel(id);
    if c < i {
        assert(!server.is_channel(c, id));
    }
}

/// In a server whose channel ids are distinct, an id refers to the one
/// channel that has it.
pub proof fn lemma_distinct_ids_refer(server: ServerView, i: int)
    requires
        server.channel_ids_distinct(),
        0 <= i < server.channels.len(),
    ensures
        server.has_channel(server.channels[i].id),
        server.first_channel(server.channels[i].id) == i,
        server.refers_to_text_channel(server.channels[i].id) <==> server.channels[i].channel_type
            == ChannelType::Text,
{
    let id = server.channels[i].id;
    assert(server.is_channel(i, id));
    lemma_first_channel_exists(server, id, i);
    let j = server.first_channel(id);
    if j < i {
        assert(server.channels[j].id != server.channels[i].id);
    }
}

/// Selecting a channel changes nothing but the active channel id, and that
/// only to an id that refers to a text channel of the server. A channel
/// that was accepted is the one that is shown afterwards.
pub proof fn lemma_select_channel_frame(s: SelectionView, server: ServerView, id: Seq<char>)
    ensures
        s.select_channel(server, id).active_server_id == s.active_server_id,
        s.select_channel(server, id).compose_draft == s.compose_draft,
        s.select_channel(server, id).active_channel_id == id || s.select_channel(server, id) == s,
        s.select_channel(server, id).active_channel_id != s.active_channel_id
            ==> server.refers_to_text_channel(id),
        !server.has_channel(id) ==> s.select_channel(server, id) == s,
        server.refers_to_text_channel(id) ==> server.resolve_channel(id) == server.first_channel(
            id,
        ) && server.is_text_channel(server.resolve_channel(id), id),
{
    if server.refers_to_text_channel(id) {
        let i = choose|i: int| server.is_channel(i, id);
        lemma_first_channel_exists(server, id, i);
        let c = server.first_channel(id);
        assert(server.is_text_channel(c, id));
        lemma_first_text_channel_exists(server, id, c);
        let t = server.first_text_channel(id);
        if t < c {
            assert(server.is_channel(t, id));
        }
    }
}

/// The channel list has no category in it and keeps the order of the
/// server's channels: its rows are the rows of the channels at positions
/// that increase, and every channel that is no category has its row.
pub proof fn lemma_channel_nav_keeps_order(server: ServerView, active_id: Seq<char>) -> (at: Seq<
    int,
>)
    ensures
        at.len() == channel_nav(server, active_id).len(),
        forall|k: int|
            0 <= k < at.len() ==> 0 <= #[trigger] at[k] < server.channels.len()
                && channel_nav(server, active_id)[k] == nav_entry(
                server.channels[at[k]],
                active_id,
            ),
        forall|k: int|
            0 <= k < at.len() ==> (#[trigger] channel_nav(server, active_id)[k]).channel_type
                != ChannelType::Category,
        forall|k: int, l: int| 0 <= k < l < at.len() ==> at[k] < at[l],
        forall|i: int|
            0 <= i < server.channels.len() && (#[trigger] server.channels[i]).channel_type
                != ChannelType::Category ==> at.contains(i),
{
    let at = lemma_filter_positions(server.channels, navigable());
    assert forall|i: int|
        0 <= i < server.channels.len() && (#[trigger] server.channels[i]).channel_type
            != ChannelType::Category implies at.contains(i) by {
        assert(navigable()(server.channels[i]));
    }
    at
}

/// Each group of the member list holds users of its status alone, in the
/// order of the input, and holds all of them. Users of any other status
/// are in neither group.
pub proof fn lemma_roster_groups(users: Seq<UserView>) -> (at: (Seq<int>, Seq<int>))
    ensures
        at.0.len() == user_roster(users).online.len(),
        at.1.len() == user_roster(users).offline.len(),
        forall|k: int|
            0 <= k < at.0.len() ==> 0 <= #[trigger] at.0[k] < users.len() && user_roster(
                users,
            ).online[k] == users[at.0[k]] && users[at.0[k]].status == UserStatus::Online,
        forall|k: int|
            0 <= k < at.1.len() ==> 0 <= #[trigger] at.1[k] < users.len() && user_roster(
                users,
            ).offline[k] == users[at.1[k]] && users[at.1[k]].status == UserStatus::Offline,
        forall|k: int, l: int| 0 <= k < l < at.0.len() ==> at.0[k] < at.0[l],
        forall|k: int, l: int| 0 <= k < l < at.1.len() ==> at.1[k] < at.1[l],
        forall|i: int|
            0 <= i < users.len() && (#[trigger] users[i]).status == UserStatus::Online
                ==> at.0.contains(i),
        forall|i: int|
            0 <= i < users.len() && (#[trigger] users[i]).status == UserStatus::Offline
                ==> at.1.contains(i),
        user_roster(users).online.len() + user_roster(users).offline.len() <= users.len(),
{
    let on = lemma_filter_positions(users, with_status(UserStatus::Online));
    let off = lemma_filter_positions(users, with_status(UserStatus::Offline));
    assert forall|i: int|
        0 <= i < users.len() && (#[trigger] users[i]).status
            == UserStatus::Online implies on.contains(i) by {
        assert(with_status(UserStatus::Online)(users[i]));
    }
    assert forall|i: int|
        0 <= i < users.len() && (#[trigger] users[i]).status
            == UserStatus::Offline implies off.contains(i) by {
        assert(with_status(UserStatus::Offline)(users[i]));
    }
    lemma_disjoint_increasing(on, off, users.len() as int);
    (on, off)
}

/// Two increasing sequences of positions below `n` that share no position
/// have at most `n` members together.
proof fn lemma_disjoint_increasing(a: Seq<int>, b: Seq<int>, n: int)
    requires
        forall|k: int| 0 <= k < a.len() ==> 0 <= #[trigger] a[k] < n,
        forall|k: int| 0 <= k < b.len() ==> 0 <= #[trigger] b[k] < n,
        forall|k: int, l: int| 0 <= k < l < a.len() ==> a[k] < a[l],
        forall|k: int, l: int| 0 <= k < l < b.len() ==> b[k] < b[l],
        forall|k: int, l: int| 0 <= k < a.len() && 0 <= l < b.len() ==> a[k] != b[l],
        0 <= n,
    ensures
        a.len() + b.len() <= n,
    decreases n,
{
    if a.len() == 0 && b.len() == 0 {
    } else if n == 0 {
        if a.len() > 0 {
            assert(0 <= a[0] < n);
        } else {
            assert(0 <= b[0] < n);
        }
    } else {
        // The position n - 1 is the last of at most one of the two.
        if a.len() > 0 && a.last() == n - 1 {
            let a2 = a.drop_last();
            assert forall|k: int| 0 <= k < a2.len() implies 0 <= #[trigger] a2[k] < n - 1 by {
                assert(a2[k] == a[k]);
                assert(a[k] < a[a.len() - 1]);
            }
            assert forall|k: int| 0 <= k < b.len() implies 0 <= #[trigger] b[k] < n - 1 by {
                assert(b[k] != a[a.len() - 1]);
            }
            lemma_disjoint_increasing(a2, b, n - 1);
        } else if b.len() > 0 && b.last() == n - 1 {
            let b2 = b.drop_last();
            assert forall|k: int| 0 <= k < b2.len() implies 0 <= #[trigger] b2[k] < n - 1 by {
                assert(b2[k] == b[k]);
                assert(b[k] < b[b.len() - 1]);
            }
            assert forall|k: int| 0 <= k < a.len() implies 0 <= #[trigger] a[k] < n - 1 by {
                assert(a[k] != b[b.len() - 1]);
            }
            lemma_disjoint_increasing(a, b2, n - 1);
        } else {
            assert forall|k: int| 0 <= k < a.len() implies 0 <= #[trigger] a[k] < n - 1 by {
                if k < a.len() - 1 {
                    assert(a[k] < a[a.len() - 1]);
                }
            }
            assert forall|k: int| 0 <= k < b.len() implies 0 <= #[trigger] b[k] < n - 1 by {
                if k < b.len() - 1 {
                    assert(b[k] < b[b.len() - 1]);
                }
            }
            lemma_disjoint_increasing(a, b, n - 1);
        }
    }
}

/// A channel without messages gives the empty state, and only such a
/// channel does: a feed of messages is never empty.
pub proof fn lemma_empty_feed(channel: ChannelView)
    ensures
        channel.messages.len() == 0 <==> message_feed(channel) is Empty,
        match message_feed(channel) {
            MessageFeedView::Empty => true,
            MessageFeedView::Messages(entries) => entries.len() == channel.messages.len()
                && entries.len() > 0,
        },
{
}

/// Going to another server and back restores what was shown: the state is
/// the one reached by going to `a` at once, so the same server and the same
/// channel are resolved. The channel is the text channel with the active id
/// if the server has one, and the server's first channel otherwise.
pub proof fn lemma_switch_back_restores_channel(
    s: SelectionView,
    w: WorkspaceView,
    a: Seq<char>,
    b: Seq<char>,
)
    requires
        w.populated(),
    ensures
        s.select_server(a).select_server(b).select_server(a) == s.select_server(a),
        s.select_server(a).select_server(b).active_channel_id == s.active_channel_id,
        ({
            let back = s.select_server(a).select_server(b).select_server(a);
            let server = back.active_server(w);
            &&& back.active_channel(w) == s.select_server(a).active_channel(w)
            &&& server.channels.contains(back.active_channel(w))
            &&& server.has_text_channel(s.active_channel_id) ==> back.active_channel(w).id
                == s.active_channel_id && back.active_channel(w).channel_type
                == ChannelType::Text
            &&& !server.has_text_channel(s.active_channel_id) ==> back.active_channel(w)
                == server.channels[0]
        }),
{
    let back = s.select_server(a).select_server(b).select_server(a);
    lemma_active_server_is_in_workspace(back, w);
    let server = back.active_server(w);
    lemma_active_channel_is_in_server(server, s.active_channel_id);
}

/// The same through the router: clicks on the icons of two servers of the
/// workspace, the first one again at the end, lead to the state that one
/// click on the first leads to, and send nothing.
pub proof fn lemma_switch_back_by_clicks(
    s: SelectionView,
    w: WorkspaceView,
    a: Seq<char>,
    b: Seq<char>,
    author: UserView,
)
    requires
        w.has_server(a),
        w.has_server(b),
    ensures
        ({
            let there = next_state(s, w, EventView::ServerIconClicked(a));
            let away = next_state(there, w, EventView::ServerIconClicked(b));
            let back = next_state(away, w, EventView::ServerIconClicked(a));
            &&& back == there
            &&& back == s.select_server(a)
            &&& emitted(s, EventView::ServerIconClicked(a), author) is None
            &&& emitted(there, EventView::ServerIconClicked(b), author) is None
            &&& emitted(away, EventView::ServerIconClicked(a), author) is None
        }),
{
}

/// A click on an icon of the server bar selects that icon's server: a
/// server with its id is then the one that is shown, and its icon the one
/// marked active.
pub proof fn lemma_server_icon_click(s: SelectionView, w: WorkspaceView, i: int)
    requires
        0 <= i < w.servers.len(),
    ensures
        ({
            let icon = server_nav(w.servers, s.active_server_id)[i];
            let t = next_state(s, w, EventView::ServerIconClicked(icon.id));
            &&& icon.id == w.servers[i].id
            &&& t == s.select_server(w.servers[i].id)
            &&& t.active_server(w).id == w.servers[i].id
            &&& server_nav(w.servers, t.active_server_id)[i].active
        }),
{
    let id = w.servers[i].id;
    assert(w.is_server(i, id));
    lemma_first_server_exists(w, id, i);
}

/// In a server whose channel ids are distinct, a click on the row of a text
/// channel makes that channel the one that is shown, with its row marked
/// active, and a click on any other row changes nothing.
pub proof fn lemma_channel_row_click(s: SelectionView, w: WorkspaceView, k: int)
    requires
        w.populated(),
        s.active_server(w).channel_ids_distinct(),
        0 <= k < channel_nav(s.active_server(w), s.active_channel_id).len(),
    ensures
        ({
            let server = s.active_server(w);
            let row = channel_nav(server, s.active_channel_id)[k];
            let t = next_state(s, w, EventView::ChannelRowClicked(row.id));
            &&& t.active_server(w) == server
            &&& row.channel_type == ChannelType::Text ==> {
                &&& t == s.select_channel(server, row.id)
                &&& t.active_channel_id == row.id
                &&& t.active_channel(w).id == row.id
                &&& t.active_channel(w).channel_type == ChannelType::Text
                &&& channel_nav(server, t.active_channel_id)[k].active
            }
            &&& row.channel_type != ChannelType::Text ==> t == s
        }),
{
    lemma_active_server_is_in_workspace(s, w);
    let server = s.active_server(w);
    let at = lemma_channel_nav_keeps_order(server, s.active_channel_id);
    let i = at[k];
    let row = channel_nav(server, s.active_channel_id)[k];
    assert(row == nav_entry(server.channels[i], s.active_channel_id));
    let t = next_state(s, w, EventView::ChannelRowClicked(row.id));
    lemma_distinct_ids_refer(server, i);
    if row.channel_type == ChannelType::Text {
        lemma_select_channel_frame(s, server, row.id);
        let kept = server.channels.filter(navigable());
        assert(row == nav_entry(kept[k], s.active_channel_id));
        assert(channel_nav(server, t.active_channel_id)[k] == nav_entry(
            kept[k],
            t.active_channel_id,
        ));
    }
}

/// What is sent is never blank: the content is not empty and neither begins
/// nor ends with whitespace.
pub proof fn lemma_outgoing_content_is_trimmed(s: SelectionView, author: UserView)
    requires
        s.submits(),
    ensures
        s.outgoing(author).content.len() > 0,
        !is_whitespace(s.outgoing(author).content.first()),
        !is_whitespace(s.outgoing(author).content.last()),
        s.outgoing(author).channel_id == s.active_channel_id,
{
    let d = s.compose_draft;
    let a = lemma_skip_leading_is_suffix(d);
    let t = skip_leading(d);
    let b = lemma_skip_trailing_is_prefix(t);
    assert(trimmed(d) == t.subrange(0, b));
    assert(b > 0);
    assert(a < d.len());
    assert(t[0] == d[a]);
}

/// A submit right after a submit sends nothing and changes nothing: what
/// was sent has left the draft, and a blank draft stays.
pub proof fn lemma_submit_twice(s: SelectionView, author: UserView)
    ensures
        !s.after_submit().submits(),
        s.submits() ==> s.after_submit().compose_draft.len() == 0,
        !s.submits() ==> s.after_submit() == s,
        s.after_submit().after_submit() == s.after_submit(),
        emitted(s.after_submit(), EventView::ComposeSubmit, author) is None,
{
    assert(skip_leading(Seq::<char>::empty()) == Seq::<char>::empty());
    assert(trimmed(Seq::<char>::empty()).len() == 0);
}

/// Only a submit sends, and no event but a click on a server icon, a click
/// on a channel row, a change of the input or a submit changes the state.
pub proof fn lemma_event_frame(s: SelectionView, w: WorkspaceView, e: EventView, author: UserView)
    ensures
        !e.is_submit() ==> emitted(s, e, author) is None,
        e matches EventView::ComposeKeydown { key, shift_held } && shift_held ==> next_state(
            s,
            w,
            e,
        ) == s,
        next_state(s, w, e).compose_draft != s.compose_draft ==> e.is_submit()
            || e is ComposeInputChanged,
        next_state(s, w, e).active_server_id != s.active_server_id ==> e is ServerIconClicked,
        next_state(s, w, e).active_channel_id != s.active_channel_id ==> e is ChannelRowClicked,
{
}

} // verus!
