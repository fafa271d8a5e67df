//! A small workspace to start a session with when no data provider is at
//! hand. It meets what a data provider owes: the ids are distinct, every
//! server has channels, and every parent reference names a category.

use crate::model::{
    views, Channel, ChannelType, ChannelView, Message, Server, ServerView, User, UserStatus,
    UserView,
};
use crate::workspace::{servers_well_formed, user_ids_distinct};
use vstd::prelude::*;

verus! {

fn text(s: &str) -> (r: String)
    ensures
        r@ == s@,
{
    s.to_owned()
}

fn user(id: &str, username: &str, status: UserStatus) -> (r: User)
    ensures
        r.id@ == id@,
        r.username@ == username@,
        r.avatar@.len() == 0,
        r.status == status,
{
    User { id: text(id), username: text(username), avatar: String::new(), status }
}

fn message(id: &str, content: &str, author: User, timestamp: &str) -> (r: Message)
    ensures
        r.id@ == id@,
        r.content@ == content@,
        r.author == author,
        r.timestamp@ == timestamp@,
{
    Message { id: text(id), content: text(content), author, timestamp: text(timestamp) }
}

fn category(id: &str, name: &str) -> (r: Channel)
    ensures
        r@ == (ChannelView {
            id: id@,
            name: name@,
            channel_type: ChannelType::Category,
            parent_id: None,
            messages: Seq::empty(),
        }),
{
    let r = Channel {
        id: text(id),
        name: text(name),
        channel_type: ChannelType::Category,
        parent_id: None,
        messages: Vec::new(),
    };
    assert(r@.messages =~= Seq::empty());
    r
}

fn channel(id: &str, name: &str, channel_type: ChannelType, parent: Option<&str>) -> (r: Channel)
    ensures
        r@ == (ChannelView {
            id: id@,
            name: name@,
            channel_type,
            parent_id: match parent {
                Some(p) => Some(p@),
                None => None,
            },
            messages: Seq::empty(),
        }),
{
    let r = Channel {
        id: text(id),
        name: text(name),
        channel_type,
        parent_id: match parent {
            Some(p) => Some(text(p)),
            None => None,
        },
        messages: Vec::new(),
    };
    assert(r@.messages =~= Seq::empty());
    r
}

/// The eight members of the sample workspace: four online, one idle, one
/// who does not want to be disturbed, two offline.
pub fn create_mock_users() -> (users: Vec<User>)
    ensures
        user_ids_distinct(views(users@)),
        views(users@).map_values(|u: UserView| (u.id, u.status)) == seq![
            ("user1"@, UserStatus::Online),
            ("user2"@, UserStatus::Online),
            ("user3"@, UserStatus::Idle),
            ("user4"@, UserStatus::DoNotDisturb),
            ("user5"@, UserStatus::Offline),
            ("user6"@, UserStatus::Offline),
            ("user7"@, UserStatus::Online),
            ("user8"@, UserStatus::Online),
        ],
{
    let users = vec![
        user("user1", "Admin", UserStatus::Online),
        user("user2", "KyleDerZweite", UserStatus::Online),
        user("user3", "RustEnthusiast", UserStatus::Idle),
        user("user4", "PrivacyFan", UserStatus::DoNotDisturb),
        user("user5", "DioxusUser", UserStatus::Offline),
        user("user6", "TailwindLover", UserStatus::Offline),
        user("user7", "LongUsernameThatMightNeedTruncation", UserStatus::Online),
        user("user8", "AnotherOnlineUser", UserStatus::Online),
    ];
    proof {
        reveal_strlit("user1");
        reveal_strlit("user2");
        reveal_strlit("user3");
        reveal_strlit("user4");
        reveal_strlit("user5");
        reveal_strlit("user6");
        reveal_strlit("user7");
        reveal_strlit("user8");
        let v = views(users@);
        assert(v[0].id == "user1"@ && v[0].id[4] == '1');
        assert(v[1].id == "user2"@ && v[1].id[4] == '2');
        assert(v[2].id == "user3"@ && v[2].id[4] == '3');
        assert(v[3].id == "user4"@ && v[3].id[4] == '4');
        assert(v[4].id == "user5"@ && v[4].id[4] == '5');
        assert(v[5].id == "user6"@ && v[5].id[4] == '6');
        assert(v[6].id == "user7"@ && v[6].id[4] == '7');
        assert(v[7].id == "user8"@ && v[7].id[4] == '8');
        assert(v.map_values(|u: UserView| (u.id, u.status)) =~= seq![
            ("user1"@, UserStatus::Online),
            ("user2"@, UserStatus::Online),
            ("user3"@, UserStatus::Idle),
            ("user4"@, UserStatus::DoNotDisturb),
            ("user5"@, UserStatus::Offline),
            ("user6"@, UserStatus::Offline),
            ("user7"@, UserStatus::Online),
            ("user8"@, UserStatus::Online),
        ]);
    }
    users
}

/// What selection and navigation see of a server: the id, the kind and the
/// number of messages of each channel, in order.
pub open spec fn outline(s: ServerView) -> Seq<(Seq<char>, ChannelType, nat)> {
    s.channels.map_values(|c: ChannelView| (c.id, c.channel_type, c.messages.len()))
}

/// The outline of the first sample server.
pub open spec fn official_outline() -> Seq<(Seq<char>, ChannelType, nat)> {
    seq![
        ("cat1"@, ChannelType::Category, 0nat),
        ("channel1"@, ChannelType::Text, 3nat),
        ("channel2"@, ChannelType::Text, 0nat),
        ("cat2"@, ChannelType::Category, 0nat),
        ("channel3"@, ChannelType::Voice, 0nat),
        ("channel4"@, ChannelType::Voice, 0nat),
        ("channel5"@, ChannelType::Text, 0nat),
    ]
}

/// The outline of the second sample server.
pub open spec fn developers_outline() -> Seq<(Seq<char>, ChannelType, nat)> {
    seq![
        ("cat3"@, ChannelType::Category, 0nat),
        ("channel6"@, ChannelType::Text, 0nat),
        ("channel7"@, ChannelType::Text, 0nat),
    ]
}

fn welcome_channel() -> (r: Channel)
    ensures
        r@.id == "channel1"@,
        r@.channel_type == ChannelType::Text,
        r@.parent_id == Some("cat1"@),
        r@.messages.len() == 3,
{
    let r = Channel {
        id: text("channel1"),
        name: text("welcome"),
        channel_type: ChannelType::Text,
        parent_id: Some(text("cat1")),
        messages: vec![
            message(
                "msg1",
                "Welcome to Vauxl, the privacy-focused Discord alternative!",
                user("user1", "Admin", UserStatus::Online),
                "Yesterday at 4:30 PM",
            ),
            message(
                "msg2",
                "This is built with Rust and Dioxus! \u{1F980}\nIt uses Tailwind for styling.",
                user("user2", "KyleDerZweite", UserStatus::Online),
                "Yesterday at 4:32 PM",
            ),
            message(
                "msg3",
                "Let me know if you find any bugs.",
                user("user1", "Admin", UserStatus::Online),
                "Today at 9:15 AM",
            ),
        ],
    };
    r
}

fn official_server() -> (r: Server)
    ensures
        r@.well_formed(),
        r@.id == "server1"@,
        outline(r@) == official_outline(),
{
    let r = Server {
        id: text("server1"),
        name: text("Vauxl Official"),
        icon: text("V"),
        channels: vec![
            category("cat1", "General"),
            welcome_channel(),
            channel("channel2", "announcements", ChannelType::Text, Some("cat1")),
            category("cat2", "Voice Channels"),
            channel("channel3", "Lobby", ChannelType::Voice, Some("cat2")),
            channel("channel4", "Gaming", ChannelType::Voice, Some("cat2")),
            channel("channel5", "uncategorized-text", ChannelType::Text, None),
        ],
    };
    proof {
        reveal_strlit("cat1");
        reveal_strlit("cat2");
        reveal_strlit("channel1");
        reveal_strlit("channel2");
        reveal_strlit("channel3");
        reveal_strlit("channel4");
        reveal_strlit("channel5");
        let c = r@.channels;
        assert(c[0].id == "cat1"@ && c[0].id.len() == 4 && c[0].id[3] == '1');
        assert(c[1].id == "channel1"@ && c[1].id.len() == 8 && c[1].id[7] == '1');
        assert(c[2].id == "channel2"@ && c[2].id.len() == 8 && c[2].id[7] == '2');
        assert(c[3].id == "cat2"@ && c[3].id.len() == 4 && c[3].id[3] == '2');
        assert(c[4].id == "channel3"@ && c[4].id.len() == 8 && c[4].id[7] == '3');
        assert(c[5].id == "channel4"@ && c[5].id.len() == 8 && c[5].id[7] == '4');
        assert(c[6].id == "channel5"@ && c[6].id.len() == 8 && c[6].id[7] == '5');
        assert(r@.channel_ids_distinct());
        assert(r@.is_category(0, "cat1"@));
        assert(r@.is_category(3, "cat2"@));
        assert(c[0].parent_id is None && c[3].parent_id is None && c[6].parent_id is None);
        assert(c[1].parent_id == Some("cat1"@) && c[2].parent_id == Some("cat1"@));
        assert(c[4].parent_id == Some("cat2"@) && c[5].parent_id == Some("cat2"@));
        assert forall|i: int| 0 <= i < c.len() implies match (#[trigger] c[i]).parent_id {
            Some(p) => exists|j: int| r@.is_category(j, p),
            None => true,
        } by {
            if i == 1 || i == 2 {
                assert(r@.is_category(0, c[i].parent_id->0));
            } else if i == 4 || i == 5 {
                assert(r@.is_category(3, c[i].parent_id->0));
            }
        }
        assert(r@.categories_are_empty());
        assert(outline(r@) =~= official_outline());
    }
    r
}

fn developers_server() -> (r: Server)
    ensures
        r@.well_formed(),
        r@.id == "server2"@,
        outline(r@) == developers_outline(),
{
    let r = Server {
        id: text("server2"),
        name: text("Rust Developers"),
        icon: text("R"),
        channels: vec![
            category("cat3", "Development"),
            channel("channel6", "help", ChannelType::Text, Some("cat3")),
            channel("channel7", "showcase", ChannelType::Text, Some("cat3")),
        ],
    };
    proof {
        reveal_strlit("cat3");
        reveal_strlit("channel6");
        reveal_strlit("channel7");
        let c = r@.channels;
        assert(c[0].id == "cat3"@ && c[0].id.len() == 4);
        assert(c[1].id == "channel6"@ && c[1].id.len() == 8 && c[1].id[7] == '6');
        assert(c[2].id == "channel7"@ && c[2].id.len() == 8 && c[2].id[7] == '7');
        assert(r@.channel_ids_distinct());
        assert(r@.is_category(0, "cat3"@));
        assert(c[0].parent_id is None);
        assert(c[1].parent_id == Some("cat3"@) && c[2].parent_id == Some("cat3"@));
        assert forall|i: int| 0 <= i < c.len() implies match (#[trigger] c[i]).parent_id {
            Some(p) => exists|j: int| r@.is_category(j, p),
            None => true,
        } by {
            if i == 1 || i == 2 {
                assert(r@.is_category(0, c[i].parent_id->0));
            }
        }
        assert(r@.categories_are_empty());
        assert(outline(r@) =~= developers_outline());
    }
    r
}

/// The two servers of the sample workspace. A session that begins with the
/// guess `server1`, `channel1` finds both without a fallback.
pub fn create_mock_servers() -> (servers: Vec<Server>)
    ensures
        servers@.len() == 2,
        servers_well_formed(views(servers@)),
        views(servers@)[0].id == "server1"@,
        views(servers@)[1].id == "server2"@,
        outline(views(servers@)[0]) == official_outline(),
        outline(views(servers@)[1]) == developers_outline(),
{
    let servers = vec![official_server(), developers_server()];
    proof {
        reveal_strlit("server1");
        reveal_strlit("server2");
        let v = views(servers@);
        assert(v[0].id == "server1"@ && v[0].id[6] == '1');
        assert(v[1].id == "server2"@ && v[1].id[6] == '2');
        assert(v[0].well_formed() && v[1].well_formed());
    }
    servers
}

} // verus!
