use vauxl_client::derived::{
    compute_channel_nav, compute_message_feed, compute_server_nav, compute_user_roster,
    compute_views, ChannelNavEntry, MessageEntry, MessageFeed, ServerNavEntry,
};
use vauxl_client::model::{Channel, ChannelType, Message, Server, User, UserStatus};
use vauxl_client::router::Event;
use vauxl_client::selection::SelectionState;
use vauxl_client::workspace::Workspace;

fn user(id: &str, name: &str, status: UserStatus) -> User {
    User { id: id.to_string(), username: name.to_string(), avatar: String::new(), status }
}

fn channel(id: &str, name: &str, kind: ChannelType) -> Channel {
    Channel {
        id: id.to_string(),
        name: name.to_string(),
        channel_type: kind,
        parent_id: None,
        messages: Vec::new(),
    }
}

fn message(id: &str, content: &str, author: &User, timestamp: &str) -> Message {
    Message {
        id: id.to_string(),
        content: content.to_string(),
        author: author.clone(),
        timestamp: timestamp.to_string(),
    }
}

fn server(id: &str, name: &str, icon: &str, channels: Vec<Channel>) -> Server {
    Server { id: id.to_string(), name: name.to_string(), icon: icon.to_string(), channels }
}

fn mixed_server() -> Server {
    let ada = user("u1", "Ada", UserStatus::Online);
    let bob = user("u2", "Bob", UserStatus::Offline);
    let mut general = channel("general", "general", ChannelType::Text);
    general.messages.push(message("m1", "first", &ada, "Monday"));
    general.messages.push(message("m2", "second", &bob, "Tuesday"));
    general.messages.push(message("m3", "third", &ada, "Sunday"));
    server(
        "s",
        "Mixed",
        "",
        vec![
            channel("c1", "Text Channels", ChannelType::Category),
            general,
            channel("voice", "Lounge", ChannelType::Voice),
            channel("c2", "More", ChannelType::Category),
            channel("random", "random", ChannelType::Text),
        ],
    )
}

fn row(
    id: &str,
    name: &str,
    kind: ChannelType,
    icon: &'static str,
    active: bool,
) -> ChannelNavEntry {
    ChannelNavEntry {
        id: id.to_string(),
        name: name.to_string(),
        channel_type: kind,
        icon,
        active,
    }
}

#[test]
fn channel_nav_omits_categories_and_keeps_the_order() {
    let nav = compute_channel_nav(&mixed_server(), &"random".to_string());
    assert_eq!(
        nav,
        vec![
            row("general", "general", ChannelType::Text, "#", false),
            row("voice", "Lounge", ChannelType::Voice, "\u{1F50A}", false),
            row("random", "random", ChannelType::Text, "#", true),
        ]
    );
    assert!(nav.iter().all(|e| e.channel_type != ChannelType::Category));
}

#[test]
fn channel_nav_marks_a_voice_row_whose_id_is_active() {
    let nav = compute_channel_nav(&mixed_server(), &"voice".to_string());
    let active: Vec<&str> = nav.iter().filter(|e| e.active).map(|e| e.id.as_str()).collect();
    assert_eq!(active, vec!["voice"]);
}

#[test]
fn channel_nav_marks_nothing_for_a_stale_or_category_id() {
    for id in ["gone", "c1", ""] {
        let nav = compute_channel_nav(&mixed_server(), &id.to_string());
        assert_eq!(nav.len(), 3);
        assert!(nav.iter().all(|e| !e.active));
    }
}

#[test]
fn channel_nav_of_categories_alone_is_empty() {
    let s = server(
        "s",
        "S",
        "",
        vec![
            channel("c1", "One", ChannelType::Category),
            channel("c2", "Two", ChannelType::Category),
        ],
    );
    assert_eq!(compute_channel_nav(&s, &"c1".to_string()), Vec::new());
    assert_eq!(compute_channel_nav(&server("t", "T", "", Vec::new()), &String::new()), Vec::new());
}

#[test]
fn channel_nav_is_the_channels_without_the_categories_for_every_mix_of_kinds() {
    let kinds = [ChannelType::Text, ChannelType::Voice, ChannelType::Category];
    for code in 0..243usize {
        let mut channels = Vec::new();
        let mut rest = code;
        for position in 0..5 {
            channels.push(channel(&format!("c{position}"), "name", kinds[rest % 3]));
            rest /= 3;
        }
        let nav = compute_channel_nav(&server("s", "S", "", channels.clone()), &"c2".to_string());
        let kept: Vec<&Channel> =
            channels.iter().filter(|c| c.channel_type != ChannelType::Category).collect();
        assert_eq!(nav.len(), kept.len());
        for (entry, c) in nav.iter().zip(kept) {
            assert_eq!(entry.id, c.id);
            assert_eq!(entry.channel_type, c.channel_type);
            assert_eq!(entry.active, c.id == "c2");
        }
    }
}

#[test]
fn roster_is_the_online_and_the_offline_users_for_every_mix_of_statuses() {
    let statuses =
        [UserStatus::Online, UserStatus::Idle, UserStatus::DoNotDisturb, UserStatus::Offline];
    for code in 0..1024usize {
        let mut users = Vec::new();
        let mut rest = code;
        for position in 0..5 {
            users.push(user(&format!("u{position}"), "name", statuses[rest % 4]));
            rest /= 4;
        }
        let roster = compute_user_roster(&users);
        let online: Vec<User> =
            users.iter().filter(|u| u.status == UserStatus::Online).cloned().collect();
        let offline: Vec<User> =
            users.iter().filter(|u| u.status == UserStatus::Offline).cloned().collect();
        assert_eq!(roster.online, online);
        assert_eq!(roster.offline, offline);
        assert_eq!(roster.online_count(), online.len());
        assert_eq!(roster.offline_count(), offline.len());
    }
}

#[test]
fn channel_icons_by_kind() {
    assert_eq!(ChannelType::Text.icon(), "#");
    assert_eq!(ChannelType::Voice.icon(), "🔊");
    assert_eq!(ChannelType::Category.icon(), "");
}

#[test]
fn a_row_click_names_its_channel() {
    let nav = compute_channel_nav(&mixed_server(), &"random".to_string());
    assert_eq!(nav[1].click(), Event::ChannelRowClicked("voice".to_string()));
    assert_eq!(nav[2].click(), Event::ChannelRowClicked("random".to_string()));
}

#[test]
fn roster_groups_online_and_offline_and_leaves_the_others_out() {
    let users = vec![
        user("u1", "one", UserStatus::Online),
        user("u2", "two", UserStatus::Online),
        user("u3", "three", UserStatus::Idle),
        user("u4", "four", UserStatus::DoNotDisturb),
        user("u5", "five", UserStatus::Offline),
        user("u6", "six", UserStatus::Offline),
    ];
    let roster = compute_user_roster(&users);
    assert_eq!(roster.online_count(), 2);
    assert_eq!(roster.offline_count(), 2);
    assert_eq!(roster.online, vec![users[0].clone(), users[1].clone()]);
    assert_eq!(roster.offline, vec![users[4].clone(), users[5].clone()]);
    for left_out in [&users[2], &users[3]] {
        assert!(!roster.online.contains(left_out));
        assert!(!roster.offline.contains(left_out));
    }
}

#[test]
fn roster_keeps_the_order_within_each_group() {
    let users = vec![
        user("u1", "one", UserStatus::Offline),
        user("u2", "two", UserStatus::Online),
        user("u3", "three", UserStatus::Idle),
        user("u4", "four", UserStatus::Offline),
        user("u5", "five", UserStatus::Online),
        user("u6", "six", UserStatus::Online),
    ];
    let roster = compute_user_roster(&users);
    let online: Vec<&str> = roster.online.iter().map(|u| u.id.as_str()).collect();
    let offline: Vec<&str> = roster.offline.iter().map(|u| u.id.as_str()).collect();
    assert_eq!(online, vec!["u2", "u5", "u6"]);
    assert_eq!(offline, vec!["u1", "u4"]);
    assert_eq!(roster.online_count(), 3);
    assert_eq!(roster.offline_count(), 2);
}

#[test]
fn roster_of_nobody_has_two_empty_groups() {
    let roster = compute_user_roster(&Vec::new());
    assert_eq!(roster.online_count(), 0);
    assert_eq!(roster.offline_count(), 0);
    let away = compute_user_roster(&vec![
        user("u1", "one", UserStatus::Idle),
        user("u2", "two", UserStatus::DoNotDisturb),
    ]);
    assert_eq!(away.online, Vec::new());
    assert_eq!(away.offline, Vec::new());
    assert_eq!(away.clone(), away);
}

#[test]
fn message_feed_of_a_channel_without_messages_is_the_empty_state() {
    let feed = compute_message_feed(&channel("quiet", "quiet", ChannelType::Text));
    assert_eq!(feed, MessageFeed::Empty);
    assert_ne!(feed, MessageFeed::Messages(Vec::new()));
    assert_eq!(
        compute_message_feed(&channel("cat", "Category", ChannelType::Category)),
        MessageFeed::Empty
    );
}

#[test]
fn message_feed_keeps_the_messages_in_their_order() {
    let s = mixed_server();
    let feed = compute_message_feed(&s.channels[1]);
    let entry = |id: &str, author: &str, timestamp: &str, content: &str| MessageEntry {
        id: id.to_string(),
        author_username: author.to_string(),
        timestamp: timestamp.to_string(),
        content: content.to_string(),
    };
    assert_eq!(
        feed,
        MessageFeed::Messages(vec![
            entry("m1", "Ada", "Monday", "first"),
            entry("m2", "Bob", "Tuesday", "second"),
            entry("m3", "Ada", "Sunday", "third"),
        ])
    );
    assert_eq!(feed.clone(), feed);
}

#[test]
fn server_glyph_is_the_icon_or_the_initial_or_s() {
    let one = vec![channel("x", "x", ChannelType::Text)];
    assert_eq!(server("a", "Alpha", "α", one.clone()).glyph(), "α");
    assert_eq!(server("a", "Alpha", "icon.png", one.clone()).glyph(), "icon.png");
    assert_eq!(server("a", "Alpha", "", one.clone()).glyph(), "A");
    assert_eq!(server("a", "Ünique", "", one.clone()).glyph(), "Ü");
    assert_eq!(server("a", " spaced", "", one.clone()).glyph(), " ");
    assert_eq!(server("a", "", "", one).glyph(), "S");
}

#[test]
fn server_nav_has_an_icon_for_each_server() {
    let one = vec![channel("x", "x", ChannelType::Text)];
    let servers = vec![
        server("a", "Alpha", "V", one.clone()),
        server("b", "beta", "", one.clone()),
        server("c", "", "", one),
    ];
    let icon = |id: &str, glyph: &str, active: bool| ServerNavEntry {
        id: id.to_string(),
        glyph: glyph.to_string(),
        active,
    };
    let nav = compute_server_nav(&servers, &"b".to_string());
    assert_eq!(nav, vec![icon("a", "V", false), icon("b", "b", true), icon("c", "S", false)]);
    assert_eq!(nav[2].click(), Event::ServerIconClicked("c".to_string()));
    assert_eq!(compute_server_nav(&Vec::new(), &"b".to_string()), Vec::new());
    let stale = compute_server_nav(&servers, &"gone".to_string());
    assert!(stale.iter().all(|e| !e.active));
}

#[test]
fn views_follow_the_selection() {
    let other = server("o", "Other", "O", vec![channel("lobby", "Lobby", ChannelType::Voice)]);
    let users = vec![
        user("u1", "Ada", UserStatus::Online),
        user("u2", "Bob", UserStatus::Offline),
        user("u3", "Cy", UserStatus::Idle),
    ];
    let w = Workspace::new(vec![other, mixed_server()], users.clone()).unwrap();
    let state = SelectionState::new("s".to_string(), "general".to_string());
    let v = compute_views(&w, &state);
    assert_eq!(v.server_name, "Mixed");
    assert_eq!(v.channel_name, "general");
    assert_eq!(v.server_nav, compute_server_nav(w.servers(), &"s".to_string()));
    assert_eq!(v.channel_nav, compute_channel_nav(&w.servers()[1], &"general".to_string()));
    assert_eq!(v.message_feed, compute_message_feed(&w.servers()[1].channels[1]));
    assert_eq!(v.user_roster.online, vec![users[0].clone()]);
    assert_eq!(v.user_roster.offline, vec![users[1].clone()]);
    assert_eq!(v.clone(), v);
}

#[test]
fn views_of_a_stale_selection_show_the_fallback() {
    let other = server("o", "Other", "O", vec![channel("lobby", "Lobby", ChannelType::Voice)]);
    let w = Workspace::new(vec![other, mixed_server()], Vec::new()).unwrap();
    let state = SelectionState::new("gone".to_string(), "general".to_string());
    let v = compute_views(&w, &state);
    assert_eq!(v.server_name, "Other");
    assert_eq!(v.channel_name, "Lobby");
    assert_eq!(v.message_feed, MessageFeed::Empty);
    assert!(v.server_nav.iter().all(|e| !e.active));
    assert_eq!(v.channel_nav.len(), 1);
    assert!(!v.channel_nav[0].active);
}
