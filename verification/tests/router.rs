use vauxl_client::derived::compute_message_feed;
use vauxl_client::error::CoreError;
use vauxl_client::model::{Channel, ChannelType, Server, User, UserStatus};
use vauxl_client::router::{
    can_submit, compose_submit, handle_event, submit_content, Event, Key, OutgoingMessage,
};
use vauxl_client::selection::SelectionState;
use vauxl_client::workspace::Workspace;

fn me() -> User {
    User {
        id: "me".to_string(),
        username: "YourUsername".to_string(),
        avatar: String::new(),
        status: UserStatus::Online,
    }
}

fn channel(id: &str, kind: ChannelType) -> Channel {
    Channel {
        id: id.to_string(),
        name: id.to_string(),
        channel_type: kind,
        parent_id: None,
        messages: Vec::new(),
    }
}

fn workspace() -> Workspace {
    let servers = vec![
        Server {
            id: "a".to_string(),
            name: "Alpha".to_string(),
            icon: String::new(),
            channels: vec![
                channel("cat", ChannelType::Category),
                channel("welcome", ChannelType::Text),
                channel("lobby", ChannelType::Voice),
                channel("news", ChannelType::Text),
            ],
        },
        Server {
            id: "b".to_string(),
            name: "Beta".to_string(),
            icon: String::new(),
            channels: vec![channel("talk", ChannelType::Voice), channel("help", ChannelType::Text)],
        },
    ];
    Workspace::new(servers, vec![me()]).unwrap()
}

fn state(server: &str, channel: &str, draft: &str) -> SelectionState {
    let mut s = SelectionState::new(server.to_string(), channel.to_string());
    s.set_compose_draft(draft.to_string());
    s
}

fn outgoing(channel: &str, content: &str) -> OutgoingMessage {
    OutgoingMessage { channel_id: channel.to_string(), content: content.to_string(), author: me() }
}

#[test]
fn submit_of_a_whitespace_only_draft_sends_nothing_and_keeps_the_draft() {
    let w = workspace();
    let mut s = state("a", "welcome", "   ");
    assert_eq!(handle_event(&mut s, &w, &me(), Event::ComposeSubmit), None);
    assert_eq!(s.compose_draft(), "   ");
    assert_eq!(s, state("a", "welcome", "   "));
}

#[test]
fn submit_of_hello_sends_one_message_and_clears_the_draft() {
    let w = workspace();
    let mut s = state("a", "welcome", "hello");
    let sent = handle_event(&mut s, &w, &me(), Event::ComposeSubmit);
    assert_eq!(sent, Some(outgoing("welcome", "hello")));
    assert_eq!(s.compose_draft(), "");
    assert_eq!(s.active_server_id(), "a");
    assert_eq!(s.active_channel_id(), "welcome");
    // Nothing is left to send.
    assert_eq!(handle_event(&mut s, &w, &me(), Event::ComposeSubmit), None);
    assert_eq!(s.compose_draft(), "");
}

#[test]
fn submit_sends_the_draft_without_the_whitespace_around_it() {
    let mut s = state("a", "news", "  hi there \n");
    assert_eq!(compose_submit(&mut s, &me()), Ok(outgoing("news", "hi there")));
    assert_eq!(s.compose_draft(), "");

    let mut wide = state("a", "news", "\u{3000}\t x \u{a0}y\u{2003}\r\n");
    assert_eq!(compose_submit(&mut wide, &me()), Ok(outgoing("news", "x \u{a0}y")));

    let mut zero_width = state("a", "news", "\u{200b}z\u{200b}");
    assert_eq!(compose_submit(&mut zero_width, &me()), Ok(outgoing("news", "\u{200b}z\u{200b}")));
}

#[test]
fn submit_of_a_blank_draft_is_an_invalid_submission() {
    for blank in ["", " ", "\n", "\t \r\n", "\u{a0}\u{2028}\u{3000}"] {
        let mut s = state("a", "news", blank);
        assert_eq!(compose_submit(&mut s, &me()), Err(CoreError::InvalidComposeSubmission));
        assert_eq!(s, state("a", "news", blank));
        assert!(!can_submit(&s));
    }
}

#[test]
fn submit_goes_to_the_active_channel_id_as_it_stands() {
    let w = workspace();
    let mut s = state("a", "no such channel", "x");
    let sent = handle_event(&mut s, &w, &me(), Event::ComposeSubmit);
    assert_eq!(sent, Some(outgoing("no such channel", "x")));
}

#[test]
fn submit_content_takes_the_content_as_it_is() {
    let mut s = state("b", "help", "the draft");
    assert_eq!(
        submit_content(&mut s, " kept as given ".to_string(), &me()),
        Ok(outgoing("help", " kept as given "))
    );
    assert_eq!(s, state("b", "help", ""));

    let mut t = state("b", "help", "the draft");
    assert_eq!(
        submit_content(&mut t, String::new(), &me()),
        Err(CoreError::InvalidComposeSubmission)
    );
    assert_eq!(t, state("b", "help", "the draft"));
}

#[test]
fn can_submit_tells_whether_the_draft_is_blank() {
    assert!(can_submit(&state("a", "news", "x")));
    assert!(can_submit(&state("a", "news", "  x  ")));
    assert!(!can_submit(&state("a", "news", "")));
    assert!(!can_submit(&state("a", "news", " \t ")));
}

#[test]
fn a_draft_loses_exactly_the_whitespace_at_its_ends() {
    for code in 0..0x3100u32 {
        let Some(c) = char::from_u32(code) else { continue };
        let draft = format!("{c}a {c} b{c}");
        let mut s = state("a", "news", &draft);
        let expected = if c.is_whitespace() { format!("a {c} b") } else { draft.clone() };
        assert_eq!(compose_submit(&mut s, &me()), Ok(outgoing("news", &expected)));
        assert_eq!(s.compose_draft(), "");

        let only = format!("{c}{c}");
        let mut t = state("a", "news", &only);
        assert_eq!(compose_submit(&mut t, &me()).is_err(), c.is_whitespace());
        assert_eq!(can_submit(&state("a", "news", &only)), !c.is_whitespace());
    }
}

#[test]
fn only_a_submit_or_enter_without_shift_asks_to_send() {
    assert!(Event::ComposeSubmit.is_submit());
    assert!(Event::ComposeKeydown { key: Key::Enter, shift_held: false }.is_submit());
    assert!(!Event::ComposeKeydown { key: Key::Enter, shift_held: true }.is_submit());
    assert!(!Event::ComposeKeydown { key: Key::Other, shift_held: false }.is_submit());
    assert!(!Event::ComposeKeydown { key: Key::Other, shift_held: true }.is_submit());
    assert!(!Event::ServerIconClicked("a".to_string()).is_submit());
    assert!(!Event::ChannelRowClicked("a".to_string()).is_submit());
    assert!(!Event::ComposeInputChanged("a".to_string()).is_submit());
}

#[test]
fn enter_without_shift_submits() {
    let w = workspace();
    let mut s = state("a", "welcome", " hello ");
    let sent =
        handle_event(&mut s, &w, &me(), Event::ComposeKeydown { key: Key::Enter, shift_held: false });
    assert_eq!(sent, Some(outgoing("welcome", "hello")));
    assert_eq!(s.compose_draft(), "");
}

#[test]
fn enter_with_shift_does_nothing() {
    let w = workspace();
    let mut s = state("a", "welcome", "hello");
    let sent =
        handle_event(&mut s, &w, &me(), Event::ComposeKeydown { key: Key::Enter, shift_held: true });
    assert_eq!(sent, None);
    assert_eq!(s, state("a", "welcome", "hello"));
}

#[test]
fn another_key_does_nothing() {
    let w = workspace();
    for shift_held in [false, true] {
        let mut s = state("a", "welcome", "hello");
        let sent =
            handle_event(&mut s, &w, &me(), Event::ComposeKeydown { key: Key::Other, shift_held });
        assert_eq!(sent, None);
        assert_eq!(s, state("a", "welcome", "hello"));
    }
}

#[test]
fn a_click_on_a_server_icon_selects_the_server() {
    let w = workspace();
    let mut s = state("a", "welcome", "draft");
    assert_eq!(handle_event(&mut s, &w, &me(), Event::ServerIconClicked("b".to_string())), None);
    assert_eq!(s, state("b", "welcome", "draft"));
}

#[test]
fn a_click_with_an_unknown_server_id_does_nothing() {
    let w = workspace();
    let mut s = state("a", "welcome", "draft");
    assert_eq!(handle_event(&mut s, &w, &me(), Event::ServerIconClicked("z".to_string())), None);
    assert_eq!(s, state("a", "welcome", "draft"));
}

#[test]
fn a_click_on_a_text_row_selects_the_channel() {
    let w = workspace();
    let mut s = state("a", "welcome", "draft");
    assert_eq!(handle_event(&mut s, &w, &me(), Event::ChannelRowClicked("news".to_string())), None);
    assert_eq!(s, state("a", "news", "draft"));
}

#[test]
fn a_click_on_a_voice_row_or_a_category_does_nothing() {
    let w = workspace();
    for id in ["lobby", "cat", "gone"] {
        let mut s = state("a", "welcome", "draft");
        assert_eq!(handle_event(&mut s, &w, &me(), Event::ChannelRowClicked(id.to_string())), None);
        assert_eq!(s, state("a", "welcome", "draft"));
    }
}

#[test]
fn a_row_click_is_judged_in_the_server_that_is_shown() {
    let w = workspace();
    // `help` is a text channel of `b`, not of `a`.
    let mut in_a = state("a", "welcome", "");
    handle_event(&mut in_a, &w, &me(), Event::ChannelRowClicked("help".to_string()));
    assert_eq!(in_a.active_channel_id(), "welcome");
    let mut in_b = state("b", "welcome", "");
    handle_event(&mut in_b, &w, &me(), Event::ChannelRowClicked("help".to_string()));
    assert_eq!(in_b.active_channel_id(), "help");
    // A stale server id shows the first server, so its channels count.
    let mut stale = state("gone", "welcome", "");
    handle_event(&mut stale, &w, &me(), Event::ChannelRowClicked("news".to_string()));
    assert_eq!(stale.active_channel_id(), "news");
    handle_event(&mut stale, &w, &me(), Event::ChannelRowClicked("help".to_string()));
    assert_eq!(stale.active_channel_id(), "news");
}

#[test]
fn a_change_of_the_input_sets_the_draft() {
    let w = workspace();
    let mut s = state("a", "welcome", "old");
    let sent = handle_event(&mut s, &w, &me(), Event::ComposeInputChanged("  new ".to_string()));
    assert_eq!(sent, None);
    assert_eq!(s, state("a", "welcome", "  new "));
}

#[test]
fn clicks_to_another_server_and_back_restore_the_state() {
    let w = workspace();
    let mut s = state("b", "news", "draft");
    handle_event(&mut s, &w, &me(), Event::ServerIconClicked("a".to_string()));
    let there = s.clone();
    handle_event(&mut s, &w, &me(), Event::ServerIconClicked("b".to_string()));
    assert_ne!(s, there);
    handle_event(&mut s, &w, &me(), Event::ServerIconClicked("a".to_string()));
    assert_eq!(s, there);
    assert_eq!(s.resolve_active_channel(s.resolve_active_server(&w)).id, "news");
}

#[test]
fn a_sent_message_is_not_appended_to_the_workspace() {
    let w = workspace();
    let before = w.clone();
    let mut s = state("a", "welcome", "hello");
    assert!(handle_event(&mut s, &w, &me(), Event::ComposeSubmit).is_some());
    assert_eq!(w, before);
    let shown = s.resolve_active_channel(s.resolve_active_server(&w));
    assert!(shown.messages.is_empty());
    assert_eq!(compute_message_feed(shown), vauxl_client::derived::MessageFeed::Empty);
}

#[test]
fn events_and_messages_clone_to_equal_values() {
    let events = vec![
        Event::ServerIconClicked("a".to_string()),
        Event::ChannelRowClicked("b".to_string()),
        Event::ComposeInputChanged("c".to_string()),
        Event::ComposeSubmit,
        Event::ComposeKeydown { key: Key::Enter, shift_held: true },
    ];
    for e in &events {
        assert_eq!(&e.clone(), e);
    }
    assert_eq!(outgoing("x", "y").clone(), outgoing("x", "y"));
}
