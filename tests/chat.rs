use grpc_chat::command::{Dispatch, PriceLookup, price_reply};
use grpc_chat::message::ChatMessage;
use grpc_chat::news::{
    Story, news_reply, parse_story_ids, decimal_string, collect_stories, trim_leading, trim_trailing,
};
use grpc_chat::session::{ChatService, Session, send_disconnect_message};
use grpc_chat::clock::{timestamp, timestamp_of};

fn msg(sender: &str, chatroom: &str, content: &str) -> ChatMessage {
    ChatMessage {
        sender: sender.to_string(),
        timestamp: 42,
        chatroom: chatroom.to_string(),
        content: content.to_string(),
        target: String::new(),
    }
}

fn reply(d: Dispatch) -> ChatMessage {
    match d {
        Dispatch::Reply(r) => r,
        _ => panic!("expected an immediate reply"),
    }
}

fn joined(service: &mut ChatService, user: &str, room: &str) -> Session {
    let mut s = Session::new();
    let _ = service.receive(&mut s, msg(user, "", &format!("!join {}", room)));
    s
}

#[test]
fn name_is_free_in_empty_registry() {
    let service = ChatService::new();
    assert!(service.check_for_name(&"alice".to_string()));
}

#[test]
fn join_registers_and_announces() {
    let mut service = ChatService::new();
    let mut s = Session::new();
    let r = reply(service.receive(&mut s, msg("alice", "", "!join lobby")));
    assert_eq!(r.sender, "server");
    assert_eq!(r.chatroom, "lobby");
    assert_eq!(r.target, "");
    assert_eq!(r.content, "-- alice has joined lobby");
    assert!(!service.check_for_name(&"alice".to_string()));
    assert!(service.check_for_name(&"bob".to_string()));
    assert_eq!(s.current_room, "lobby");
    assert_eq!(s.current_user, "alice");
    assert!(s.delivers(&r));
}

#[test]
fn user_command_lists_room() {
    let mut service = ChatService::new();
    let _alice = joined(&mut service, "alice", "lobby");
    let _carol = joined(&mut service, "carol", "kitchen");
    let mut bob = joined(&mut service, "bob", "lobby");
    let r = reply(service.receive(&mut bob, msg("bob", "lobby", "!user")));
    assert_eq!(r.target, "bob");
    assert_eq!(r.sender, "server");
    let prefix = "-- Users in lobby: ";
    assert!(r.content.starts_with(prefix));
    let mut listed: Vec<&str> = r.content[prefix.len()..].split(", ").collect();
    listed.sort();
    assert_eq!(listed, vec!["alice", "bob"]);
}

#[test]
fn direct_message_reaches_both_principals() {
    let mut service = ChatService::new();
    let mut alice = joined(&mut service, "alice", "lobby");
    let bob = joined(&mut service, "bob", "lobby");
    let eve = joined(&mut service, "eve", "lobby");
    let r = reply(service.receive(&mut alice, msg("alice", "lobby", "!dm bob hello")));
    assert_eq!(r.sender, "alice");
    assert_eq!(r.target, "bob");
    assert_eq!(r.content, "hello");
    assert!(alice.delivers(&r));
    assert!(bob.delivers(&r));
    assert!(!eve.delivers(&r));
}

#[test]
fn direct_message_to_absent_user() {
    let mut service = ChatService::new();
    let _alice = joined(&mut service, "alice", "lobby");
    let mut carol = Session::new();
    let r = reply(service.receive(&mut carol, msg("carol", "lobby", "!dm dave hi")));
    assert_eq!(r.sender, "server");
    assert_eq!(r.target, "carol");
    assert_eq!(r.content, "No user named dave is currently connected.");
    assert!(carol.delivers(&r));
    let other = joined(&mut service, "bob", "lobby");
    assert!(!other.delivers(&r));
}

#[test]
fn direct_message_keeps_words() {
    let mut service = ChatService::new();
    let mut alice = joined(&mut service, "alice", "lobby");
    let _bob = joined(&mut service, "bob", "lobby");
    let r = reply(service.receive(&mut alice, msg("alice", "lobby", "!dm bob see you  soon")));
    assert_eq!(r.content, "see you  soon");
}

#[test]
fn direct_message_without_words_is_usage_error() {
    let mut service = ChatService::new();
    let mut alice = joined(&mut service, "alice", "lobby");
    let r = reply(service.receive(&mut alice, msg("alice", "lobby", "!dm bob")));
    assert_eq!(r.sender, "server");
    assert_eq!(r.target, "alice");
    assert_eq!(r.content, "Usage: !dm <user> <message>");
}

#[test]
fn join_without_room_is_usage_error() {
    let mut service = ChatService::new();
    let mut s = Session::new();
    let r = reply(service.receive(&mut s, msg("alice", "", "!join ")));
    assert_eq!(r.target, "alice");
    assert_eq!(r.content, "Usage: !join <room>");
    assert!(service.check_for_name(&"alice".to_string()));
}

#[test]
fn value_without_symbol_is_usage_error() {
    let mut service = ChatService::new();
    let mut alice = joined(&mut service, "alice", "lobby");
    let r = reply(service.receive(&mut alice, msg("alice", "lobby", "!value ")));
    assert_eq!(r.content, "Usage: !value <symbol>");
}

#[test]
fn unjoined_sender_is_prompted() {
    let mut service = ChatService::new();
    let mut s = Session::new();
    let r = reply(service.receive(&mut s, msg("alice", "", "hi all")));
    assert_eq!(r.sender, "server");
    assert_eq!(r.target, "alice");
    assert_eq!(r.content, "Type !join <roomname> to enter a room.");
    assert_eq!(r.timestamp, 42);
}

#[test]
fn chat_text_passes_through() {
    let mut service = ChatService::new();
    let mut alice = joined(&mut service, "alice", "lobby");
    let r = reply(service.receive(&mut alice, msg("alice", "lobby", "hello there")));
    assert_eq!(r.sender, "alice");
    assert_eq!(r.chatroom, "lobby");
    assert_eq!(r.content, "hello there");
    assert_eq!(r.timestamp, 42);
}

#[test]
fn value_command_quotes_price() {
    let mut service = ChatService::new();
    let mut alice = joined(&mut service, "alice", "lobby");
    match service.receive(&mut alice, msg("alice", "lobby", "!value BTC")) {
        Dispatch::Price { request, symbol } => {
            assert_eq!(symbol, "BTC");
            let r = price_reply(&request, &symbol, PriceLookup::Quoted("65000.12".to_string()));
            assert_eq!(r.sender, "server");
            assert_eq!(r.content, "$BTC is currently worth 65000.12€");
            assert_eq!(r.chatroom, "lobby");
        }
        _ => panic!("expected a price lookup"),
    }
}

#[test]
fn value_symbol_is_upper_cased() {
    let mut service = ChatService::new();
    let mut alice = joined(&mut service, "alice", "lobby");
    match service.receive(&mut alice, msg("alice", "lobby", "!value eth")) {
        Dispatch::Price { symbol, .. } => assert_eq!(symbol, "ETH"),
        _ => panic!("expected a price lookup"),
    }
}

#[test]
fn price_errors() {
    let request = msg("alice", "lobby", "!value XYZ");
    let sym = "XYZ".to_string();
    let r = price_reply(&request, &sym, PriceLookup::Rejected);
    assert_eq!(r.content, "Error requesting conversion rate for XYZ");
    assert_eq!(r.sender, "server");
    let r = price_reply(&request, &sym, PriceLookup::Failed);
    assert_eq!(r.content, "Something went wrong when trying to retrieve currency information");
}

#[test]
fn news_command_answers_at_once() {
    let mut service = ChatService::new();
    let mut alice = joined(&mut service, "alice", "lobby");
    match service.receive(&mut alice, msg("alice", "lobby", "!news")) {
        Dispatch::News { reply, pending } => {
            assert_eq!(reply.content, "Retrieving News ...");
            assert_eq!(reply.target, "alice");
            assert_eq!(reply.sender, "server");
            let story = Story {
                by: Some("pg".to_string()),
                score: 120,
                time: 0,
                title: "Hello".to_string(),
                url: None,
            };
            let second = Story {
                by: None,
                score: -3,
                time: 0,
                title: "T".to_string(),
                url: Some("http://x".to_string()),
            };
            let r = news_reply(&pending, Some(vec![story, second]));
            assert_eq!(r.target, "alice");
            assert_eq!(r.content, "▲ 120 \t\"Hello\" by pg\n\t\n▲ -3 \t\"T\" by \n\thttp://x");
            let r = news_reply(&pending, None);
            assert_eq!(r.content, "Couldn't retrieve Hacker News frontpage");
            let r = news_reply(&pending, Some(vec![]));
            assert_eq!(r.content, "");
        }
        _ => panic!("expected a news fetch"),
    }
}

#[test]
fn story_ids_are_parsed() {
    assert_eq!(parse_story_ids("[ 1, 22 ,333 ]"), vec!["1", "22", "333"]);
    let many = "[ 1, 2, 3, 4, 5, 6, 7, 8, 9, 10, 11, 12 ]";
    let ids = parse_story_ids(many);
    assert_eq!(ids.len(), 10);
    assert_eq!(ids[9], "10");
}

#[test]
fn decimal_strings() {
    assert_eq!(decimal_string(0), "0");
    assert_eq!(decimal_string(905), "905");
    assert_eq!(decimal_string(-32768), "-32768");
    assert_eq!(decimal_string(32767), "32767");
}

#[test]
fn disconnect_clears_and_announces() {
    let mut service = ChatService::new();
    let alice = joined(&mut service, "alice", "lobby");
    let bob = joined(&mut service, "bob", "lobby");
    let r = service.end_session(alice);
    assert_eq!(r.sender, "server");
    assert_eq!(r.chatroom, "lobby");
    assert_eq!(r.content, "-- alice has left.");
    assert!(service.check_for_name(&"alice".to_string()));
    assert!(!service.check_for_name(&"bob".to_string()));
    assert!(bob.delivers(&r));
}

#[test]
fn departure_notice_fields() {
    let r = send_disconnect_message(&"kitchen".to_string(), &"zed".to_string());
    assert_eq!(r.chatroom, "kitchen");
    assert_eq!(r.content, "-- zed has left.");
    assert_eq!(r.target, "");
}

#[test]
fn room_broadcast_needs_same_room() {
    let mut s = Session::new();
    s.current_room = "lobby".to_string();
    s.current_user = "alice".to_string();
    assert!(s.delivers(&msg("bob", "lobby", "hi")));
    assert!(!s.delivers(&msg("bob", "kitchen", "hi")));
    assert!(!s.delivers(&msg("alice", "kitchen", "hi")));
}

#[test]
fn direct_message_ignores_room() {
    let mut s = Session::new();
    s.current_room = "lobby".to_string();
    s.current_user = "alice".to_string();
    let mut m = msg("bob", "kitchen", "psst");
    m.target = "alice".to_string();
    assert!(s.delivers(&m));
    m.target = "carol".to_string();
    assert!(!s.delivers(&m));
}

#[test]
fn rejoin_moves_user() {
    let mut service = ChatService::new();
    let mut alice = joined(&mut service, "alice", "lobby");
    let _bob = joined(&mut service, "bob", "lobby");
    let _ = service.receive(&mut alice, msg("alice", "lobby", "!join kitchen"));
    assert_eq!(alice.current_room, "kitchen");
    let mut bob = Session::new();
    let r = reply(service.receive(&mut bob, msg("bob", "lobby", "!user")));
    assert_eq!(r.content, "-- Users in lobby: bob");
}

#[test]
fn clock_is_past_epoch() {
    assert!(timestamp() > 1_600_000_000_000);
}

#[test]
fn clock_readings_become_timestamps() {
    assert_eq!(timestamp_of(Some(1_700_000_000_123)), 1_700_000_000_123);
    assert_eq!(timestamp_of(None), 0);
    assert_eq!(timestamp_of(Some(i64::MAX as u128)), i64::MAX);
    assert_eq!(timestamp_of(Some(u128::MAX)), i64::MAX);
}

fn story(title: &str) -> Story {
    Story { by: None, score: 1, time: 0, title: title.to_string(), url: None }
}

#[test]
fn failed_story_fetches_are_left_out() {
    let kept = collect_stories(vec![Some(story("a")), None, Some(story("b")), None]);
    let titles: Vec<String> = kept.into_iter().map(|s| s.title).collect();
    assert_eq!(titles, vec!["a", "b"]);
    assert!(collect_stories(vec![None, None]).is_empty());
}

#[test]
fn repeated_brackets_are_stripped() {
    assert_eq!(trim_leading("[ [ 7 ]", "[ "), "7 ]");
    assert_eq!(trim_trailing("7 ] ]", " ]"), "7");
    assert_eq!(trim_leading("abc", ""), "abc");
    assert_eq!(trim_trailing("[ 7", " ]"), "[ 7");
}

#[test]
fn story_ids_lose_unicode_space() {
    assert_eq!(parse_story_ids("[ \u{3000}5\t,\n6 ]"), vec!["5", "6"]);
}
