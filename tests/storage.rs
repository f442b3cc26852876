use csml_interpreter::requests::{get_pagination_key, page_limit, EngineError, GetClientInfoQuery};
use csml_interpreter::storage::{
    make_hash, make_range, Bot, Client, Conversation, DynamoDbKey, Interaction, Memory, Message,
    Node, State, ENGINE_VERSION,
};

fn client() -> Client {
    Client { user_id: "test".to_owned(), channel_id: "channel_id".to_owned(), bot_id: "bot_id".to_owned() }
}

#[test]
fn client_hash_key() {
    assert_eq!(make_hash(&client()), "bot_id:bot_id#channel_id:channel_id#user_id:test");
    assert_eq!(Memory::get_hash(&client()), make_hash(&client()));
    assert_eq!(State::get_hash(&client()), make_hash(&client()));
    assert_eq!(Message::get_hash(&client()), make_hash(&client()));
}

#[test]
fn range_keys() {
    assert_eq!(make_range(&[]), "");
    assert_eq!(make_range(&["one"]), "one");
    assert_eq!(Bot::get_hash("42"), "bot#42");
    assert_eq!(Bot::get_range("v1"), "version#v1");
    assert_eq!(Conversation::get_range("OPEN", "c1"), "conversation#OPEN#c1");
    assert_eq!(Interaction::get_range("i1"), "interaction#i1");
    assert_eq!(Memory::get_range("my_key"), "memory#my_key");
    assert_eq!(Message::get_range("c1", "m1"), "message#c1#m1");
    assert_eq!(State::get_range("hold", "position"), "state#hold#position");
}

#[test]
fn conversation_id_from_range() {
    assert_eq!(Conversation::get_conversation_id_from_range("conversation#OPEN#abc"), "abc");
    assert_eq!(Conversation::get_conversation_id_from_range("conversation#CLOSED#x#y"), "x");
    assert_eq!(Conversation::get_conversation_id_from_range("a##"), "");
}

#[test]
fn keys_of_records() {
    let key = Conversation::get_key(&client(), "OPEN", "c1");
    assert_eq!(key.hash(), "bot_id:bot_id#channel_id:channel_id#user_id:test");
    assert_eq!(key.range(), "conversation#OPEN#c1");
    let key = Interaction::get_key(&client(), "i1");
    assert_eq!(key.range(), "interaction#i1");
    let key = DynamoDbKey::new("h", "r");
    assert_eq!(key.hash(), "h");
    assert_eq!(key.range(), "r");
}

#[test]
fn new_records() {
    let bot = Bot::new("b1".to_owned(), "payload".to_owned());
    assert_eq!(bot.version_id.len(), 36);
    assert_ne!(bot.version_id, Bot::new("b1".to_owned(), "payload".to_owned()).version_id);
    assert_eq!(bot.range, format!("version#{}", bot.version_id));
    assert_eq!(bot.range_time, format!("bot#{}#{}", bot.created_at, bot.version_id));
    assert_eq!(bot.engine_version, ENGINE_VERSION);

    let conv = Conversation::new(&client(), "Default", "start");
    assert_eq!(conv.status, "OPEN");
    assert_eq!(conv.range, format!("conversation#OPEN#{}", conv.id));
    assert_eq!(Conversation::get_conversation_id_from_range(&conv.range), conv.id);

    let inter = Interaction::new("i1", &client(), "event");
    assert_eq!(inter.range_time, format!("interaction#{}#i1", inter.created_at));
    assert!(!inter.success);

    let memory = Memory::new(&client(), "memory_key", Some("value".to_owned()));
    assert_eq!(memory.range, "memory#memory_key");
    assert_eq!(memory.range_time, format!("memory#{}#memory#memory_key", memory.created_at));
    assert_eq!(memory.value.as_deref(), Some("value"));

    let state = State::new(&client(), "hold", "position", "enc");
    assert_eq!(state.range, "state#hold#position");
    assert_eq!(state.id.len(), 36);
    assert_eq!(state.client.unwrap().user_id, "test");
}

#[test]
fn pagination_keys() {
    // "\"abc\"" in base64
    assert_eq!(get_pagination_key(Some("ImFiYyI=".to_owned())).ok(), Some(Some("abc".to_owned())));
    assert!(matches!(get_pagination_key(None), Ok(None)));
    assert!(matches!(get_pagination_key(Some("%%%".to_owned())), Err(EngineError::Manager(m)) if m == "Invalid pagination_key"));
    // "abc" in base64: not a JSON string
    assert!(matches!(get_pagination_key(Some("YWJj".to_owned())), Err(EngineError::Manager(_))));
}

#[test]
fn query_of_a_message_listing() {
    let q = GetClientInfoQuery {
        user_id: "test".to_owned(),
        bot_id: "botid".to_owned(),
        channel_id: "messages-channel".to_owned(),
        limit: None,
        pagination_key: Some(String::new()),
    };
    assert_eq!(q.pagination(), None);
    assert_eq!(q.client().channel_id, "messages-channel");
    let q = GetClientInfoQuery { pagination_key: Some("k".to_owned()), ..q };
    assert_eq!(q.pagination(), Some("k".to_owned()));
}

#[test]
fn page_limits() {
    assert_eq!(page_limit(None), 21);
    assert_eq!(page_limit(Some(0)), 21);
    assert_eq!(page_limit(Some(5)), 6);
}

#[test]
fn message_and_node_records() {
    let m = Message::new(&client(), "message_test", "interaction_id", "Default", "start", "SEND", 0, -3, "payload", "text");
    assert_eq!(m.range, format!("message#message_test#{}", m.id));
    assert_eq!(m.range_time, format!("message#{}#0#-3#{}", m.created_at, m.id));
    assert_eq!(m.message_order, -3);
    assert_eq!(m.direction, "SEND");
    let n = Node::new(&client(), "c1", "i1", "Default", "start", Some("other".to_owned()), None);
    assert_eq!(n.hash, "conversation#c1");
    assert_eq!(n.range, format!("path#{}", n.id));
    assert_eq!(n.next_flow.as_deref(), Some("other"));
}
