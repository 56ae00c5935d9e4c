use holomess::messages::HoloMessage;
use holomess::messages::MessageBoard;

fn text_record(s: &str) -> HoloMessage {
    HoloMessage { text: s.as_bytes().to_vec() }
}

#[test]
fn messages() {
    let mut board = MessageBoard::new();

    // check messages for one agent
    let messages = board.get_messages();
    assert_eq!(messages.len(), 0);

    let text = "test";
    let _action_hash: u64 = board.create_message(text.as_bytes().to_vec());

    let messages = board.get_messages();
    assert_eq!(messages, vec![text_record(text)]);

    // check messages for two agents

    // 2nd agent should see message of first agent
    let messages = board.get_messages();
    assert_eq!(messages, vec![text_record(text)]);

    // 2nd agent creates message and should see two messages
    let _action_hash: u64 = board.create_message(text.as_bytes().to_vec());
    let messages = board.get_messages();
    assert_eq!(messages, vec![text_record(text), text_record(text)]);
}

#[test]
fn lib_messages() {
    let mut board = MessageBoard::new();

    // check messages for one agent
    println!("does this fail?");
    let messages = board.get_messages();
    assert_eq!(messages.len(), 0);

    let message_1 = "text_1";
    let _action_hash: u64 = board.create_message(message_1.as_bytes().to_vec());

    println!("does this fail 2?");
    let messages = board.get_messages();
    assert_eq!(messages, vec![text_record(message_1)]);

    // check messages for two agents

    // 2nd agent should see message of first agent
    let messages = board.get_messages();
    assert_eq!(messages, vec![text_record(message_1)]);

    // 2nd agent creates message and should see two messages
    // ordered by timestamp
    let message_2 = "text_2";
    let _action_hash: u64 = board.create_message(message_2.as_bytes().to_vec());

    let messages = board.get_messages();
    assert_eq!(messages, vec![text_record(message_2), text_record(message_1)]);
}

#[test]
fn creation_ids_grow() {
    let mut board = MessageBoard::new();
    let first = board.create_message(b"one".to_vec());
    let second = board.create_message(b"two".to_vec());
    let third = board.create_message(b"three".to_vec());
    assert_eq!(first, 0);
    assert_eq!(second, 1);
    assert_eq!(third, 2);
}

#[test]
fn newest_first_order() {
    let mut board = MessageBoard::new();
    board.create_message(b"a".to_vec());
    board.create_message(b"b".to_vec());
    board.create_message(b"c".to_vec());
    let messages = board.get_messages();
    assert_eq!(messages, vec![text_record("c"), text_record("b"), text_record("a")]);
}
