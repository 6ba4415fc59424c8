use app_core::message_queue::{Message, MessageQueue};

fn message(text: &str) -> Message {
  let mut msg = Message::new();
  msg.write_str(text);
  msg
}

#[test]
fn test_queue_basic() {
  let mut queue = MessageQueue::<4>::new();

  let mut msg = Message::new();
  msg.write_str("Test message");
  queue.push(msg);

  assert_eq!(queue.len(), 1);
  assert!(!queue.is_empty());

  let popped = queue.pop().unwrap();
  assert_eq!(popped.get_str(), "Test message");
  assert!(queue.is_empty());
}

#[test]
fn test_queue_overflow() {
  let mut queue = MessageQueue::<3>::new();

  for i in 0..5 {
    let mut msg = Message::new();
    msg.write_str(&format!("Message {}", i));
    queue.push(msg);
  }

  // Should only have last 3 messages
  assert_eq!(queue.len(), 3);
  assert_eq!(queue.pop().unwrap().get_str(), "Message 2");
  assert_eq!(queue.pop().unwrap().get_str(), "Message 3");
  assert_eq!(queue.pop().unwrap().get_str(), "Message 4");
}

#[test]
fn queue_of_four_never_holds_more_than_four() {
  let mut queue = MessageQueue::<4>::new();
  queue.push(message("one"));
  assert!(queue.len() <= 4);
  assert_eq!(queue.pop().unwrap().get_str(), "one");
  assert!(queue.len() <= 4);
  queue.push(message("two"));
  assert_eq!(queue.len(), 1);
  for i in 0..10 {
    queue.push(message(&format!("more {}", i)));
    assert!(queue.len() <= 4);
  }
  assert!(queue.is_full());
  assert_eq!(queue.len(), 4);
  assert_eq!(queue.pop().unwrap().get_str(), "more 6");
  assert_eq!(queue.pop().unwrap().get_str(), "more 7");
  assert_eq!(queue.pop().unwrap().get_str(), "more 8");
  assert_eq!(queue.pop().unwrap().get_str(), "more 9");
  assert!(queue.pop().is_none());
}

#[test]
fn empty_queue_gives_nothing() {
  let mut queue = MessageQueue::<2>::new();
  assert_eq!(queue.len(), 0);
  assert!(queue.is_empty());
  assert!(!queue.is_full());
  assert!(queue.peek().is_none());
  assert!(queue.pop().is_none());
  assert_eq!(queue.len(), 0);
}

#[test]
fn peek_leaves_the_oldest_in_place() {
  let mut queue = MessageQueue::<2>::new();
  queue.push(message("first"));
  queue.push(message("second"));
  assert_eq!(queue.peek().unwrap().get_str(), "first");
  assert_eq!(queue.peek().unwrap().get_str(), "first");
  assert_eq!(queue.len(), 2);
  assert!(queue.is_full());
  assert_eq!(queue.pop().unwrap().get_str(), "first");
  assert_eq!(queue.peek().unwrap().get_str(), "second");
}

#[test]
fn queue_of_one_keeps_the_newest() {
  let mut queue = MessageQueue::<1>::new();
  queue.push(message("a"));
  queue.push(message("b"));
  queue.push(message("c"));
  assert_eq!(queue.len(), 1);
  assert_eq!(queue.pop().unwrap().get_str(), "c");
  assert!(queue.is_empty());
}

#[test]
fn clear_drops_every_record() {
  let mut queue = MessageQueue::<3>::new();
  queue.push(message("a"));
  queue.push(message("b"));
  queue.clear();
  assert!(queue.is_empty());
  assert!(queue.pop().is_none());
  queue.push(message("c"));
  assert_eq!(queue.pop().unwrap().get_str(), "c");
}

#[test]
fn new_message_is_empty() {
  let msg = Message::new();
  assert_eq!(msg.get_str(), "");
}

#[test]
fn pieces_are_joined_in_one_record() {
  let mut msg = Message::new();
  msg.write_str("Heat mode set to ");
  msg.write_str("SPA");
  msg.write_str("");
  assert_eq!(msg.get_str(), "Heat mode set to SPA");
}

#[test]
fn long_text_is_cut_at_capacity() {
  let long = "x".repeat(200);
  let msg = message(&long);
  assert_eq!(msg.get_str().len(), 128);
  assert_eq!(msg.get_str(), "x".repeat(128));

  let mut msg = message(&"a".repeat(120));
  msg.write_str("0123456789");
  assert_eq!(msg.get_str(), format!("{}01234567", "a".repeat(120)));
  msg.write_str("more");
  assert_eq!(msg.get_str().len(), 128);
}

#[test]
fn text_of_exactly_capacity_is_kept_whole() {
  let text = "y".repeat(128);
  let msg = message(&text);
  assert_eq!(msg.get_str(), text);
}

#[test]
fn cut_inside_a_character_shows_empty_text() {
  // 127 one-byte characters, then one of two bytes: the cut falls inside it.
  let mut text = "a".repeat(127);
  text.push('\u{e9}');
  let msg = message(&text);
  assert_eq!(msg.get_str(), "");
}

#[test]
fn multi_byte_text_that_fits_is_shown() {
  let msg = message("caf\u{e9} \u{2603}");
  assert_eq!(msg.get_str(), "caf\u{e9} \u{2603}");
}
