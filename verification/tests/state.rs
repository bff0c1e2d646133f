use buffer_contract::state::Buffer;

#[test]
fn a_new_buffer_holds_nothing() {
    let mut buffer = Buffer::new();
    assert_eq!(buffer.pop(), None);
    assert_eq!(buffer, Buffer::new());
}

#[test]
fn push_then_pop_returns_the_pushed_value() {
    let mut buffer = Buffer::new();
    buffer.push("test".to_string());
    assert_eq!(buffer.pop(), Some("test".to_string()));
    assert_eq!(buffer, Buffer::new());
}

#[test]
fn pop_on_an_empty_buffer_returns_none_every_time() {
    let mut buffer = Buffer::new();
    assert_eq!(buffer.pop(), None);
    assert_eq!(buffer.pop(), None);
    buffer.push("a".to_string());
    assert_eq!(buffer.pop(), Some("a".to_string()));
    assert_eq!(buffer.pop(), None);
}

#[test]
fn pops_come_in_the_opposite_order_of_pushes() {
    let items = ["one", "two", "three", "four", "five"];
    let mut buffer = Buffer::new();
    buffer.push("below".to_string());
    for item in items {
        buffer.push(item.to_string());
    }
    let mut popped = Vec::new();
    for _ in 0..items.len() {
        popped.push(buffer.pop().unwrap());
    }
    assert_eq!(popped, vec!["five", "four", "three", "two", "one"]);
    assert_eq!(buffer.pop(), Some("below".to_string()));
    assert_eq!(buffer.pop(), None);
}

#[test]
fn equal_items_are_kept_apart() {
    let mut buffer = Buffer::new();
    buffer.push("same".to_string());
    buffer.push("same".to_string());
    buffer.push(String::new());
    assert_eq!(buffer.pop(), Some(String::new()));
    assert_eq!(buffer.pop(), Some("same".to_string()));
    assert_eq!(buffer.pop(), Some("same".to_string()));
    assert_eq!(buffer.pop(), None);
}

#[test]
fn a_duplicate_is_equal_and_independent() {
    let mut buffer = Buffer::new();
    buffer.push("a".to_string());
    buffer.push("b".to_string());
    let mut copy = buffer.duplicate();
    assert_eq!(copy, buffer);
    assert_eq!(copy.pop(), Some("b".to_string()));
    assert_eq!(buffer.pop(), Some("b".to_string()));
    assert_eq!(buffer.pop(), Some("a".to_string()));
    assert_eq!(copy.pop(), Some("a".to_string()));
}
