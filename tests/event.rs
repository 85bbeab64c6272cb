use rpg::event::Event;

#[test]
fn clone_copies_nested_options() {
    let event = Event::Options(vec![Event::Tell("a".to_owned()), Event::Options(vec![Event::Open])]);
    assert_eq!(event.clone(), event);
}
