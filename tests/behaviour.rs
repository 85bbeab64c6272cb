use rpg::behaviour::{Custom, DefaultResponse};
use rpg::entity::Entity;
use rpg::event::Event;

#[test]
fn new_custom() {
    let custom = Custom::new(|_event| Event::Nothing);

    let mut entity = Entity::new("TestEntity");

    entity.append_behaviour(Box::new(custom));

    assert_eq!(entity.send_event(Event::Nothing), Event::Nothing);
}

#[test]
fn new_default_response() {
    let default_response = DefaultResponse::new("Responsy!");

    let mut entity = Entity::<fn(Event) -> Event>::new("TestEntity");

    entity.append_behaviour(Box::new(default_response));

    assert_eq!(entity.send_event(Event::Nothing), Event::Tell(String::from("Responsy!")));
}

#[test]
fn custom_silencing_answers_nothing_to_open() {
    let mut entity = Entity::new("Silent");
    entity.append_behaviour(Custom::new(|_event| Event::Nothing));

    assert_eq!(entity.send_event(Event::Open), Event::Nothing);
    assert_eq!(entity.send_event(Event::Tell("hi".to_owned())), Event::Nothing);
}

#[test]
fn custom_sees_the_previous_answer() {
    let mut entity = Entity::new("Echo");
    entity.append_behaviour(DefaultResponse::new("first"));
    entity.append_behaviour(Custom::new(|event| match event {
        Event::Tell(text) => Event::Tell(format!("{} again", text)),
        _ => Event::Close,
    }));

    assert_eq!(entity.send_event(Event::Push), Event::Tell("first again".to_owned()));
}

#[test]
fn nested_entity_runs_after_earlier_links() {
    let shout = |event: Event| match event {
        Event::Tell(text) => Event::Tell(text.to_uppercase()),
        other => other,
    };
    let mut inner = Entity::new("Inner");
    inner.append_behaviour(Custom::new(shout));

    let mut outer = Entity::new("Outer");
    outer.append_behaviour(DefaultResponse::new("hello"));
    outer.append_behaviour(inner);

    assert_eq!(outer.send_event(Event::Open), Event::Tell("HELLO".to_owned()));
}
