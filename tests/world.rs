use rpg::entity::Entity;
use rpg::world::campaign::Campaign;
use rpg::world::two_dimensional::{Field, FieldType, World2d};
use rpg::event::Event;
use rpg::world::World;

/// Entities of these tests have no custom behaviours.
type NoHandler = fn(Event) -> Event;

#[test]
fn build_campaign() {
    let mut camp = Campaign::new("Adventure Time!");

    let mut world = World2d::<NoHandler>::new("Hunger Game", (10, 10));

    let field = Field::new(FieldType::Stone);

    world.set_field(field, (0, 0));

    camp.add_world(world);
}

#[test]
fn new_world() {
    let mut world = World2d::<NoHandler>::new("Hunger Game", (10, 10));

    world = world.starting_point((1, 2)).end_point((3, 4));

    assert_eq!(world.size().0, 10);
    assert_eq!(world.size().1, 10);
}

#[test]
fn new_field() {
    let mut field = Field::<NoHandler>::new(FieldType::WoodenFence);

    let entity = Entity::new("Michael");

    field = field.entity(entity).height(2);

    assert_eq!(field.height, 2);
    assert!(field.entity.is_some());
}

#[test]
fn world_movement_reaches_end() {
    let mut world = World2d::<NoHandler>::new("Path", (5, 5)).starting_point((1, 1)).end_point((3, 0));
    assert_eq!(world.get_position(), (1, 1));
    assert!(!world.is_finished());
    world.move_to((2, -1));
    assert_eq!(world.get_position(), (3, 0));
    assert!(world.is_finished());
}
