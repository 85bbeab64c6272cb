use super::World;
use crate::entity::Entity;
use crate::event::Event;
use vstd::prelude::*;

verus! {

/// A single field of the world
#[derive(Clone)]
pub struct Field<F: Fn(Event) -> Event> {
    /// The type of the field
    pub field_type: FieldType,
    /// The height of the field. Used for collision detection
    pub height: i32,
    /// The contained entity (optional)
    pub entity: Option<Entity<F>>,
}

impl<F: Fn(Event) -> Event> Field<F> {
    /// Creates a new instance of `Field`
    pub fn new(field_type: FieldType) -> (r: Field<F>)
        ensures
            r.field_type == field_type,
            r.height == 0,
            r.entity is None,
    {
        Field { field_type, height: 0, entity: None }
    }

    /// A builder method for adding an entity to a field
    pub fn entity(self, entity: Entity<F>) -> (r: Field<F>)
        ensures
            r == (Field { entity: Some(entity), ..self }),
    {
        Field { entity: Some(entity), ..self }
    }

    /// A builder method for setting the height of a field
    pub fn height(self, height: i32) -> (r: Field<F>)
        ensures
            r == (Field { height, ..self }),
    {
        Field { height, ..self }
    }
}

/// The field type. Used to determine the optical properties of the ground
#[derive(Clone, Copy, PartialEq, Eq, Debug, Structural)]
pub enum FieldType {
    /// A field consists of dirt
    Dirt,
    /// A field consists of grass
    Grass,
    /// A field a hole in the ground
    Hole,
    /// A field consists of mud
    Mud,
    /// A field consists of quicksand
    Quicksand,
    /// A field consists of sand
    Sand,
    /// A field consists of stone
    Stone,
    /// A field is a stone wall
    StoneWall,
    /// A field consists of swamp water
    SwampWater,
    /// A field consists of water
    Water,
    /// A field consists of wood
    Wood,
    /// A field is a wooded fence
    WoodenFence,
}

/// A larger section of a campaign containing a starting point and end point. The starting point
/// is where the character *spawns* and the end point is the point it has to reach for the next
/// world to begin.
pub struct World2d<F: Fn(Event) -> Event> {
    /// The name or title of the world
    pub name: String,
    /// The entry point of the character
    pub starting_point: (usize, usize),
    /// The point where the world is finished
    pub end_point: (usize, usize),
    /// The current position of the player
    current_position: (usize, usize),
    /// The actual size of the world
    size: (usize, usize),
    /// The actual fields, the world consists of
    data: Vec<Vec<Field<F>>>,
}

/// A grass field of height zero without an entity.
pub open spec fn plain_grass<F: Fn(Event) -> Event>(f: Field<F>) -> bool {
    f.field_type == FieldType::Grass && f.height == 0 && f.entity is None
}

impl<F: Fn(Event) -> Event> World2d<F> {
    /// The name of the world
    pub closed spec fn spec_name(&self) -> String {
        self.name
    }

    /// The entry point of the world
    pub closed spec fn spec_starting_point(&self) -> (usize, usize) {
        self.starting_point
    }

    /// The end point of the world
    pub closed spec fn spec_end_point(&self) -> (usize, usize) {
        self.end_point
    }

    /// The width and height of the world
    pub closed spec fn spec_size(&self) -> (usize, usize) {
        self.size
    }

    /// Where the player currently stands
    pub closed spec fn spec_current_position(&self) -> (usize, usize) {
        self.current_position
    }

    /// The field in column `x` and row `y`
    pub closed spec fn field_at(&self, x: int, y: int) -> Field<F> {
        self.data@[x]@[y]
    }

    /// The grid has one column per unit of width and one row per unit of
    /// height.
    pub closed spec fn wf(&self) -> bool {
        &&& self.data@.len() == self.size.0
        &&& forall|x: int| 0 <= x < self.size.0 ==> (#[trigger] self.data@[x])@.len() == self.size.1
    }

    /// A point that the world accepts as starting or end point: neither
    /// coordinate exceeds the size.
    pub open spec fn spec_is_valid_coord(&self, coords: (usize, usize)) -> bool {
        coords.0 <= self.spec_size().0 && coords.1 <= self.spec_size().1
    }

    /// Creates a new instance of `World2d`, covered with grass
    pub fn new(name: &str, size: (usize, usize)) -> (r: World2d<F>)
        ensures
            r.wf(),
            r.spec_name()@ == name@,
            r.spec_size() == size,
            r.spec_starting_point() == (0usize, 0usize),
            r.spec_end_point() == (0usize, 0usize),
            r.spec_current_position() == (0usize, 0usize),
            forall|x: int, y: int|
                0 <= x < size.0 && 0 <= y < size.1 ==> plain_grass(#[trigger] r.field_at(x, y)),
    {
        let (width, height) = size;
        let mut data: Vec<Vec<Field<F>>> = Vec::new();
        let mut x: usize = 0;
        while x < width
            invariant
                x <= width,
                data@.len() == x,
                forall|i: int| 0 <= i < x ==> (#[trigger] data@[i])@.len() == height,
                forall|i: int, j: int|
                    0 <= i < x && 0 <= j < height ==> plain_grass(#[trigger] data@[i]@[j]),
            decreases width - x,
        {
            let mut column: Vec<Field<F>> = Vec::new();
            let mut y: usize = 0;
            while y < height
                invariant
                    y <= height,
                    column@.len() == y,
                    forall|j: int| 0 <= j < y ==> plain_grass(#[trigger] column@[j]),
                decreases height - y,
            {
                column.push(Field::new(FieldType::Grass));
                y = y + 1;
            }
            data.push(column);
            x = x + 1;
        }
        World2d {
            name: name.to_owned(),
            starting_point: (0, 0),
            end_point: (0, 0),
            current_position: (0, 0),
            size: (width, height),
            data,
        }
    }

    /// The width and height of the world
    pub fn size(&self) -> (r: (usize, usize))
        ensures
            r == self.spec_size(),
    {
        self.size
    }

    /// A builder method for setting the starting point of the world; the
    /// player starts there
    pub fn starting_point(self, starting_point: (usize, usize)) -> (r: World2d<F>)
        requires
            self.spec_is_valid_coord(starting_point),
        ensures
            r.spec_starting_point() == starting_point,
            r.spec_current_position() == starting_point,
            r.spec_name() == self.spec_name(),
            r.spec_end_point() == self.spec_end_point(),
            r.spec_size() == self.spec_size(),
            forall|x: int, y: int| #[trigger] r.field_at(x, y) == self.field_at(x, y),
            self.wf() ==> r.wf(),
    {
        World2d { starting_point, current_position: starting_point, ..self }
    }

    /// A builder method for setting the end point of the world
    pub fn end_point(self, end_point: (usize, usize)) -> (r: World2d<F>)
        requires
            self.spec_is_valid_coord(end_point),
        ensures
            r.spec_end_point() == end_point,
            r.spec_name() == self.spec_name(),
            r.spec_starting_point() == self.spec_starting_point(),
            r.spec_current_position() == self.spec_current_position(),
            r.spec_size() == self.spec_size(),
            forall|x: int, y: int| #[trigger] r.field_at(x, y) == self.field_at(x, y),
            self.wf() ==> r.wf(),
    {
        World2d { end_point, ..self }
    }

    /// Sets the given field at the given position
    pub fn set_field(&mut self, field: Field<F>, position: (usize, usize))
        requires
            old(self).wf(),
            position.0 < old(self).spec_size().0,
            position.1 < old(self).spec_size().1,
        ensures
            final(self).wf(),
            final(self).spec_name() == old(self).spec_name(),
            final(self).spec_starting_point() == old(self).spec_starting_point(),
            final(self).spec_end_point() == old(self).spec_end_point(),
            final(self).spec_current_position() == old(self).spec_current_position(),
            final(self).spec_size() == old(self).spec_size(),
            final(self).field_at(position.0 as int, position.1 as int) == field,
            forall|x: int, y: int|
                0 <= x < old(self).spec_size().0 && 0 <= y < old(self).spec_size().1 && (x, y)
                    != (position.0 as int, position.1 as int) ==> #[trigger] final(self).field_at(x, y)
                    == old(self).field_at(x, y),
    {
        self.data[position.0][position.1] = field;
    }

    /// Whether neither coordinate exceeds the size of the world
    fn is_valid_coord(&self, coords: (usize, usize)) -> (r: bool)
        ensures
            r == self.spec_is_valid_coord(coords),
    {
        let (x, y) = coords;
        let (width, height) = self.size;
        x <= width && y <= height
    }
}

impl<F: Fn(Event) -> Event> World for World2d<F> {
    type Position = (usize, usize);

    type Movement = (i64, i64);

    open spec fn spec_position(&self) -> (usize, usize) {
        self.spec_current_position()
    }

    open spec fn spec_is_finished(&self) -> bool {
        self.spec_current_position() == self.spec_end_point()
    }

    /// A coordinate that would leave the range of `usize` wraps around.
    open spec fn spec_moved(&self, movement: (i64, i64)) -> (usize, usize) {
        let (x, y) = self.spec_current_position();
        (
            (x as i64).wrapping_add(movement.0) as usize,
            (y as i64).wrapping_add(movement.1) as usize,
        )
    }

    fn get_position(&self) -> (usize, usize) {
        self.current_position
    }

    fn is_finished(&self) -> bool {
        self.current_position.0 == self.end_point.0 && self.current_position.1 == self.end_point.1
    }

    fn move_to(&mut self, movement: (i64, i64)) {
        let (pos_x, pos_y) = self.current_position;
        let (mov_x, mov_y) = movement;
        let new_x = (pos_x as i64).wrapping_add(mov_x) as usize;
        let new_y = (pos_y as i64).wrapping_add(mov_y) as usize;
        self.current_position = (new_x, new_y);
    }
}

} // verus!
