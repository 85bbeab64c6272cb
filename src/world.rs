use vstd::prelude::*;

/// A container holding an arbitrary amount of worlds
pub mod campaign;
/// A trait for playable levels
pub mod traits;
/// Structures for creating a 2d world
pub mod two_dimensional;
/// A trait for implementing new world types
mod world_trait;

pub use self::world_trait::World;

verus! {

/// A single field of a level
pub struct Field {
    /// The type of the field
    pub field_type: FieldType,
    /// The height of the field. Used for collision detection
    pub height: u8,
    /// The contained entity (optional)
    pub contained_entity: Option<usize>,
}

/// The field type. Used to determine the optical properties of the ground
#[derive(Clone, Copy, PartialEq, Eq, Debug, Structural)]
pub enum FieldType {
    /// A field consists of dirt
    Dirt,
    /// A field consists of grass
    Grass,
    /// A field a hole in the ground
    Hole,
    /// A field consists of mud
    Mud,
    /// A field consists of quicksand
    Quicksand,
    /// A field consists of sand
    Sand,
    /// A field consists of stone
    Stone,
    /// A field is a stone wall
    StoneWall,
    /// A field consists of swamp water
    SwampWater,
    /// A field consists of water
    Water,
    /// A field consists of wood
    Wood,
    /// A field is a wooded fence
    WoodenFence,
}

/// A larger section of a campagne containing a starting point and end point. The starting point
/// is where the character *spawns* and the end point is the point it has to reach for the next
/// level to begin.
pub struct Level {
    /// The name or title of the level
    pub name: String,
    /// The entry point of the character
    pub starting_point: (usize, usize),
    /// The point where the level is finished
    pub end_point: (usize, usize),
    /// The actual fields, the level consists of
    data: Vec<Vec<Field>>,
}

impl Level {
    /// Creates a level from its parts
    pub fn new(
        name: String,
        starting_point: (usize, usize),
        end_point: (usize, usize),
        data: Vec<Vec<Field>>,
    ) -> (r: Level)
        ensures
            r.spec_name() == name,
            r.spec_starting_point() == starting_point,
            r.spec_end_point() == end_point,
            r.spec_data() == data,
    {
        Level { name, starting_point, end_point, data }
    }

    /// The name of the level
    pub closed spec fn spec_name(&self) -> String {
        self.name
    }

    /// The entry point of the level
    pub closed spec fn spec_starting_point(&self) -> (usize, usize) {
        self.starting_point
    }

    /// The end point of the level
    pub closed spec fn spec_end_point(&self) -> (usize, usize) {
        self.end_point
    }

    /// The fields of the level
    pub closed spec fn spec_data(&self) -> Vec<Vec<Field>> {
        self.data
    }

    /// The fields of the level
    pub fn data(&self) -> (r: &Vec<Vec<Field>>)
        ensures
            *r == self.spec_data(),
    {
        &self.data
    }
}

/// A collection of levels. Usually used to create larger adventures
pub struct Campagne {
    /// The title of the campagne
    pub title: String,
    levels: Vec<Level>,
}

impl Campagne {
    /// Creates a campagne from its title and levels
    pub fn new(title: String, levels: Vec<Level>) -> (r: Campagne)
        ensures
            r.spec_title() == title,
            r.spec_levels() == levels,
    {
        Campagne { title, levels }
    }

    /// The title of the campagne
    pub closed spec fn spec_title(&self) -> String {
        self.title
    }

    /// The levels of the campagne
    pub closed spec fn spec_levels(&self) -> Vec<Level> {
        self.levels
    }

    /// The levels of the campagne
    pub fn levels(&self) -> (r: &Vec<Level>)
        ensures
            *r == self.spec_levels(),
    {
        &self.levels
    }
}

} // verus!
