use super::World;
use vstd::prelude::*;

verus! {

/// A collection of worlds. Usually used to create larger adventures
pub struct Campaign<T: World> {
    /// The title of the campaign
    pub title: String,
    worlds: Vec<T>,
}

impl<T: World> Campaign<T> {
    /// The title of the campaign
    pub closed spec fn spec_title(&self) -> String {
        self.title
    }

    /// The worlds of the campaign, in the order they were added
    pub closed spec fn spec_worlds(&self) -> Seq<T> {
        self.worlds@
    }

    /// Creates a new instance of `Campaign`
    pub fn new(title: &str) -> (r: Campaign<T>)
        ensures
            r.spec_title()@ == title@,
            r.spec_worlds() == Seq::<T>::empty(),
    {
        Campaign { title: title.to_owned(), worlds: Vec::new() }
    }

    /// Adds a world to the campaign
    pub fn add_world(&mut self, world: T)
        ensures
            final(self).spec_title() == old(self).spec_title(),
            final(self).spec_worlds() == old(self).spec_worlds().push(world),
    {
        self.worlds.push(world);
    }
}

} // verus!
