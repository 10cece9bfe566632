use vstd::prelude::*;

verus! {

/// A stored record: an integer identifier, a title, a release year and a
/// free-text description. The identifier doubles as the cache key; the
/// datastore assigns it on insert.
pub struct Movie {
    pub id: i32,
    pub title: String,
    pub year: i32,
    pub description: String,
}

impl Movie {
    /// An identical copy, field for field.
    pub fn duplicate(&self) -> (r: Movie)
        ensures
            r == *self,
    {
        Movie {
            id: self.id,
            title: self.title.clone(),
            year: self.year,
            description: self.description.clone(),
        }
    }
}

} // verus!
