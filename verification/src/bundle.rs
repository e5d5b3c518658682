//! Application bundle configuration.
//!
//! The bundle records the asset root path that the host registers with its
//! asset loader when the application starts.  Building the surrounding
//! resources (thread pool, event channel, world registration) is host work
//! and lives outside the verified library.
use vstd::prelude::*;

verus! {

/// Construction-time configuration for the application: the asset root path.
pub struct AppBundle {
    path: String,
}

impl View for AppBundle {
    type V = Seq<char>;

    closed spec fn view(&self) -> Seq<char> {
        self.path@
    }
}

impl AppBundle {
    /// Creates a bundle that will load assets from the given root path.
    pub fn new(path: String) -> (r: Self)
        ensures
            r@ == path@,
    {
        AppBundle { path }
    }

    /// The asset root path this bundle was created with.
    pub fn path(&self) -> (r: &String)
        ensures
            r@ == self@,
    {
        &self.path
    }
}

} // verus!
