//! The handle through which project configurations are stored. It holds no
//! state of its own: each query takes the connection it runs on.
use vstd::prelude::*;

verus! {

/// Stateless access to the stored project configurations.
#[derive(Clone, Copy, Debug)]
pub struct ProjectConfigsRepository {}

impl ProjectConfigsRepository {
    /// A repository handle.
    pub fn new() -> (r: ProjectConfigsRepository)
        ensures
            r == (ProjectConfigsRepository {}),
    {
        ProjectConfigsRepository {}
    }
}

impl Default for ProjectConfigsRepository {
    fn default() -> (r: ProjectConfigsRepository)
        ensures
            r == (ProjectConfigsRepository {}),
    {
        ProjectConfigsRepository::new()
    }
}

} // verus!
