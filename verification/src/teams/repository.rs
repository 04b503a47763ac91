//! The handle through which teams, members and roles are stored. It holds no
//! state of its own: each query takes the connection it runs on.
use vstd::prelude::*;

verus! {

/// Stateless access to the stored teams.
#[derive(Clone, Copy, Debug)]
pub struct TeamsRepository;

impl TeamsRepository {
    /// A repository handle.
    pub fn new() -> (r: TeamsRepository)
        ensures
            r == TeamsRepository,
    {
        TeamsRepository
    }
}

impl Default for TeamsRepository {
    fn default() -> (r: TeamsRepository)
        ensures
            r == TeamsRepository,
    {
        TeamsRepository::new()
    }
}

} // verus!
