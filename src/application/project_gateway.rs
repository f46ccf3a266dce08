//! Persistence contracts for projects, split into reading, writing and removal.

use vstd::prelude::*;
use crate::domain::project::{Project, ProjectId};

verus! {

/// Looks projects up.
pub trait ProjectReader {
    fn get_project(&self, id: &ProjectId) -> Option<Project>;

    fn get_projects_range(&self, limit: &u64, offset: &u64) -> Vec<Project>;
}

/// Stores a project, inserting or updating by identifier.
pub trait ProjectWriter {
    fn save_project(&mut self, project: &Project);
}

/// Deletes a project by identifier; an unknown identifier is no error.
pub trait ProjectRemover {
    fn remove_project(&mut self, project_id: &ProjectId);
}

/// All three capabilities together.
pub trait ProjectGateway: ProjectReader + ProjectWriter + ProjectRemover {
}

} // verus!
