//! Creating projects and reading them.

use vstd::prelude::*;
use crate::adapters::token::IdTokenProvider;
use crate::application::exceptions::{ApplicationError, ErrorView};
use crate::application::pagination::{page_window, pagination_errors, PageRequest};
use crate::application::project_gateway::{ProjectReader, ProjectWriter};
use crate::domain::id::is_id;
use crate::domain::project::{opt_view, project_errors, Project, ProjectId, PROJECT_ID_SIZE};

verus! {

/// A request to create a project.
#[derive(Debug)]
pub struct CreateProjectRequest {
    pub title: String,
    pub description: String,
    pub url: Option<String>,
}

/// Creates a project for a signed-in caller.
pub struct CreateProject {
    pub id_provider: IdTokenProvider,
}

/// The failure a project creation meets, if any.
pub open spec fn create_project_failure(
    is_auth: bool,
    title: Seq<char>,
    description: Seq<char>,
    url: Option<Seq<char>>,
) -> Option<ErrorView> {
    if !is_auth {
        Some(ErrorView::Unauthorized)
    } else if project_errors(title, description, url).len() > 0 {
        Some(ErrorView::ValidationError(project_errors(title, description, url)))
    } else {
        None
    }
}

impl CreateProject {
    /// Creates the project and stores it through `project_writer`. An
    /// anonymous caller or a broken bound leaves the store untouched.
    pub fn execute<W: ProjectWriter>(&self, project_writer: &mut W, data: CreateProjectRequest) -> (r:
        Result<Project, ApplicationError>)
        ensures
            match create_project_failure(
                self.id_provider@.is_auth,
                data.title@,
                data.description@,
                opt_view(data.url),
            ) {
                Some(e) => (r matches Err(x) && x@ == e) && *final(project_writer) == *old(
                    project_writer,
                ),
                None => r matches Ok(p) && p.title@ == data.title@ && p.description@
                    == data.description@ && opt_view(p.url) == opt_view(data.url) && is_id(
                    p.id@,
                    PROJECT_ID_SIZE as nat,
                ) && p.created_at.unix_micros >= 0,
            },
    {
        if !self.id_provider.signed_in() {
            return Err(ApplicationError::Unauthorized);
        }
        let project = match Project::create(data.title, data.description, data.url) {
            Ok(p) => p,
            Err(e) => {
                return Err(ApplicationError::ValidationError(e));
            },
        };
        project_writer.save_project(&project);
        Ok(project)
    }
}

/// A request for a project by identifier.
#[derive(Debug)]
pub struct GetByIdProjectRequest {
    pub id: ProjectId,
}

/// Reads a project by identifier; open to everyone.
pub struct GetByIdProject<'a, R: ProjectReader> {
    pub project_reader: &'a R,
}

impl<'a, R: ProjectReader> GetByIdProject<'a, R> {
    /// The project stored under the identifier, or `NotFound`.
    pub fn execute(&self, data: GetByIdProjectRequest) -> (r: Result<Project, ApplicationError>)
        ensures
            r matches Err(e) ==> e@ == ErrorView::NotFound,
    {
        match self.project_reader.get_project(&data.id) {
            Some(p) => Ok(p),
            None => Err(ApplicationError::NotFound),
        }
    }
}

/// Lists projects a page at a time; open to everyone.
pub struct ListProjects<'a, R: ProjectReader> {
    pub project_reader: &'a R,
}

impl<'a, R: ProjectReader> ListProjects<'a, R> {
    /// The projects of the requested page; a malformed page request fails
    /// with the failures by field name.
    pub fn execute(&self, data: PageRequest) -> (r: Result<Vec<Project>, ApplicationError>)
        ensures
            pagination_errors(data.page, data.per_page).len() == 0 <==> r is Ok,
            r matches Err(e) ==> e@ == ErrorView::ValidationError(
                pagination_errors(data.page, data.per_page),
            ),
    {
        let (limit, offset) = page_window(&data)?;
        Ok(self.project_reader.get_projects_range(&limit, &offset))
    }
}

} // verus!
