//! Projects: a title, a description and an optional link.

use vstd::prelude::*;
use crate::domain::field_errors::{
    length_error, too_long, too_long_message, with_error, FieldEntry, FieldErrors,
};
use crate::domain::id::{generate_id, is_id};
use crate::domain::time::{utc_now, Timestamp};

verus! {

/// Length of a project identifier.
pub const PROJECT_ID_SIZE: usize = 16;

/// Longest title, in characters.
pub const PROJECT_TITLE_MAX: usize = 128;

/// Longest description, in characters.
pub const PROJECT_DESCRIPTION_MAX: usize = 256;

/// Longest link, in characters.
pub const PROJECT_URL_MAX: usize = 2048;

pub type ProjectId = String;

/// A project.
#[derive(Clone, Debug)]
pub struct Project {
    pub id: ProjectId,
    pub title: String,
    pub description: String,
    pub url: Option<String>,
    pub created_at: Timestamp,
}

/// What is wrong with an optional link, if anything.
pub open spec fn url_error(url: Option<Seq<char>>) -> Option<Seq<char>> {
    match url {
        Some(u) => if u.len() > PROJECT_URL_MAX {
            Some(too_long_message(u.len(), PROJECT_URL_MAX as nat))
        } else {
            None
        },
        None => None,
    }
}

/// The view of an optional string.
pub open spec fn opt_view(s: Option<String>) -> Option<Seq<char>> {
    match s {
        Some(x) => Some(x@),
        None => None,
    }
}

/// Every bound that a project's fields break, by field name.
pub open spec fn project_errors(
    title: Seq<char>,
    description: Seq<char>,
    url: Option<Seq<char>>,
) -> Seq<FieldEntry> {
    with_error(
        with_error(
            with_error(Seq::empty(), "title"@, length_error(title, PROJECT_TITLE_MAX as nat)),
            "description"@,
            length_error(description, PROJECT_DESCRIPTION_MAX as nat),
        ),
        "url"@,
        url_error(url),
    )
}

/// Checks a project's fields against their bounds.
pub fn check_project_fields(title: &str, description: &str, url: &Option<String>) -> (r: FieldErrors)
    ensures
        r@ == project_errors(title@, description@, opt_view(*url)),
{
    let mut errors = FieldErrors::new();
    let title_len = title.unicode_len();
    if title_len == 0 {
        errors.insert(String::from_str("title"), String::from_str("must not be empty"));
    } else if title_len > PROJECT_TITLE_MAX {
        errors.insert(String::from_str("title"), too_long(title_len, PROJECT_TITLE_MAX));
    }
    let description_len = description.unicode_len();
    if description_len == 0 {
        errors.insert(String::from_str("description"), String::from_str("must not be empty"));
    } else if description_len > PROJECT_DESCRIPTION_MAX {
        errors.insert(
            String::from_str("description"),
            too_long(description_len, PROJECT_DESCRIPTION_MAX),
        );
    }
    match url {
        Some(u) => {
            let url_len = u.as_str().unicode_len();
            if url_len > PROJECT_URL_MAX {
                errors.insert(String::from_str("url"), too_long(url_len, PROJECT_URL_MAX));
            }
        },
        None => {},
    }
    errors
}

impl Project {
    /// Builds a project from an identifier and a creation time already at
    /// hand. Fails, naming each field at fault, when a bound is broken.
    pub fn assemble(
        id: String,
        title: String,
        description: String,
        url: Option<String>,
        created_at: Timestamp,
    ) -> (r: Result<Project, FieldErrors>)
        ensures
            match r {
                Ok(p) => {
                    &&& project_errors(title@, description@, opt_view(url)).len() == 0
                    &&& p.id@ == id@
                    &&& p.title@ == title@
                    &&& p.description@ == description@
                    &&& opt_view(p.url) == opt_view(url)
                    &&& p.created_at == created_at
                },
                Err(e) => {
                    &&& project_errors(title@, description@, opt_view(url)).len() > 0
                    &&& e@ == project_errors(title@, description@, opt_view(url))
                },
            },
    {
        let errors = check_project_fields(title.as_str(), description.as_str(), &url);
        if !errors.is_empty() {
            return Err(errors);
        }
        Ok(Project { id, title, description, url, created_at })
    }

    /// Creates a project with a fresh identifier, stamped with the current
    /// time. Fails, naming each field at fault, when a bound is broken.
    pub fn create(title: String, description: String, url: Option<String>) -> (r: Result<
        Project,
        FieldErrors,
    >)
        ensures
            match r {
                Ok(p) => {
                    &&& project_errors(title@, description@, opt_view(url)).len() == 0
                    &&& is_id(p.id@, PROJECT_ID_SIZE as nat)
                    &&& p.title@ == title@
                    &&& p.description@ == description@
                    &&& opt_view(p.url) == opt_view(url)
                    &&& p.created_at.unix_micros >= 0
                },
                Err(e) => {
                    &&& project_errors(title@, description@, opt_view(url)).len() > 0
                    &&& e@ == project_errors(title@, description@, opt_view(url))
                },
            },
    {
        let errors = check_project_fields(title.as_str(), description.as_str(), &url);
        if !errors.is_empty() {
            return Err(errors);
        }
        let id = generate_id(PROJECT_ID_SIZE);
        let now = utc_now();
        Project::assemble(id, title, description, url, now)
    }

    /// Replaces title, description and link. On failure the project is left
    /// as it was.
    pub fn update(&mut self, title: String, description: String, url: Option<String>) -> (r:
        Result<(), FieldErrors>)
        ensures
            match r {
                Ok(_) => {
                    &&& project_errors(title@, description@, opt_view(url)).len() == 0
                    &&& final(self).id@ == old(self).id@
                    &&& final(self).title@ == title@
                    &&& final(self).description@ == description@
                    &&& opt_view(final(self).url) == opt_view(url)
                    &&& final(self).created_at == old(self).created_at
                },
                Err(e) => {
                    &&& project_errors(title@, description@, opt_view(url)).len() > 0
                    &&& e@ == project_errors(title@, description@, opt_view(url))
                    &&& *final(self) == *old(self)
                },
            },
    {
        let errors = check_project_fields(title.as_str(), description.as_str(), &url);
        if !errors.is_empty() {
            return Err(errors);
        }
        self.title = title;
        self.description = description;
        self.url = url;
        Ok(())
    }

    /// An identical copy.
    pub fn duplicate(&self) -> (r: Project)
        ensures
            r.id@ == self.id@,
            r.title@ == self.title@,
            r.description@ == self.description@,
            opt_view(r.url) == opt_view(self.url),
            r.created_at == self.created_at,
    {
        let url = match &self.url {
            Some(u) => Some(u.clone()),
            None => None,
        };
        Project {
            id: self.id.clone(),
            title: self.title.clone(),
            description: self.description.clone(),
            url,
            created_at: self.created_at,
        }
    }
}

} // verus!
