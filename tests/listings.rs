use std::time::{SystemTime, UNIX_EPOCH};

use cms_core::adapters::token::{IdTokenProvider, TokenProcessor};
use cms_core::application::note_gateway::{InMemoryNoteGateway, NoteWriter};
use cms_core::application::notes::ListNotes;
use cms_core::application::pagination::{page_window, PageRequest};
use cms_core::application::project_gateway::{ProjectReader, ProjectWriter};
use cms_core::application::projects::{
    CreateProject, CreateProjectRequest, GetByIdProject, GetByIdProjectRequest, ListProjects,
};
use cms_core::domain::note::Note;
use cms_core::domain::project::{Project, ProjectId};

struct ProjectList {
    projects: Vec<Project>,
}

impl ProjectReader for ProjectList {
    fn get_project(&self, id: &ProjectId) -> Option<Project> {
        self.projects.iter().find(|p| &p.id == id).cloned()
    }

    fn get_projects_range(&self, limit: &u64, offset: &u64) -> Vec<Project> {
        self.projects.iter().skip(*offset as usize).take(*limit as usize).cloned().collect()
    }
}

impl ProjectWriter for ProjectList {
    fn save_project(&mut self, project: &Project) {
        self.projects.retain(|p| p.id != project.id);
        self.projects.push(project.clone());
    }
}

#[test]
fn page_window_selects_records() {
    assert_eq!(page_window(&PageRequest { page: 1, per_page: 10 }).unwrap(), (10, 0));
    assert_eq!(page_window(&PageRequest { page: 3, per_page: 25 }).unwrap(), (25, 50));
    assert_eq!(page_window(&PageRequest { page: u64::MAX, per_page: 100 }).unwrap(), (100, u64::MAX));
    let err = page_window(&PageRequest { page: 0, per_page: 101 }).unwrap_err();
    assert_eq!(
        err.to_string(),
        "ValidationError: [page: Page number should be greater than 0, per_page: Number of elements per page should be less than 100]"
    );
}

#[test]
fn list_notes_pages() {
    let mut store = InMemoryNoteGateway::new();
    for i in 0..7 {
        store.save(&Note::create(format!("Note {}", i), "body".to_string()).unwrap());
    }
    let list = ListNotes { note_reader: &store };
    let second = list.execute(PageRequest { page: 2, per_page: 3 }).unwrap();
    assert_eq!(second.iter().map(|n| n.title.as_str()).collect::<Vec<_>>(), ["Note 3", "Note 4", "Note 5"]);
    assert_eq!(list.execute(PageRequest { page: 3, per_page: 3 }).unwrap().len(), 1);
    assert_eq!(list.execute(PageRequest { page: 1, per_page: 0 }).unwrap_err().status_code(), 422);
}

#[test]
fn create_and_read_projects() {
    let mut processor = TokenProcessor::new();
    let token = processor.set_token_session(&"admin".to_string());
    let mut store = ProjectList { projects: vec![] };

    let anonymous = CreateProject { id_provider: IdTokenProvider::new(None, &processor).unwrap() };
    let request = CreateProjectRequest { title: "T".to_string(), description: "D".to_string(), url: None };
    assert_eq!(anonymous.execute(&mut store, request).unwrap_err().status_code(), 401);
    assert!(store.projects.is_empty());

    let create = CreateProject { id_provider: IdTokenProvider::new(Some(token), &processor).unwrap() };
    let bad = CreateProjectRequest { title: String::new(), description: "D".to_string(), url: None };
    assert_eq!(
        create.execute(&mut store, bad).unwrap_err().to_string(),
        "ValidationError: [title: must not be empty]"
    );
    let made = create
        .execute(
            &mut store,
            CreateProjectRequest {
                title: "Site".to_string(),
                description: "My site".to_string(),
                url: Some("https://example.org".to_string()),
            },
        )
        .unwrap();
    assert_eq!(made.id.len(), 16);

    let get = GetByIdProject { project_reader: &store };
    let found = get.execute(GetByIdProjectRequest { id: made.id.clone() }).unwrap();
    assert_eq!(found.url.as_deref(), Some("https://example.org"));
    assert_eq!(get.execute(GetByIdProjectRequest { id: "none".to_string() }).unwrap_err().status_code(), 404);

    let list = ListProjects { project_reader: &store };
    assert_eq!(list.execute(PageRequest { page: 1, per_page: 10 }).unwrap().len(), 1);
}

#[test]
fn creation_time_is_not_in_the_future() {
    let note = Note::create("When".to_string(), "now".to_string()).unwrap();
    let now = SystemTime::now().duration_since(UNIX_EPOCH).unwrap().as_micros() as i64;
    assert!(note.created_at.unix_micros <= now);
    assert!(note.updated_at.is_none());
}
