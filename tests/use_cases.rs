use cms_core::adapters::token::{IdTokenProvider, TokenProcessor};
use cms_core::application::create_session::{CreateSession, CreateSessionDTO};
use cms_core::application::exceptions::ApplicationError;
use cms_core::application::get_user_self::GetUserSelf;
use cms_core::application::hasher::Hasher;
use cms_core::application::id_provider::IdProvider;
use cms_core::application::note_gateway::{InMemoryNoteGateway, NoteReader, NoteRemover, NoteWriter};
use cms_core::application::notes::{
    CreateNote, CreateNoteRequest, GetByIdNote, GetByIdNoteRequest, GetBySlugNote,
    GetBySlugNoteRequest,
};
use cms_core::application::session;
use cms_core::application::user_gateway::{InMemoryUserGateway, UserReader, UserRemover, UserWriter};
use cms_core::application::users::{admit_new_user, CreateUser, CreateUserRequest, GetUserList};
use cms_core::config::CredentialsProvider;
use cms_core::domain::note::{Note, NOTE_BODY_MAX, NOTE_TITLE_MAX};
use cms_core::domain::time::Timestamp;
use cms_core::domain::user::User;
use cms_core::domain::validator::ValidatorService;
use cms_core::ioc::IoC;
use cms_core::presentation::interactor_factory::InteractorFactory;

struct MockHasher;

impl Hasher for MockHasher {
    fn hash(&self, value: &str) -> cms_core::domain::hash::Hash {
        let mut data = [0u8; 32];
        let bytes = value.as_bytes();
        let len = bytes.len().min(32);
        data[..len].copy_from_slice(&bytes[..len]);
        cms_core::domain::hash::Hash(data)
    }

    fn verify(&self, value: &str, hash: &cms_core::domain::hash::Hash) -> bool {
        self.hash(value).same_as(hash)
    }
}

fn signed_in(processor: &mut TokenProcessor, username: &str) -> IdTokenProvider {
    let token = processor.set_token_session(&username.to_string());
    IdTokenProvider::new(Some(token), processor).unwrap()
}

fn anonymous(processor: &TokenProcessor) -> IdTokenProvider {
    IdTokenProvider::new(None, processor).unwrap()
}

fn credentials(username: &str, password: &str) -> CredentialsProvider {
    CredentialsProvider { username: username.to_string(), hashed_password: MockHasher.hash(password) }
}

fn sign_in(
    ioc: &IoC<MockHasher>,
    id: IdTokenProvider,
    username: &str,
    password: &str,
) -> Result<String, ApplicationError> {
    ioc.create_session(id)
        .execute(CreateSessionDTO { username: username.to_string(), password: password.to_string() })
        .map(|r| r.username)
}

#[test]
fn token_round_trip() {
    let mut processor = TokenProcessor::new();
    let token = processor.set_token_session(&"admin".to_string());
    assert_eq!(token.len(), 64);
    assert!(token.chars().all(|c| c.is_ascii_digit() || ('a'..='f').contains(&c)));
    assert_eq!(processor.get_token_session(&token).unwrap(), "admin");
    let other = processor.set_token_session(&"bot".to_string());
    assert_ne!(token, other);
    assert_eq!(processor.get_token_session(&token).unwrap(), "admin");
    assert_eq!(processor.get_token_session(&other).unwrap(), "bot");
    assert_eq!(processor.get_token_session(&"0".repeat(64)).unwrap_err(), "Token not valid");
    processor.revoke_token(&token);
    assert!(processor.get_token_session(&token).is_err());
    assert_eq!(processor.get_token_session(&other).unwrap(), "bot");
    processor.revoke_token(&token);
}

#[test]
fn registered_token_is_hex_of_secret() {
    let mut processor = TokenProcessor::new();
    let secret = [0xabu8; 32];
    let token = processor.register_token(&secret, &"admin".to_string());
    assert_eq!(token, "ab".repeat(32));
    assert_eq!(processor.get_token_session(&token).unwrap(), "admin");
}

#[test]
fn identity_view_construction() {
    let mut processor = TokenProcessor::new();
    let view = anonymous(&processor);
    assert!(!view.is_auth());
    assert!(view.username().is_none());
    assert!(view.token().is_none());
    assert_eq!(
        IdTokenProvider::new(Some("nope".to_string()), &processor).err().unwrap(),
        "Token not valid"
    );
    let view = signed_in(&mut processor, "admin");
    assert!(view.is_auth());
    assert_eq!(view.username().unwrap(), "admin");
    assert_eq!(view.token().unwrap().len(), 64);
}

#[test]
fn login_happy_path() {
    let mut processor = TokenProcessor::new();
    let ioc = IoC::new(MockHasher, credentials("admin", "hunter2"));
    let who = sign_in(&ioc, anonymous(&processor), "admin", "hunter2").unwrap();
    assert_eq!(who, "admin");
    let token = processor.set_token_session(&who);
    let view = IdTokenProvider::new(Some(token), &processor).unwrap();
    let me = ioc.get_user_self(view).execute(()).unwrap();
    assert_eq!(me.username, "admin");
}

#[test]
fn login_wrong_password_and_unknown_user_fail_alike() {
    let processor = TokenProcessor::new();
    let ioc = IoC::new(MockHasher, credentials("admin", "hunter2"));
    let wrong = sign_in(&ioc, anonymous(&processor), "admin", "wrong").unwrap_err();
    let unknown = sign_in(&ioc, anonymous(&processor), "nobody", "hunter2").unwrap_err();
    assert_eq!(wrong.status_code(), 422);
    assert_eq!(unknown.status_code(), 422);
    assert_eq!(wrong.to_string(), unknown.to_string());
    assert_eq!(
        wrong.to_string(),
        "ValidationError: [credentials: Invalid username and password pair]"
    );
}

#[test]
fn login_when_signed_in_is_forbidden() {
    let mut processor = TokenProcessor::new();
    let ioc = IoC::new(MockHasher, credentials("admin", "hunter2"));
    let view = signed_in(&mut processor, "admin");
    let err = sign_in(&ioc, view, "admin", "hunter2").unwrap_err();
    assert_eq!(err.status_code(), 403);
    assert_eq!(err.name(), "Forbidden");
}

#[test]
fn login_with_bad_inputs() {
    let processor = TokenProcessor::new();
    let hasher = MockHasher;
    let validator = ValidatorService::new();
    let provider = credentials("admin", "hunter2");
    let interactor = CreateSession {
        password_hasher: &hasher,
        validator: &validator,
        id_provider: anonymous(&processor),
        credential_provider: &provider,
    };
    let err = interactor
        .execute(CreateSessionDTO { username: String::new(), password: String::new() })
        .unwrap_err();
    assert_eq!(
        err.to_string(),
        "ValidationError: [password: must not be empty, username: must not be empty]"
    );
}

#[test]
fn user_self_requires_sign_in() {
    let processor = TokenProcessor::new();
    let err = GetUserSelf { id_provider: anonymous(&processor) }.execute(()).unwrap_err();
    assert_eq!(err.status_code(), 401);
    assert_eq!(err.name(), "Unauthorized");
    assert_eq!(err.to_string(), "Unauthorized");
}

#[test]
fn error_mapping() {
    assert_eq!(ApplicationError::NotFound.status_code(), 404);
    assert_eq!(ApplicationError::NotFound.name(), "NotFound");
    assert_eq!(ApplicationError::Unauthorized.status_code(), 401);
    assert_eq!(ApplicationError::Forbidden.status_code(), 403);
    assert_eq!(
        ApplicationError::Forbidden.to_string(),
        "Forbidden: You do not have permission to perform this action!"
    );
    let e = ApplicationError::UnexpectedError("db down".to_string());
    assert_eq!(e.status_code(), 500);
    assert_eq!(e.name(), "UnexpectedError");
    assert_eq!(e.to_string(), "UnexpectedError: db down");
}

#[test]
fn test_create_note() {
    let mut processor = TokenProcessor::new();
    let mut note_gateway = InMemoryNoteGateway::new();
    let interactor = CreateNote { id_provider: signed_in(&mut processor, "test") };
    let request = CreateNoteRequest { title: "Test".to_string(), body: "Test".to_string() };
    let result = interactor.execute(&mut note_gateway, request).unwrap();
    assert_eq!(result.title, "Test");
    assert_eq!(result.body, "Test");
    assert_eq!(note_gateway.len(), 1);
    assert_eq!(note_gateway.get(&result.id).unwrap().slug, "test");
}

#[test]
fn create_note_scenario() {
    let mut processor = TokenProcessor::new();
    let mut note_gateway = InMemoryNoteGateway::new();
    let interactor = CreateNote { id_provider: signed_in(&mut processor, "admin") };
    let request =
        CreateNoteRequest { title: "Hello World".to_string(), body: "Body text".to_string() };
    let result = interactor.execute(&mut note_gateway, request).unwrap();
    assert_eq!(result.slug, "hello-world");
    assert_eq!(result.description, "Body text");
    assert_eq!(result.id.len(), 16);
    assert!(result.updated_at.is_none());
}

#[test]
fn test_create_note_too_long_title() {
    let mut processor = TokenProcessor::new();
    let mut note_gateway = InMemoryNoteGateway::new();
    note_gateway.save(&Note::create("Test".to_string(), "Test".to_string()).unwrap());
    let interactor = CreateNote { id_provider: signed_in(&mut processor, "test") };
    let request =
        CreateNoteRequest { title: "a".repeat(NOTE_TITLE_MAX + 1), body: "Test".to_string() };
    let result = interactor.execute(&mut note_gateway, request);
    assert!(result.is_err());
    assert_eq!(note_gateway.len(), 1);
}

#[test]
fn test_create_note_too_long_body() {
    let mut processor = TokenProcessor::new();
    let mut note_gateway = InMemoryNoteGateway::new();
    note_gateway.save(&Note::create("Test".to_string(), "Test".to_string()).unwrap());
    let interactor = CreateNote { id_provider: signed_in(&mut processor, "test") };
    let request =
        CreateNoteRequest { title: "Test".to_string(), body: "a".repeat(NOTE_BODY_MAX + 1) };
    let result = interactor.execute(&mut note_gateway, request);
    assert!(result.is_err());
    match result.err().unwrap() {
        ApplicationError::ValidationError(fields) => {
            assert!(fields.get("body").unwrap().contains("too long"));
            assert!(fields.get("title").is_none());
        }
        other => panic!("unexpected {:?}", other),
    }
}

#[test]
fn create_note_needs_identity() {
    let processor = TokenProcessor::new();
    let mut note_gateway = InMemoryNoteGateway::new();
    let interactor = CreateNote { id_provider: anonymous(&processor) };
    let request = CreateNoteRequest { title: "Test".to_string(), body: "Test".to_string() };
    let err = interactor.execute(&mut note_gateway, request).unwrap_err();
    assert_eq!(err.status_code(), 401);
    assert_eq!(note_gateway.len(), 0);
}

#[test]
fn get_by_id_test_get_by_slug_note() {
    let note = Note::create("Supa title for you".to_string(), "Test".to_string()).unwrap();
    let mut note_gateway = InMemoryNoteGateway::new();
    note_gateway.save(&note);
    let interactor = GetByIdNote { note_reader: &note_gateway };
    let request = GetByIdNoteRequest { id: note.id.clone() };
    let result = interactor.execute(request).unwrap();
    assert_eq!(result.id, note.id);
    let missing = interactor.execute(GetByIdNoteRequest { id: "x".repeat(16) }).unwrap_err();
    assert_eq!(missing.status_code(), 404);
}

#[test]
fn get_by_slug_test_get_by_slug_note() {
    let note = Note::create("Supa title for you".to_string(), "Test".to_string()).unwrap();
    let mut note_gateway = InMemoryNoteGateway::new();
    note_gateway.save(&note);
    let interactor = GetBySlugNote { note_reader: &note_gateway };
    let request = GetBySlugNoteRequest { slug: "supa-title-for-you".to_string() };
    let result = interactor.execute(request).unwrap();
    assert_eq!(result.title, "Supa title for you");
}

#[test]
fn note_store_save_is_idempotent_and_keeps_creation_time() {
    let mut store = InMemoryNoteGateway::new();
    let mut note = Note::create("One".to_string(), "first".to_string()).unwrap();
    store.save(&note);
    store.save(&note);
    assert_eq!(store.len(), 1);
    let created = note.created_at;
    note.created_at = Timestamp::from_unix_micros(created.unix_micros + 1000);
    note.update("Two".to_string(), "second".to_string()).unwrap();
    store.save(&note);
    assert_eq!(store.len(), 1);
    let stored = store.get(&note.id).unwrap();
    assert_eq!(stored.title, "Two");
    assert_eq!(stored.created_at, created);
    assert!(stored.updated_at.is_some());
}

#[test]
fn note_store_remove_is_idempotent() {
    let mut store = InMemoryNoteGateway::new();
    let a = Note::create("A".to_string(), "a".to_string()).unwrap();
    let b = Note::create("B".to_string(), "b".to_string()).unwrap();
    store.save(&a);
    store.save(&b);
    store.remove(&a.id);
    assert_eq!(store.len(), 1);
    store.remove(&a.id);
    assert_eq!(store.len(), 1);
    assert!(store.get(&a.id).is_none());
    assert_eq!(store.get(&b.id).unwrap().title, "B");
}

#[test]
fn note_store_range_skips_and_limits() {
    let mut store = InMemoryNoteGateway::new();
    for i in 0..5 {
        store.save(&Note::create(format!("Note {}", i), "body".to_string()).unwrap());
    }
    let page = store.range(&2, &1);
    assert_eq!(page.len(), 2);
    assert_eq!(page[0].title, "Note 1");
    assert_eq!(page[1].slug, "note-2");
    assert_eq!(store.range(&10, &4).len(), 1);
    assert!(store.range(&10, &9).is_empty());
}

#[test]
fn test_create_user() {
    let hasher = MockHasher;
    let mut user_gateway = InMemoryUserGateway::new(vec![]);
    let mut processor = TokenProcessor::new();
    let interactor = CreateUser { id_provider: signed_in(&mut processor, "test_user") };
    interactor
        .execute(
            &mut user_gateway,
            CreateUserRequest { username: "test".to_string(), password_hash: hasher.hash("password") },
        )
        .unwrap();
    assert_eq!(user_gateway.len(), 1);
}

#[test]
fn create_user_refuses_taken_name_and_anonymous() {
    let mut user_gateway =
        InMemoryUserGateway::new(vec![User::create("test".to_string(), MockHasher.hash("p")).unwrap()]);
    let mut processor = TokenProcessor::new();
    let interactor = CreateUser { id_provider: signed_in(&mut processor, "admin") };
    let err = interactor
        .execute(
            &mut user_gateway,
            CreateUserRequest { username: "test".to_string(), password_hash: MockHasher.hash("q") },
        )
        .unwrap_err();
    assert_eq!(err.to_string(), "ValidationError: [username: Username already exists]");
    let interactor = CreateUser { id_provider: anonymous(&processor) };
    let err = interactor
        .execute(
            &mut user_gateway,
            CreateUserRequest { username: "new".to_string(), password_hash: MockHasher.hash("q") },
        )
        .unwrap_err();
    assert_eq!(err.status_code(), 401);
    assert_eq!(user_gateway.len(), 1);
}

#[test]
fn test_get_user_list() {
    let mut processor = TokenProcessor::new();
    let user_gateway =
        InMemoryUserGateway::new(vec![User::create("user".to_string(), MockHasher.hash("password")).unwrap()]);
    let interactor = GetUserList { id_provider: signed_in(&mut processor, "test"), user_reader: &user_gateway };
    let result = interactor.execute(()).unwrap();
    assert_eq!(result.len(), 1);
    assert_eq!(result[0].username, "user");
}

#[test]
fn user_store_upserts_and_removes_by_id() {
    let mut store = InMemoryUserGateway::new(vec![]);
    let mut u = User::create("one".to_string(), MockHasher.hash("p")).unwrap();
    store.save(&u);
    u.username = "renamed".to_string();
    store.save(&u);
    assert_eq!(store.len(), 1);
    assert_eq!(store.get_all()[0].username, "renamed");
    assert!(store.get_by_username("one").is_none());
    store.remove(&u.id);
    store.remove(&u.id);
    assert_eq!(store.len(), 0);
}

#[test]
fn user_table_session() {
    let users = InMemoryUserGateway::new(vec![User::create("test".to_string(), MockHasher.hash("password")).unwrap()]);
    let mut processor = TokenProcessor::new();
    let ok = session::CreateSession { id_provider: anonymous(&processor), user_reader: &users }
        .execute(session::CreateSessionRequest {
            username: "test".to_string(),
            password_hash: MockHasher.hash("password"),
        });
    assert!(ok.is_ok());
    let bad = session::CreateSession { id_provider: anonymous(&processor), user_reader: &users }
        .execute(session::CreateSessionRequest {
            username: "jkearnsl".to_string(),
            password_hash: MockHasher.hash("password"),
        });
    assert_eq!(bad.unwrap_err().status_code(), 401);
    let forbidden = session::CreateSession { id_provider: signed_in(&mut processor, "test"), user_reader: &users }
        .execute(session::CreateSessionRequest {
            username: "test".to_string(),
            password_hash: MockHasher.hash("password"),
        });
    assert_eq!(forbidden.unwrap_err().status_code(), 403);
}

#[test]
fn admit_new_user_decides_on_lookup() {
    assert!(admit_new_user(&None).is_ok());
    let taken = Some(User::create("test".to_string(), MockHasher.hash("p")).unwrap());
    assert_eq!(
        admit_new_user(&taken).unwrap_err().to_string(),
        "ValidationError: [username: Username already exists]"
    );
}

#[test]
fn created_note_record_matches_stored_note() {
    let mut processor = TokenProcessor::new();
    let mut store = InMemoryNoteGateway::new();
    let interactor = CreateNote { id_provider: signed_in(&mut processor, "admin") };
    let made = interactor
        .execute(&mut store, CreateNoteRequest { title: "Rec".to_string(), body: "b".to_string() })
        .unwrap();
    let stored = store.get(&made.id).unwrap();
    assert_eq!(stored.created_at, made.created_at);
    assert_eq!(stored.updated_at, made.updated_at);
    let read = GetByIdNote { note_reader: &store }.execute(GetByIdNoteRequest { id: made.id.clone() }).unwrap();
    assert_eq!(read.created_at, made.created_at);
    assert!(read.updated_at.is_none());
}
