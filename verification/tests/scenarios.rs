use std::collections::HashSet;
use std::sync::{Arc, Mutex};

use thought_backend::domain::blog::models::blog::{Blog, CreateBlogError, CreateBlogRequest};
use thought_backend::domain::blog::ports::{BlogNotifier, BlogPublisher, BlogRepository};
use thought_backend::domain::blog::service::Service;
use thought_backend::inbound::http::handlers::create_blog::{
    create_blog, CreateBlogHttpRequestBody,
};
use thought_backend::inbound::http::responses::{ApiError, StatusCode};
use thought_backend::outbound::sqlite::{CreateBlogTransaction, StorageError, StorageOperation};

/// A store that keeps names unique. `commit_fails` makes every commit fail,
/// as a lost connection would.
#[derive(Clone)]
struct Store {
    names: Arc<Mutex<HashSet<String>>>,
    asked: Arc<Mutex<Vec<StorageOperation>>>,
    commit_fails: bool,
}

impl Store {
    fn new(commit_fails: bool) -> Self {
        Store {
            names: Arc::new(Mutex::new(HashSet::new())),
            asked: Arc::new(Mutex::new(Vec::new())),
            commit_fails,
        }
    }

    fn perform(&self, operation: StorageOperation, blog: &Blog) -> Result<(), StorageError> {
        self.asked.lock().unwrap().push(operation);
        match operation {
            StorageOperation::Begin | StorageOperation::Rollback => Ok(()),
            StorageOperation::Save => {
                if self.names.lock().unwrap().contains(blog.name()) {
                    Err(StorageError::Database {
                        code: Some("2067".to_string()),
                        message: "UNIQUE constraint failed: blogs.name".to_string(),
                    })
                } else {
                    Ok(())
                }
            }
            StorageOperation::Commit => {
                if self.commit_fails {
                    Err(StorageError::Other { message: "connection dropped".to_string() })
                } else {
                    self.names.lock().unwrap().insert(blog.name().clone());
                    Ok(())
                }
            }
        }
    }
}

impl BlogRepository for Store {
    fn create_blog(&self, req: &CreateBlogRequest) -> Result<Blog, CreateBlogError> {
        let mut transaction = CreateBlogTransaction::start(req);
        while let Some(operation) = transaction.pending() {
            let outcome = self.perform(operation, transaction.blog());
            transaction = transaction.advance(outcome);
        }
        transaction.finish().unwrap()
    }
}

#[derive(Clone)]
struct Hooks {
    calls: Arc<Mutex<Vec<String>>>,
}

impl BlogPublisher for Hooks {
    fn publish_to_dev_to(&self) {
        self.calls.lock().unwrap().push("publish".to_string());
    }
}

impl BlogNotifier for Hooks {
    fn blog_failed(&self, _req: &CreateBlogRequest, _error: &CreateBlogError) {
        self.calls.lock().unwrap().push("failed".to_string());
    }

    fn blog_created(&self, _blog: &Blog) {
        self.calls.lock().unwrap().push("created".to_string());
    }
}

fn service(store: &Store) -> (Service<Store, Hooks, Hooks>, Hooks) {
    let hooks = Hooks { calls: Arc::new(Mutex::new(Vec::new())) };
    (Service::new(store.clone(), hooks.clone(), hooks.clone()), hooks)
}

fn engineering_blog() -> CreateBlogHttpRequestBody {
    CreateBlogHttpRequestBody {
        name: "engineering-blog".to_string(),
        email_address: "a@example.com".to_string(),
    }
}

#[test]
fn post_against_an_empty_store_is_created_with_an_id() {
    let store = Store::new(false);
    let (service, hooks) = service(&store);

    let response = create_blog(&service, engineering_blog()).unwrap();

    assert_eq!(response.status, StatusCode::Created);
    assert_eq!(response.status.as_u16(), 201);
    assert!(!response.data.id.is_empty());
    assert_eq!(response.data.id.len(), 36);
    assert!(store.names.lock().unwrap().contains("engineering-blog"));
    assert_eq!(
        *store.asked.lock().unwrap(),
        vec![StorageOperation::Begin, StorageOperation::Save, StorageOperation::Commit]
    );
    assert_eq!(*hooks.calls.lock().unwrap(), vec!["publish".to_string(), "created".to_string()]);
}

#[test]
fn repeated_post_is_unprocessable() {
    let store = Store::new(false);
    let (service, hooks) = service(&store);

    let first = create_blog(&service, engineering_blog());
    let second = create_blog(&service, engineering_blog());

    assert!(first.is_ok());
    let error = second.unwrap_err();
    assert_eq!(error.status().as_u16(), 422);
    assert_eq!(
        error,
        ApiError::UnprocessableEntity("blog with name engineering-blog already exists".to_string())
    );
    assert_eq!(store.names.lock().unwrap().len(), 1);
    assert_eq!(
        *store.asked.lock().unwrap(),
        vec![
            StorageOperation::Begin,
            StorageOperation::Save,
            StorageOperation::Commit,
            StorageOperation::Begin,
            StorageOperation::Save,
            StorageOperation::Rollback,
        ]
    );
    assert_eq!(
        *hooks.calls.lock().unwrap(),
        vec!["publish".to_string(), "created".to_string(), "failed".to_string()]
    );
}

#[test]
fn other_names_do_not_collide() {
    let store = Store::new(false);
    let (service, _hooks) = service(&store);

    let first = create_blog(&service, engineering_blog()).unwrap();
    let second = create_blog(
        &service,
        CreateBlogHttpRequestBody {
            name: "Engineering-blog".to_string(),
            email_address: "a@example.com".to_string(),
        },
    )
    .unwrap();

    assert_ne!(first.data.id, second.data.id);
    assert_eq!(store.names.lock().unwrap().len(), 2);
}

#[test]
fn failed_commit_is_an_internal_error_without_detail() {
    let store = Store::new(true);
    let (service, hooks) = service(&store);

    let error = create_blog(&service, engineering_blog()).unwrap_err();

    assert_eq!(error.status().as_u16(), 500);
    assert_eq!(error, ApiError::InternalServerError("Internal server error".to_string()));
    assert!(!error.message().contains("connection dropped"));
    assert!(!error.message().contains("commit"));
    assert!(store.names.lock().unwrap().is_empty());
    assert_eq!(*hooks.calls.lock().unwrap(), vec!["failed".to_string()]);
}

#[test]
fn failed_commit_keeps_the_cause_for_the_log() {
    let store = Store::new(true);
    let request =
        CreateBlogRequest::new("engineering-blog".to_string(), "a@example.com".to_string())
            .unwrap();

    let error = store.create_blog(&request).unwrap_err();

    assert_eq!(
        error,
        CreateBlogError::Unknown {
            context: "failed to commit SQLite transaction".to_string(),
            cause: "connection dropped".to_string(),
        }
    );
}

#[test]
fn post_without_a_name_does_not_reach_the_store() {
    let store = Store::new(false);
    let (service, hooks) = service(&store);

    let error = create_blog(
        &service,
        CreateBlogHttpRequestBody { name: String::new(), email_address: "a@example.com".to_string() },
    )
    .unwrap_err();

    assert_eq!(error.status().as_u16(), 422);
    assert!(store.asked.lock().unwrap().is_empty());
    assert!(hooks.calls.lock().unwrap().is_empty());
}
