use thought_backend::domain::blog::models::blog::{Blog, CreateBlogError, CreateBlogRequest};
use thought_backend::outbound::sqlite::{
    is_unique_constraint_violation, CreateBlogTransaction, StorageError, StorageOperation,
    UNIQUE_CONSTRAINT_VIOLATION_CODE,
};

fn request() -> CreateBlogRequest {
    CreateBlogRequest::new("engineering-blog".to_string(), "a@example.com".to_string()).unwrap()
}

fn refused(code: &str) -> StorageError {
    StorageError::Database {
        code: Some(code.to_string()),
        message: "UNIQUE constraint failed: blogs.name".to_string(),
    }
}

fn dropped() -> StorageError {
    StorageError::Other { message: "connection reset by peer".to_string() }
}

#[test]
fn unique_violation_code_is_2067() {
    assert_eq!(UNIQUE_CONSTRAINT_VIOLATION_CODE, "2067");
}

#[test]
fn code_2067_is_a_unique_violation() {
    assert!(is_unique_constraint_violation(&refused("2067")));
}

#[test]
fn other_codes_are_no_unique_violation() {
    assert!(!is_unique_constraint_violation(&refused("1555")));
    assert!(!is_unique_constraint_violation(&refused("787")));
    assert!(!is_unique_constraint_violation(&refused("")));
    assert!(!is_unique_constraint_violation(&refused("20670")));
    assert!(!is_unique_constraint_violation(&refused(" 2067")));
}

#[test]
fn error_without_code_is_no_unique_violation() {
    let error = StorageError::Database { code: None, message: "2067".to_string() };
    assert!(!is_unique_constraint_violation(&error));
}

#[test]
fn error_outside_the_database_is_no_unique_violation() {
    assert!(!is_unique_constraint_violation(&dropped()));
    assert!(!is_unique_constraint_violation(&StorageError::Other { message: "2067".to_string() }));
}

#[test]
fn storage_error_gives_its_message() {
    assert_eq!(refused("2067").into_message(), "UNIQUE constraint failed: blogs.name");
    assert_eq!(dropped().into_message(), "connection reset by peer");
}

#[test]
fn transaction_starts_by_opening() {
    let transaction = CreateBlogTransaction::start_with_id(&request(), "id-1".to_string());
    assert_eq!(transaction.pending(), Some(StorageOperation::Begin));
    assert_eq!(
        *transaction.blog(),
        Blog::new("id-1".to_string(), "engineering-blog".to_string(), "a@example.com".to_string())
    );
    assert_eq!(transaction.finish(), None);
}

#[test]
fn transaction_opens_saves_commits() {
    let transaction = CreateBlogTransaction::start_with_id(&request(), "id-1".to_string());
    let transaction = transaction.advance(Ok(()));
    assert_eq!(transaction.pending(), Some(StorageOperation::Save));
    let transaction = transaction.advance(Ok(()));
    assert_eq!(transaction.pending(), Some(StorageOperation::Commit));
    let transaction = transaction.advance(Ok(()));
    assert_eq!(transaction.pending(), None);
    assert_eq!(
        transaction.finish(),
        Some(Ok(Blog::new(
            "id-1".to_string(),
            "engineering-blog".to_string(),
            "a@example.com".to_string()
        )))
    );
}

#[test]
fn transaction_does_not_answer_before_the_commit() {
    let transaction = CreateBlogTransaction::start_with_id(&request(), "id-1".to_string());
    let transaction = transaction.advance(Ok(())).advance(Ok(()));
    assert_eq!(transaction.pending(), Some(StorageOperation::Commit));
    assert_eq!(transaction.finish(), None);
}

#[test]
fn failed_opening_ends_the_transaction() {
    let transaction = CreateBlogTransaction::start_with_id(&request(), "id-1".to_string());
    let transaction = transaction.advance(Err(dropped()));
    assert_eq!(transaction.pending(), None);
    assert_eq!(
        transaction.finish(),
        Some(Err(CreateBlogError::Unknown {
            context: "failed to start SQLite transaction".to_string(),
            cause: "connection reset by peer".to_string(),
        }))
    );
}

#[test]
fn taken_name_is_rolled_back_and_reported_as_duplicate() {
    let transaction = CreateBlogTransaction::start_with_id(&request(), "id-1".to_string());
    let transaction = transaction.advance(Ok(())).advance(Err(refused("2067")));
    assert_eq!(transaction.pending(), Some(StorageOperation::Rollback));
    let transaction = transaction.advance(Ok(()));
    assert_eq!(transaction.pending(), None);
    assert_eq!(
        transaction.finish(),
        Some(Err(CreateBlogError::Duplicate { name: "engineering-blog".to_string() }))
    );
}

#[test]
fn failed_rollback_leaves_the_error_as_it_is() {
    let transaction = CreateBlogTransaction::start_with_id(&request(), "id-1".to_string());
    let transaction =
        transaction.advance(Ok(())).advance(Err(refused("2067"))).advance(Err(dropped()));
    assert_eq!(transaction.pending(), None);
    assert_eq!(
        transaction.finish(),
        Some(Err(CreateBlogError::Duplicate { name: "engineering-blog".to_string() }))
    );
}

#[test]
fn other_failed_save_is_rolled_back_and_reported_as_unknown() {
    let transaction = CreateBlogTransaction::start_with_id(&request(), "id-1".to_string());
    let transaction = transaction.advance(Ok(())).advance(Err(refused("1555")));
    assert_eq!(transaction.pending(), Some(StorageOperation::Rollback));
    let transaction = transaction.advance(Ok(()));
    assert_eq!(
        transaction.finish(),
        Some(Err(CreateBlogError::Unknown {
            context: "failed to save blog with name engineering-blog".to_string(),
            cause: "UNIQUE constraint failed: blogs.name".to_string(),
        }))
    );
}

#[test]
fn failed_commit_ends_the_transaction() {
    let transaction = CreateBlogTransaction::start_with_id(&request(), "id-1".to_string());
    let transaction = transaction.advance(Ok(())).advance(Ok(())).advance(Err(dropped()));
    assert_eq!(transaction.pending(), None);
    assert_eq!(
        transaction.finish(),
        Some(Err(CreateBlogError::Unknown {
            context: "failed to commit SQLite transaction".to_string(),
            cause: "connection reset by peer".to_string(),
        }))
    );
}

#[test]
fn unique_violation_at_commit_is_unknown() {
    let transaction = CreateBlogTransaction::start_with_id(&request(), "id-1".to_string());
    let transaction = transaction.advance(Ok(())).advance(Ok(())).advance(Err(refused("2067")));
    assert_eq!(
        transaction.finish(),
        Some(Err(CreateBlogError::Unknown {
            context: "failed to commit SQLite transaction".to_string(),
            cause: "UNIQUE constraint failed: blogs.name".to_string(),
        }))
    );
}

#[test]
fn ended_transaction_stays_as_it_is() {
    let transaction = CreateBlogTransaction::start_with_id(&request(), "id-1".to_string());
    let transaction = transaction.advance(Ok(())).advance(Ok(())).advance(Ok(()));
    let transaction = transaction.advance(Err(dropped())).advance(Ok(()));
    assert_eq!(transaction.pending(), None);
    assert_eq!(
        transaction.finish(),
        Some(Ok(Blog::new(
            "id-1".to_string(),
            "engineering-blog".to_string(),
            "a@example.com".to_string()
        )))
    );

    let failed = CreateBlogTransaction::start_with_id(&request(), "id-2".to_string());
    let failed = failed.advance(Err(dropped())).advance(Ok(())).advance(Ok(()));
    assert_eq!(failed.pending(), None);
    assert_eq!(
        failed.finish(),
        Some(Err(CreateBlogError::Unknown {
            context: "failed to start SQLite transaction".to_string(),
            cause: "connection reset by peer".to_string(),
        }))
    );
}

#[test]
fn every_transaction_ends_with_the_third_outcome() {
    let outcomes: Vec<fn() -> Result<(), StorageError>> =
        vec![|| Ok(()), || Err(refused("2067")), || Err(dropped())];
    for first in &outcomes {
        for second in &outcomes {
            for third in &outcomes {
                let transaction =
                    CreateBlogTransaction::start_with_id(&request(), "id-1".to_string());
                let transaction = transaction.advance(first()).advance(second()).advance(third());
                assert_eq!(transaction.pending(), None);
            }
        }
    }
}

#[test]
fn fresh_identifier_is_a_hyphenated_uuid() {
    let transaction = CreateBlogTransaction::start(&request());
    let id = transaction.blog().id().clone();
    assert_eq!(id.len(), 36);
    for (index, character) in id.chars().enumerate() {
        if index == 8 || index == 13 || index == 18 || index == 23 {
            assert_eq!(character, '-');
        } else {
            assert!(character.is_ascii_digit() || ('a'..='f').contains(&character));
        }
    }
    let parsed = uuid::Uuid::parse_str(&id).unwrap();
    assert_eq!(parsed.get_version_num(), 4);
    assert_eq!(parsed.to_string(), id);
}

#[test]
fn fresh_identifiers_differ() {
    let first = CreateBlogTransaction::start(&request());
    let second = CreateBlogTransaction::start(&request());
    assert_ne!(first.blog().id(), second.blog().id());
}

#[test]
fn started_transaction_carries_the_request() {
    let transaction = CreateBlogTransaction::start(&request());
    assert_eq!(transaction.pending(), Some(StorageOperation::Begin));
    assert_eq!(transaction.blog().name(), "engineering-blog");
    assert_eq!(transaction.blog().email_address(), "a@example.com");
}
