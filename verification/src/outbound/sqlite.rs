//! The repository's side of a SQLite store: how a blog is written in one
//! transaction, and how the store's failures become the domain's errors.
//!
//! The transaction is a state machine. It names the operation that the store
//! is to perform next; whoever holds the connection performs it and reports
//! the outcome; the machine moves on. It ends with the blog, or with the
//! reason why there is none.

use vstd::prelude::*;
use vstd::string::StringExecFns;
use crate::domain::blog::models::blog::{
    Blog,
    BlogView,
    CreateBlogError,
    CreateBlogErrorView,
    CreateBlogRequest,
    CreateBlogRequestView,
};
use crate::domain::blog::service::{hooks_after, Hook};

verus! {

/// The code by which the store reports a violated uniqueness constraint.
pub const UNIQUE_CONSTRAINT_VIOLATION_CODE: &'static str = "2067";

/// A [`StorageError`] as plain data.
pub enum StorageErrorView {
    Database { code: Option<Seq<char>>, message: Seq<char> },
    Other { message: Seq<char> },
}

impl StorageErrorView {
    /// The failure in the store's own words.
    pub open spec fn message(self) -> Seq<char> {
        match self {
            StorageErrorView::Database { code, message } => message,
            StorageErrorView::Other { message } => message,
        }
    }

    /// Whether the database refused a statement under the code for a violated
    /// uniqueness constraint.
    pub open spec fn is_unique_constraint_violation(self) -> bool {
        self matches StorageErrorView::Database { code: Some(code), .. } && code
            == UNIQUE_CONSTRAINT_VIOLATION_CODE@
    }
}

/// What the repository reads of a failure of the store.
#[derive(Debug, Clone, PartialEq, Eq)]
pub enum StorageError {
    /// The database refused a statement. `code` is the code that it gave, if
    /// it gave one.
    Database { code: Option<String>, message: String },
    /// Any other failure: of the connection, of the pool, of the protocol.
    Other { message: String },
}

impl View for StorageError {
    type V = StorageErrorView;

    open spec fn view(&self) -> StorageErrorView {
        match *self {
            StorageError::Database { code, message } => StorageErrorView::Database {
                code: match code {
                    Some(code) => Some(code@),
                    None => None,
                },
                message: message@,
            },
            StorageError::Other { message } => StorageErrorView::Other { message: message@ },
        }
    }
}

impl StorageError {
    /// The failure in the store's own words.
    pub fn into_message(self) -> (message: String)
        ensures
            message@ == self@.message(),
    {
        match self {
            StorageError::Database { code, message } => message,
            StorageError::Other { message } => message,
        }
    }
}

/// Whether `err` reports a violated uniqueness constraint.
pub fn is_unique_constraint_violation(err: &StorageError) -> (violation: bool)
    ensures
        violation == err@.is_unique_constraint_violation(),
{
    if let StorageError::Database { code, message } = err {
        if let Some(code) = code {
            if *code == String::from_str(UNIQUE_CONSTRAINT_VIOLATION_CODE) {
                return true;
            }
        }
    }
    false
}

/// An operation on the store.
#[derive(Debug, Clone, Copy, PartialEq, Eq, Structural)]
pub enum StorageOperation {
    /// Open a transaction.
    Begin,
    /// Insert the transaction's blog.
    Save,
    /// Commit the open transaction.
    Commit,
    /// Roll the open transaction back.
    Rollback,
}

/// Where a transaction stands, as plain data.
pub enum StageView {
    /// The transaction is to be opened.
    Begin,
    /// The blog is to be inserted.
    Save,
    /// The transaction is to be committed.
    Commit,
    /// The transaction is to be rolled back, because of the error.
    Rollback(CreateBlogErrorView),
    /// The blog is in the store.
    Committed,
    /// The blog is not in the store, because of the error.
    Failed(CreateBlogErrorView),
}

/// A [`CreateBlogTransaction`] as plain data.
pub struct CreateBlogTransactionView {
    pub blog: BlogView,
    pub stage: StageView,
}

pub open spec fn begin_context() -> Seq<char> {
    "failed to start SQLite transaction"@
}

pub open spec fn save_context(name: Seq<char>) -> Seq<char> {
    "failed to save blog with name "@ + name
}

pub open spec fn commit_context() -> Seq<char> {
    "failed to commit SQLite transaction"@
}

/// The domain's error for a failed insert of a blog named `name`: a duplicate
/// where the store reports a violated uniqueness constraint, else unknown.
pub open spec fn save_error(name: Seq<char>, error: StorageErrorView) -> CreateBlogErrorView {
    if error.is_unique_constraint_violation() {
        CreateBlogErrorView::Duplicate { name }
    } else {
        CreateBlogErrorView::Unknown { context: save_context(name), cause: error.message() }
    }
}

impl CreateBlogTransactionView {
    /// The transaction that is to write the blog of `req` under `id`.
    pub open spec fn start(req: CreateBlogRequestView, id: Seq<char>) -> Self {
        CreateBlogTransactionView {
            blog: BlogView { id, name: req.name, email_address: req.email_address },
            stage: StageView::Begin,
        }
    }

    /// The operation that the store is to perform next; none once the
    /// transaction has ended.
    pub open spec fn pending(self) -> Option<StorageOperation> {
        match self.stage {
            StageView::Begin => Some(StorageOperation::Begin),
            StageView::Save => Some(StorageOperation::Save),
            StageView::Commit => Some(StorageOperation::Commit),
            StageView::Rollback(_) => Some(StorageOperation::Rollback),
            StageView::Committed => None,
            StageView::Failed(_) => None,
        }
    }

    /// The transaction once the pending operation has ended with `outcome`.
    ///
    /// A success leads on: from opening to inserting, to committing, to the
    /// end. A failure ends the transaction with an error: at once where
    /// nothing is open (the opening failed) or nothing is left open (the
    /// commit failed), else after a rollback, whose own outcome changes
    /// nothing. A transaction that has ended stays as it is.
    pub open spec fn advance(self, outcome: Result<(), StorageErrorView>) -> Self {
        let stage = match self.stage {
            StageView::Begin => match outcome {
                Ok(_) => StageView::Save,
                Err(error) => StageView::Failed(
                    CreateBlogErrorView::Unknown {
                        context: begin_context(),
                        cause: error.message(),
                    },
                ),
            },
            StageView::Save => match outcome {
                Ok(_) => StageView::Commit,
                Err(error) => StageView::Rollback(save_error(self.blog.name, error)),
            },
            StageView::Commit => match outcome {
                Ok(_) => StageView::Committed,
                Err(error) => StageView::Failed(
                    CreateBlogErrorView::Unknown {
                        context: commit_context(),
                        cause: error.message(),
                    },
                ),
            },
            StageView::Rollback(error) => StageView::Failed(error),
            StageView::Committed => StageView::Committed,
            StageView::Failed(error) => StageView::Failed(error),
        };
        CreateBlogTransactionView { blog: self.blog, stage }
    }

    /// What the repository answers, once the transaction has ended.
    pub open spec fn result(self) -> Option<Result<BlogView, CreateBlogErrorView>> {
        match self.stage {
            StageView::Committed => Some(Ok(self.blog)),
            StageView::Failed(error) => Some(Err(error)),
            _ => None,
        }
    }
}

/// An outcome that the store reports, as plain data.
pub open spec fn outcome_view(outcome: Result<(), StorageError>) -> Result<(), StorageErrorView> {
    match outcome {
        Ok(_) => Ok(()),
        Err(error) => Err(error@),
    }
}

/// The text of a UUID: thirty-two lower-case hexadecimal digits in groups of
/// eight, four, four, four and twelve, with a hyphen between the groups.
pub open spec fn is_uuid_text(text: Seq<char>) -> bool {
    &&& text.len() == 36
    &&& forall|i: int|
        0 <= i < 36 ==> if i == 8 || i == 13 || i == 18 || i == 23 {
            text[i] == '-'
        } else {
            ('0' <= #[trigger] text[i] <= '9') || ('a' <= text[i] <= 'f')
        }
}

/// A fresh identifier for a blog: `uuid::Uuid::new_v4`, written out by the
/// `to_string` of `uuid::Uuid`.
///
/// Trusted: that the text is in the hyphenated lower-case form, which is the
/// one that `uuid` displays a UUID in. Which UUID it is depends on the
/// system's random numbers, and nothing is said of it. `new_v4` panics where
/// the system has no random numbers to give.
#[verifier::external_body]
fn new_blog_id() -> (id: String)
    ensures
        is_uuid_text(id@),
{
    uuid::Uuid::new_v4().to_string()
}

enum Stage {
    Begin,
    Save,
    Commit,
    Rollback(CreateBlogError),
    Committed,
    Failed(CreateBlogError),
}

impl Stage {
    spec fn stage_view(self) -> StageView {
        match self {
            Stage::Begin => StageView::Begin,
            Stage::Save => StageView::Save,
            Stage::Commit => StageView::Commit,
            Stage::Rollback(error) => StageView::Rollback(error@),
            Stage::Committed => StageView::Committed,
            Stage::Failed(error) => StageView::Failed(error@),
        }
    }
}

/// The writing of one blog to the store, in one transaction.
pub struct CreateBlogTransaction {
    blog: Blog,
    stage: Stage,
}

impl View for CreateBlogTransaction {
    type V = CreateBlogTransactionView;

    closed spec fn view(&self) -> CreateBlogTransactionView {
        CreateBlogTransactionView { blog: self.blog@, stage: self.stage.stage_view() }
    }
}

impl CreateBlogTransaction {
    /// The transaction that is to write the blog of `req` under `id`.
    pub fn start_with_id(req: &CreateBlogRequest, id: String) -> (transaction: Self)
        ensures
            transaction@ == CreateBlogTransactionView::start(req@, id@),
    {
        CreateBlogTransaction {
            blog: Blog::new(id, req.name().clone(), req.email_address().clone()),
            stage: Stage::Begin,
        }
    }

    /// The transaction that is to write the blog of `req` under a fresh
    /// identifier.
    pub fn start(req: &CreateBlogRequest) -> (transaction: Self)
        ensures
            is_uuid_text(transaction@.blog.id),
            transaction@ == CreateBlogTransactionView::start(req@, transaction@.blog.id),
    {
        Self::start_with_id(req, new_blog_id())
    }

    /// The blog that the transaction writes.
    pub fn blog(&self) -> (blog: &Blog)
        ensures
            blog@ == self@.blog,
    {
        &self.blog
    }

    /// The operation that the store is to perform next; none once the
    /// transaction has ended.
    pub fn pending(&self) -> (operation: Option<StorageOperation>)
        ensures
            operation == self@.pending(),
    {
        match &self.stage {
            Stage::Begin => Some(StorageOperation::Begin),
            Stage::Save => Some(StorageOperation::Save),
            Stage::Commit => Some(StorageOperation::Commit),
            Stage::Rollback(_) => Some(StorageOperation::Rollback),
            Stage::Committed => None,
            Stage::Failed(_) => None,
        }
    }

    /// The transaction once the pending operation has ended with `outcome`.
    pub fn advance(self, outcome: Result<(), StorageError>) -> (next: Self)
        ensures
            next@ == self@.advance(outcome_view(outcome)),
    {
        let stage = match self.stage {
            Stage::Begin => match outcome {
                Ok(_) => Stage::Save,
                Err(error) => Stage::Failed(
                    CreateBlogError::Unknown {
                        context: String::from_str("failed to start SQLite transaction"),
                        cause: error.into_message(),
                    },
                ),
            },
            Stage::Save => match outcome {
                Ok(_) => Stage::Commit,
                Err(error) => {
                    if is_unique_constraint_violation(&error) {
                        Stage::Rollback(CreateBlogError::Duplicate { name: self.blog.name().clone() })
                    } else {
                        Stage::Rollback(
                            CreateBlogError::Unknown {
                                context: String::from_str("failed to save blog with name ").concat(
                                    self.blog.name().as_str(),
                                ),
                                cause: error.into_message(),
                            },
                        )
                    }
                },
            },
            Stage::Commit => match outcome {
                Ok(_) => Stage::Committed,
                Err(error) => Stage::Failed(
                    CreateBlogError::Unknown {
                        context: String::from_str("failed to commit SQLite transaction"),
                        cause: error.into_message(),
                    },
                ),
            },
            Stage::Rollback(error) => Stage::Failed(error),
            Stage::Committed => Stage::Committed,
            Stage::Failed(error) => Stage::Failed(error),
        };
        CreateBlogTransaction { blog: self.blog, stage }
    }

    /// What the repository answers, once the transaction has ended; nothing
    /// before.
    pub fn finish(self) -> (result: Option<Result<Blog, CreateBlogError>>)
        ensures
            match result {
                Some(Ok(blog)) => self@.result() == Some(Ok::<_, CreateBlogErrorView>(blog@)),
                Some(Err(error)) => self@.result() == Some(Err::<BlogView, _>(error@)),
                None => self@.result() is None,
            },
    {
        match self.stage {
            Stage::Committed => Some(Ok(self.blog)),
            Stage::Failed(error) => Some(Err(error)),
            _ => None,
        }
    }
}

/// What a store answers to the pending operation of `transaction`, if it keeps
/// the names of its blogs unique and fails in no other way, and holds blogs of
/// the names `names`: it refuses to insert a name that it holds, under the
/// code for a violated uniqueness constraint, and does everything else.
pub open spec fn unique_store_outcome(
    names: Set<Seq<char>>,
    transaction: CreateBlogTransactionView,
) -> Result<(), StorageErrorView> {
    if transaction.pending() == Some(StorageOperation::Save) && names.contains(
        transaction.blog.name,
    ) {
        Err(
            StorageErrorView::Database {
                code: Some(UNIQUE_CONSTRAINT_VIOLATION_CODE@),
                message: "UNIQUE constraint failed"@,
            },
        )
    } else {
        Ok(())
    }
}

/// The names that such a store holds after the pending operation of
/// `transaction`: a commit adds the name of the blog, and nothing else
/// changes them.
pub open spec fn unique_store_names(
    names: Set<Seq<char>>,
    transaction: CreateBlogTransactionView,
) -> Set<Seq<char>> {
    if transaction.pending() == Some(StorageOperation::Commit) {
        names.insert(transaction.blog.name)
    } else {
        names
    }
}

/// A transaction run against a store: where the transaction stands, the names
/// that the store holds, and the operations that the store was asked for, in
/// order.
pub struct StoreRun {
    pub transaction: CreateBlogTransactionView,
    pub names: Set<Seq<char>>,
    pub asked: Seq<StorageOperation>,
}

impl StoreRun {
    /// The run after `operations` more operations, or at the end of the
    /// transaction if that comes first, against a store that keeps names
    /// unique and fails in no other way.
    pub open spec fn in_unique_store(self, operations: nat) -> StoreRun
        decreases operations,
    {
        if operations == 0 {
            self
        } else {
            match self.transaction.pending() {
                None => self,
                Some(operation) => (StoreRun {
                    transaction: self.transaction.advance(
                        unique_store_outcome(self.names, self.transaction),
                    ),
                    names: unique_store_names(self.names, self.transaction),
                    asked: self.asked.push(operation),
                }).in_unique_store((operations - 1) as nat),
            }
        }
    }
}

/// The creation of the blog of `req` under `id`, run from start to end against
/// a store that keeps names unique, fails in no other way, and holds blogs of
/// the names `names`.
pub open spec fn create_in_unique_store(
    names: Set<Seq<char>>,
    req: CreateBlogRequestView,
    id: Seq<char>,
) -> StoreRun {
    (StoreRun {
        transaction: CreateBlogTransactionView::start(req, id),
        names,
        asked: Seq::empty(),
    }).in_unique_store(3)
}

/// Every transaction ends with the third outcome at the latest, whatever the
/// store reports.
pub proof fn ends_with_third_outcome(
    req: CreateBlogRequestView,
    id: Seq<char>,
    first: Result<(), StorageErrorView>,
    second: Result<(), StorageErrorView>,
    third: Result<(), StorageErrorView>,
)
    ensures
        CreateBlogTransactionView::start(req, id).advance(first).advance(second).advance(
            third,
        ).pending() is None,
{
}

/// A transaction never changes its blog, and once it has ended it stays as it
/// is.
pub proof fn outcome_keeps_blog_and_end(
    transaction: CreateBlogTransactionView,
    outcome: Result<(), StorageErrorView>,
)
    ensures
        transaction.advance(outcome).blog == transaction.blog,
        transaction.pending() is None ==> transaction.advance(outcome) == transaction,
{
}

/// The operations come in one order: a transaction is never opened twice;
/// the blog is inserted only into a transaction that was opened; it is
/// committed only once it was inserted; and a rollback is asked for only
/// after a failed insert.
pub proof fn operations_come_in_order(
    transaction: CreateBlogTransactionView,
    outcome: Result<(), StorageErrorView>,
)
    ensures
        transaction.advance(outcome).pending() != Some(StorageOperation::Begin),
        transaction.advance(outcome).pending() == Some(StorageOperation::Save) ==> outcome is Ok
            && transaction.pending() == Some(StorageOperation::Begin),
        transaction.advance(outcome).pending() == Some(StorageOperation::Commit) ==> outcome is Ok
            && transaction.pending() == Some(StorageOperation::Save),
        transaction.advance(outcome).pending() == Some(StorageOperation::Rollback) ==> outcome
            is Err && transaction.pending() == Some(StorageOperation::Save),
{
}

/// The blog is answered only once the store has committed it: a transaction
/// comes to stand at `Committed` by a successful commit and in no other way.
pub proof fn success_follows_commit(
    transaction: CreateBlogTransactionView,
    outcome: Result<(), StorageErrorView>,
)
    requires
        transaction.advance(outcome).stage is Committed,
        !(transaction.stage is Committed),
    ensures
        transaction.pending() == Some(StorageOperation::Commit),
        outcome is Ok,
{
}

/// After a failure the store is never asked to commit: the transaction asks
/// for a rollback or for nothing more, and ends with an error.
pub proof fn failure_is_not_committed(
    transaction: CreateBlogTransactionView,
    outcome: Result<(), StorageErrorView>,
    later: Result<(), StorageErrorView>,
)
    requires
        transaction.pending() is Some,
        transaction.pending() != Some(StorageOperation::Rollback),
        outcome is Err,
    ensures
        transaction.advance(outcome).pending() is None || transaction.advance(outcome).pending()
            == Some(StorageOperation::Rollback),
        transaction.advance(outcome).advance(later).result() is Some,
        transaction.advance(outcome).advance(later).result().unwrap() is Err,
{
}

/// A request for a name that the store does not hold is granted.
///
/// Against a store that keeps names unique and fails in no other way: the
/// store is asked to open a transaction, to insert and to commit, in this
/// order; the answer is the blog of the request under its identifier; the
/// store then holds the name; and the hooks that follow the answer are the
/// publisher's and then the notifier's for a creation, each once.
pub proof fn unique_name_is_created(
    names: Set<Seq<char>>,
    req: CreateBlogRequestView,
    id: Seq<char>,
)
    requires
        !names.contains(req.name),
    ensures
        create_in_unique_store(names, req, id).asked == seq![
            StorageOperation::Begin,
            StorageOperation::Save,
            StorageOperation::Commit,
        ],
        create_in_unique_store(names, req, id).transaction.result() == Some(
            Ok::<_, CreateBlogErrorView>(
                BlogView { id, name: req.name, email_address: req.email_address },
            ),
        ),
        create_in_unique_store(names, req, id).names == names.insert(req.name),
        hooks_after(create_in_unique_store(names, req, id).transaction.result().unwrap() is Ok)
            == seq![Hook::PublishToDevTo, Hook::BlogCreated],
{
    reveal_with_fuel(StoreRun::in_unique_store, 4);
}

/// A request for a name that the store holds is refused as a duplicate.
///
/// Against a store that keeps names unique and fails in no other way: the
/// store is asked to open a transaction, to insert and to roll back, and
/// never to commit; the answer is the duplicate error with the name of the
/// request; the store holds what it held before; and the one hook that
/// follows the answer is the notifier's for a failure.
pub proof fn taken_name_is_duplicate(
    names: Set<Seq<char>>,
    req: CreateBlogRequestView,
    id: Seq<char>,
)
    requires
        names.contains(req.name),
    ensures
        create_in_unique_store(names, req, id).asked == seq![
            StorageOperation::Begin,
            StorageOperation::Save,
            StorageOperation::Rollback,
        ],
        create_in_unique_store(names, req, id).transaction.result() == Some(
            Err::<BlogView, _>(CreateBlogErrorView::Duplicate { name: req.name }),
        ),
        create_in_unique_store(names, req, id).names == names,
        hooks_after(create_in_unique_store(names, req, id).transaction.result().unwrap() is Ok)
            == seq![Hook::BlogFailed],
{
    reveal_with_fuel(StoreRun::in_unique_store, 4);
}

/// The same request made twice is granted once and then refused as a
/// duplicate, whatever the two identifiers are.
///
/// Against a store that keeps names unique and fails in no other way, and
/// that does not hold the name at first: the first creation answers with the
/// blog; the second, run against what the first left in the store, answers
/// with the duplicate error and leaves the store as it found it.
pub proof fn repeated_request_is_duplicate(
    names: Set<Seq<char>>,
    req: CreateBlogRequestView,
    first_id: Seq<char>,
    second_id: Seq<char>,
)
    requires
        !names.contains(req.name),
    ensures
        ({
            let first = create_in_unique_store(names, req, first_id);
            let second = create_in_unique_store(first.names, req, second_id);
            &&& first.transaction.result() == Some(
                Ok::<_, CreateBlogErrorView>(
                    BlogView { id: first_id, name: req.name, email_address: req.email_address },
                ),
            )
            &&& second.transaction.result() == Some(
                Err::<BlogView, _>(CreateBlogErrorView::Duplicate { name: req.name }),
            )
            &&& second.names == first.names
        }),
{
    unique_name_is_created(names, req, first_id);
    taken_name_is_duplicate(names.insert(req.name), req, second_id);
}

} // verus!
