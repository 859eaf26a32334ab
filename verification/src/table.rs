//! Collections and their bindings to a connection.
use crate::engine::{describe, execute, query_value};
use crate::error::{
    classified, classify, is_constraint_code, may_come_of, names_missing_table, Fault, FaultView,
    Operation, StoreError, StoreErrorView,
};
use crate::scalar::{
    bound_form, coerce, coerced, kept_as, kind_of, BoundView, Scalar, ScalarKind, ScalarView,
    Stored, StoredView,
};
use crate::statement::{
    create_statement, create_text, delete_statement, delete_text, insert_statement, insert_text,
    is_plain_name, plain_name, select_statement, select_text, Statement, StatementView,
};
use rusqlite::Connection;
use vstd::prelude::*;

verus! {

/// Names a collection. It holds nothing but the name, which is also the
/// name of the table that keeps the collection.
#[derive(Debug)]
pub struct Table<'a> {
    name: &'a str,
}

/// A collection bound to a connection, on which values are set, read and
/// removed. The connection stays the caller's.
#[derive(Debug)]
pub struct DatabaseTable<'a> {
    name: &'a str,
    connection: &'a Connection,
}

impl<'a> View for Table<'a> {
    type V = Seq<char>;

    /// The name of the collection.
    closed spec fn view(&self) -> Seq<char> {
        self.name@
    }
}

/// What the engine gave for a statement that changes rows: their number, or
/// a failure.
pub open spec fn count_outcome_view(outcome: Result<usize, Fault>) -> Result<usize, FaultView> {
    match outcome {
        Ok(n) => Ok(n),
        Err(f) => Err(f@),
    }
}

/// What the engine gave for a query: the stored value, or a failure.
pub open spec fn value_outcome_view(outcome: Result<Stored, Fault>) -> Result<
    StoredView,
    FaultView,
> {
    match outcome {
        Ok(s) => Ok(s@),
        Err(f) => Err(f@),
    }
}

/// What an operation answers with a count.
pub open spec fn count_result_view(r: Result<usize, StoreError>) -> Result<usize, StoreErrorView> {
    match r {
        Ok(n) => Ok(n),
        Err(e) => Err(e@),
    }
}

/// What `get` answers.
pub open spec fn value_result_view(r: Result<Scalar, StoreError>) -> Result<
    ScalarView,
    StoreErrorView,
> {
    match r {
        Ok(v) => Ok(v@),
        Err(e) => Err(e@),
    }
}

/// The answer of an operation that changes rows to what the engine gave:
/// the count as it is, whatever it is, or the failure classified.
pub open spec fn count_answer(op: Operation, outcome: Result<usize, FaultView>) -> Result<
    usize,
    StoreErrorView,
> {
    match outcome {
        Ok(n) => Ok(n),
        Err(f) => Err(classified(op, f)),
    }
}

/// The answer of `get` to what the engine gave: the stored value read as
/// the kind asked for, `TypeMismatch` where it cannot be read so, or the
/// failure classified.
pub open spec fn value_answer(outcome: Result<StoredView, FaultView>, kind: ScalarKind) -> Result<
    ScalarView,
    StoreErrorView,
> {
    match outcome {
        Ok(stored) => match coerced(stored, kind) {
            Some(v) => Ok(v),
            None => Err(StoreErrorView::TypeMismatch),
        },
        Err(f) => Err(classified(Operation::Read, f)),
    }
}

/// Answers what the engine gave for a statement that changes rows.
pub fn count_result(op: Operation, outcome: Result<usize, Fault>) -> (r: Result<usize, StoreError>)
    ensures
        count_result_view(r) == count_answer(op, count_outcome_view(outcome)),
{
    match outcome {
        Ok(n) => Ok(n),
        Err(fault) => Err(classify(op, fault)),
    }
}

/// Answers what the engine gave for the query of `get`.
pub fn value_result(outcome: Result<Stored, Fault>, kind: ScalarKind) -> (r: Result<
    Scalar,
    StoreError,
>)
    ensures
        value_result_view(r) == value_answer(value_outcome_view(outcome), kind),
{
    match outcome {
        Ok(stored) => match coerce(stored, kind) {
            Some(v) => Ok(v),
            None => Err(StoreError::TypeMismatch),
        },
        Err(fault) => Err(classify(Operation::Read, fault)),
    }
}

/// Sends a statement that changes rows and takes what the engine gives.
fn changed_rows(connection: &Connection, statement: &Statement) -> Result<usize, Fault> {
    match execute(connection, statement) {
        Ok(n) => Ok(n),
        Err(error) => Err(describe(error)),
    }
}

/// Sends a query and takes the value of its first row, or the failure.
fn first_value(connection: &Connection, statement: &Statement) -> Result<Stored, Fault> {
    match query_value(connection, statement) {
        Ok(stored) => Ok(stored),
        Err(error) => Err(describe(error)),
    }
}

impl<'a> Table<'a> {
    /// Names a collection. The name is taken as it is.
    pub fn new(name: &'a str) -> (table: Self)
        ensures
            table@ == name@,
    {
        Table { name }
    }

    /// The name of the collection.
    pub fn name(&self) -> (name: &'a str)
        ensures
            name@ == self@,
    {
        self.name
    }

    /// Tells whether the name of the collection is a plain name.
    pub fn has_plain_name(&self) -> (r: bool)
        ensures
            r == is_plain_name(self@),
    {
        plain_name(self.name)
    }

    /// The statement that `create` sends.
    pub fn create_statement(&self) -> (s: Statement)
        ensures
            s@ == (StatementView { text: create_text(self@), params: Seq::empty() }),
    {
        create_statement(self.name)
    }

    /// Creates the table of the collection on `connection`, unless it is
    /// there already, and binds the collection to the connection.
    ///
    /// Whether the engine accepts the statement is the engine's to say; if
    /// it does not, the error is a `SchemaError`.
    pub fn create(&'a self, connection: &'a Connection) -> (r: Result<DatabaseTable<'a>, StoreError>)
        ensures
            exists|outcome: Result<usize, FaultView>|
                match #[trigger] count_answer(Operation::Create, outcome) {
                    Ok(_) => r is Ok,
                    Err(e) => r matches Err(x) && x@ == e,
                },
            r matches Ok(bound) ==> bound.name_view() == self@ && bound.connection_view()
                == connection,
            r matches Err(e) ==> e@ is SchemaError,
    {
        let statement = self.create_statement();
        let outcome = changed_rows(connection, &statement);
        let counted = count_result(Operation::Create, outcome);
        assert(count_result_view(counted) == count_answer(
            Operation::Create,
            count_outcome_view(outcome),
        ));
        match counted {
            Ok(_) => Ok(DatabaseTable::new(self.name, connection)),
            Err(e) => Err(e),
        }
    }

    /// Binds the collection `name` to `connection` without creating its
    /// table. Where the table is not there, each operation on the binding
    /// fails when it is called.
    pub fn existing(name: &'a str, connection: &'a Connection) -> (bound: DatabaseTable<'a>)
        ensures
            bound.name_view() == name@,
            bound.connection_view() == connection,
    {
        DatabaseTable::new(name, connection)
    }
}

impl<'a> DatabaseTable<'a> {
    /// The name of the collection.
    pub closed spec fn name_view(&self) -> Seq<char> {
        self.name@
    }

    /// The connection that the collection is bound to.
    pub closed spec fn connection_view(&self) -> &'a Connection {
        self.connection
    }

    fn new(name: &'a str, connection: &'a Connection) -> (bound: Self)
        ensures
            bound.name_view() == name@,
            bound.connection_view() == connection,
    {
        DatabaseTable { name, connection }
    }

    /// The name of the collection.
    pub fn name(&self) -> (name: &'a str)
        ensures
            name@ == self.name_view(),
    {
        self.name
    }

    /// The statement that `set` sends: the insertion of a row with the key
    /// and the value in its bound form.
    pub fn set_statement(&self, key: &str, value: &Scalar) -> (s: Statement)
        ensures
            s@ == (StatementView {
                text: insert_text(self.name_view()),
                params: seq![BoundView::Text(key@), bound_form(value@)],
            }),
    {
        insert_statement(self.name, key, value.to_bound())
    }

    /// The statement that `get` sends: the selection of the value of the
    /// first row with the key.
    pub fn get_statement(&self, key: &str) -> (s: Statement)
        ensures
            s@ == (StatementView {
                text: select_text(self.name_view()),
                params: seq![BoundView::Text(key@)],
            }),
    {
        select_statement(self.name, key)
    }

    /// The statement that `remove` sends: the deletion of the rows with the
    /// key.
    pub fn remove_statement(&self, key: &str) -> (s: Statement)
        ensures
            s@ == (StatementView {
                text: delete_text(self.name_view()),
                params: seq![BoundView::Text(key@)],
            }),
    {
        delete_statement(self.name, key)
    }

    /// Inserts `value` under `key`. A key that is there already is not
    /// overwritten: the engine refuses it, and the error is a
    /// `ConstraintViolation`.
    ///
    /// Returns the number of rows that the engine reports as changed, or
    /// the engine's failure classified for a write.
    pub fn set(&self, key: &str, value: &Scalar) -> (r: Result<usize, StoreError>)
        ensures
            exists|outcome: Result<usize, FaultView>|
                count_result_view(r) == #[trigger] count_answer(Operation::Write, outcome),
            r matches Err(e) ==> may_come_of(Operation::Write, e@),
    {
        let statement = self.set_statement(key, value);
        let outcome = changed_rows(self.connection, &statement);
        let r = count_result(Operation::Write, outcome);
        assert(count_result_view(r) == count_answer(
            Operation::Write,
            count_outcome_view(outcome),
        ));
        r
    }

    /// Reads the value under `key` as a value of kind `kind`.
    ///
    /// Returns the stored value of the first row with the key, read as the
    /// kind asked for; `TypeMismatch` where it cannot be read so; `NotFound`
    /// where the engine finds no row; else the engine's failure classified
    /// for a read.
    pub fn get(&self, key: &str, kind: ScalarKind) -> (r: Result<Scalar, StoreError>)
        ensures
            exists|outcome: Result<StoredView, FaultView>|
                value_result_view(r) == #[trigger] value_answer(outcome, kind),
            r matches Ok(v) ==> kind_of(v@) == kind,
            r matches Err(e) ==> may_come_of(Operation::Read, e@),
    {
        let statement = self.get_statement(key);
        let outcome = first_value(self.connection, &statement);
        let r = value_result(outcome, kind);
        assert(value_result_view(r) == value_answer(value_outcome_view(outcome), kind));
        r
    }

    /// Deletes `key`. A key that is not there is no error: the count is
    /// then what the engine reports, 0.
    ///
    /// Returns the number of rows that the engine reports as deleted, or
    /// the engine's failure classified for a removal.
    pub fn remove(&self, key: &str) -> (r: Result<usize, StoreError>)
        ensures
            exists|outcome: Result<usize, FaultView>|
                count_result_view(r) == #[trigger] count_answer(Operation::Remove, outcome),
            r matches Err(e) ==> may_come_of(Operation::Remove, e@),
    {
        let statement = self.remove_statement(key);
        let outcome = changed_rows(self.connection, &statement);
        let r = count_result(Operation::Remove, outcome);
        assert(count_result_view(r) == count_answer(
            Operation::Remove,
            count_outcome_view(outcome),
        ));
        r
    }
}

/// A count that the engine reports is handed on as it is: a removal that
/// found nothing to delete answers 0 and is no error, one that deleted a
/// row answers 1.
pub proof fn lemma_count_is_no_error(op: Operation, n: usize)
    ensures
        count_answer(op, Ok(n)) == Ok::<usize, StoreErrorView>(n),
{
}

/// Where the engine finds no row for the key, `get` answers `NotFound`,
/// whatever kind was asked for.
pub proof fn lemma_no_row_is_not_found(kind: ScalarKind)
    ensures
        value_answer(Err(FaultView::NoRows), kind) == Err::<ScalarView, StoreErrorView>(
            StoreErrorView::NotFound,
        ),
{
}

/// Where the engine refuses an insertion for a constraint, as it does for a
/// key that is there already, `set` answers `ConstraintViolation`.
pub proof fn lemma_refused_key_is_constraint_violation(code: i32, message: Option<Seq<char>>)
    requires
        is_constraint_code(code),
    ensures
        count_answer(Operation::Write, Err(FaultView::Rejected { code, message })) == Err::<
            usize,
            StoreErrorView,
        >(StoreErrorView::ConstraintViolation),
{
}

/// Where the engine says that the table is not there, setting, reading and
/// removing all answer `NotInitialized`.
pub proof fn lemma_missing_table_is_not_initialized(op: Operation, fault: FaultView, kind: ScalarKind)
    requires
        names_missing_table(fault),
        op != Operation::Create,
    ensures
        count_answer(op, Err(fault)) == Err::<usize, StoreErrorView>(
            StoreErrorView::NotInitialized,
        ),
        value_answer(Err(fault), kind) == Err::<ScalarView, StoreErrorView>(
            StoreErrorView::NotInitialized,
        ),
{
}

/// A value that the engine keeps as it was bound is read back by `get`, as
/// its own kind, exactly.
pub proof fn lemma_kept_value_is_read_back(v: ScalarView)
    ensures
        value_answer(Ok(kept_as(bound_form(v))), kind_of(v)) == Ok::<ScalarView, StoreErrorView>(v),
{
}

/// A stored value that cannot be read as the kind asked for makes `get`
/// answer `TypeMismatch`.
pub proof fn lemma_unread_value_is_type_mismatch(stored: StoredView, kind: ScalarKind)
    requires
        coerced(stored, kind) is None,
    ensures
        value_answer(Ok(stored), kind) == Err::<ScalarView, StoreErrorView>(
            StoreErrorView::TypeMismatch,
        ),
{
}

} // verus!
