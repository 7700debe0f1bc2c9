//! What a handler hands back: the response envelope, and for the writing
//! operations the statement that has to run before the response goes out.

use vstd::prelude::*;
use vstd::string::*;
use crate::entity::EightFishModel;
use crate::model::{spec_model_name, EntityKind};
use crate::request::{spec_message, Failure, HandlerError};
use crate::sql::{Statement, StatementView};
use crate::value::Value;

verus! {

/// How the execution of a request ended.
#[derive(Clone, Copy, Debug, PartialEq, Eq)]
pub enum Status {
    Successful,
    Failed,
}

/// The operation that a handler performed.
#[derive(Clone, Copy, Debug, PartialEq, Eq)]
pub enum HandlerCRUD {
    GetOne,
    List,
    Create,
    Update,
    Delete,
}

/// What a response says about itself: the model it is about, the operation
/// performed, and a free-text annotation that may be empty.
#[derive(Clone, Debug, PartialEq, Eq)]
pub struct Info {
    pub model_name: String,
    pub action: HandlerCRUD,
    pub extra: String,
}

/// The response envelope: status, information and the resulting entities.
#[derive(Clone, Debug, PartialEq, Eq)]
pub struct Response<T> {
    pub status: Status,
    pub info: Info,
    pub results: Vec<T>,
}

/// The mathematical content of a [`Response`]: each resulting entity is
/// given by its field values.
pub struct ResponseView {
    pub status: Status,
    pub model_name: Seq<char>,
    pub action: HandlerCRUD,
    pub extra: Seq<char>,
    pub results: Seq<Seq<Value>>,
}

impl<T: EightFishModel> View for Response<T> {
    type V = ResponseView;

    open spec fn view(&self) -> ResponseView {
        ResponseView {
            status: self.status,
            model_name: self.info.model_name@,
            action: self.info.action,
            extra: self.info.extra@,
            results: Seq::new(self.results@.len(), |i: int| self.results@[i].spec_values()),
        }
    }
}

/// A statement to run, and the response to send once it has run.
#[derive(Clone, Debug, PartialEq, Eq)]
pub struct Write<T> {
    pub statement: Statement,
    pub response: Response<T>,
}

/// The successful response of an operation on a kind.
pub open spec fn spec_success(kind: EntityKind, action: HandlerCRUD, results: Seq<Seq<Value>>)
    -> ResponseView {
    ResponseView {
        status: Status::Successful,
        model_name: spec_model_name(kind),
        action,
        extra: Seq::empty(),
        results,
    }
}

/// The message that goes out when an operation fails: that of the
/// failure, but for an update that found nothing to update, which says so.
pub open spec fn spec_failure_message(action: HandlerCRUD, failure: Failure) -> Seq<char> {
    if failure is NotFound && action is Update {
        "update action: no item in db"@
    } else {
        spec_message(failure)
    }
}

/// The failed response of an operation on a kind: no results, and the
/// message of the failure as annotation.
pub open spec fn spec_failure(kind: EntityKind, action: HandlerCRUD, failure: Failure)
    -> ResponseView {
    ResponseView {
        status: Status::Failed,
        model_name: spec_model_name(kind),
        action,
        extra: spec_failure_message(action, failure),
        results: Seq::empty(),
    }
}

/// The message that goes out when an operation fails.
pub fn failure_message(action: HandlerCRUD, error: &HandlerError) -> (m: String)
    ensures
        m@ == spec_failure_message(action, error@),
{
    match (action, error) {
        (HandlerCRUD::Update, HandlerError::NotFound) => String::from_str(
            "update action: no item in db",
        ),
        _ => error.message(),
    }
}

/// The content of a handler's statement, or of its failure.
pub open spec fn statement_result(r: Result<Statement, HandlerError>) -> Result<
    StatementView,
    Failure,
> {
    match r {
        Ok(s) => Ok(s@),
        Err(e) => Err(e@),
    }
}

/// The content of a handler's response, or of its failure.
pub open spec fn response_result<T: EightFishModel>(r: Result<Response<T>, HandlerError>)
    -> Result<ResponseView, Failure> {
    match r {
        Ok(s) => Ok(s@),
        Err(e) => Err(e@),
    }
}

/// The content of a handler's statement and response, or of its failure.
pub open spec fn write_result<T: EightFishModel>(r: Result<Write<T>, HandlerError>) -> Result<
    (StatementView, ResponseView),
    Failure,
> {
    match r {
        Ok(w) => Ok((w.statement@, w.response@)),
        Err(e) => Err(e@),
    }
}

impl<T: EightFishModel> Response<T> {
    /// Puts a response together.
    pub fn new(status: Status, info: Info, results: Vec<T>) -> (r: Response<T>)
        ensures
            r.status == status,
            r.info == info,
            r.results == results,
    {
        Response { status, info, results }
    }

    /// The successful response of an operation with the given results.
    pub fn success(action: HandlerCRUD, results: Vec<T>) -> (r: Response<T>)
        ensures
            r@ == spec_success(
                T::spec_kind(),
                action,
                Seq::new(results@.len(), |i: int| results@[i].spec_values()),
            ),
            r.results == results,
    {
        let info = Info { model_name: T::kind().model_name(), action, extra: String::new() };
        Response { status: Status::Successful, info, results }
    }

    /// The failed response of an operation.
    pub fn failure(action: HandlerCRUD, error: &HandlerError) -> (r: Response<T>)
        ensures
            r@ == spec_failure(T::spec_kind(), action, error@),
    {
        let info = Info {
            model_name: T::kind().model_name(),
            action,
            extra: failure_message(action, error),
        };
        let r = Response { status: Status::Failed, info, results: Vec::new() };
        assert(r@.results =~= Seq::empty());
        r
    }
}

} // verus!
