//! What the HTTP interface answers. The transport is not here: these
//! functions take what the cache returned and say which status and which
//! body go back to the client.

use vstd::prelude::*;
use vstd::string::StringExecFns;
use crate::cache::{names_a_field, optional_view, CacheError};
use crate::process::{optional_texts, views, Process, ProcessView};
use crate::protocol::{Request, RequestView};

verus! {

/// The record was found, or the change was made.
pub const STATUS_OK: u16 = 200;

/// The record was created.
pub const STATUS_CREATED: u16 = 201;

/// The replacement was taken.
pub const STATUS_ACCEPTED: u16 = 202;

/// The query could not be read.
pub const STATUS_BAD_REQUEST: u16 = 400;

/// No record of that name.
pub const STATUS_NOT_FOUND: u16 = 404;

/// The operation failed.
pub const STATUS_SERVER_ERROR: u16 = 500;

/// What stands in a failure body beside the message.
pub const FAILURE_CODE: u32 = 500;

/// Why an operation failed, in words, for the record of the given name.
pub open spec fn error_text(error: CacheError, name: Seq<char>) -> Seq<char> {
    match error {
        CacheError::NotFound => "Process with name "@ + name + " does not exist"@,
        CacheError::AlreadyExists => "Process "@ + name + " already exists"@,
        CacheError::InvalidRequest => "Either 'run' or 'tags' must be specified."@,
        CacheError::Conflict => "Please retry the operation"@,
        CacheError::RemoteUnavailable => "Remote store is unavailable"@,
        CacheError::Malformed => "Remote object is malformed"@,
    }
}

impl CacheError {
    /// Why an operation failed, in words, for the record of the given name.
    pub fn message(&self, name: &str) -> (text: String)
        ensures
            text@ == error_text(*self, name@),
    {
        match self {
            CacheError::NotFound => {
                let mut text = "Process with name ".to_owned();
                text.append(name);
                text.append(" does not exist");
                text
            },
            CacheError::AlreadyExists => {
                let mut text = "Process ".to_owned();
                text.append(name);
                text.append(" already exists");
                text
            },
            CacheError::InvalidRequest => "Either 'run' or 'tags' must be specified.".to_owned(),
            CacheError::Conflict => "Please retry the operation".to_owned(),
            CacheError::RemoteUnavailable => "Remote store is unavailable".to_owned(),
            CacheError::Malformed => "Remote object is malformed".to_owned(),
        }
    }
}

/// The body of a request for a partial update.
#[derive(Debug, PartialEq, Eq)]
pub struct ProcessPatchInput {
    /// The name of the record to update.
    pub name: String,
    /// The new run flag, if it is to change.
    pub run: Option<bool>,
    /// The new tags, if they are to change.
    pub tags: Option<Vec<String>>,
}

impl ProcessPatchInput {
    /// Whether the update names the run flag or the tags.
    #[allow(non_snake_case)]
    pub fn validatePatch(&self) -> (valid: bool)
        ensures
            valid == names_a_field(self.run, optional_texts(self.tags)),
    {
        self.run.is_some() || self.tags.is_some()
    }

    /// The request that asks the cache for this update.
    pub fn into_request(self) -> (request: Request)
        ensures
            request@ == (RequestView::Patch {
                name: self.name@,
                run: self.run,
                tags: optional_texts(self.tags),
            }),
    {
        Request::Patch { name: self.name, run: self.run, tags: self.tags }
    }
}

/// What goes to the client after the status line.
#[derive(Debug, PartialEq, Eq)]
pub enum Body {
    /// One record, as a JSON object.
    Record(Process),
    /// A list of records, as a JSON array.
    Records(Vec<Process>),
    /// The stand-in for a record that is not there: its name, and a run flag.
    Fallback { name: String, run: bool },
    /// A JSON string.
    Message(String),
    /// A JSON object with a code and a message.
    Failure { code: u32, message: String },
    /// Text that is not JSON.
    Plain(String),
}

/// A body as plain mathematical values.
pub enum BodyView {
    Record(ProcessView),
    Records(Seq<ProcessView>),
    Fallback { name: Seq<char>, run: bool },
    Message(Seq<char>),
    Failure { code: u32, message: Seq<char> },
    Plain(Seq<char>),
}

impl View for Body {
    type V = BodyView;

    open spec fn view(&self) -> BodyView {
        match *self {
            Body::Record(process) => BodyView::Record(process@),
            Body::Records(processes) => BodyView::Records(views(processes@)),
            Body::Fallback { name, run } => BodyView::Fallback { name: name@, run },
            Body::Message(text) => BodyView::Message(text@),
            Body::Failure { code, message } => BodyView::Failure { code, message: message@ },
            Body::Plain(text) => BodyView::Plain(text@),
        }
    }
}

/// What goes back to the client.
#[derive(Debug, PartialEq, Eq)]
pub struct Reply {
    pub status: u16,
    pub body: Body,
}

/// A reply as plain mathematical values.
pub struct ReplyView {
    pub status: u16,
    pub body: BodyView,
}

impl View for Reply {
    type V = ReplyView;

    open spec fn view(&self) -> ReplyView {
        ReplyView { status: self.status, body: self.body@ }
    }
}

/// The reply to a failed change: a server error whose message begins with
/// what was being done and ends with the reason.
pub open spec fn failure_reply(doing: Seq<char>, error: CacheError, name: Seq<char>) -> ReplyView {
    ReplyView {
        status: STATUS_SERVER_ERROR,
        body: BodyView::Failure { code: FAILURE_CODE, message: doing + error_text(error, name) },
    }
}

/// The reply to the lookup of one record. A name that is not known is
/// answered with a stand-in that may run.
pub open spec fn get_reply(name: Seq<char>, found: Option<ProcessView>) -> ReplyView {
    match found {
        Some(record) => ReplyView { status: STATUS_OK, body: BodyView::Record(record) },
        None => ReplyView { status: STATUS_NOT_FOUND, body: BodyView::Fallback { name, run: true } },
    }
}

/// The reply to the creation of a record.
pub open spec fn add_reply(record: ProcessView, outcome: Result<(), CacheError>) -> ReplyView {
    match outcome {
        Ok(_) => ReplyView { status: STATUS_CREATED, body: BodyView::Record(record) },
        Err(error) => failure_reply("Failed to add process: "@, error, record.name),
    }
}

/// The reply to the replacement of a record. A failure is worded as that of
/// a creation is.
pub open spec fn modify_reply(name: Seq<char>, outcome: Result<(), CacheError>) -> ReplyView {
    match outcome {
        Ok(_) => ReplyView {
            status: STATUS_ACCEPTED,
            body: BodyView::Message("Process updated successfully!"@),
        },
        Err(error) => failure_reply("Failed to add process: "@, error, name),
    }
}

/// The reply to the deletion of a record.
pub open spec fn delete_reply(name: Seq<char>, outcome: Result<(), CacheError>) -> ReplyView {
    match outcome {
        Ok(_) => ReplyView {
            status: STATUS_OK,
            body: BodyView::Message("Process "@ + name + " deleted successfully"@),
        },
        Err(error) => failure_reply("Failed to delete process: "@, error, name),
    }
}

/// The reply to a partial update. One that names no field is answered with
/// the bare reason.
pub open spec fn patch_reply(name: Seq<char>, outcome: Result<(), CacheError>) -> ReplyView {
    match outcome {
        Ok(_) => ReplyView {
            status: STATUS_OK,
            body: BodyView::Message("Process patched successfully."@),
        },
        Err(CacheError::InvalidRequest) => ReplyView {
            status: STATUS_SERVER_ERROR,
            body: BodyView::Message(error_text(CacheError::InvalidRequest, name)),
        },
        Err(error) => failure_reply("Failed to patch process: "@, error, name),
    }
}

/// The reply to a query for records: the records that were kept, or a bad
/// request if the query could not be read.
pub open spec fn list_reply(kept: Option<Seq<ProcessView>>) -> ReplyView {
    match kept {
        Some(records) => ReplyView { status: STATUS_OK, body: BodyView::Records(records) },
        None => ReplyView {
            status: STATUS_BAD_REQUEST,
            body: BodyView::Plain("Invalid query parameters"@),
        },
    }
}

/// The reply to a failed change.
fn reply_to_failure(doing: &str, error: CacheError, name: &str) -> (reply: Reply)
    ensures
        reply@ == failure_reply(doing@, error, name@),
{
    let mut message = doing.to_owned();
    let reason = error.message(name);
    message.append(reason.as_str());
    Reply { status: STATUS_SERVER_ERROR, body: Body::Failure { code: FAILURE_CODE, message } }
}

/// The reply to the lookup of one record.
pub fn reply_to_get(name: &str, found: Option<Process>) -> (reply: Reply)
    ensures
        reply@ == get_reply(name@, optional_view(found)),
{
    match found {
        Some(process) => Reply { status: STATUS_OK, body: Body::Record(process) },
        None => Reply {
            status: STATUS_NOT_FOUND,
            body: Body::Fallback { name: name.to_owned(), run: true },
        },
    }
}

/// The reply to the creation of a record.
pub fn reply_to_add(process: Process, outcome: Result<(), CacheError>) -> (reply: Reply)
    ensures
        reply@ == add_reply(process@, outcome),
{
    match outcome {
        Ok(_) => Reply { status: STATUS_CREATED, body: Body::Record(process) },
        Err(error) => reply_to_failure("Failed to add process: ", error, process.name.as_str()),
    }
}

/// The reply to the replacement of a record.
pub fn reply_to_modify(name: &str, outcome: Result<(), CacheError>) -> (reply: Reply)
    ensures
        reply@ == modify_reply(name@, outcome),
{
    match outcome {
        Ok(_) => Reply {
            status: STATUS_ACCEPTED,
            body: Body::Message("Process updated successfully!".to_owned()),
        },
        Err(error) => reply_to_failure("Failed to add process: ", error, name),
    }
}

/// The reply to the deletion of a record.
pub fn reply_to_delete(name: &str, outcome: Result<(), CacheError>) -> (reply: Reply)
    ensures
        reply@ == delete_reply(name@, outcome),
{
    match outcome {
        Ok(_) => {
            let mut text = "Process ".to_owned();
            text.append(name);
            text.append(" deleted successfully");
            Reply { status: STATUS_OK, body: Body::Message(text) }
        },
        Err(error) => reply_to_failure("Failed to delete process: ", error, name),
    }
}

/// The reply to a partial update.
pub fn reply_to_patch(name: &str, outcome: Result<(), CacheError>) -> (reply: Reply)
    ensures
        reply@ == patch_reply(name@, outcome),
{
    match outcome {
        Ok(_) => Reply {
            status: STATUS_OK,
            body: Body::Message("Process patched successfully.".to_owned()),
        },
        Err(CacheError::InvalidRequest) => Reply {
            status: STATUS_SERVER_ERROR,
            body: Body::Message(CacheError::InvalidRequest.message(name)),
        },
        Err(error) => reply_to_failure("Failed to patch process: ", error, name),
    }
}

/// The reply to a query for records.
pub fn reply_to_list(kept: Option<Vec<Process>>) -> (reply: Reply)
    ensures
        reply@ == list_reply(
            match kept {
                Some(processes) => Some(views(processes@)),
                None => None,
            },
        ),
{
    match kept {
        Some(processes) => Reply { status: STATUS_OK, body: Body::Records(processes) },
        None => Reply {
            status: STATUS_BAD_REQUEST,
            body: Body::Plain("Invalid query parameters".to_owned()),
        },
    }
}

} // verus!
