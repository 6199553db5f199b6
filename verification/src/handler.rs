//! What becomes of a request: the response, and the file to write before it.
//!
//! A payload posted to a stream is stored in two steps. `save_data` decides
//! from the request whether a file is written, which one and with what
//! content. The caller writes the file and reports to `finish_save`, which
//! gives the response.

use vstd::prelude::*;
use crate::date::utc_date_of;
use crate::filename::{
    data_path, full_filename, generate_filename, lemma_full_filename_separates_dates, relative_path,
};
use crate::json::{
    json_object_of, object_to_string, plain_object, pretty_json_of, pretty_text, unescaped,
};
use crate::name::{is_valid_name, valid_name};

verus! {

/// The status of a request that was served.
pub const STATUS_OK: u16 = 200;

/// The status of a request that the client has to correct.
pub const STATUS_BAD_REQUEST: u16 = 400;

/// The status of a request that failed on the server's side.
pub const STATUS_INTERNAL_SERVER_ERROR: u16 = 500;

/// An HTTP response: status code and body.
#[derive(Clone, Debug, PartialEq, Eq)]
pub struct Response {
    pub status: u16,
    pub body: String,
}

impl Response {
    /// The response that serves `body` with success.
    pub fn ok(body: String) -> (response: Response)
        ensures
            response.status == STATUS_OK,
            response.body == body,
    {
        Response { status: STATUS_OK, body }
    }
}

/// Why a payload was not stored.
#[derive(Clone, Copy, Debug, PartialEq, Eq, Structural)]
pub enum SaveError {
    /// The stream's name holds a character that the name policy excludes.
    InvalidName,
    /// The time of the request has no calendar date.
    Timestamp,
    /// The payload cannot be written as JSON text.
    Serialize,
    /// The file could not be written.
    Write,
}

/// A file to write: its name, its path relative to the base directory, and
/// its whole content.
#[derive(Clone, Debug, PartialEq, Eq)]
pub struct WritePlan {
    pub filename: String,
    pub path: String,
    pub content: String,
}

/// A `WritePlan` as mathematical text.
pub struct WritePlanView {
    pub filename: Seq<char>,
    pub path: Seq<char>,
    pub content: Seq<char>,
}

impl View for WritePlan {
    type V = WritePlanView;

    open spec fn view(&self) -> WritePlanView {
        WritePlanView { filename: self.filename@, path: self.path@, content: self.content@ }
    }
}

impl SaveError {
    /// The status that reports this error: a bad request for an invalid
    /// name, a server error for everything else.
    pub open spec fn status(self) -> u16 {
        match self {
            SaveError::InvalidName => STATUS_BAD_REQUEST,
            _ => STATUS_INTERNAL_SERVER_ERROR,
        }
    }

    /// The body that reports this error.
    pub open spec fn message(self) -> Seq<char> {
        match self {
            SaveError::InvalidName => "Invalid name"@,
            _ => "Internal Server Error"@,
        }
    }

    /// The response that reports this error.
    pub fn response(&self) -> (response: Response)
        ensures
            response.status == self.status(),
            response.body@ == self.message(),
    {
        match self {
            SaveError::InvalidName => Response {
                status: STATUS_BAD_REQUEST,
                body: String::from_str("Invalid name"),
            },
            _ => Response {
                status: STATUS_INTERNAL_SERVER_ERROR,
                body: String::from_str("Internal Server Error"),
            },
        }
    }
}

/// The text served at the root.
pub open spec fn usage() -> Seq<char> {
    "this is a home page of data backs. pass data to /data/:name with JSON body to save it"@
}

/// The response to a request for the root: the usage text.
pub fn home() -> (response: Response)
    ensures
        response.status == STATUS_OK,
        response.body@ == usage(),
{
    Response::ok(
        String::from_str(
            "this is a home page of data backs. pass data to /data/:name with JSON body to save it",
        ),
    )
}

/// The address that diagnostics show for a client: the forwarded-for header
/// as it came, or `none` where the request has no readable one.
pub fn display_address(forwarded_for: Option<&str>) -> (shown: String)
    ensures
        shown@ == match forwarded_for {
            Some(header) => header@,
            None => "none"@,
        },
{
    match forwarded_for {
        Some(header) => String::from_str(header),
        None => String::from_str("none"),
    }
}

/// What is to be done with a payload posted to the stream `name` by the
/// client at `addr`, `seconds` seconds after the Unix epoch.
///
/// An invalid name is rejected before anything else is looked at. Otherwise
/// the file is named after the stream, the UTC date and the sanitized
/// address, lies in the data directory, and holds the payload's indented
/// JSON text.
pub open spec fn planned(
    name: Seq<char>,
    addr: Seq<char>,
    payload: serde_json::Value,
    seconds: u64,
) -> Result<WritePlanView, SaveError> {
    if !valid_name(name) {
        Err(SaveError::InvalidName)
    } else {
        match (utc_date_of(seconds as i64), pretty_json_of(payload)) {
            (None, _) => Err(SaveError::Timestamp),
            (Some(_), None) => Err(SaveError::Serialize),
            (Some(date), Some(content)) => Ok(
                WritePlanView {
                    filename: full_filename(name, date, addr),
                    path: data_path(full_filename(name, date, addr)),
                    content,
                },
            ),
        }
    }
}

/// The plan to write `content` to the file `filename`, where both could be
/// had: a missing file name is a timestamp error, missing content a
/// serialization error.
pub fn plan_write(filename: Option<String>, content: Option<String>) -> (plan: Result<
    WritePlan,
    SaveError,
>)
    ensures
        match (filename, content) {
            (None, _) => plan == Err::<WritePlan, SaveError>(SaveError::Timestamp),
            (Some(_), None) => plan == Err::<WritePlan, SaveError>(SaveError::Serialize),
            (Some(f), Some(c)) => plan matches Ok(p) && p.filename == f && p.content == c
                && p.path@ == data_path(f@),
        },
{
    match filename {
        None => Err(SaveError::Timestamp),
        Some(filename) => match content {
            None => Err(SaveError::Serialize),
            Some(content) => {
                let path = relative_path(filename.as_str());
                Ok(WritePlan { filename, path, content })
            },
        },
    }
}

/// Decides what is to be done with a payload posted to the stream `name` by
/// the client at `addr`, `seconds` seconds after the Unix epoch. Nothing is
/// written here: on `Ok` the caller writes the file and calls `finish_save`.
pub fn save_data(name: &str, addr: &str, payload: &serde_json::Value, seconds: u64) -> (plan:
    Result<WritePlan, SaveError>)
    ensures
        match plan {
            Ok(p) => planned(name@, addr@, *payload, seconds) == Ok::<WritePlanView, SaveError>(p@),
            Err(e) => planned(name@, addr@, *payload, seconds) == Err::<WritePlanView, SaveError>(e),
        },
        !valid_name(name@) <==> plan == Err::<WritePlan, SaveError>(SaveError::InvalidName),
{
    if !is_valid_name(name) {
        return Err(SaveError::InvalidName);
    }
    plan_write(generate_filename(name, addr, seconds), pretty_text(payload))
}

/// The name of the one field of a confirmation.
pub open spec fn filename_key() -> Seq<char> {
    seq!['f', 'i', 'l', 'e', 'n', 'a', 'm', 'e']
}

/// The response to a request whose file `filename` was to be written: the
/// file's name as a JSON object where it was written, a server error where
/// it was not. A name that JSON need not escape stands in the object as it
/// is: `{"filename":"<filename>"}`.
pub fn finish_save(filename: &str, written: bool) -> (response: Response)
    ensures
        written ==> response.status == STATUS_OK && response.body@ == json_object_of(
            filename_key(),
            filename@,
        ),
        written && unescaped(filename@) ==> response.body@ == plain_object(
            filename_key(),
            filename@,
        ),
        !written ==> response.status == SaveError::Write.status() && response.body@
            == SaveError::Write.message(),
{
    proof {
        reveal_strlit("filename");
        assert("filename"@ =~= filename_key());
    }
    if written {
        Response::ok(object_to_string("filename", filename))
    } else {
        SaveError::Write.response()
    }
}

/// The files of the data directory, each path with the file's content, once
/// `plan` has been carried out on `files`: the file at the plan's path holds
/// the plan's content and nothing besides, every other file is as it was.
pub open spec fn carried_out(files: Map<Seq<char>, Seq<char>>, plan: WritePlanView) -> Map<
    Seq<char>,
    Seq<char>,
> {
    files.insert(plan.path, plan.content)
}

/// A request to a stream whose name is not valid is answered with a bad
/// request and the words `Invalid name`, whatever else it holds, and no file
/// is planned for it.
pub proof fn lemma_invalid_name_is_rejected(
    name: Seq<char>,
    addr: Seq<char>,
    payload: serde_json::Value,
    seconds: u64,
)
    requires
        !valid_name(name),
    ensures
        planned(name, addr, payload, seconds) == Err::<WritePlanView, SaveError>(
            SaveError::InvalidName,
        ),
        SaveError::InvalidName.status() == 400,
        SaveError::InvalidName.message() == "Invalid name"@,
{
}

/// Two payloads saved to one stream from one address on one date go to the
/// same file, and once both have been written, one after the other, the file
/// holds the second payload's text alone: the data directory is as if the
/// first had never been saved.
pub proof fn lemma_later_save_replaces_earlier(
    files: Map<Seq<char>, Seq<char>>,
    name: Seq<char>,
    addr: Seq<char>,
    earlier: serde_json::Value,
    earlier_seconds: u64,
    later: serde_json::Value,
    later_seconds: u64,
)
    requires
        utc_date_of(earlier_seconds as i64) == utc_date_of(later_seconds as i64),
        planned(name, addr, earlier, earlier_seconds) is Ok,
        planned(name, addr, later, later_seconds) is Ok,
    ensures
        ({
            let first = planned(name, addr, earlier, earlier_seconds)->Ok_0;
            let second = planned(name, addr, later, later_seconds)->Ok_0;
            let both = carried_out(carried_out(files, first), second);
            &&& first.path == second.path
            &&& both.dom().contains(second.path)
            &&& Some(both[second.path]) == pretty_json_of(later)
            &&& both == carried_out(files, second)
        }),
{
    let first = planned(name, addr, earlier, earlier_seconds)->Ok_0;
    let second = planned(name, addr, later, later_seconds)->Ok_0;
    assert(carried_out(carried_out(files, first), second) =~= carried_out(files, second));
}

/// Two payloads saved to one stream from one address on different dates go
/// to different files, and once both have been written each file holds its
/// own payload's text.
pub proof fn lemma_saves_on_different_dates_are_kept_apart(
    files: Map<Seq<char>, Seq<char>>,
    name: Seq<char>,
    addr: Seq<char>,
    earlier: serde_json::Value,
    earlier_seconds: u64,
    later: serde_json::Value,
    later_seconds: u64,
)
    requires
        planned(name, addr, earlier, earlier_seconds) is Ok,
        planned(name, addr, later, later_seconds) is Ok,
        utc_date_of(earlier_seconds as i64) != utc_date_of(later_seconds as i64),
    ensures
        ({
            let first = planned(name, addr, earlier, earlier_seconds)->Ok_0;
            let second = planned(name, addr, later, later_seconds)->Ok_0;
            let both = carried_out(carried_out(files, first), second);
            &&& first.filename != second.filename
            &&& first.path != second.path
            &&& both.dom().contains(first.path) && Some(both[first.path]) == pretty_json_of(earlier)
            &&& both.dom().contains(second.path) && Some(both[second.path]) == pretty_json_of(later)
        }),
{
    lemma_full_filename_separates_dates(
        name,
        addr,
        utc_date_of(earlier_seconds as i64)->0,
        utc_date_of(later_seconds as i64)->0,
    );
}

} // verus!
