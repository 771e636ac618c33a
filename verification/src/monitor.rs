//! The monitoring interface: who may see the worker's state, and what each of its
//! requests is answered.

use vstd::prelude::*;
use vstd::utf8::valid_utf8;
use crate::clock::{chrono_rfc3339, Timestamp};
use crate::config::VERSION;
use crate::record_backend::{
    RecordRepository, RecordRepositoryError, MONITOR_PAGE_OFFSET, MONITOR_PAGE_SIZE,
};
use crate::text::{string_from_utf8, text_is, utf8_of};
use crate::worker::Record;

verus! {

/// Where the interface's routes are mounted, and where the web application is served.
pub const API_MOUNT: &'static str = "/api";
pub const WEBAPP_MOUNT: &'static str = "/";

/// The routes of the interface, under `API_MOUNT`.
pub const SERVER_ROUTE: &'static str = "/server";
pub const AUTH_ROUTE: &'static str = "/auth";
pub const JOBS_ROUTE: &'static str = "/jobs";
pub const JOB_ROUTE: &'static str = "/jobs/:id";

/// The route parameter that names a job.
pub const JOB_ID_PARAM: &'static str = "id";

/// The request header that carries the monitor password.
pub const PASSWORD_HEADER: &'static str = "x-password";

/// The form field of the password in a login.
pub const PASSWORD_FIELD: &'static str = "password";

/// The job id used when the route gives none.
pub const DEFAULT_JOB_ID: &'static str = "/";

/// The body of a failure to read records from the database.
pub const DENORMALIZE_MESSAGE: &'static str = "{\"message\": \"Cannot denormalize records from database\"}";

/// The body of a failure to find the record asked for.
pub const NOT_FOUND_MESSAGE: &'static str = "{\"message\": \"Record does not exists\"}";

/// The body of any other failure.
pub const UNKNOWN_ERROR_MESSAGE: &'static str = "{\"message\": \"Unknown error\" }";

/// How to serve the monitor.
#[derive(Debug, Clone)]
pub struct Config {
    pub address: String,
    pub webapp_path: String,
    pub websockets: bool,
    pub password: String,
}

/// What the monitor tells of the server.
#[derive(Debug, Clone)]
pub struct ServerResponse {
    pub ip: String,
    pub hostname: String,
    pub version: String,
    pub started_at: String,
    pub websockets: bool,
}

/// The HTTP status of an answer.
#[derive(Debug, Clone, Copy, PartialEq, Eq, Structural)]
pub enum Status {
    Success,
    BadRequest,
    Unauthorized,
    NotFound,
    InternalServerError,
}

impl Status {
    /// The numeric HTTP status code.
    pub fn code(&self) -> (r: u16)
        ensures
            r == match *self {
                Status::Success => 200u16,
                Status::BadRequest => 400u16,
                Status::Unauthorized => 401u16,
                Status::NotFound => 404u16,
                Status::InternalServerError => 500u16,
            },
    {
        match self {
            Status::Success => 200,
            Status::BadRequest => 400,
            Status::Unauthorized => 401,
            Status::NotFound => 404,
            Status::InternalServerError => 500,
        }
    }
}

/// The body of an answer. All but `Empty` are JSON.
pub enum Body {
    Empty,
    /// A JSON text given as it is.
    Json(String),
    /// The server description, as JSON.
    Server(ServerResponse),
    /// The records, as the JSON object `{"job": [...]}`.
    Jobs(Vec<Record>),
}

/// An answer of the monitor.
pub struct Reply {
    pub status: Status,
    pub body: Body,
}

impl Reply {
    /// Whether the answer is sent as JSON: every answer with a body is.
    pub fn is_json(&self) -> (r: bool)
        ensures
            r == !(self.body is Empty),
    {
        match self.body {
            Body::Empty => false,
            _ => true,
        }
    }
}

/// `r` has status `s` and no body.
pub open spec fn is_bare(r: Reply, s: Status) -> bool {
    r.status == s && r.body is Empty
}

/// `r` has status `s` and the JSON text `text`.
pub open spec fn is_message(r: Reply, s: Status, text: Seq<char>) -> bool {
    r.status == s && (r.body matches Body::Json(t) && t@ == text)
}

/// The bytes of the password header: its raw values one after the other.
pub open spec fn joined(parts: Seq<Vec<u8>>) -> Seq<u8>
    decreases parts.len(),
{
    if parts.len() == 0 {
        Seq::empty()
    } else {
        joined(parts.drop_last()) + parts.last()@
    }
}

/// The password header can be read: it is absent, or its bytes are UTF-8.
pub open spec fn header_readable(raw: Option<Vec<Vec<u8>>>) -> bool {
    raw matches Some(parts) ==> valid_utf8(joined(parts@))
}

/// The password that a request gives: the text of its password header, or the empty
/// text when it has none.
pub open spec fn given_password(raw: Option<Vec<Vec<u8>>>, text: Seq<char>) -> bool {
    match raw {
        None => text == Seq::<char>::empty(),
        Some(parts) => utf8_of(text) == joined(parts@),
    }
}

/// A request is let in when the password it gives is the monitor's password.
pub open spec fn admitted(raw: Option<Vec<Vec<u8>>>, password: Seq<char>) -> bool {
    given_password(raw, password)
}

/// The values of the first field of a form with the given name.
pub open spec fn form_value(form: Seq<(String, Vec<String>)>, name: Seq<char>) -> Option<Seq<String>>
    decreases form.len(),
{
    if form.len() == 0 {
        None
    } else if form[0].0@ == name {
        Some(form[0].1@)
    } else {
        form_value(form.drop_first(), name)
    }
}

/// A login form can be checked: if it has a password field, the field has a value.
pub open spec fn form_readable(form: Option<Vec<(String, Vec<String>)>>) -> bool {
    form matches Some(fields) ==> (form_value(fields@, PASSWORD_FIELD@) matches Some(values)
        ==> values.len() > 0)
}

/// `r` answers a login with the form `form` (`None` when the body was not a form) for
/// the monitor password `password`.
pub open spec fn answers_login(r: Reply, form: Option<Vec<(String, Vec<String>)>>, password: Seq<char>) -> bool {
    match form {
        None => is_bare(r, Status::BadRequest),
        Some(fields) => match form_value(fields@, PASSWORD_FIELD@) {
            None => is_bare(r, Status::BadRequest),
            Some(values) => if values[0]@ == password {
                is_bare(r, Status::Success)
            } else {
                is_bare(r, Status::Unauthorized)
            },
        },
    }
}

/// `r` answers a listing of records for which the repository gave `fetched`.
pub open spec fn answers_page(r: Reply, fetched: Result<Vec<Record>, RecordRepositoryError>) -> bool {
    match fetched {
        Ok(records) => r.status == Status::Success && r.body == Body::Jobs(records),
        Err(RecordRepositoryError::CannotDenormalizeRecord) => is_message(
            r,
            Status::InternalServerError,
            DENORMALIZE_MESSAGE@,
        ),
        Err(_) => is_message(r, Status::InternalServerError, UNKNOWN_ERROR_MESSAGE@),
    }
}

/// `r` answers a request for one record for which the repository gave `fetched`.
pub open spec fn answers_record(r: Reply, fetched: Result<Record, RecordRepositoryError>) -> bool {
    match fetched {
        Ok(record) => r.status == Status::Success && (r.body matches Body::Jobs(records)
            && records@ == seq![record]),
        Err(RecordRepositoryError::CannotDenormalizeRecord) => is_message(
            r,
            Status::InternalServerError,
            DENORMALIZE_MESSAGE@,
        ),
        Err(RecordRepositoryError::RecordNotFound) => is_message(
            r,
            Status::NotFound,
            NOT_FOUND_MESSAGE@,
        ),
        Err(_) => is_message(r, Status::InternalServerError, UNKNOWN_ERROR_MESSAGE@),
    }
}

/// What a listing answers, for every answer of the repository: the records themselves,
/// all of them and in the order given, with status 200; status 500 with the
/// "cannot denormalize" message when the rows could not be read; status 500 with the
/// "unknown error" message for any other failure. Nothing else is ever answered.
pub proof fn law_page_answer_follows_fetch(
    r: Reply,
    fetched: Result<Vec<Record>, RecordRepositoryError>,
)
    requires
        answers_page(r, fetched),
    ensures
        fetched matches Ok(records) ==> r.status == Status::Success && r.body == Body::Jobs(
            records,
        ),
        fetched == Err::<Vec<Record>, RecordRepositoryError>(
            RecordRepositoryError::CannotDenormalizeRecord,
        ) ==> r.status == Status::InternalServerError && (r.body matches Body::Json(t) && t@
            == DENORMALIZE_MESSAGE@),
        fetched matches Err(e) && e != RecordRepositoryError::CannotDenormalizeRecord
            ==> r.status == Status::InternalServerError && (r.body matches Body::Json(t) && t@
            == UNKNOWN_ERROR_MESSAGE@),
{
}

/// What a request for one record answers, for every answer of the repository: a
/// listing of exactly that record with status 200; status 404 with the "does not exist"
/// message when there is no such record; status 500 with the "cannot denormalize"
/// message when it could not be read; status 500 with the "unknown error" message for
/// any other failure.
pub proof fn law_record_answer_follows_fetch(
    r: Reply,
    fetched: Result<Record, RecordRepositoryError>,
)
    requires
        answers_record(r, fetched),
    ensures
        fetched matches Ok(record) ==> r.status == Status::Success && (r.body matches Body::Jobs(
            records,
        ) && records@.len() == 1 && records@[0] == record),
        fetched == Err::<Record, RecordRepositoryError>(RecordRepositoryError::RecordNotFound)
            ==> r.status == Status::NotFound && (r.body matches Body::Json(t) && t@
            == NOT_FOUND_MESSAGE@),
        fetched == Err::<Record, RecordRepositoryError>(
            RecordRepositoryError::CannotDenormalizeRecord,
        ) ==> r.status == Status::InternalServerError && (r.body matches Body::Json(t) && t@
            == DENORMALIZE_MESSAGE@),
        fetched matches Err(e) && e != RecordRepositoryError::CannotDenormalizeRecord && e
            != RecordRepositoryError::RecordNotFound ==> r.status == Status::InternalServerError
            && (r.body matches Body::Json(t) && t@ == UNKNOWN_ERROR_MESSAGE@),
{
}

/// What a login answers: 400 with no body when the body is not a form or has no
/// password field, 200 with no body when the first value of the first password field is
/// the monitor password, and 401 with no body otherwise.
pub proof fn law_login_answer(
    r: Reply,
    form: Option<Vec<(String, Vec<String>)>>,
    password: Seq<char>,
)
    requires
        answers_login(r, form, password),
    ensures
        r.body is Empty,
        form is None ==> r.status == Status::BadRequest,
        form matches Some(fields) ==> (form_value(fields@, PASSWORD_FIELD@) is None
            ==> r.status == Status::BadRequest),
        form matches Some(fields) ==> (form_value(fields@, PASSWORD_FIELD@) matches Some(v)
            ==> (r.status == Status::Success <==> v[0]@ == password) && (r.status
            == Status::Unauthorized <==> v[0]@ != password)),
{
}

/// A bare answer has the given status and no body; a message has the given status and
/// the given JSON text.
pub proof fn law_bare_and_message(r: Reply, s: Status, text: Seq<char>)
    ensures
        is_bare(r, s) <==> (r.status == s && r.body is Empty),
        is_message(r, s, text) <==> (r.status == s && r.body is Json && r.body->Json_0@ == text),
{
}

/// The password that the login accepts is the one that opens the protected routes: when
/// a login form and a password header give the same text, the login succeeds exactly
/// when the header lets its request in.
pub proof fn law_login_agrees_with_header(
    reply: Reply,
    fields: Vec<(String, Vec<String>)>,
    raw: Option<Vec<Vec<u8>>>,
    text: Seq<char>,
    password: Seq<char>,
)
    requires
        form_value(fields@, PASSWORD_FIELD@) matches Some(values) && values.len() > 0
            && values[0]@ == text,
        given_password(raw, text),
        answers_login(reply, Some(fields), password),
    ensures
        reply.status == Status::Success <==> admitted(raw, password),
{
    if let Some(parts) = raw {
        if utf8_of(password) == joined(parts@) {
            crate::text::lemma_utf8_of_injective(text, password);
        }
    }
}

/// Whether the given password is the expected one.
pub fn verify_password(expected: &String, actual: &String) -> (r: bool)
    ensures
        r == (actual@ == expected@),
{
    *actual == *expected
}

/// The raw values of the password header, one after the other.
fn join_parts(parts: &Vec<Vec<u8>>) -> (r: Vec<u8>)
    ensures
        r@ == joined(parts@),
{
    let mut bytes: Vec<u8> = Vec::new();
    let mut i: usize = 0;
    while i < parts.len()
        invariant
            i <= parts@.len(),
            bytes@ == joined(parts@.take(i as int)),
        decreases parts@.len() - i,
    {
        let part = &parts[i];
        let ghost before = bytes@;
        let mut j: usize = 0;
        while j < part.len()
            invariant
                j <= part@.len(),
                bytes@ == before + part@.take(j as int),
            decreases part@.len() - j,
        {
            bytes.push(part[j]);
            assert(part@.take(j + 1) =~= part@.take(j as int).push(part@[j as int]));
            j = j + 1;
        }
        assert(part@.take(j as int) =~= part@);
        assert(parts@.take(i + 1).drop_last() =~= parts@.take(i as int));
        i = i + 1;
    }
    assert(parts@.take(i as int) =~= parts@);
    bytes
}

/// The password that a request gives in its password header (`None` when it has none).
pub fn requested_password(raw: &Option<Vec<Vec<u8>>>) -> (r: String)
    requires
        header_readable(*raw),
    ensures
        given_password(*raw, r@),
{
    match raw {
        Some(parts) => string_from_utf8(join_parts(parts)).unwrap(),
        None => String::new(),
    }
}

/// Whether a request gives the monitor password in its password header.
pub fn verify_request(raw: &Option<Vec<Vec<u8>>>, password: &String) -> (r: bool)
    requires
        header_readable(*raw),
    ensures
        r == admitted(*raw, password@),
{
    let requested = requested_password(raw);
    let ok = verify_password(&requested, password);
    proof {
        if given_password(*raw, password@) && raw is Some {
            crate::text::lemma_utf8_of_injective(requested@, password@);
        }
    }
    ok
}

/// The values of the first field of a form with the given name.
fn find_field<'a>(fields: &'a Vec<(String, Vec<String>)>, name: &str) -> (r: Option<&'a Vec<String>>)
    ensures
        match form_value(fields@, name@) {
            None => r is None,
            Some(values) => r matches Some(v) && v@ == values,
        },
{
    let mut i: usize = 0;
    assert(fields@.skip(0) =~= fields@);
    while i < fields.len()
        invariant
            i <= fields@.len(),
            form_value(fields@, name@) == form_value(fields@.skip(i as int), name@),
        decreases fields@.len() - i,
    {
        if text_is(&fields[i].0, name) {
            return Some(&fields[i].1);
        }
        assert(fields@.skip(i as int).drop_first() =~= fields@.skip(i + 1));
        i = i + 1;
    }
    None
}

/// An answer with no body.
fn bare(status: Status) -> (r: Reply)
    ensures
        is_bare(r, status),
{
    Reply { status, body: Body::Empty }
}

/// An answer with a JSON text.
fn message(status: Status, text: &str) -> (r: Reply)
    ensures
        is_message(r, status, text@),
{
    Reply { status, body: Body::Json(text.to_owned()) }
}

/// The answer to a listing of records, by what the repository gave.
pub fn page_reply(fetched: Result<Vec<Record>, RecordRepositoryError>) -> (r: Reply)
    ensures
        answers_page(r, fetched),
{
    match fetched {
        Ok(records) => Reply { status: Status::Success, body: Body::Jobs(records) },
        Err(RecordRepositoryError::CannotDenormalizeRecord) => message(
            Status::InternalServerError,
            DENORMALIZE_MESSAGE,
        ),
        Err(_) => message(Status::InternalServerError, UNKNOWN_ERROR_MESSAGE),
    }
}

/// The answer to a request for one record, by what the repository gave.
pub fn record_reply(fetched: Result<Record, RecordRepositoryError>) -> (r: Reply)
    ensures
        answers_record(r, fetched),
{
    match fetched {
        Ok(record) => {
            let mut records: Vec<Record> = Vec::new();
            records.push(record);
            Reply { status: Status::Success, body: Body::Jobs(records) }
        },
        Err(RecordRepositoryError::CannotDenormalizeRecord) => message(
            Status::InternalServerError,
            DENORMALIZE_MESSAGE,
        ),
        Err(RecordRepositoryError::RecordNotFound) => message(
            Status::NotFound,
            NOT_FOUND_MESSAGE,
        ),
        Err(_) => message(Status::InternalServerError, UNKNOWN_ERROR_MESSAGE),
    }
}

/// The id of the job that a route asks for: the route's id, or `DEFAULT_JOB_ID` when it
/// gives none.
pub open spec fn requested_job(id: Option<String>) -> Seq<char> {
    match id {
        Some(id) => id@,
        None => DEFAULT_JOB_ID@,
    }
}

/// The job asked for is the route's own id whenever the route gives one, and `/` only
/// when it gives none.
pub proof fn law_requested_job(id: Option<String>)
    ensures
        id matches Some(s) ==> requested_job(id) == s@,
        id is None ==> requested_job(id) == DEFAULT_JOB_ID@,
{
}

/// A request without a password header is let in only when the monitor password is
/// empty; one with a header, only when the header's bytes are the UTF-8 bytes of the
/// monitor password.
pub proof fn law_admitted(raw: Option<Vec<Vec<u8>>>, password: Seq<char>)
    ensures
        raw is None ==> (admitted(raw, password) <==> password.len() == 0),
        raw matches Some(parts) ==> (admitted(raw, password) <==> utf8_of(password) == joined(
            parts@,
        )),
{
    if password.len() == 0 {
        assert(password =~= Seq::<char>::empty());
    }
}

/// The monitor of a worker whose records are kept in `backend`.
pub struct HttpServer<R> {
    pub config: Config,
    pub backend: R,
    pub started_at: Timestamp,
}

impl<R> HttpServer<R> {
    /// A monitor started at `started_at`.
    pub fn started(config: Config, backend: R, started_at: Timestamp) -> (r: HttpServer<R>)
        ensures
            r.config == config,
            r.backend == backend,
            r.started_at == started_at,
    {
        HttpServer { config, backend, started_at }
    }

    /// A monitor started now, if the system clock reads a time that `chrono` represents.
    pub fn new(config: Config, backend: R) -> (r: Option<HttpServer<R>>)
        ensures
            r matches Some(s) ==> {
                &&& s.config == config
                &&& s.backend == backend
                &&& s.started_at@.1 < 1_000_000_000
            },
    {
        match Timestamp::now() {
            Some(started_at) => Some(HttpServer::started(config, backend, started_at)),
            None => None,
        }
    }

    /// The answer to `GET /server` from a request with the password header `raw`,
    /// received on the local address `ip`: the server description to those let in.
    pub fn server(&self, raw: &Option<Vec<Vec<u8>>>, ip: String) -> (r: Reply)
        requires
            header_readable(*raw),
        ensures
            !admitted(*raw, self.config.password@) ==> is_bare(r, Status::Unauthorized),
            admitted(*raw, self.config.password@) ==> r.status == Status::Success && (
            r.body matches Body::Server(s) && {
                &&& s.ip@ == ip@
                &&& s.hostname@ == self.config.address@
                &&& s.version@ == VERSION@
                &&& s.started_at@ == chrono_rfc3339(self.started_at@.0, self.started_at@.1)
                &&& s.websockets == self.config.websockets
            }),
    {
        if !verify_request(raw, &self.config.password) {
            return bare(Status::Unauthorized);
        }
        let server = ServerResponse {
            ip,
            hostname: self.config.address.clone(),
            version: VERSION.to_owned(),
            started_at: self.started_at.to_rfc3339(),
            websockets: self.config.websockets,
        };
        Reply { status: Status::Success, body: Body::Server(server) }
    }

    /// The answer to `POST /auth` with the form `form` (`None` when the body was not a
    /// form): success when its password field gives the monitor password.
    pub fn auth(&self, form: &Option<Vec<(String, Vec<String>)>>) -> (r: Reply)
        requires
            form_readable(*form),
        ensures
            answers_login(r, *form, self.config.password@),
    {
        match form {
            None => bare(Status::BadRequest),
            Some(fields) => match find_field(fields, PASSWORD_FIELD) {
                None => bare(Status::BadRequest),
                Some(values) => {
                    if verify_password(&values[0], &self.config.password) {
                        bare(Status::Success)
                    } else {
                        bare(Status::Unauthorized)
                    }
                },
            },
        }
    }
}

impl<R: RecordRepository> HttpServer<R> {
    /// The answer to `GET /jobs` from a request with the password header `raw`: to those
    /// let in, the first page of records as the repository gives it.
    pub fn jobs(&self, raw: &Option<Vec<Vec<u8>>>) -> (r: Reply)
        requires
            header_readable(*raw),
        ensures
            !admitted(*raw, self.config.password@) ==> is_bare(r, Status::Unauthorized),
            admitted(*raw, self.config.password@) ==> exists|fetched|
                self.backend.fetched_page(MONITOR_PAGE_SIZE, MONITOR_PAGE_OFFSET, fetched)
                    && answers_page(r, fetched),
    {
        if !verify_request(raw, &self.config.password) {
            return bare(Status::Unauthorized);
        }
        let fetched = self.backend.fetch_limit(MONITOR_PAGE_SIZE, MONITOR_PAGE_OFFSET);
        page_reply(fetched)
    }

    /// The answer to `GET /jobs/:id` from a request with the password header `raw` and
    /// the route's id (`None` when it has none, read as `/`): to those let in, the record
    /// with that id as the repository gives it.
    pub fn job(&self, raw: &Option<Vec<Vec<u8>>>, id: Option<String>) -> (r: Reply)
        requires
            header_readable(*raw),
        ensures
            !admitted(*raw, self.config.password@) ==> is_bare(r, Status::Unauthorized),
            admitted(*raw, self.config.password@) ==> exists|fetched|
                self.backend.fetched_record(requested_job(id), fetched)
                    && answers_record(r, fetched),
    {
        if !verify_request(raw, &self.config.password) {
            return bare(Status::Unauthorized);
        }
        let id = match id {
            Some(id) => id,
            None => DEFAULT_JOB_ID.to_owned(),
        };
        let fetched = self.backend.fetch_record(id);
        record_reply(fetched)
    }
}

} // verus!
