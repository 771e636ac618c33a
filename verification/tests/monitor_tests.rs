use gworkerd::basic_monitor;
use gworkerd::clock::Timestamp;
use gworkerd::monitor::{
    page_reply, record_reply, requested_password, verify_password, verify_request, Body, Config,
    HttpServer, Status,
};
use gworkerd::record_backend::{RecordRepository, RecordRepositoryError};
use gworkerd::worker::Record;

fn record(id: &str) -> Record {
    Record {
        id: String::from(id),
        command: String::from("ls"),
        cwd: String::from("/tmp"),
        status: 0,
        stderr: String::new(),
        stdout: String::new(),
        started_at: Timestamp::from_unix(0, 0).unwrap(),
        finished_at: Timestamp::from_unix(1, 0).unwrap(),
    }
}

struct Fixed {
    page: Result<Vec<Record>, RecordRepositoryError>,
    one: Result<Record, RecordRepositoryError>,
}

impl RecordRepository for Fixed {
    fn store(&self, _record: Record) -> Result<(), RecordRepositoryError> {
        Ok(())
    }
    fn fetch_record(&self, id: String) -> Result<Record, RecordRepositoryError> {
        match &self.one {
            Ok(_) => Ok(record(&id)),
            Err(e) => Err(*e),
        }
    }
    fn fetch_limit(&self, size: u32, offset: u32) -> Result<Vec<Record>, RecordRepositoryError> {
        assert_eq!((size, offset), (30, 0));
        self.page.clone()
    }
}

fn server(page: Result<Vec<Record>, RecordRepositoryError>, one: Result<Record, RecordRepositoryError>) -> HttpServer<Fixed> {
    HttpServer::new(
        Config {
            address: String::from("localhost:3000"),
            webapp_path: String::from("../webapp/dist"),
            websockets: false,
            password: String::from("pw"),
        },
        Fixed { page, one },
    )
    .unwrap()
}

fn header(text: &str) -> Option<Vec<Vec<u8>>> {
    Some(vec![text.as_bytes().to_vec()])
}

#[test]
fn passwords() {
    assert!(verify_password(&String::from("a"), &String::from("a")));
    assert!(!verify_password(&String::from("a"), &String::from("b")));
    assert_eq!(requested_password(&None), "");
    assert_eq!(requested_password(&Some(vec![b"p".to_vec(), b"w".to_vec()])), "pw");
    assert!(verify_request(&Some(vec![b"p".to_vec(), b"w".to_vec()]), &String::from("pw")));
    assert!(verify_request(&None, &String::new()));
    assert!(!verify_request(&None, &String::from("pw")));
    assert!(!verify_request(&header("pw "), &String::from("pw")));
}

#[test]
fn status_codes() {
    assert_eq!(Status::Success.code(), 200);
    assert_eq!(Status::BadRequest.code(), 400);
    assert_eq!(Status::Unauthorized.code(), 401);
    assert_eq!(Status::NotFound.code(), 404);
    assert_eq!(Status::InternalServerError.code(), 500);
}

#[test]
fn server_description_needs_the_password() {
    let s = server(Ok(vec![]), Ok(record("x")));
    let refused = s.server(&header("nope"), String::from("127.0.0.1:3000"));
    assert_eq!(refused.status, Status::Unauthorized);
    assert!(matches!(refused.body, Body::Empty));
    let r = s.server(&header("pw"), String::from("127.0.0.1:3000"));
    assert_eq!(r.status, Status::Success);
    match r.body {
        Body::Server(d) => {
            assert_eq!(d.ip, "127.0.0.1:3000");
            assert_eq!(d.hostname, "localhost:3000");
            assert_eq!(d.version, "0.5.0");
            assert_eq!(d.started_at, s.started_at.to_rfc3339());
            assert!(!d.websockets);
        }
        _ => panic!("expected a server description"),
    }
}

#[test]
fn login_form() {
    let s = server(Ok(vec![]), Ok(record("x")));
    let form = |pairs: Vec<(&str, Vec<&str>)>| {
        Some(pairs.into_iter().map(|(k, v)| (String::from(k), v.into_iter().map(String::from).collect())).collect())
    };
    assert_eq!(s.auth(&None).status, Status::BadRequest);
    assert_eq!(s.auth(&form(vec![("user", vec!["pw"])])).status, Status::BadRequest);
    assert_eq!(s.auth(&form(vec![("password", vec!["bad", "pw"])])).status, Status::Unauthorized);
    let ok = s.auth(&form(vec![("user", vec!["me"]), ("password", vec!["pw"])]));
    assert_eq!(ok.status, Status::Success);
    assert!(matches!(ok.body, Body::Empty));
}

#[test]
fn job_listing() {
    let refused = server(Ok(vec![]), Ok(record("x"))).jobs(&None);
    assert_eq!(refused.status, Status::Unauthorized);
    let r = server(Ok(vec![record("a"), record("b")]), Ok(record("x"))).jobs(&header("pw"));
    assert_eq!(r.status, Status::Success);
    match r.body {
        Body::Jobs(records) => assert_eq!(records.len(), 2),
        _ => panic!("expected records"),
    }
    let failed = server(Err(RecordRepositoryError::CannotDenormalizeRecord), Ok(record("x"))).jobs(&header("pw"));
    assert_eq!(failed.status, Status::InternalServerError);
    match failed.body {
        Body::Json(text) => assert_eq!(text, "{\"message\": \"Cannot denormalize records from database\"}"),
        _ => panic!("expected a message"),
    }
}

#[test]
fn single_job() {
    let r = server(Ok(vec![]), Ok(record("x"))).job(&header("pw"), Some(String::from("abc")));
    match r.body {
        Body::Jobs(records) => {
            assert_eq!(records.len(), 1);
            assert_eq!(records[0].id, "abc");
        }
        _ => panic!("expected one record"),
    }
    let r = server(Ok(vec![]), Ok(record("x"))).job(&header("pw"), None);
    match r.body {
        Body::Jobs(records) => assert_eq!(records[0].id, "/"),
        _ => panic!("expected one record"),
    }
    let missing = server(Ok(vec![]), Err(RecordRepositoryError::RecordNotFound)).job(&header("pw"), None);
    assert_eq!(missing.status, Status::NotFound);
    let refused = server(Ok(vec![]), Ok(record("x"))).job(&header("x"), None);
    assert_eq!(refused.status, Status::Unauthorized);
}

#[test]
fn replies_by_repository_outcome() {
    let body_text = |b: Body| match b {
        Body::Json(t) => t,
        _ => String::from("<not json text>"),
    };
    let r = page_reply(Err(RecordRepositoryError::CannotFetchRecord));
    assert_eq!(r.status, Status::InternalServerError);
    assert_eq!(body_text(r.body), "{\"message\": \"Unknown error\" }");
    let r = record_reply(Err(RecordRepositoryError::RecordNotFound));
    assert_eq!(r.status, Status::NotFound);
    assert_eq!(body_text(r.body), "{\"message\": \"Record does not exists\"}");
    let r = record_reply(Err(RecordRepositoryError::CannotDenormalizeRecord));
    assert_eq!(r.status, Status::InternalServerError);
    assert_eq!(body_text(r.body), "{\"message\": \"Cannot denormalize records from database\"}");
    let r = record_reply(Err(RecordRepositoryError::CannotStoreRecord));
    assert_eq!(body_text(r.body), "{\"message\": \"Unknown error\" }");
}

#[test]
fn basic_monitor_server_description() {
    let s = basic_monitor::HttpServer::new(basic_monitor::Config { address: String::from("h:1") }, ()).unwrap();
    let d = s.server(String::from("10.0.0.1:1"));
    assert_eq!(d.ip, "10.0.0.1:1");
    assert_eq!(d.hostname, "h:1");
    assert_eq!(d.version, "0.5.0");
}

#[test]
fn login_and_header_agree_on_the_password() {
    let s = server(Ok(vec![]), Ok(record("x")));
    for given in ["pw", "other", ""] {
        let form = Some(vec![(String::from("password"), vec![String::from(given)])]);
        let login_ok = s.auth(&form).status == Status::Success;
        let header_ok = s.jobs(&header(given)).status == Status::Success;
        assert_eq!(login_ok, header_ok);
        assert_eq!(login_ok, given == "pw");
    }
}

#[test]
fn answers_with_a_body_are_json() {
    assert!(!server(Ok(vec![]), Ok(record("x"))).jobs(&None).is_json());
    assert!(server(Ok(vec![]), Ok(record("x"))).jobs(&header("pw")).is_json());
    assert!(page_reply(Err(RecordRepositoryError::CannotFetchRecord)).is_json());
}

#[test]
fn a_monitor_started_at_a_given_time_describes_it() {
    let t = Timestamp::from_unix(1451703845, 0).unwrap();
    let s = basic_monitor::HttpServer::started(basic_monitor::Config { address: String::from("h:1") }, (), t);
    let d = s.server(String::from("10.0.0.1:1"));
    assert_eq!(d.started_at, "2016-01-02T03:04:05+00:00");
}
