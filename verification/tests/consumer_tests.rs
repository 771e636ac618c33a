use std::cell::RefCell;
use std::rc::Rc;

use gworkerd::basic_consumer;
use gworkerd::consumer::{
    before_send, frame_text, AckMode, AckOrNack, Consumer, Header, StompConfig, StompConsumer,
};
use gworkerd::text::decimal_text;
use gworkerd::worker::Request;

fn config() -> StompConfig {
    StompConfig {
        address: String::from("127.0.0.1"),
        port: 61613,
        host: String::from("/"),
        username: String::from("guest"),
        password: String::from("guest"),
        topic: String::from("/queue/gworkerd"),
        prefetch_count: 1,
        heartbeat: 5000,
    }
}

fn request() -> Request {
    Request { id: String::from("id-1"), command: String::from("true"), cwd: String::from("/") }
}

#[test]
fn session_settings_of_the_configuration() {
    let s = config().session_settings();
    assert_eq!(s.address, "127.0.0.1");
    assert_eq!(s.port, 61613);
    assert_eq!(s.username, "guest");
    assert_eq!(s.password, "guest");
    assert_eq!(s.heartbeat, Some((5000, 5000)));
    assert_eq!(s.suppressed_headers, vec![String::from("host")]);
    assert_eq!(s.headers.len(), 1);
    assert_eq!(s.headers[0].name, "host");
    assert_eq!(s.headers[0].value, "/");
}

#[test]
fn listen_hands_over_the_handlers_in_order() {
    let seen = Rc::new(RefCell::new(Vec::new()));
    let mut consumer = StompConsumer::new(&StompConfig { prefetch_count: 250, ..config() });
    for tag in 0..3 {
        let seen = seen.clone();
        consumer.subscribe(move |r: Request| seen.borrow_mut().push(format!("{}:{}", tag, r.id)));
    }
    assert_eq!(consumer.handlers.len(), 3);
    let subscription = consumer.listen();
    assert!(consumer.handlers.is_empty());
    assert_eq!(subscription.destination, "/queue/gworkerd");
    assert_eq!(subscription.ack_mode, AckMode::ClientIndividual);
    assert_eq!(subscription.headers.len(), 1);
    assert_eq!(subscription.headers[0].name, "prefetch-count");
    assert_eq!(subscription.headers[0].value, "250");
    assert_eq!(subscription.handlers.len(), 3);

    assert_eq!(subscription.deliver(Some(request())), AckOrNack::Ack);
    assert_eq!(*seen.borrow(), vec!["0:id-1", "1:id-1", "2:id-1"]);
    assert_eq!(subscription.deliver(None), AckOrNack::Nack);
    assert_eq!(seen.borrow().len(), 3);
}

#[test]
fn message_bodies_must_be_utf8() {
    assert_eq!(frame_text(b"{\"id\": \"x\"}".to_vec()), Some(String::from("{\"id\": \"x\"}")));
    assert_eq!(frame_text(vec![0xff, 0xfe]), None);
    assert_eq!(frame_text(vec![0xc3]), None);
}

#[test]
fn refused_messages_are_not_requeued() {
    let mut headers = vec![Header { name: String::from("message-id"), value: String::from("7") }];
    before_send(&String::from("NACK"), &mut headers);
    assert_eq!(headers.len(), 2);
    assert_eq!(headers[1].name, "requeue");
    assert_eq!(headers[1].value, "false");

    let mut headers = vec![Header { name: String::from("message-id"), value: String::from("7") }];
    before_send(&String::from("ACK"), &mut headers);
    assert_eq!(headers.len(), 1);
    before_send(&String::from("nack"), &mut headers);
    assert_eq!(headers.len(), 1);
}

#[test]
fn decimal_numerals() {
    assert_eq!(decimal_text(0), "0");
    assert_eq!(decimal_text(7), "7");
    assert_eq!(decimal_text(10), "10");
    assert_eq!(decimal_text(65535), "65535");
    assert_eq!(decimal_text(u32::MAX), "4294967295");
}

#[test]
fn basic_consumer_subscription() {
    let config = basic_consumer::StompConfig {
        address: String::from("mq"),
        port: 1,
        host: String::from("vhost"),
        username: String::from("u"),
        password: String::from("p"),
        topic: String::from("/queue/jobs"),
        prefetch_count: 12,
    };
    let settings = config.session_settings();
    assert_eq!(settings.heartbeat, None);
    assert_eq!(settings.headers[0].value, "vhost");
    let count = Rc::new(RefCell::new(0));
    let mut consumer = basic_consumer::Consumer::new(&config);
    let c = count.clone();
    consumer.subscribe(move |_r: Request| *c.borrow_mut() += 1);
    let subscription = consumer.listen();
    assert_eq!(subscription.headers[0].value, "12");
    assert_eq!(subscription.destination, "/queue/jobs");
    assert_eq!(subscription.dispatch(request()), AckOrNack::Ack);
    assert_eq!(*count.borrow(), 1);
    assert_eq!(subscription.dispatch(request()), AckOrNack::Ack);
    assert_eq!(*count.borrow(), 2);
}
