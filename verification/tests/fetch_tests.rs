use browser_tasks::CancellableTask;
use browser_tasks::FetchRequest;
use browser_tasks::FetchResponse;
use browser_tasks::FetchService;
use browser_tasks::FetchTask;
use browser_tasks::MessageSink;
use browser_tasks::TaskError;

#[derive(Clone, Debug, PartialEq, Eq)]
enum Msg {
    RecvData(String),
    Error,
}

fn translate(response: FetchResponse) -> Msg {
    if (200..300).contains(&response.status) {
        Msg::RecvData(response.body)
    } else {
        Msg::Error
    }
}

fn get_request(headers: Vec<(String, Vec<u8>)>) -> FetchRequest {
    FetchRequest {
        method: String::from("GET"),
        url: String::from("https://my.api/v1/resource"),
        headers,
        body: String::new(),
    }
}

fn ok_response(body: &str) -> FetchResponse {
    FetchResponse {
        status: 200,
        headers: vec![(
            String::from("content-type"),
            String::from("text/plain"),
        )],
        body: String::from(body),
    }
}

#[test]
fn new_accepts_text_header_values() {
    let request = get_request(vec![
        (String::from("content-type"), b"application/json".to_vec()),
        (String::from("x-tabbed"), vec![b'a', 9, b'b']),
    ]);
    let task: FetchTask<Msg, _> = FetchTask::new(request, translate).unwrap();
    assert!(task.is_active());
    assert_eq!(task.request().method, "GET");
    assert_eq!(task.request().url, "https://my.api/v1/resource");
}

#[test]
fn new_names_the_first_untext_header() {
    let request = get_request(vec![
        (String::from("fine"), b"ok".to_vec()),
        (String::from("x-binary"), vec![0x00, 0xff]),
        (String::from("also-bad"), vec![0x01]),
    ]);
    match FetchTask::<Msg, _>::new(request, translate) {
        Ok(_) => panic!("binary header accepted"),
        Err(err) => assert_eq!(
            err,
            TaskError::Encoding {
                header: String::from("x-binary")
            }
        ),
    }
}

#[test]
fn text_rule_is_exactly_visible_ascii_or_tab() {
    for (byte, ok) in [(8u8, false), (9, true), (10, false), (31, false), (32, true), (126, true), (127, false)] {
        let request = get_request(vec![(String::from("probe"), vec![byte])]);
        let r = FetchTask::<Msg, _>::new(request, translate);
        assert_eq!(r.is_ok(), ok, "byte {}", byte);
    }
}

#[test]
fn resolution_delivers_exactly_one_message() {
    let mut sink: MessageSink<Msg> = MessageSink::new();
    let request = get_request(vec![]);
    let mut task: FetchTask<Msg, _> = FetchTask::new(request, translate).unwrap();
    assert!(task.is_active());

    task.resolve(ok_response("payload"), &mut sink);
    assert!(!task.is_active());
    assert_eq!(
        sink.messages().as_slice(),
        &[Msg::RecvData(String::from("payload"))]
    );

    // A duplicate resolution event is discarded.
    task.resolve(ok_response("again"), &mut sink);
    assert!(!task.is_active());
    assert_eq!(sink.len(), 1);
}

#[test]
fn translate_sees_the_delivered_response() {
    let mut sink: MessageSink<Msg> = MessageSink::new();
    let request = get_request(vec![]);
    let mut task = FetchTask::new(request, |response: FetchResponse| {
        assert_eq!(response.status, 200);
        assert_eq!(response.headers[0].0, "content-type");
        assert_eq!(response.headers[0].1, "text/plain");
        Msg::RecvData(response.body)
    })
    .unwrap();

    task.resolve(ok_response("the body"), &mut sink);
    assert_eq!(
        sink.messages().as_slice(),
        &[Msg::RecvData(String::from("the body"))]
    );
}

#[test]
fn transport_failure_is_a_message_not_an_error() {
    let mut sink: MessageSink<Msg> = MessageSink::new();
    let request = get_request(vec![]);
    let mut task: FetchTask<Msg, _> = FetchTask::new(request, translate).unwrap();

    let failure = FetchResponse {
        status: 0,
        headers: Vec::new(),
        body: String::new(),
    };
    task.resolve(failure, &mut sink);
    assert_eq!(sink.messages().as_slice(), &[Msg::Error]);
    assert!(!task.is_active());
}

#[test]
fn cancel_before_resolution_suppresses_delivery() {
    let mut sink: MessageSink<Msg> = MessageSink::new();
    let request = get_request(vec![]);
    let mut task: FetchTask<Msg, _> = FetchTask::new(request, translate).unwrap();

    task.cancel();
    assert!(!task.is_active());

    // The transfer keeps running and eventually resolves; nothing reaches
    // the sink.
    task.resolve(ok_response("late"), &mut sink);
    assert_eq!(sink.len(), 0);
    assert!(!task.is_active());
}

#[test]
fn cancel_is_idempotent() {
    let request = get_request(vec![]);
    let mut task: FetchTask<Msg, _> = FetchTask::new(request, translate).unwrap();

    task.cancel();
    assert!(!task.is_active());
    task.cancel();
    assert!(!task.is_active());
}

#[test]
fn cancel_after_resolution_changes_nothing() {
    let mut sink: MessageSink<Msg> = MessageSink::new();
    let request = get_request(vec![]);
    let mut task: FetchTask<Msg, _> = FetchTask::new(request, translate).unwrap();

    task.resolve(ok_response("done"), &mut sink);
    task.cancel();
    assert!(!task.is_active());
    assert_eq!(sink.len(), 1);
}

#[test]
fn fetch_service_defaults() {
    let _service: FetchService = FetchService::default();
}
