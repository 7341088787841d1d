use router_bot::action::{ApiRequest, DecodeError};
use router_bot::event::BaseEvent;
use router_bot::processor::{acknowledge, respond, ActionResult, ActionTuple, Inbox, Processor, Work};
use router_bot::response::{encode_response, frame_response, EncodeError, MsgRsp, Status};
use router_bot::ws::{
    EventRelay, Exchange, Failure, Frame, FrameAction, Next, Outcome, Phase, RelayAction,
    RelayEvent, Session,
};

fn dispatch(text: &str) -> (ApiRequest, Exchange) {
    let mut session = Session::new();
    match session.handle(Frame::Text(text.to_string())) {
        FrameAction::Dispatch { request, exchange } => (request, exchange),
        other => panic!("expected a dispatch, got {:?}", other),
    }
}

fn written(next: Next) -> String {
    match next {
        Next::Write(text) => text,
        other => panic!("expected a write, got {:?}", other),
    }
}

fn reply_of(worker: &mut Processor, request: ApiRequest) -> MsgRsp {
    match worker.step(Inbox::Request(ActionTuple { request, wants_reply: true })) {
        Work::Reply(response) => response,
        other => panic!("expected a reply, got {:?}", other),
    }
}

#[test]
fn ping_request_gets_its_echo_back() {
    let (request, mut exchange) = dispatch(r#"{"action":"ping","params":{"echo":"x1"}}"#);
    assert_eq!(request.action, "ping");
    assert_eq!(request.params, r#"{"echo":"x1"}"#);
    assert_eq!(exchange.echo.as_deref(), Some(r#""x1""#));
    assert!(matches!(exchange.step(Outcome::Accepted), Next::AwaitReply));
    let mut worker = Processor::new();
    let reply = reply_of(&mut worker, request);
    let text = written(exchange.step(Outcome::Answered(reply)));
    assert_eq!(
        text,
        r#"{"status":"ok","retcode":0,"data":{"message":"Action processed successfully"},"echo":"x1"}"#
    );
    assert!(text.contains(r#""echo":"x1""#));
    assert!(exchange.is_settled());
}

#[test]
fn text_that_is_not_json_is_rejected_without_echo() {
    let mut session = Session::new();
    match session.handle(Frame::Text("not json".to_string())) {
        FrameAction::Write(text) => {
            assert_eq!(
                text,
                r#"{"status":"failed","retcode":1400,"data":{"error":"Invalid request format"}}"#
            );
            assert!(!text.contains("echo"));
        }
        other => panic!("expected a write, got {:?}", other),
    }
    assert!(session.open);
}

#[test]
fn malformed_request_keeps_its_top_level_echo() {
    let mut session = Session::new();
    match session.handle(Frame::Text(r#"{"params":{},"echo": [1, 2]}"#.to_string())) {
        FrameAction::Write(text) => assert_eq!(
            text,
            r#"{"status":"failed","retcode":1400,"data":{"error":"Invalid request format"},"echo":[1, 2]}"#
        ),
        other => panic!("expected a write, got {:?}", other),
    }
}

#[test]
fn decode_names_each_malformation() {
    assert!(matches!(ApiRequest::decode("not json"), Err(DecodeError::NotAnObject)));
    assert!(matches!(ApiRequest::decode(r#"["ping",{}]"#), Err(DecodeError::NotAnObject)));
    assert!(matches!(ApiRequest::decode(r#"{"action":"a","params":{}} x"#), Err(DecodeError::NotAnObject)));
    assert!(matches!(ApiRequest::decode(r#"{"params":{}}"#), Err(DecodeError::MissingAction)));
    assert!(matches!(ApiRequest::decode(r#"{"action":7,"params":{}}"#), Err(DecodeError::ActionNotText)));
    assert!(matches!(ApiRequest::decode(r#"{"action":"","params":{}}"#), Err(DecodeError::EmptyAction)));
    assert!(matches!(ApiRequest::decode(r#"{"action":"ping"}"#), Err(DecodeError::MissingParams)));
}

#[test]
fn decode_reads_action_and_keeps_params_as_written() {
    let request = ApiRequest::decode(
        " { \"extra\": true, \"params\": { \"echo\" : {\"n\": 1.50} , \"k\":null }, \"action\": \"send\\u005fmsg\" } ",
    )
    .unwrap();
    assert_eq!(request.action, "send_msg");
    assert_eq!(request.params, "{ \"echo\" : {\"n\": 1.50} , \"k\":null }");
    assert_eq!(request.echo().as_deref(), Some("{\"n\": 1.50}"));
}

#[test]
fn decode_takes_the_last_of_repeated_members() {
    let request = ApiRequest::decode(r#"{"action":"a","action":"b","params":1,"params":2}"#).unwrap();
    assert_eq!(request.action, "b");
    assert_eq!(request.params, "2");
    assert_eq!(request.echo(), None);
}

#[test]
fn checked_request_needs_action_and_params() {
    assert!(matches!(
        ApiRequest::checked(String::new(), Some("{}".to_string())),
        Err(DecodeError::EmptyAction)
    ));
    assert!(matches!(ApiRequest::checked("a".to_string(), None), Err(DecodeError::MissingParams)));
    let request = ApiRequest::checked("a".to_string(), Some("{}".to_string())).unwrap();
    assert_eq!(request.action, "a");
    assert_eq!(request.params, "{}");
}

#[test]
fn echo_is_absent_where_params_hold_none() {
    let (request, exchange) = dispatch(r#"{"action":"ping","params":[{"echo":1}]}"#);
    assert_eq!(request.echo(), None);
    assert_eq!(exchange.echo, None);
    assert_eq!(exchange.phase, Phase::Dispatching);
}

#[test]
fn refused_dispatch_reports_retcode_1() {
    let (_, mut exchange) = dispatch(r#"{"action":"ping","params":{"echo":42}}"#);
    let text = written(exchange.step(Outcome::Refused));
    assert_eq!(
        text,
        r#"{"status":"failed","retcode":1,"data":{"error":"Internal server error sending to processor"},"echo":42}"#
    );
    assert!(exchange.is_settled());
}

#[test]
fn abandoned_reply_reports_retcode_2() {
    let (_, mut exchange) = dispatch(r#"{"action":"ping","params":{"echo":"e"}}"#);
    assert!(matches!(exchange.step(Outcome::Accepted), Next::AwaitReply));
    let text = written(exchange.step(Outcome::Abandoned));
    assert_eq!(
        text,
        r#"{"status":"failed","retcode":2,"data":{"error":"Processor did not respond"},"echo":"e"}"#
    );
}

#[test]
fn reply_without_wire_form_reports_retcode_3() {
    let (_, mut exchange) = dispatch(r#"{"action":"ping","params":{"echo":"e"}}"#);
    exchange.step(Outcome::Accepted);
    let reply = MsgRsp {
        status: Status::Okay,
        retcode: 0,
        data: Some("{broken".to_string()),
        echo: Some("\"e\"".to_string()),
    };
    let text = written(exchange.step(Outcome::Answered(reply)));
    assert_eq!(
        text,
        r#"{"status":"failed","retcode":3,"data":{"error":"Failed to serialize processor response"},"echo":"e"}"#
    );
}

#[test]
fn a_request_is_answered_once() {
    let (request, mut exchange) = dispatch(r#"{"action":"ping","params":{"echo":"once"}}"#);
    exchange.step(Outcome::Accepted);
    let first = respond(&request, acknowledge());
    let second = respond(&request, acknowledge());
    assert!(matches!(exchange.step(Outcome::Answered(first)), Next::Write(_)));
    assert!(matches!(exchange.step(Outcome::Answered(second)), Next::Nothing));
    assert!(matches!(exchange.step(Outcome::Abandoned), Next::Nothing));
    assert!(matches!(exchange.step(Outcome::Refused), Next::Nothing));
    assert!(matches!(exchange.step(Outcome::Accepted), Next::Nothing));
    assert!(exchange.is_settled());
}

#[test]
fn outcomes_out_of_phase_change_nothing() {
    let (request, mut exchange) = dispatch(r#"{"action":"ping","params":{"echo":"p"}}"#);
    assert!(matches!(exchange.step(Outcome::Abandoned), Next::Nothing));
    assert!(matches!(exchange.step(Outcome::Answered(respond(&request, acknowledge()))), Next::Nothing));
    assert_eq!(exchange.phase, Phase::Dispatching);
    exchange.step(Outcome::Accepted);
    assert!(matches!(exchange.step(Outcome::Refused), Next::Nothing));
    assert!(matches!(exchange.step(Outcome::Accepted), Next::Nothing));
    assert_eq!(exchange.phase, Phase::Awaiting);
}

#[test]
fn reply_is_awaited_without_a_deadline() {
    let (request, mut exchange) = dispatch(r#"{"action":"slow","params":{"echo":1}}"#);
    exchange.step(Outcome::Accepted);
    for _ in 0..1000 {
        assert!(matches!(exchange.step(Outcome::Accepted), Next::Nothing));
        assert_eq!(exchange.phase, Phase::Awaiting);
    }
    let text = written(exchange.step(Outcome::Answered(respond(&request, acknowledge()))));
    assert!(text.ends_with(r#","echo":1}"#));
}

#[test]
fn two_connections_keep_their_own_echoes() {
    let (first, mut first_exchange) = dispatch(r#"{"action":"ping","params":{"echo":"a"}}"#);
    let (second, mut second_exchange) = dispatch(r#"{"action":"ping","params":{"echo":"b"}}"#);
    first_exchange.step(Outcome::Accepted);
    second_exchange.step(Outcome::Accepted);
    let mut worker = Processor::new();
    let second_reply = reply_of(&mut worker, second);
    let first_reply = reply_of(&mut worker, first);
    let first_text = written(first_exchange.step(Outcome::Answered(first_reply)));
    let second_text = written(second_exchange.step(Outcome::Answered(second_reply)));
    assert!(first_text.ends_with(r#","echo":"a"}"#));
    assert!(second_text.ends_with(r#","echo":"b"}"#));
    assert_ne!(first_text, second_text);
    assert_eq!(worker.taken, 2);
}

#[test]
fn frames_other_than_text() {
    let mut session = Session::new();
    assert!(matches!(session.handle(Frame::Ping(vec![1, 2, 3])), FrameAction::Pong(p) if p == vec![1, 2, 3]));
    assert!(matches!(session.handle(Frame::Pong(vec![9])), FrameAction::Ignore));
    assert!(matches!(session.handle(Frame::Other), FrameAction::Ignore));
    match session.handle(Frame::Binary(vec![0, 1])) {
        FrameAction::Write(text) => assert_eq!(text, "Binary messages are not supported for actions."),
        other => panic!("expected a write, got {:?}", other),
    }
    assert!(session.open);
}

#[test]
fn close_tears_the_session_down() {
    let mut session = Session::new();
    let reason = router_bot::ws::CloseReason { code: 1000, description: Some("bye".to_string()) };
    match session.handle(Frame::Close(Some(reason))) {
        FrameAction::Close(Some(given)) => {
            assert_eq!(given.code, 1000);
            assert_eq!(given.description.as_deref(), Some("bye"));
        }
        other => panic!("expected a close, got {:?}", other),
    }
    assert!(!session.open);
    assert!(matches!(
        session.handle(Frame::Text(r#"{"action":"ping","params":{}}"#.to_string())),
        FrameAction::Ignore
    ));
    assert!(matches!(session.handle(Frame::Ping(vec![1])), FrameAction::Ignore));
}

#[test]
fn broken_stream_stops_the_session() {
    let mut session = Session::new();
    assert!(matches!(session.handle(Frame::Broken), FrameAction::Stop));
    assert!(!session.open);
    assert!(matches!(session.handle(Frame::Broken), FrameAction::Ignore));
}

#[test]
fn response_wire_form() {
    let response = MsgRsp { status: Status::Async, retcode: -7, data: None, echo: None };
    assert_eq!(encode_response(&response).unwrap(), r#"{"status":"async","retcode":-7}"#);
    let response = MsgRsp {
        status: Status::Okay,
        retcode: 2147483647,
        data: Some("  [1,\n 2] ".to_string()),
        echo: Some(" null".to_string()),
    };
    assert_eq!(
        encode_response(&response).unwrap(),
        "{\"status\":\"ok\",\"retcode\":2147483647,\"data\":[1,\n 2],\"echo\":null}"
    );
    let response = MsgRsp { status: Status::Failed, retcode: i32::MIN, data: None, echo: None };
    assert_eq!(encode_response(&response).unwrap(), r#"{"status":"failed","retcode":-2147483648}"#);
}

#[test]
fn response_without_wire_form() {
    let bad_data = MsgRsp { status: Status::Okay, retcode: 0, data: Some("1 2".to_string()), echo: Some("x".to_string()) };
    assert_eq!(encode_response(&bad_data), Err(EncodeError::Data));
    assert_eq!(frame_response(&bad_data), None);
    let bad_echo = MsgRsp { status: Status::Okay, retcode: 0, data: Some("1".to_string()), echo: Some("x".to_string()) };
    assert_eq!(encode_response(&bad_echo), Err(EncodeError::Echo));
    let empty = MsgRsp { status: Status::Okay, retcode: 0, data: Some(String::new()), echo: None };
    assert_eq!(encode_response(&empty), Err(EncodeError::Data));
}

#[test]
fn failure_envelopes() {
    let cases = [
        (Failure::Malformed, 1400, r#"{"error":"Invalid request format"}"#),
        (Failure::NotDispatched, 1, r#"{"error":"Internal server error sending to processor"}"#),
        (Failure::NoReply, 2, r#"{"error":"Processor did not respond"}"#),
        (Failure::NotEncodable, 3, r#"{"error":"Failed to serialize processor response"}"#),
    ];
    for (failure, retcode, data) in cases {
        let response = failure.report(Some("7".to_string()));
        assert_eq!(response.status, Status::Failed);
        assert_eq!(response.retcode, retcode);
        assert_eq!(response.data.as_deref(), Some(data));
        assert_eq!(response.echo.as_deref(), Some("7"));
        assert!(frame_response(&response).is_some());
    }
}

#[test]
fn status_words() {
    assert_eq!(Status::Okay.as_str(), "ok");
    assert_eq!(Status::Async.as_str(), "async");
    assert_eq!(Status::Failed.as_str(), "failed");
}

#[test]
fn worker_answers_with_the_requests_echo() {
    let request = ApiRequest::decode(r#"{"action":"get_status","params":{"echo":{"id":5}}}"#).unwrap();
    let result = ActionResult { status: Status::Failed, retcode: 100, data: None };
    let response = respond(&request, result);
    assert_eq!(response.status, Status::Failed);
    assert_eq!(response.retcode, 100);
    assert_eq!(response.data, None);
    assert_eq!(response.echo.as_deref(), Some(r#"{"id":5}"#));
}

#[test]
fn worker_takes_requests_until_the_channel_closes() {
    let mut worker = Processor::new();
    let request = ApiRequest::decode(r#"{"action":"a","params":{}}"#).unwrap();
    assert!(matches!(
        worker.step(Inbox::Request(ActionTuple { request: request.clone(), wants_reply: false })),
        Work::Receive
    ));
    match worker.step(Inbox::Request(ActionTuple { request, wants_reply: true })) {
        Work::Reply(response) => {
            assert_eq!(response.status, Status::Okay);
            assert_eq!(response.retcode, 0);
            assert_eq!(response.data.as_deref(), Some(r#"{"message":"Action processed successfully"}"#));
            assert_eq!(response.echo, None);
        }
        other => panic!("expected a reply, got {:?}", other),
    }
    assert!(matches!(worker.step(Inbox::ReplyDone { delivered: false }), Work::Receive));
    assert!(matches!(worker.step(Inbox::ReplyDone { delivered: true }), Work::Receive));
    assert!(worker.running);
    assert_eq!(worker.taken, 2);
    assert!(matches!(worker.step(Inbox::Closed), Work::Stop));
    assert!(!worker.running);
    let late = ApiRequest::decode(r#"{"action":"a","params":{}}"#).unwrap();
    assert!(matches!(
        worker.step(Inbox::Request(ActionTuple { request: late, wants_reply: true })),
        Work::Stop
    ));
    assert_eq!(worker.taken, 2);
}

#[test]
fn worker_count_stops_at_the_maximum() {
    let mut worker = Processor { running: true, taken: u64::MAX };
    let request = ApiRequest::decode(r#"{"action":"a","params":{}}"#).unwrap();
    worker.step(Inbox::Request(ActionTuple { request, wants_reply: false }));
    assert_eq!(worker.taken, u64::MAX);
}

#[test]
fn event_wire_form() {
    let event = BaseEvent { time: 1, self_id: 42, post_type: "message".to_string() };
    assert_eq!(event.encode().unwrap(), r#"{"time":1,"self_id":42,"post_type":"message"}"#);
    let event = BaseEvent { time: i64::MIN, self_id: i64::MAX, post_type: "a\"b\\c\n".to_string() };
    assert_eq!(
        event.encode().unwrap(),
        r#"{"time":-9223372036854775808,"self_id":9223372036854775807,"post_type":"a\"b\\c\n"}"#
    );
}

#[test]
fn two_clients_receive_the_same_event() {
    let event = BaseEvent { time: 1, self_id: 42, post_type: "message".to_string() };
    let mut first = EventRelay::new();
    let mut second = EventRelay::new();
    second.step(RelayEvent::Lagged(3));
    let a = first.step(RelayEvent::Event(event.clone()));
    let b = second.step(RelayEvent::Event(event));
    match (a, b) {
        (RelayAction::Write(x), RelayAction::Write(y)) => {
            assert_eq!(x, r#"{"time":1,"self_id":42,"post_type":"message"}"#);
            assert_eq!(x, y);
        }
        other => panic!("expected two writes, got {:?}", other),
    }
}

#[test]
fn lagging_relay_goes_on() {
    let mut relay = EventRelay::new();
    assert!(matches!(relay.step(RelayEvent::Lagged(5)), RelayAction::Continue));
    assert!(relay.running);
    assert_eq!(relay.lagged, 5);
    assert!(matches!(relay.step(RelayEvent::Lagged(u64::MAX)), RelayAction::Continue));
    assert_eq!(relay.lagged, u64::MAX);
    let event = BaseEvent { time: 2, self_id: 3, post_type: "notice".to_string() };
    assert!(matches!(relay.step(RelayEvent::Event(event)), RelayAction::Write(_)));
    assert!(relay.running);
}

#[test]
fn relay_ends_on_close_and_on_failed_write() {
    let mut relay = EventRelay::new();
    assert!(matches!(relay.step(RelayEvent::Closed), RelayAction::Stop));
    assert!(!relay.running);
    let event = BaseEvent { time: 2, self_id: 3, post_type: "notice".to_string() };
    assert!(matches!(relay.step(RelayEvent::Event(event)), RelayAction::Stop));
    assert!(matches!(relay.step(RelayEvent::Lagged(1)), RelayAction::Stop));
    assert_eq!(relay.lagged, 0);
    let mut relay = EventRelay::new();
    assert!(matches!(relay.step(RelayEvent::WriteFailed), RelayAction::Stop));
    assert!(!relay.running);
    let mut relay = EventRelay::new();
    relay.step(RelayEvent::Lagged(2));
    assert!(matches!(relay.step(RelayEvent::Cancelled), RelayAction::Stop));
    assert!(!relay.running);
    assert_eq!(relay.lagged, 2);
    assert!(matches!(relay.step(RelayEvent::Closed), RelayAction::Stop));
}

#[test]
fn stopping_with_a_request_in_flight_settles_it() {
    let mut guard = router_bot::server::ServerGuard::new();
    let (_, mut exchange) = dispatch(r#"{"action":"ping","params":{"echo":"late"}}"#);
    exchange.step(Outcome::Accepted);
    assert_eq!(guard.stop(true), router_bot::server::Shutdown::Stop { graceful: true });
    let mut worker = Processor::new();
    assert!(matches!(worker.step(Inbox::Closed), Work::Stop));
    let text = written(exchange.step(Outcome::Abandoned));
    assert!(text.contains(r#""retcode":2"#));
    assert!(exchange.is_settled());
    let mut session = Session::new();
    assert!(matches!(session.handle(Frame::Close(None)), FrameAction::Close(None)));
    assert!(!session.open);
    let mut relay = EventRelay::new();
    assert!(matches!(relay.step(RelayEvent::Cancelled), RelayAction::Stop));
    assert_eq!(guard.stop(true), router_bot::server::Shutdown::Nothing);
    assert_eq!(guard.release(true), router_bot::server::Shutdown::Nothing);
}
