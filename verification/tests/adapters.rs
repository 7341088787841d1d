use router_bot::adapter::{endpoint, Carrier, HttpSendMode, Verb};
use router_bot::adapters::auth::{BackwardMethod, ForwardMethod, ForwardToBackwardError};
use router_bot::adapters::http::{
    form_target, json_target, query_target, CustomResult, Entry, Mode, Response,
};
use router_bot::api::{
    default_admin_enable, default_ban_duration, default_special_title_duration, default_times,
    default_whole_ban_enable, CleanCacheRequest, GetGroupHonorInfoRequest, GetLoginInfoRequest,
    HonorType, SendMessageRequestCq, SendMessageRequestJson, SendMsgRequestJson,
    SetGroupAnonymousBanRequest,
};
use router_bot::decimal::{render_signed, render_unsigned};
use router_bot::json::{extract_member, find_member, Member};
use router_bot::models::basic_type::OneBotBool;
use router_bot::server::{bind_address, ServerGuard, Shutdown};

#[test]
fn decimal_text_of_numbers() {
    assert_eq!(render_unsigned(0), "0");
    assert_eq!(render_unsigned(9), "9");
    assert_eq!(render_unsigned(10), "10");
    assert_eq!(render_unsigned(1234567890), "1234567890");
    assert_eq!(render_unsigned(u64::MAX), "18446744073709551615");
    assert_eq!(render_signed(0), "0");
    assert_eq!(render_signed(-1), "-1");
    assert_eq!(render_signed(-1400), "-1400");
    assert_eq!(render_signed(i64::MAX), "9223372036854775807");
    assert_eq!(render_signed(i64::MIN), "-9223372036854775808");
}

#[test]
fn members_are_found_by_key() {
    let members = vec![
        Member { key: "a".to_string(), text: "1".to_string() },
        Member { key: "b".to_string(), text: "2".to_string() },
        Member { key: "a".to_string(), text: "3".to_string() },
    ];
    assert_eq!(find_member(&members, "a").as_deref(), Some("1"));
    assert_eq!(find_member(&members, "b").as_deref(), Some("2"));
    assert_eq!(find_member(&members, "c"), None);
    assert_eq!(find_member(&Vec::new(), "a"), None);
}

#[test]
fn members_are_extracted_as_written() {
    assert_eq!(extract_member(r#"{"echo": "x", "n": 1}"#, "echo").as_deref(), Some("\"x\""));
    assert_eq!(extract_member(r#"{"echo": {"a" : [1, 2]}}"#, "echo").as_deref(), Some(r#"{"a" : [1, 2]}"#));
    assert_eq!(extract_member(r#"{"echo": 1, "echo": 2}"#, "echo").as_deref(), Some("2"));
    assert_eq!(extract_member(r#"{"n": 1}"#, "echo"), None);
    assert_eq!(extract_member("[1]", "echo"), None);
    assert_eq!(extract_member("", "echo"), None);
    assert_eq!(extract_member(r#"{"echo": }"#, "echo"), None);
}

#[test]
fn flags_travel_as_numbers() {
    assert!(OneBotBool::True.as_bool());
    assert!(!OneBotBool::False.as_bool());
    assert_eq!(OneBotBool::True.to_wire(), 1);
    assert_eq!(OneBotBool::False.to_wire(), 0);
    assert!(matches!(OneBotBool::from_wire(0), Ok(OneBotBool::False)));
    assert!(matches!(OneBotBool::from_wire(1), Ok(OneBotBool::True)));
    assert_eq!(OneBotBool::from_wire(2).unwrap_err(), "invalid value: 2, need 0 or 1");
    assert_eq!(OneBotBool::from_wire(255).unwrap_err(), "invalid value: 255, need 0 or 1");
    assert!(bool::from(OneBotBool::True));
    assert!(!bool::from(OneBotBool::False));
    assert!(matches!(OneBotBool::from(true), OneBotBool::True));
    assert!(matches!(OneBotBool::from(false), OneBotBool::False));
}

#[test]
fn backward_methods_go_forward() {
    assert!(matches!(ForwardMethod::from(BackwardMethod::Header("t".to_string())), ForwardMethod::Header(t) if t == "t"));
    assert!(matches!(ForwardMethod::from(BackwardMethod::NoToken), ForwardMethod::NoToken));
}

#[test]
fn forward_methods_go_backward_unless_in_the_query() {
    assert!(matches!(BackwardMethod::try_from(ForwardMethod::Header("t".to_string())), Ok(BackwardMethod::Header(t)) if t == "t"));
    assert!(matches!(BackwardMethod::try_from(ForwardMethod::NoToken), Ok(BackwardMethod::NoToken)));
    let converted: Result<BackwardMethod, ForwardToBackwardError> = ForwardMethod::Query("s3".to_string()).try_into();
    match converted {
        Err(error) => {
            assert!(matches!(&error, ForwardToBackwardError::UnsupportQuery { token } if token == "s3"));
            assert_eq!(error.describe(), "UnsupportQuery { token: \"s3\" }");
        }
        Ok(other) => panic!("expected an error, got {:?}", other),
    }
    let quoted = ForwardToBackwardError::UnsupportQuery { token: "a\"b".to_string() };
    assert_eq!(quoted.describe(), "UnsupportQuery { token: \"a\\\"b\" }");
}

#[test]
fn bearer_token_is_sent_for_header_only() {
    assert_eq!(ForwardMethod::Header("t".to_string()).bearer().map(|t| t.as_str()), Some("t"));
    assert_eq!(ForwardMethod::Query("t".to_string()).bearer(), None);
    assert_eq!(ForwardMethod::NoToken.bearer(), None);
}

#[test]
fn mode_suffixes() {
    assert_eq!(Mode::Default.to_suffix(), "");
    assert_eq!(Mode::Async.to_suffix(), "_async");
    assert_eq!(Mode::RateLimited.to_suffix(), "_rate_limited");
}

#[test]
fn paths_of_calls() {
    let query = ForwardMethod::Query("tok".to_string());
    let header = ForwardMethod::Header("tok".to_string());
    assert_eq!(
        query_target::<SendMessageRequestCq>("user_id=1&message=hi", Mode::Default, &ForwardMethod::NoToken),
        "/send_private_msg?user_id=1&message=hi"
    );
    assert_eq!(
        query_target::<SendMessageRequestCq>("user_id=1", Mode::Async, &query),
        "/send_private_msg_async?user_id=1&access_token=tok"
    );
    assert_eq!(query_target::<CleanCacheRequest>("", Mode::RateLimited, &header), "/clean_cache_rate_limited?");
    assert_eq!(form_target::<SendMessageRequestCq>(Mode::Default, &header), "/send_private_msg");
    assert_eq!(form_target::<CleanCacheRequest>(Mode::Async, &query), "/clean_cache_async?access_token=tok");
    assert_eq!(json_target::<SendMessageRequestJson>(Mode::RateLimited, &ForwardMethod::NoToken), "/send_private_msg_rate_limited");
    assert_eq!(json_target::<SendMsgRequestJson>(Mode::Default, &query), "/send_msg?access_token=tok");
}

#[test]
fn entries_of_the_catalogue() {
    assert_eq!(SendMessageRequestCq::entry(), "send_private_msg");
    assert_eq!(SendMsgRequestJson::entry(), "send_msg");
    assert_eq!(GetLoginInfoRequest::entry(), "get_login_info");
    assert_eq!(GetGroupHonorInfoRequest::entry(), "get_group_honor_info");
    assert_eq!(SetGroupAnonymousBanRequest::entry(), "set_group_anonymous_ban");
    assert_eq!(CleanCacheRequest::entry(), "clean_cache");
    let request = GetGroupHonorInfoRequest { group_id: 1, kind: HonorType::All };
    assert_eq!(request.group_id, 1);
}

#[test]
fn defaults_of_requests() {
    assert_eq!(default_times(), 1);
    assert_eq!(default_ban_duration(), 1800);
    assert!(default_whole_ban_enable());
    assert!(default_admin_enable());
    assert_eq!(default_special_title_duration(), -1);
}

#[test]
fn custom_results_convert_both_ways() {
    let data: CustomResult<i32, String> = CustomResult::Data(5);
    assert_eq!(Result::from(data), Ok(5));
    let fault: CustomResult<i32, String> = CustomResult::Fault("no".to_string());
    assert_eq!(Result::from(fault), Err("no".to_string()));
    assert!(matches!(CustomResult::<i32, String>::from(Ok(5)), CustomResult::Data(5)));
    assert!(matches!(CustomResult::<i32, String>::from(Err("no".to_string())), CustomResult::Fault(e) if e == "no"));
    let response: Response<i32, String> = Response { status: "ok".to_string(), retcode: 0, data: Some(CustomResult::Data(1)) };
    assert_eq!(response.retcode, 0);
}

#[test]
fn send_modes() {
    assert_eq!(HttpSendMode::Query.verb(), Verb::Get);
    assert_eq!(HttpSendMode::Urlencodeed.verb(), Verb::Post);
    assert_eq!(HttpSendMode::Json.verb(), Verb::Post);
    assert_eq!(HttpSendMode::Query.carrier(), Carrier::Query);
    assert_eq!(HttpSendMode::Urlencodeed.carrier(), Carrier::Form);
    assert_eq!(HttpSendMode::Json.carrier(), Carrier::Json);
    assert_eq!(endpoint("http://127.0.0.1:5700", "send_msg"), "http://127.0.0.1:5700/send_msg");
}

#[test]
fn server_address_and_guard() {
    assert_eq!(bind_address("127.0.0.1", 8080), "127.0.0.1:8080");
    assert_eq!(bind_address("localhost", 0), "localhost:0");
    assert_eq!(bind_address("::1", 65535), "::1:65535");
    let mut guard = ServerGuard::new();
    assert_eq!(guard.release(false), Shutdown::Abandon);
    assert_eq!(guard.release(true), Shutdown::Nothing);
    let mut guard = ServerGuard::new();
    assert_eq!(guard.release(true), Shutdown::Stop { graceful: true });
    assert_eq!(guard.release(true), Shutdown::Nothing);
    assert_eq!(guard.release(false), Shutdown::Nothing);
    let mut guard = ServerGuard::new();
    assert_eq!(guard.stop(false), Shutdown::Stop { graceful: false });
    assert_eq!(guard.stop(false), Shutdown::Nothing);
    assert_eq!(guard.stop(true), Shutdown::Nothing);
    assert!(!guard.holds_server);
}
