use tomat::phase::AutoAdvance;
use tomat::protocol::{Command, build_request, parse_request, validate_timer_params};
use tomat::response::{Response, ResponseData, render_response};
use tomat::status::Format;

#[test]
fn test_validate_timer_params_valid() {
    assert!(validate_timer_params(25 * 60, 5 * 60, 15 * 60, 4).is_ok());
    assert!(validate_timer_params(6, 6, 6, 1).is_ok());
    assert!(validate_timer_params(600 * 60, 600 * 60, 600 * 60, 100).is_ok());
}

#[test]
fn test_validate_timer_params_zero_work() {
    let result = validate_timer_params(0, 5 * 60, 15 * 60, 4);
    assert!(result.is_err());
    assert!(result.unwrap_err().contains("Work duration must be greater than 0"));
}

#[test]
fn test_validate_timer_params_negative_work() {
    let result = validate_timer_params(-5 * 60, 5 * 60, 15 * 60, 4);
    assert!(result.is_err());
    assert!(result.unwrap_err().contains("Work duration must be greater than 0"));
}

#[test]
fn test_validate_timer_params_excessive_work() {
    let result = validate_timer_params(700 * 60, 5 * 60, 15 * 60, 4);
    assert!(result.is_err());
    assert!(result.unwrap_err().contains("600 minutes"));
}

#[test]
fn test_validate_timer_params_zero_break() {
    let result = validate_timer_params(25 * 60, 0, 15 * 60, 4);
    assert!(result.is_err());
    assert!(result.unwrap_err().contains("Break duration must be greater than 0"));
}

#[test]
fn test_validate_timer_params_excessive_long_break() {
    let result = validate_timer_params(25 * 60, 5 * 60, 700 * 60, 4);
    assert!(result.is_err());
    assert!(result.unwrap_err().contains("600 minutes"));
}

#[test]
fn test_validate_timer_params_zero_sessions() {
    let result = validate_timer_params(25 * 60, 5 * 60, 15 * 60, 0);
    assert!(result.is_err());
    assert!(result.unwrap_err().contains("Sessions must be at least 1"));
}

#[test]
fn test_validate_timer_params_excessive_sessions() {
    let result = validate_timer_params(25 * 60, 5 * 60, 15 * 60, 150);
    assert!(result.is_err());
    assert!(result.unwrap_err().contains("100 or less"));
}

#[test]
fn test_client_message_serialization() {
    // A start request for 25 minutes of work and a 5-minute break.
    let cmd = Command::Start {
        work_seconds: 25 * 60,
        break_seconds: 5 * 60,
        long_break_seconds: 15 * 60,
        sessions: 4,
        auto_advance: AutoAdvance::Never,
    };
    let line = build_request(&cmd);

    let value: serde_json::Value = serde_json::from_str(&line).unwrap();
    assert_eq!(value["command"], "start");
    assert_eq!(value["args"]["work_seconds"], 25 * 60);
    assert_eq!(value["args"]["break_seconds"], 5 * 60);

    let parsed = parse_request(&line);
    assert_eq!(parsed, Some(cmd));
}

#[test]
fn test_client_message_with_all_args() {
    // 30 minutes of work, 10 of break, 20 of long break, 3 sessions.
    let cmd = Command::Start {
        work_seconds: 30 * 60,
        break_seconds: 10 * 60,
        long_break_seconds: 20 * 60,
        sessions: 3,
        auto_advance: AutoAdvance::All,
    };
    let line = build_request(&cmd);

    let value: serde_json::Value = serde_json::from_str(&line).unwrap();
    assert_eq!(value["command"], "start");
    assert_eq!(value["args"]["work_seconds"], 30 * 60);
    assert_eq!(value["args"]["break_seconds"], 10 * 60);
    assert_eq!(value["args"]["long_break_seconds"], 20 * 60);
    assert_eq!(value["args"]["sessions"], 3);
    assert_eq!(value["args"]["auto_advance"], "all");

    let parsed = parse_request(&line);
    assert_eq!(parsed, Some(cmd));
}

#[test]
fn test_client_message_with_null_args() {
    let line = build_request(&Command::Status { format: Format::Waybar });
    let value: serde_json::Value = serde_json::from_str(&line).unwrap();
    assert_eq!(value["command"], "status");

    let stop_line = build_request(&Command::Stop);
    let stop_value: serde_json::Value = serde_json::from_str(&stop_line).unwrap();
    assert_eq!(stop_value["command"], "stop");
    assert!(stop_value["args"].is_null());
}

#[test]
fn test_server_response_serialization() {
    let response = Response {
        success: true,
        data: ResponseData::Text(String::from("\u{1f345} 25:00 \u{23f8}")),
        message: String::from("Status retrieved"),
    };

    let line = render_response(&response);
    let value: serde_json::Value = serde_json::from_str(&line).unwrap();

    assert_eq!(value["success"], true);
    assert_eq!(value["message"], "Status retrieved");
    assert_eq!(value["data"], "\u{1f345} 25:00 \u{23f8}");
}

#[test]
fn test_server_response_error() {
    let response = Response {
        success: false,
        data: ResponseData::Null,
        message: String::from("Unknown command"),
    };

    let line = render_response(&response);
    let value: serde_json::Value = serde_json::from_str(&line).unwrap();

    assert_eq!(value["success"], false);
    assert_eq!(value["message"], "Unknown command");
    assert!(value["data"].is_null());
}

#[test]
fn test_request_round_trip_every_command() {
    let commands = vec![
        Command::Stop,
        Command::Skip,
        Command::Pause,
        Command::Resume,
        Command::Toggle,
        Command::Shutdown,
        Command::Status { format: Format::Plain },
        Command::Status { format: Format::I3statusRs },
        Command::Start {
            work_seconds: 3,
            break_seconds: 3,
            long_break_seconds: 900,
            sessions: 4,
            auto_advance: AutoAdvance::ToBreak,
        },
        Command::Start {
            work_seconds: -300,
            break_seconds: 0,
            long_break_seconds: 36001,
            sessions: 101,
            auto_advance: AutoAdvance::ToWork,
        },
    ];
    for cmd in commands {
        let line = build_request(&cmd);
        assert_eq!(parse_request(&line), Some(cmd), "round trip failed for {:?}", cmd);
    }
}

#[test]
fn test_parse_request_rejects_unknown_command() {
    assert_eq!(parse_request("{\"command\":\"dance\",\"args\":null}"), None);
    assert_eq!(parse_request(""), None);
    assert_eq!(parse_request("{\"command\":\"stop\",\"args\":null}trailing"), None);
}

#[test]
fn test_response_escapes_quotes() {
    let response = Response {
        success: true,
        data: ResponseData::Text(String::from("he said \"hi\" and C:\\path")),
        message: String::from("ok"),
    };
    let line = render_response(&response);
    let value: serde_json::Value = serde_json::from_str(&line).unwrap();
    assert_eq!(value["data"], "he said \"hi\" and C:\\path");
}
