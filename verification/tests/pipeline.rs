use slackit::config::{
    format_slack_message, resolve_message, resolve_request, resolve_target, resolve_token,
    CliOptions, SendRequest, Target,
};
use slackit::dispatch::{build_wire_request, interpret_outcome};
use slackit::errors::SendError;

fn opts(
    token: Option<&str>,
    channel: Option<&str>,
    user: Option<&str>,
    message: Option<&str>,
    sender_name: Option<&str>,
) -> CliOptions {
    CliOptions {
        token: token.map(|s| s.to_string()),
        channel: channel.map(|s| s.to_string()),
        user: user.map(|s| s.to_string()),
        message: message.map(|s| s.to_string()),
        sender_name: sender_name.map(|s| s.to_string()),
    }
}

#[test]
fn target_requires_exactly_one_flag() {
    // Both flags or neither: resolution fails before anything could be sent.
    assert_eq!(resolve_target(None, None), None);
    assert_eq!(
        resolve_target(Some("foo".to_string()), Some("bar".to_string())),
        None
    );
}

#[test]
fn target_channel_resolves_to_tagged_variant() {
    let t = resolve_target(Some("foo".to_string()), None).unwrap();
    assert_eq!(
        t,
        Target::Channel {
            name: "foo".to_string()
        }
    );
}

#[test]
fn target_user_resolves_to_tagged_variant() {
    let t = resolve_target(None, Some("bar".to_string())).unwrap();
    assert_eq!(
        t,
        Target::User {
            name: "bar".to_string()
        }
    );
}

#[test]
fn channel_serializes_with_hash_sigil() {
    let t = Target::Channel {
        name: "foo".to_string(),
    };
    assert_eq!(t.serialized(), "#foo");
}

#[test]
fn user_serializes_with_at_sigil() {
    let t = Target::User {
        name: "bar".to_string(),
    };
    assert_eq!(t.serialized(), "@bar");
}

#[test]
fn token_falls_back_to_environment_value() {
    // No -t flag, SLACK_API_TOKEN=abc123 in the environment.
    let r = resolve_token(None, Some("abc123".to_string()));
    assert_eq!(r, Ok("abc123".to_string()));
}

#[test]
fn token_cli_value_wins_over_environment() {
    let r = resolve_token(Some("cli-tok".to_string()), Some("env-tok".to_string()));
    assert_eq!(r, Ok("cli-tok".to_string()));
}

#[test]
fn token_missing_from_both_sources_fails() {
    let r = resolve_token(None, None);
    assert_eq!(r, Err(SendError::MissingToken));
}

#[test]
fn missing_token_reports_fixed_message() {
    let msgs = SendError::MissingToken.into_messages();
    assert_eq!(msgs, vec!["No token found".to_string()]);
}

#[test]
fn message_concatenates_flag_then_stdin() {
    let body = resolve_message(Some("hello ".to_string()), "world".to_string());
    assert_eq!(body, "hello world");
}

#[test]
fn message_without_flag_is_stdin_alone() {
    let body = resolve_message(None, "just stdin".to_string());
    assert_eq!(body, "just stdin");
}

#[test]
fn empty_flag_and_empty_stdin_yield_empty_body() {
    // Current behavior: an empty message body is legal and nothing rejects it.
    let body = resolve_message(Some("".to_string()), "".to_string());
    assert_eq!(body, "");
}

#[test]
fn empty_message_still_resolves_a_request() {
    let r = resolve_request(
        opts(Some("tok"), Some("general"), None, Some(""), None),
        None,
        "".to_string(),
    );
    let req = r.unwrap();
    assert_eq!(req.message, "");
}

#[test]
fn format_is_the_identity() {
    assert_eq!(format_slack_message("a <link> and\na newline"), "a <link> and\na newline");
    assert_eq!(format_slack_message(""), "");
}

#[test]
fn format_is_idempotent() {
    let s = "hello *world*\nhttp://example.com";
    let once = format_slack_message(s);
    let twice = format_slack_message(&once);
    assert_eq!(twice, once);
    assert_eq!(once, s);
}

#[test]
fn request_resolves_all_four_fields() {
    let r = resolve_request(
        opts(
            Some("xoxb-1"),
            None,
            Some("someone"),
            Some("ping "),
            Some("bot-name"),
        ),
        Some("env-tok".to_string()),
        "from stdin".to_string(),
    );
    let req = r.unwrap();
    assert_eq!(
        req,
        SendRequest {
            target: Target::User {
                name: "someone".to_string()
            },
            token: "xoxb-1".to_string(),
            message: "ping from stdin".to_string(),
            sender_name: Some("bot-name".to_string()),
        }
    );
}

#[test]
fn request_without_any_token_fails_with_missing_token() {
    let r = resolve_request(opts(None, Some("general"), None, None, None), None, "".to_string());
    assert_eq!(r, Err(SendError::MissingToken));
}

#[test]
fn wire_request_carries_sigil_target_and_fields() {
    let req = SendRequest {
        target: Target::Channel {
            name: "general".to_string(),
        },
        token: "tok".to_string(),
        message: "hi".to_string(),
        sender_name: None,
    };
    let w = build_wire_request(req);
    assert_eq!(w.channel, "#general");
    assert_eq!(w.text, "hi");
    assert_eq!(w.username, None);
    assert_eq!(w.token, "tok");
}

#[test]
fn successful_outcome_returns_unit() {
    assert_eq!(interpret_outcome(Ok(())), Ok(()));
}

#[test]
fn service_failure_surfaces_chain_verbatim() {
    // A simulated remote-service rejection, e.g. an HTTP 401.
    let upstream = vec![
        "invalid_auth".to_string(),
        "HTTP status client error (401 Unauthorized)".to_string(),
    ];
    let r = interpret_outcome(Err(upstream.clone()));
    let err = r.unwrap_err();
    assert_eq!(
        err,
        SendError::ServiceError {
            chain: upstream.clone()
        }
    );
    // The top-level report prints the primary message first, then each cause.
    let msgs = err.into_messages();
    assert_eq!(msgs, upstream);
    assert!(msgs[1].contains("401"));
}

#[test]
fn io_error_reports_its_message() {
    let err = SendError::IoError {
        message: "stream did not contain valid UTF-8".to_string(),
    };
    assert_eq!(
        err.into_messages(),
        vec!["stream did not contain valid UTF-8".to_string()]
    );
}
