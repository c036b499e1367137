use slack_socket_bridge::config::{DeliveryTarget, EventKind, RelayConfig, Stage, DEFAULT_TIMEOUT_MS};
use slack_morphism::events::SlackCommandEvent;
use slack_morphism::{
    SlackChannelId, SlackCommandId, SlackResponseUrl, SlackTeamId, SlackTriggerId, SlackUserId,
};
use slack_socket_bridge::delivery::{callback_requests, prepare_delivery, request_for};
use slack_socket_bridge::event::InboundEvent;
use slack_socket_bridge::outcome::{DeliveryOutcome, DeliveryResult};
use slack_socket_bridge::router::{callback_report, fallback_reply_text, next_command_action, CommandAction};
use slack_socket_bridge::status::{is_success_status, status_line_text};

const FALLBACK: &str =
    "Failed to talk to backend. slack_socket_bridge didn't find any ENV variable webhook token.";

fn url(s: &str) -> Option<String> {
    Some(s.to_string())
}

fn responded(target: &str, status: u16, body: Option<&str>) -> DeliveryOutcome {
    DeliveryOutcome {
        target: target.to_string(),
        result: DeliveryResult::Responded { status, body: body.map(|b| b.to_string()) },
    }
}

/// Runs a command through the router, answering delivery `i` with `answers[i]`.
fn run_command(config: &RelayConfig, answers: &[DeliveryOutcome]) -> (String, usize) {
    let targets = config.targets(EventKind::Command);
    let mut outcomes: Vec<DeliveryOutcome> = Vec::new();
    loop {
        match next_command_action(&targets, &outcomes) {
            CommandAction::Deliver(i) => {
                assert_eq!(i, outcomes.len());
                let a = &answers[i];
                outcomes.push(DeliveryOutcome {
                    target: targets[i].name.clone(),
                    result: match &a.result {
                        DeliveryResult::Responded { status, body } => {
                            DeliveryResult::Responded { status: *status, body: body.clone() }
                        }
                        DeliveryResult::SendFailed { error } => DeliveryResult::SendFailed { error: error.clone() },
                        DeliveryResult::EncodeFailed { error } => {
                            DeliveryResult::EncodeFailed { error: error.clone() }
                        }
                    },
                });
            }
            CommandAction::Reply(text) => return (text, outcomes.len()),
        }
    }
}

#[test]
fn production_answer_is_the_reply() {
    let config = RelayConfig::from_urls(url("http://prod/cmd"), None, None, None);
    let (reply, tried) = run_command(&config, &[responded("p", 200, Some("done"))]);
    assert_eq!(reply, "done");
    assert_eq!(tried, 1);
}

#[test]
fn development_only_rejection_names_status() {
    let config = RelayConfig::from_urls(None, url("http://dev/cmd"), None, None);
    let targets = config.targets(EventKind::Command);
    assert_eq!(targets.len(), 1);
    assert_eq!(targets[0].stage, Stage::Development);
    let (reply, tried) = run_command(&config, &[responded("d", 503, None)]);
    assert_eq!(
        reply,
        "Internal Error. Bridge could't connect to webhook. Resturned code: 503 Service Unavailable"
    );
    assert!(reply.contains("503"));
    assert_eq!(tried, 1);
}

#[test]
fn no_command_target_gives_fallback() {
    let config = RelayConfig::from_urls(None, None, url("http://prod/cb"), url("http://dev/cb"));
    let (reply, tried) = run_command(&config, &[]);
    assert_eq!(reply, FALLBACK);
    assert_eq!(tried, 0);
    assert_eq!(fallback_reply_text(), FALLBACK);
}

#[test]
fn development_answer_used_when_only_it_is_configured() {
    let config = RelayConfig::from_urls(None, url("http://dev/cmd"), None, None);
    let (reply, tried) = run_command(&config, &[responded("d", 201, Some("from dev"))]);
    assert_eq!(reply, "from dev");
    assert_eq!(tried, 1);
}

#[test]
fn production_rejection_falls_through_to_development() {
    let config = RelayConfig::from_urls(url("http://prod/cmd"), url("http://dev/cmd"), None, None);
    let answers = [responded("p", 500, Some("boom")), responded("d", 200, Some("dev ok"))];
    let (reply, tried) = run_command(&config, &answers);
    assert_eq!(reply, "dev ok");
    assert_eq!(tried, 2);
}

#[test]
fn production_success_skips_development() {
    let config = RelayConfig::from_urls(url("http://prod/cmd"), url("http://dev/cmd"), None, None);
    let answers = [responded("p", 200, Some("prod ok")), responded("d", 200, Some("dev ok"))];
    let (reply, tried) = run_command(&config, &answers);
    assert_eq!(reply, "prod ok");
    assert_eq!(tried, 1);
}

#[test]
fn production_rejection_alone_is_described() {
    let config = RelayConfig::from_urls(url("http://prod/cmd"), None, None, None);
    let (reply, _) = run_command(&config, &[responded("p", 404, None)]);
    assert_eq!(reply, "Internal Error. Bridge could't connect to webhook. Resturned code: 404 Not Found");
    assert_ne!(reply, FALLBACK);
}

#[test]
fn both_failing_reports_the_last() {
    let config = RelayConfig::from_urls(url("http://prod/cmd"), url("http://dev/cmd"), None, None);
    let answers = [
        responded("p", 502, None),
        DeliveryOutcome {
            target: "d".to_string(),
            result: DeliveryResult::SendFailed { error: "connection refused".to_string() },
        },
    ];
    let (reply, tried) = run_command(&config, &answers);
    assert_eq!(reply, "Failed to send message to webhook. Error: connection refused");
    assert_eq!(tried, 2);
}

#[test]
fn unreadable_body_is_described() {
    let config = RelayConfig::from_urls(url("http://prod/cmd"), None, None, None);
    let (reply, _) = run_command(&config, &[responded("p", 200, None)]);
    assert_eq!(
        reply,
        "Internal error. The action may have executed, but I was unable to retrieve the result."
    );
}

#[test]
fn encode_failure_gives_nonempty_reply() {
    let config = RelayConfig::from_urls(url("http://prod/cmd"), url("http://dev/cmd"), None, None);
    let fail = || DeliveryOutcome {
        target: "x".to_string(),
        result: DeliveryResult::EncodeFailed { error: "key must be a string".to_string() },
    };
    let (reply, tried) = run_command(&config, &[fail(), fail()]);
    assert_eq!(reply, "Failed to encode the event as JSON. Error: key must be a string");
    assert!(!reply.is_empty());
    assert_eq!(tried, 2);
}

#[test]
fn empty_answer_is_delivered_as_empty_reply() {
    let config = RelayConfig::from_urls(url("http://prod/cmd"), url("http://dev/cmd"), None, None);
    let (reply, tried) = run_command(&config, &[responded("p", 299, Some(""))]);
    assert_eq!(reply, "");
    assert_eq!(tried, 1);
}

#[test]
fn callback_goes_to_both_with_same_payload() {
    let config = RelayConfig::from_urls(None, None, url("http://prod/cb"), url("http://dev/cb"));
    let payload = br#"{"type":"event_callback"}"#.to_vec();
    let prepared = callback_requests(&config, &Ok(payload.clone()));
    assert_eq!(prepared.len(), 2);
    let reqs: Vec<_> = prepared.into_iter().map(|r| r.unwrap()).collect();
    assert_eq!(reqs[0].url, "http://prod/cb");
    assert_eq!(reqs[1].url, "http://dev/cb");
    assert_eq!(reqs[0].body, payload);
    assert_eq!(reqs[1].body, payload);
    assert_eq!(reqs[0].target, "callback-production");
    assert_eq!(reqs[1].target, "callback-development");
}

#[test]
fn callback_without_targets_sends_nothing() {
    let config = RelayConfig::from_urls(url("http://prod/cmd"), url("http://dev/cmd"), None, None);
    assert!(callback_requests(&config, &Ok(vec![1, 2, 3])).is_empty());
    assert!(config.targets(EventKind::Interaction).is_empty());
}

#[test]
fn callback_failure_reported_alone() {
    let outcomes = vec![
        DeliveryOutcome {
            target: "callback-production".to_string(),
            result: DeliveryResult::SendFailed { error: "timed out".to_string() },
        },
        responded("callback-development", 204, None),
        responded("other", 500, None),
    ];
    let report = callback_report(&outcomes);
    assert_eq!(report.len(), 3);
    assert_eq!(report[0].as_deref(), Some("Failed to send message to webhook. Error: timed out"));
    assert_eq!(report[1], None);
    assert_eq!(
        report[2].as_deref(),
        Some("Internal Error. Bridge could't connect to webhook. Resturned code: 500 Internal Server Error")
    );
}

#[test]
fn delivering_twice_gives_equal_requests() {
    let target = DeliveryTarget::new("t".to_string(), "http://t/".to_string(), Stage::Production);
    let payload = b"{}".to_vec();
    let a = request_for(&target, &payload);
    let b = request_for(&target, &payload);
    assert_eq!(a, b);
    assert_eq!(a.timeout_ms, DEFAULT_TIMEOUT_MS);
    assert!(!a.accept_invalid_certs);
    assert_eq!(payload, b"{}".to_vec());
}

#[test]
fn target_builders() {
    let t = DeliveryTarget::new("t".to_string(), "https://dev.internal/".to_string(), Stage::Development)
        .with_timeout_ms(1500)
        .with_accept_invalid_certs(true);
    assert_eq!(t.timeout_ms, 1500);
    assert!(t.accept_invalid_certs);
    let q = request_for(&t, &Vec::new());
    assert_eq!(q.timeout_ms, 1500);
    assert!(q.accept_invalid_certs);
    assert_eq!(t.duplicate(), t);
}

#[test]
fn config_slot_names() {
    let c = RelayConfig::from_urls(url("a"), url("b"), url("c"), url("d"));
    assert_eq!(c.command_prod.as_ref().unwrap().name, "command-production");
    assert_eq!(c.command_dev.as_ref().unwrap().name, "command-development");
    assert_eq!(c.callback_prod.as_ref().unwrap().url, "c");
    assert_eq!(c.callback_dev.as_ref().unwrap().stage, Stage::Development);
    let cmd = c.targets(EventKind::Command);
    assert_eq!(cmd.len(), 2);
    assert_eq!(cmd[0].url, "a");
    assert_eq!(cmd[1].url, "b");
}

#[test]
fn status_lines() {
    assert_eq!(status_line_text(200), "200 OK");
    assert_eq!(status_line_text(503), "503 Service Unavailable");
    assert_eq!(status_line_text(999), "999 <unknown status code>");
    assert_eq!(status_line_text(99), "99 <unknown status code>");
    assert_eq!(status_line_text(0), "0 <unknown status code>");
    assert_eq!(status_line_text(65535), "65535 <unknown status code>");
}

#[test]
fn success_range() {
    assert!(!is_success_status(199));
    assert!(is_success_status(200));
    assert!(is_success_status(299));
    assert!(!is_success_status(300));
}

#[test]
fn only_commands_expect_reply() {
    assert!(EventKind::Command.expects_reply());
    assert!(!EventKind::Callback.expects_reply());
    assert!(!EventKind::Interaction.expects_reply());
}

#[test]
fn callback_encode_failure_for_each_target() {
    let config = RelayConfig::from_urls(None, None, url("http://prod/cb"), url("http://dev/cb"));
    let prepared = callback_requests(&config, &Err("bad map key".to_string()));
    assert_eq!(prepared.len(), 2);
    for p in &prepared {
        match p {
            Err(DeliveryResult::EncodeFailed { error }) => assert_eq!(error, "bad map key"),
            other => panic!("unexpected {:?}", other),
        }
    }
}

#[test]
fn prepare_delivery_carries_payload_or_failure() {
    let target = DeliveryTarget::new("t".to_string(), "http://t/".to_string(), Stage::Production);
    let ok = prepare_delivery(&target, &Ok(b"[1]".to_vec())).unwrap();
    assert_eq!(ok.body, b"[1]".to_vec());
    assert_eq!(ok.url, "http://t/");
    let failed = prepare_delivery(&target, &Err("oops".to_string())).unwrap_err();
    assert_eq!(failed, DeliveryResult::EncodeFailed { error: "oops".to_string() });
    assert_eq!(failed.failure_text(), "Failed to encode the event as JSON. Error: oops");
}

fn sample_command() -> SlackCommandEvent {
    SlackCommandEvent {
        team_id: SlackTeamId("T1".to_string()),
        team_domain: None,
        channel_id: SlackChannelId("C1".to_string()),
        channel_name: None,
        user_id: SlackUserId("U1".to_string()),
        command: SlackCommandId("/deploy".to_string()),
        text: Some("now".to_string()),
        response_url: SlackResponseUrl(reqwest::Url::parse("https://hooks.example.com/r").unwrap()),
        trigger_id: SlackTriggerId("TR1".to_string()),
    }
}

#[test]
fn command_event_payload_is_its_json() {
    let event = InboundEvent::Command(sample_command());
    assert_eq!(event.kind(), EventKind::Command);
    assert!(event.expects_reply());
    let bytes = event.payload().unwrap();
    let value: serde_json::Value = serde_json::from_slice(&bytes).unwrap();
    assert_eq!(value["command"], "/deploy");
    assert_eq!(value["text"], "now");
    assert_eq!(value["team_id"], "T1");
    assert_eq!(bytes, serde_json::to_vec(&sample_command()).unwrap());
}
