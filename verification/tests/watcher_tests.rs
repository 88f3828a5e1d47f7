use watchbot::config::Check;
use watchbot::escape::webhook_envelope;
use watchbot::identity::{baseline_key, cache_prefix};
use watchbot::pipeline::{choose_sink, has_changed, notification_payload, plan_step, Sink, StepAction};
use watchbot::render::{render_check, RenderError};

fn ok(s: &str) -> Result<String, String> {
    Ok(s.to_string())
}

fn fail(s: &str) -> Result<String, String> {
    Err(s.to_string())
}

#[test]
fn renders_template_against_payload() {
    let r = render_check(ok("{\"name\":\"x\"}"), ok("Hello {{name}}"));
    assert_eq!(r.unwrap(), "Hello x");
}

#[test]
fn fetch_failure_wins() {
    let r = render_check(fail("connection refused"), ok("Hello {{name}}"));
    match r {
        Err(RenderError::FetchFailed(d)) => assert_eq!(d, "connection refused"),
        _ => panic!("expected a fetch failure"),
    }
}

#[test]
fn fetch_failure_wins_over_missing_template() {
    let r = render_check(fail("connection refused"), fail("no such file"));
    assert!(matches!(r, Err(RenderError::FetchFailed(_))));
}

#[test]
fn malformed_payload_is_detected() {
    let r = render_check(ok("{not json"), ok("Hello {{name}}"));
    assert!(matches!(r, Err(RenderError::InvalidPayload(_))));
}

#[test]
fn malformed_payload_wins_over_missing_template() {
    let r = render_check(ok("{not json"), fail("no such file"));
    assert!(matches!(r, Err(RenderError::InvalidPayload(_))));
}

#[test]
fn missing_template_is_reported() {
    let r = render_check(ok("{\"name\":\"x\"}"), fail("no such file"));
    match r {
        Err(RenderError::TemplateUnavailable(d)) => assert_eq!(d, "no such file"),
        _ => panic!("expected a template failure"),
    }
}

#[test]
fn broken_template_is_reported() {
    let r = render_check(ok("{\"name\":\"x\"}"), ok("{{#each"));
    assert!(matches!(r, Err(RenderError::RenderFailed(_))));
}

#[test]
fn error_payload_is_marked() {
    let p = notification_payload(Err(RenderError::FetchFailed("boom".to_string())));
    assert_eq!(p, "*Unhandled error:*\nboom");
}

#[test]
fn success_payload_is_the_rendering() {
    let p = notification_payload(Ok("Hello x".to_string()));
    assert_eq!(p, "Hello x");
}

#[test]
fn missing_baseline_counts_as_changed() {
    assert!(has_changed(&None, &"anything".to_string()));
}

#[test]
fn missing_baseline_counts_as_changed_for_empty_text() {
    assert!(has_changed(&None, &String::new()));
}

#[test]
fn identical_text_is_unchanged() {
    assert!(!has_changed(&Some("Hello x".to_string()), &"Hello x".to_string()));
}

#[test]
fn one_character_difference_is_changed() {
    assert!(has_changed(&Some("Hello x".to_string()), &"Hello y".to_string()));
}

#[test]
fn first_sight_notifies_then_second_pass_is_quiet() {
    // Pass 1: no baseline yet.
    let body = "{\"name\":\"x\"}";
    let template = "Hello {{name}}";
    let outcome = render_check(ok(body), ok(template));
    let mut baseline: Option<String> = None;
    match plan_step(&baseline, outcome) {
        StepAction::Notify(p) => {
            assert_eq!(p, "Hello x");
            baseline = Some(p);
        },
        StepAction::Skip => panic!("first sight must notify"),
    }
    // Pass 2: same data again.
    let outcome = render_check(ok(body), ok(template));
    assert!(matches!(plan_step(&baseline, outcome), StepAction::Skip));
    // Pass 3: the source now answers differently.
    let outcome = render_check(ok("{\"name\":\"y\"}"), ok(template));
    match plan_step(&baseline, outcome) {
        StepAction::Notify(p) => assert_eq!(p, "Hello y"),
        StepAction::Skip => panic!("a changed rendering must notify"),
    }
}

#[test]
fn failed_check_does_not_block_the_next() {
    // Check A cannot be fetched; check B renders fine.  B still
    // notifies and hands back its baseline payload.
    let a = render_check(fail("connection refused"), ok("Hello {{name}}"));
    let a_step = plan_step(&None, a);
    match a_step {
        StepAction::Notify(p) => assert!(p.starts_with("*Unhandled error:*\n")),
        StepAction::Skip => panic!("a first-sight error must still notify"),
    }
    let b = render_check(ok("{\"name\":\"x\"}"), ok("Hello {{name}}"));
    match plan_step(&None, b) {
        StepAction::Notify(p) => assert_eq!(p, "Hello x"),
        StepAction::Skip => panic!("check B must notify on first sight"),
    }
}

#[test]
fn repeated_error_is_notified_once() {
    let outcome = render_check(fail("connection refused"), ok("Hello {{name}}"));
    let payload = notification_payload(outcome);
    let baseline = Some(payload.clone());
    let again = render_check(fail("connection refused"), ok("Hello {{name}}"));
    assert!(matches!(plan_step(&baseline, again), StepAction::Skip));
}

#[test]
fn baseline_key_is_prefix_plus_digest() {
    // The digest of the lowercase alphabet is a fixed, well-known
    // value.
    let key = baseline_key(".last-", "abcdefghijklmnopqrstuvwxyz");
    assert_eq!(key, ".last-c3fcd3d76192e4007dfb496cca67e13b");
}

#[test]
fn baseline_key_is_deterministic() {
    let k1 = baseline_key(".last-", "https://example.test/data.json");
    let k2 = baseline_key(".last-", "https://example.test/data.json");
    assert_eq!(k1, k2);
}

#[test]
fn different_sources_get_different_keys() {
    let k1 = baseline_key(".last-", "https://example.test/a.json");
    let k2 = baseline_key(".last-", "https://example.test/b.json");
    assert_ne!(k1, k2);
}

#[test]
fn prefix_defaults_when_not_configured() {
    assert_eq!(cache_prefix(&None), ".last-");
    assert_eq!(cache_prefix(&Some("state/".to_string())), "state/");
}

#[test]
fn envelope_wraps_plain_text() {
    assert_eq!(webhook_envelope("Hello x"), "{\"text\":\"Hello x\"}");
}

#[test]
fn envelope_escapes_quotes_backslashes_and_controls() {
    let body = webhook_envelope("a\"b\\c\nd\u{1f}");
    assert_eq!(body, "{\"text\":\"a\\\"b\\\\c\\nd\\u001f\"}");
}

#[test]
fn no_webhook_means_standard_output() {
    assert!(matches!(choose_sink(&None), Sink::Stdout));
    match choose_sink(&Some("https://hooks.example.test/x".to_string())) {
        Sink::Webhook(u) => assert_eq!(u, "https://hooks.example.test/x"),
        Sink::Stdout => panic!("a configured webhook must be used"),
    }
}

#[test]
fn checks_reject_empty_fields() {
    assert!(Check::new(String::new(), "t.hbs".to_string()).is_none());
    assert!(Check::new("https://example.test".to_string(), String::new()).is_none());
    let c = Check::new("https://example.test".to_string(), "t.hbs".to_string()).unwrap();
    assert_eq!(c.url, "https://example.test");
    assert_eq!(c.template, "t.hbs");
}
