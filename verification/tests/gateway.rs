use compare_gateway::comparison::{compare_predictions, round_to_ten_thousandths, top5_overlap_count};
use compare_gateway::config::{apply_update, health_status, Config, ConfigStore};
use compare_gateway::model::{build_model_result, ModelResult, Prediction, UpstreamOutcome};
use compare_gateway::response::compare_response;
use compare_gateway::text::{decimal_string, http_error_message, overlap_label, parse_error_message};

fn pred(breed_en: &str, score_micros: i64) -> Prediction {
    Prediction {
        breed_en: breed_en.to_string(),
        breed_ko: format!("ko {}", breed_en),
        class_id: 7,
        score_micros,
    }
}

fn ok_result(label: &str, preds: Vec<Prediction>, millis: u64) -> ModelResult {
    build_model_result(label.to_string(), UpstreamOutcome::Predictions(preds), millis)
}

#[test]
fn success_keeps_predictions_and_time() {
    let r = ok_result("Model A", vec![pred("Poodle", 920_000)], 345);
    assert!(r.success);
    assert_eq!(r.model, "Model A");
    assert_eq!(r.predictions.len(), 1);
    assert_eq!(r.predictions[0].breed_en, "Poodle");
    assert_eq!(r.response_time_millis, 345);
    assert!(r.error.is_none());
}

#[test]
fn success_with_no_predictions_is_not_an_error() {
    let r = ok_result("Model B", vec![], 10);
    assert!(r.success);
    assert!(r.predictions.is_empty());
    assert!(r.error.is_none());
}

#[test]
fn http_status_failure_message() {
    let r = build_model_result("Model A".to_string(), UpstreamOutcome::HttpError(500), 21);
    assert!(!r.success);
    assert_eq!(r.error.as_deref(), Some("HTTP 500"));
    assert!(r.predictions.is_empty());
    assert_eq!(r.response_time_millis, 21);
}

#[test]
fn transport_failure_message() {
    let r = build_model_result(
        "Model B".to_string(),
        UpstreamOutcome::TransportError("connection refused".to_string()),
        3,
    );
    assert!(!r.success);
    assert_eq!(r.error.as_deref(), Some("connection refused"));
    assert!(r.predictions.is_empty());
}

#[test]
fn unparsable_body_message() {
    let r = build_model_result(
        "Model A".to_string(),
        UpstreamOutcome::BodyUnparsable("expected value at line 1".to_string()),
        8,
    );
    assert!(!r.success);
    assert_eq!(r.error.as_deref(), Some("JSON parse error: expected value at line 1"));
}

#[test]
fn failed_attempt_still_reports_time() {
    let r = build_model_result(
        "Model B".to_string(),
        UpstreamOutcome::TransportError("dns failure".to_string()),
        0,
    );
    assert_eq!(r.response_time_millis, 0);
    let slow = build_model_result("Model B".to_string(), UpstreamOutcome::HttpError(503), 9_999);
    assert_eq!(slow.response_time_millis, 9_999);
}

#[test]
fn failure_blocks_comparison() {
    let a = build_model_result("Model A".to_string(), UpstreamOutcome::HttpError(500), 5);
    let b = ok_result("Model B", vec![pred("Poodle", 900_000)], 5);
    let c = compare_predictions(&a, &b);
    assert!(!c.comparison_available);
    assert!(c.top1_agreement.is_none());
    assert!(c.top1_model_a.is_none());
    assert!(c.top1_model_b.is_none());
    assert!(c.score_difference.is_none());
    assert!(c.top5_overlap.is_none());
    assert!(c.winner.is_none());
}

#[test]
fn empty_predictions_block_comparison() {
    let a = ok_result("Model A", vec![], 5);
    let b = ok_result("Model B", vec![pred("Poodle", 900_000)], 5);
    let c = compare_predictions(&a, &b);
    assert!(!c.comparison_available);
    assert!(c.winner.is_none());
}

#[test]
fn agreeing_top1_with_score_gap() {
    // top-1 Poodle 0.92 against Poodle 0.81: agreement, difference 0.11, A wins
    let a = ok_result("Model A", vec![pred("Poodle", 920_000)], 5);
    let b = ok_result("Model B", vec![pred("Poodle", 810_000)], 5);
    let c = compare_predictions(&a, &b);
    assert!(c.comparison_available);
    assert_eq!(c.top1_agreement, Some(true));
    assert_eq!(c.score_difference, Some(1_100));
    assert_eq!(c.winner.as_deref(), Some("Model A"));
    let ta = c.top1_model_a.unwrap();
    assert_eq!(ta.breed_en, "Poodle");
    assert_eq!(ta.breed, "ko Poodle");
    assert_eq!(ta.score_ten_thousandths, 9_200);
    let tb = c.top1_model_b.unwrap();
    assert_eq!(tb.score_ten_thousandths, 8_100);
}

#[test]
fn disagreeing_top1() {
    let a = ok_result("Model A", vec![pred("Poodle", 500_000)], 5);
    let b = ok_result("Model B", vec![pred("Beagle", 400_000)], 5);
    let c = compare_predictions(&a, &b);
    assert_eq!(c.top1_agreement, Some(false));
    assert_eq!(c.winner.as_deref(), Some("Model A"));
}

#[test]
fn tie_break_favors_model_b() {
    let a = ok_result("Model A", vec![pred("Poodle", 500_000)], 5);
    let b = ok_result("Model B", vec![pred("Corgi", 500_000)], 5);
    let c = compare_predictions(&a, &b);
    assert_eq!(c.winner.as_deref(), Some("Model B"));
    assert_eq!(c.score_difference, Some(0));
}

#[test]
fn top5_overlap_three_of_five() {
    let a = ok_result(
        "Model A",
        vec![
            pred("Poodle", 500_000),
            pred("Beagle", 400_000),
            pred("Pug", 300_000),
            pred("Husky", 200_000),
            pred("Corgi", 100_000),
        ],
        5,
    );
    let b = ok_result(
        "Model B",
        vec![
            pred("Poodle", 450_000),
            pred("Pug", 350_000),
            pred("Lab", 250_000),
            pred("Husky", 150_000),
            pred("Boxer", 50_000),
        ],
        5,
    );
    let c = compare_predictions(&a, &b);
    assert_eq!(c.top5_overlap.as_deref(), Some("3/5"));
}

#[test]
fn top5_overlap_counts_distinct_names_once() {
    let a = vec![
        pred("Poodle", 500_000),
        pred("Poodle", 400_000),
        pred("Pug", 300_000),
    ];
    let b = vec![pred("Poodle", 450_000), pred("Pug", 350_000)];
    assert_eq!(top5_overlap_count(&a, &b), 2);
}

#[test]
fn top5_overlap_ignores_sixth_prediction() {
    let a = vec![
        pred("A1", 600_000),
        pred("A2", 500_000),
        pred("A3", 400_000),
        pred("A4", 300_000),
        pred("A5", 200_000),
        pred("Shared", 100_000),
    ];
    let b = vec![pred("Shared", 450_000)];
    assert_eq!(top5_overlap_count(&a, &b), 0);
}

#[test]
fn overlap_label_always_out_of_five() {
    let a = ok_result("Model A", vec![pred("Poodle", 500_000)], 5);
    let b = ok_result("Model B", vec![pred("Poodle", 450_000)], 5);
    let c = compare_predictions(&a, &b);
    assert_eq!(c.top5_overlap.as_deref(), Some("1/5"));
}

#[test]
fn rounding_half_goes_away_from_zero() {
    assert_eq!(round_to_ten_thousandths(50), 1);
    assert_eq!(round_to_ten_thousandths(49), 0);
    assert_eq!(round_to_ten_thousandths(150), 2);
    assert_eq!(round_to_ten_thousandths(-50), -1);
    assert_eq!(round_to_ten_thousandths(-49), 0);
    assert_eq!(round_to_ten_thousandths(920_000), 9_200);
}

#[test]
fn decimal_rendering() {
    assert_eq!(decimal_string(0), "0");
    assert_eq!(decimal_string(7), "7");
    assert_eq!(decimal_string(500), "500");
    assert_eq!(decimal_string(65_535), "65535");
    assert_eq!(http_error_message(500), "HTTP 500");
    assert_eq!(http_error_message(404), "HTTP 404");
    assert_eq!(parse_error_message("boom"), "JSON parse error: boom");
    assert_eq!(overlap_label(3), "3/5");
    assert_eq!(overlap_label(0), "0/5");
}

#[test]
fn response_carries_both_results_and_comparison() {
    let a = ok_result("Model A", vec![pred("Poodle", 920_000)], 11);
    let b = build_model_result("Model B".to_string(), UpstreamOutcome::HttpError(500), 4);
    let r = compare_response(a, b);
    assert_eq!(r.model_a.model, "Model A");
    assert!(r.model_a.success);
    assert_eq!(r.model_b.model, "Model B");
    assert_eq!(r.model_b.error.as_deref(), Some("HTTP 500"));
    assert!(!r.comparison.comparison_available);
}

#[test]
fn apply_update_is_per_field() {
    let initial = Config {
        model_a_url: "http://a/predict".to_string(),
        model_b_url: "http://b/predict".to_string(),
    };
    let both_kept = apply_update(&initial, None, None);
    assert_eq!(both_kept.model_a_url, "http://a/predict");
    assert_eq!(both_kept.model_b_url, "http://b/predict");
    let only_a = apply_update(&initial, Some("http://x".to_string()), None);
    assert_eq!(only_a.model_a_url, "http://x");
    assert_eq!(only_a.model_b_url, "http://b/predict");
    let both = apply_update(
        &initial,
        Some("http://x".to_string()),
        Some("http://y".to_string()),
    );
    assert_eq!(both.model_a_url, "http://x");
    assert_eq!(both.model_b_url, "http://y");
}

#[test]
fn store_update_then_snapshot_reflects_change() {
    let store = ConfigStore::new(Config {
        model_a_url: "http://a/predict".to_string(),
        model_b_url: "http://b/predict".to_string(),
    });
    let (before, after) = store.update(Some("http://x".to_string()), None);
    assert_eq!(before.model_a_url, "http://a/predict");
    assert_eq!(after.model_a_url, "http://x");
    assert_eq!(after.model_b_url, "http://b/predict");
    let (a, b) = store.snapshot();
    assert_eq!(a, "http://x");
    assert_eq!(b, "http://b/predict");
}

#[test]
fn health_reflects_snapshot() {
    let store = ConfigStore::new(Config {
        model_a_url: "http://a/predict".to_string(),
        model_b_url: "http://b/predict".to_string(),
    });
    store.update(Some("http://x".to_string()), None);
    let (a, b) = store.snapshot();
    let h = health_status(a, b);
    assert_eq!(h.status, "ok");
    assert_eq!(h.model_a_url, "http://x");
    assert_eq!(h.model_b_url, "http://b/predict");
}

#[test]
fn store_snapshot_before_any_update() {
    let store = ConfigStore::new(Config {
        model_a_url: "http://a/predict".to_string(),
        model_b_url: "http://b/predict".to_string(),
    });
    let (a, b) = store.snapshot();
    assert_eq!(a, "http://a/predict");
    assert_eq!(b, "http://b/predict");
}
