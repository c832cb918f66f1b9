//! Tests of the request orchestration: planning, rejection statuses, the
//! backend outcome handling, and the rendered JSON bodies.

use malaria_inference::classify::{decide_class, ClassLabel, MalariaItem, ProbabilityPair};
use malaria_inference::config::InferenceConfig;
use malaria_inference::error::ServiceError;
use malaria_inference::render::{format_prob_micros, model_missing_message};
use malaria_inference::service::{
    health_body, plan_request, respond_from_backend, validate_run_input, PredictPlan,
    PredictionResult,
};

fn small_png() -> Vec<u8> {
    let img: image::ImageBuffer<image::Rgb<u8>, Vec<u8>> =
        image::ImageBuffer::from_raw(2, 2, vec![9u8; 12]).unwrap();
    let mut bytes: Vec<u8> = Vec::new();
    img.write_to(
        &mut std::io::Cursor::new(&mut bytes),
        image::ImageFormat::Png,
    )
    .unwrap();
    bytes
}

#[test]
fn health_answers_ok() {
    assert_eq!(health_body(), "ok");
}

#[test]
fn missing_image_part_is_rejected_with_400() {
    let cfg = InferenceConfig::new(128, 128).unwrap();
    match plan_request(None, &cfg) {
        PredictPlan::Reject(e) => {
            assert_eq!(e.status_code(), 400);
            assert_eq!(e.message().as_str(), "No 'image' field provided");
        }
        PredictPlan::Run(_) => panic!("the backend must not be invoked without an image"),
    }
}

#[test]
fn random_bytes_are_rejected_with_400_not_500() {
    let cfg = InferenceConfig::new(128, 128).unwrap();
    let garbage: Vec<u8> = vec![183, 14, 92, 7, 250, 61, 33, 128, 5, 77];
    match plan_request(Some(&garbage), &cfg) {
        PredictPlan::Reject(e) => assert_eq!(e.status_code(), 400),
        PredictPlan::Run(_) => panic!("undecodable bytes must be rejected"),
    }
}

#[test]
fn valid_png_is_planned_for_the_backend() {
    let cfg = InferenceConfig::new(16, 16).unwrap();
    let bytes = small_png();
    match plan_request(Some(&bytes), &cfg) {
        PredictPlan::Run(tensor) => {
            assert_eq!(tensor.data.len(), 3 * 16 * 16);
            assert!(validate_run_input(&tensor, &cfg).is_ok());
        }
        PredictPlan::Reject(_) => panic!("a valid PNG must reach the backend"),
    }
}

#[test]
fn run_input_of_wrong_shape_is_an_inference_error() {
    let cfg16 = InferenceConfig::new(16, 16).unwrap();
    let cfg32 = InferenceConfig::new(32, 32).unwrap();
    let bytes = small_png();
    match plan_request(Some(&bytes), &cfg16) {
        PredictPlan::Run(tensor) => {
            let e = validate_run_input(&tensor, &cfg32).unwrap_err();
            assert_eq!(e.status_code(), 500);
        }
        PredictPlan::Reject(_) => panic!("a valid PNG must reach the backend"),
    }
}

#[test]
fn successful_outcome_renders_parseable_json() {
    let reply = respond_from_backend(Ok(vec![20_000, 980_000]));
    assert_eq!(reply.status, 200);
    let v: serde_json::Value = serde_json::from_str(&reply.body).unwrap();
    let class = v["class"].as_str().unwrap();
    assert!(class == "Parasitized" || class == "Uninfected");
    assert_eq!(class, "Parasitized");
    let probs = v["probabilities"].as_array().unwrap();
    assert_eq!(probs.len(), 2);
    let p0 = probs[0].as_f64().unwrap();
    let p1 = probs[1].as_f64().unwrap();
    assert!((0.0..=1.0).contains(&p0));
    assert!((0.0..=1.0).contains(&p1));
    assert!((p0 + p1 - 1.0).abs() < 1e-5);
    assert!((p0 - 0.02).abs() < 1e-9);
    assert!((p1 - 0.98).abs() < 1e-9);
}

#[test]
fn uninfected_majority_decides_index_zero() {
    let reply = respond_from_backend(Ok(vec![600_000, 400_000]));
    assert_eq!(reply.status, 200);
    let v: serde_json::Value = serde_json::from_str(&reply.body).unwrap();
    assert_eq!(v["class"].as_str().unwrap(), "Uninfected");
}

#[test]
fn exact_tie_decides_parasitized() {
    let reply = respond_from_backend(Ok(vec![500_000, 500_000]));
    assert_eq!(reply.status, 200);
    let v: serde_json::Value = serde_json::from_str(&reply.body).unwrap();
    assert_eq!(v["class"].as_str().unwrap(), "Parasitized");
}

#[test]
fn class_matches_probability_comparison() {
    for p1 in [0u32, 1, 499_999, 500_000, 500_001, 999_999, 1_000_000] {
        let r = PredictionResult::from_index1_micros(p1);
        let expect_parasitized = r.probabilities.p1_micros >= r.probabilities.p0_micros;
        assert_eq!(r.class == ClassLabel::Parasitized, expect_parasitized);
        assert_eq!(
            r.probabilities.p0_micros + r.probabilities.p1_micros,
            1_000_000
        );
    }
}

#[test]
fn short_backend_output_is_an_internal_error() {
    let reply = respond_from_backend(Ok(vec![1_000_000]));
    assert_eq!(reply.status, 500);
    let reply = respond_from_backend(Ok(Vec::new()));
    assert_eq!(reply.status, 500);
}

#[test]
fn backend_failure_is_an_internal_error() {
    let reply = respond_from_backend(Err(String::from("numeric runtime failed")));
    assert_eq!(reply.status, 500);
    assert_eq!(reply.body, "numeric runtime failed");
}

#[test]
fn probability_rendering_is_exact() {
    assert_eq!(format_prob_micros(0), "0.000000");
    assert_eq!(format_prob_micros(250_000), "0.250000");
    assert_eq!(format_prob_micros(980_000), "0.980000");
    assert_eq!(format_prob_micros(1_000_000), "1.000000");
    assert_eq!(format_prob_micros(7), "0.000007");
    assert_eq!(format_prob_micros(123_456), "0.123456");
}

#[test]
fn probability_pair_clamps_and_normalizes() {
    let p = ProbabilityPair::from_index1_micros(2_000_000);
    assert_eq!(p.p1_micros, 1_000_000);
    assert_eq!(p.p0_micros, 0);
    let p = ProbabilityPair::from_index1_micros(750_000);
    assert_eq!(p.p1_micros, 750_000);
    assert_eq!(p.p0_micros, 250_000);
}

#[test]
fn tie_break_in_decide_class_is_explicit() {
    let tie = ProbabilityPair::from_index1_micros(500_000);
    assert_eq!(decide_class(&tie), ClassLabel::Parasitized);
    let low = ProbabilityPair::from_index1_micros(499_999);
    assert_eq!(decide_class(&low), ClassLabel::Uninfected);
}

#[test]
fn error_statuses_follow_the_taxonomy() {
    assert_eq!(
        ServiceError::UserInput(String::from("m")).status_code(),
        400
    );
    assert_eq!(ServiceError::ModelLoad(String::from("m")).status_code(), 500);
    assert_eq!(ServiceError::Inference(String::from("m")).status_code(), 500);
    assert_eq!(ServiceError::Encoding(String::from("m")).status_code(), 500);
}

#[test]
fn missing_checkpoint_diagnostic_names_the_path() {
    let msg = model_missing_message("./malaria-model.bin");
    assert!(msg.contains("./malaria-model.bin"));
    assert!(msg.starts_with("Model checkpoint not found at "));
}

#[test]
fn dataset_labels_map_to_classes() {
    assert_eq!(ClassLabel::from_dataset_label(1), ClassLabel::Parasitized);
    assert_eq!(ClassLabel::from_dataset_label(0), ClassLabel::Uninfected);
    let item = MalariaItem {
        image_path: String::from("data/train/Parasitized/cell.png"),
        label: 1,
    };
    assert_eq!(item.class(), ClassLabel::Parasitized);
    assert_eq!(item.class().index(), 1);
    assert_eq!(item.class().text(), "Parasitized");
}
