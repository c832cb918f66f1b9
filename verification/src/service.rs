//! Orchestration of one prediction request.
//!
//! The HTTP layer around the library extracts the upload part, runs the
//! numeric backend, and otherwise only follows the decisions made here:
//! `plan_request` turns the extracted part into either an immediate
//! rejection or a tensor for the backend — the backend is invoked exactly
//! when the plan says so — and `respond_from_backend` turns the backend's
//! outcome into the final status and body. Every reply is complete: a
//! request yields either a full prediction body or an error message,
//! never a mixture.

use vstd::prelude::*;

use crate::classify::{
    decide_class,
    spec_decided_class,
    ClassLabel,
    ProbabilityPair,
};
use crate::config::InferenceConfig;
use crate::error::ServiceError;
use crate::preprocess::{decode_ok, decoded_rgb, planar_of, preprocess_bytes, PixelTensor};
use crate::render::{json_body_chars, render_prediction_body};

verus! {

/// Body of the liveness probe: the health endpoint always answers with
/// this fixed text once the process has started.
pub fn health_body() -> (r: &'static str)
    ensures
        r@ == "ok"@,
{
    "ok"
}

/// A finished prediction: the decided class and the distribution it was
/// decided from. Well-formed means internally consistent: the
/// distribution is normalized and the class is the one it decides.
pub struct PredictionResult {
    /// The decided class.
    pub class: ClassLabel,
    /// The two-class distribution, in millionths.
    pub probabilities: ProbabilityPair,
}

impl PredictionResult {
    /// Internal consistency: the distribution is normalized and the class
    /// is exactly the one the distribution decides (ties to index 1).
    pub open spec fn wf(&self) -> bool {
        &&& self.probabilities.wf()
        &&& self.class == spec_decided_class(self.probabilities)
    }

    /// Builds the result from the probability of index 1 in millionths:
    /// the distribution is normalized from it and the class decided from
    /// the distribution, so the result is consistent by construction.
    pub fn from_index1_micros(p1_micros: u32) -> (r: PredictionResult)
        ensures
            r.wf(),
            r.probabilities == ProbabilityPair::spec_from_index1(p1_micros as int),
    {
        let probabilities = ProbabilityPair::from_index1_micros(p1_micros);
        let class = decide_class(&probabilities);
        PredictionResult { class, probabilities }
    }
}

/// What the service decided to do with a request before any backend work.
pub enum PredictPlan {
    /// Answer at once with this failure; the backend is not invoked.
    Reject(ServiceError),
    /// Run the backend on this tensor.
    Run(PixelTensor),
}

impl PredictPlan {
    /// Whether the plan is to run the backend.
    pub open spec fn is_run(&self) -> bool {
        self matches PredictPlan::Run(_)
    }
}

/// Decides a request from the extracted upload part. The backend may be
/// invoked only on a `Run` plan, and the plan is `Run` exactly when the
/// part is present and its bytes decode: a request with no image part, or
/// with bytes the decoder rejects, is rejected as the caller's fault
/// (status 400) with the backend never invoked.
pub fn plan_request(image_part: Option<&[u8]>, cfg: &InferenceConfig) -> (r: PredictPlan)
    requires
        cfg.wf(),
    ensures
        r.is_run() <==> (image_part matches Some(b) && decode_ok(b@)),
        image_part is None ==> (r matches PredictPlan::Reject(e) && e.is_user_input()
            && e.spec_message() == "No 'image' field provided"@),
        image_part matches Some(b) && !decode_ok(b@) ==> (r matches PredictPlan::Reject(e)
            && e.is_user_input()),
        image_part matches Some(b) ==> (r matches PredictPlan::Run(t) ==> t.wf() && t.height
            == cfg.image_height && t.width == cfg.image_width && t@ == planar_of(
            decoded_rgb(b@, cfg.image_height as int, cfg.image_width as int),
            cfg.image_height * cfg.image_width,
        )),
{
    proof {
        reveal_strlit("No 'image' field provided");
    }
    let bytes = match image_part {
        Some(b) => b,
        None => {
            return PredictPlan::Reject(
                ServiceError::UserInput(String::from_str("No 'image' field provided")),
            );
        },
    };
    match preprocess_bytes(bytes, cfg) {
        Ok(tensor) => PredictPlan::Run(tensor),
        Err(message) => PredictPlan::Reject(ServiceError::UserInput(message)),
    }
}

/// Checks a tensor against the shape the backend was loaded for, exactly
/// as the backend's run contract demands: it is `Ok` precisely when the
/// tensor has the configured dimensions and holds the full
/// `3 * height * width` samples.
pub fn validate_run_input(tensor: &PixelTensor, cfg: &InferenceConfig) -> (r: Result<
    (),
    ServiceError,
>)
    requires
        cfg.wf(),
    ensures
        r is Ok <==> (tensor.height == cfg.image_height && tensor.width == cfg.image_width
            && tensor@.len() == 3 * (cfg.image_height * cfg.image_width)),
        r matches Err(e) ==> e matches ServiceError::Inference(_),
{
    if tensor.height == cfg.image_height && tensor.width == cfg.image_width && tensor.len() == 3
        * (cfg.image_height * cfg.image_width) {
        Ok(())
    } else {
        Err(
            ServiceError::Inference(
                String::from_str("Input tensor shape does not match the loaded model"),
            ),
        )
    }
}

/// Requests cannot contaminate one another inside the library: the plan
/// for a request is a function of that request's own bytes and the shared
/// immutable configuration alone, so two requests carrying the same bytes
/// are planned onto the same tensor, whatever else runs beside them. (The
/// concurrent execution itself, and the floating-point forward pass,
/// belong to the runtime around the library.)
pub proof fn lemma_requests_are_independent(
    b1: Seq<u8>,
    b2: Seq<u8>,
    cfg1: InferenceConfig,
    cfg2: InferenceConfig,
)
    requires
        b1 == b2,
        cfg1 == cfg2,
    ensures
        decode_ok(b1) == decode_ok(b2),
        planar_of(
            decoded_rgb(b1, cfg1.image_height as int, cfg1.image_width as int),
            cfg1.image_height * cfg1.image_width,
        ) == planar_of(
            decoded_rgb(b2, cfg2.image_height as int, cfg2.image_width as int),
            cfg2.image_height * cfg2.image_width,
        ),
{
}

/// One complete HTTP reply: the status and the full body.
pub struct HttpReply {
    /// HTTP status code.
    pub status: u16,
    /// The whole response body.
    pub body: String,
}

/// The reply for a finished prediction: 200, with the JSON body rendered
/// from the decided class and the distribution.
pub fn reply_success(result: &PredictionResult) -> (r: HttpReply)
    requires
        result.wf(),
    ensures
        r.status == 200,
        r.body@ == json_body_chars(result.class, result.probabilities),
{
    HttpReply { status: 200, body: render_prediction_body(result.class, &result.probabilities) }
}

/// The reply for a failure: the status of its class (400 for the caller's
/// fault, 500 otherwise) and the message as the body.
pub fn reply_error(e: ServiceError) -> (r: HttpReply)
    ensures
        r.status == e.spec_status(),
        r.body@ == e.spec_message(),
        r.status == 400 <==> e.is_user_input(),
{
    let status = e.status_code();
    let body = match e {
        ServiceError::UserInput(m) => m,
        ServiceError::ModelLoad(m) => m,
        ServiceError::Inference(m) => m,
        ServiceError::Encoding(m) => m,
    };
    HttpReply { status, body }
}

/// Turns the backend's outcome into the final reply. The backend hands
/// back either its probabilities in millionths, index by index, or a
/// failure message. A failure, or an output of fewer than two
/// probabilities, is an internal error (500); otherwise the reply is 200
/// and the body is the prediction built from index 1's probability.
pub fn respond_from_backend(outcome: Result<Vec<u32>, String>) -> (r: HttpReply)
    ensures
        r.status == 200 <==> (outcome matches Ok(v) && v@.len() >= 2),
        outcome matches Err(m) ==> r.status == 500 && r.body@ == m@,
        outcome matches Ok(v) ==> {
            &&& v@.len() < 2 ==> r.status == 500 && r.body@ == "Invalid model output length"@
            &&& v@.len() >= 2 ==> r.body@ == json_body_chars(
                spec_decided_class(ProbabilityPair::spec_from_index1(v@[1] as int)),
                ProbabilityPair::spec_from_index1(v@[1] as int),
            )
        },
{
    match outcome {
        Err(message) => reply_error(ServiceError::Inference(message)),
        Ok(probs) => {
            if probs.len() < 2 {
                reply_error(
                    ServiceError::Inference(String::from_str("Invalid model output length")),
                )
            } else {
                let result = PredictionResult::from_index1_micros(probs[1]);
                reply_success(&result)
            }
        },
    }
}

} // verus!
