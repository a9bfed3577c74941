//! Adaptive scheduling policy: confidence values, policy recommendations,
//! their validation, the guardrail engine, the adaptation controller and the
//! rules-based policy's stabilisation.
pub mod confidence;
pub mod recommendation;
pub mod guardrail;
pub mod audit;
pub mod controller;
pub mod rules;
pub mod workload;
pub mod report;
pub mod output;
