pub mod interest_rate;
pub mod interest_rate_per_second;
pub mod lending_interest_rate;
pub mod polyline;
pub mod adaptive_curve;
pub mod interest_rate_kind;
pub mod pod_interest_rate;
