pub mod bps;
pub mod const_max;
pub mod fixed_ops;
pub mod ifixed_point;
pub mod rounding;
pub mod safe_math;
pub mod ufixed_point;
pub mod shares_tracker;
