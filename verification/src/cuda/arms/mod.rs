//! The dispatch arms, by what they launch. Each arm is stated as the outcome of
//! its reads, and then made.

pub mod attention;
pub mod dense;
pub mod layout;
pub mod norm;
pub mod recurrent;
pub mod rope;
