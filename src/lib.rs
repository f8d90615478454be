//! Batched consumption of a purchased draw quota: decomposition of the
//! remaining quantity into supported batch sizes, interpretation of the
//! service's responses, and the decision logic of the purchase and draw loops.

pub mod quota;
pub mod text;
pub mod form;
pub mod response;
pub mod consumption;
pub mod acquisition;
pub mod session;
