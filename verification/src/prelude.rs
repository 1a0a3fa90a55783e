pub use crate::prompt::Prompt;
pub use crate::scalar::Scalar;
pub use crate::vector::{DataType, Vector, VectorOperations};
pub use crate::vectorization::{
    dispatch_schedules, run_vectorization, AttemptStep, GatewayEvent, ModelParameters, RetryError,
    ValidationError,
};
