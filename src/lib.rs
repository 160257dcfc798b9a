//! Animal-fact resolution: selector validation, animal resolution, upstream
//! outcome handling and response shaping, each stated and proved with Verus.

pub mod animal;
pub mod error;
pub mod laws;
pub mod param;
pub mod provider;
pub mod resolver;
pub mod response;

pub use animal::Animal;
pub use error::{ErrorKind, ParamError};
pub use param::Param;
pub use provider::{body_outcome, decode_outcome, sent_outcome, Cat, Dog, FetchedFact};
pub use resolver::{resolve, resolve_lowered};
pub use response::{health_check, respond, respond_error, respond_ok, Envelope, Reply};
