//! A typed HTTP client facade: configuration, request drafting, ordered
//! interceptors and the decoding of replies, with the transport left to the
//! caller.

pub mod axios;
pub mod config;
pub mod error;
pub mod headers;
pub mod interceptor;
pub mod json;
pub mod message;
pub mod method;
pub mod middleware;
pub mod response;

pub use crate::axios::Axios;
pub use crate::config::{AxiosConfig, AxiosRequestConfig};
pub use crate::error::{AxiosError, AxiosErrorValue};
pub use crate::headers::Headers;
pub use crate::interceptor::{Handler, InterceptorManager, RequestHandler, ResponseHandler};
pub use crate::message::{Request, Response};
pub use crate::method::HttpMethod;
pub use crate::middleware::auth_middleware::AuthMiddleware;
pub use crate::response::AxiosResponse;
