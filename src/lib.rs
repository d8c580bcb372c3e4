//! Core of an intercepting HTTP forward proxy: owned message values,
//! `Proxy-Authorization` parsing, the authentication and handler pipelines,
//! flow identifiers, and the rule-driven JSON extractor.

pub mod headers;
pub mod uri;
pub mod request;
pub mod response;
pub mod credentials;
pub mod pattern;
pub mod json;
pub mod processor;
pub mod text;
pub mod auth;
pub mod pipeline;
pub mod collector;
pub mod models;
pub mod web;
pub mod flow;

pub use auth::{AuthOutcome, AuthStep, Delegator, ServerAuth};
pub use collector::{Collector, CreateDocument, DocumentData, Reporter, Upload};
pub use credentials::{Credentials, Error};
pub use flow::{Flow, FlowIds};
pub use headers::{Headers, PROXY_AUTHORIZATION};
pub use models::HttpValidationError;
pub use web::Web;
pub use pipeline::{Action, Event, Forward, ForwardPath, Reverse, Route, Stage};
pub use processor::{ConfigError, Processor, Selector, SpecRule};
pub use request::{Method, Request, Version};
pub use response::{Response, StatusCode};
pub use uri::Uri;
