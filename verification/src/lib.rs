//! Resolving the configuration of an application that is deployed to a
//! cloud platform.
//!
//! A deploy configuration is written by the author of an application, in
//! one or several JSON documents. The pipeline of this library merges the
//! documents, renders the active environment into them, decodes the
//! result, resolves its environment variables, some of which are looked up
//! in secret services, and writes the configuration that the platform's
//! deployment tool reads, as TOML.
//!
//! The library computes; it reads no file, runs no program and asks no
//! service. Where a step depends on the world outside, the library says
//! what is to be asked and takes the answer as an argument.
//!
//! - [`json`], [`codec`]: documents, their text, and [`merge`] of documents
//! - [`template`]: rendering a placeholder in text
//! - [`models`]: the deploy configuration and the platform configuration
//! - [`decode`], [`encode`], [`authoring`], [`roundtrip`]: configurations
//!   from and to documents
//! - [`environment`], [`secrets`]: environment variables and their lookups
//! - [`project`], [`pipeline`]: from a deploy configuration to the text of
//!   the platform configuration
//! - [`deploy`], [`js`]: planning a deployment, and the configuration of a
//!   JavaScript project
//! - [`assoc`], [`text`], [`views`], [`words`]: lists read as maps, and
//!   text

pub mod assoc;
pub mod authoring;
pub mod codec;
pub mod decode;
pub mod deploy;
pub mod encode;
pub mod environment;
pub mod js;
pub mod json;
pub mod merge;
pub mod models;
pub mod pipeline;
pub mod project;
pub mod roundtrip;
pub mod secrets;
pub mod template;
pub mod text;
pub mod views;
pub mod words;
