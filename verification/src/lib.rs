//! Synthesis of request handlers from an annotated controller definition.
//!
//! A controller is an aggregate (a named structure with declared dependency
//! fields) together with a container of methods. Each method that carries an
//! HTTP-verb annotation is turned into a handler: a type of its own that holds
//! one provider field per dependency call of the method, answers for its
//! route, verb and token, and runs the method's rewritten body.

pub mod attribute;
pub mod body;
pub mod controller;
pub mod controller_struct;
pub mod definition;
pub mod error;
pub mod http;
pub mod impl_functions;
pub mod metadata;
pub mod naming;
pub mod normalize;
pub mod output;
pub mod registry;
pub mod rewrite;
pub mod text;
