//! Marshaling, resolution and iteration rules for the COM automation interface of iTunes.
//!
//! The host application is reached through COM calls that answer with a status code and
//! out-parameters. This library holds everything that is decided on those answers: when a
//! status code is a failure, how wide strings, tri-state booleans, enumeration values and
//! split 64-bit identifiers become values, which kind a generic object resolves to, and
//! which indices a walk over a 1-based collection asks for.
//!
//! See the [`sys`] module for the raw values of the interface, and the [`wrappers`] module
//! for the typed layer on top of them.

#![allow(non_snake_case)]
#![allow(non_camel_case_types)]

pub mod sys;
pub mod wrappers;
