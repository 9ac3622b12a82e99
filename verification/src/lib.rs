//! A safe layer over a native speech engine: the results and events of speech
//! translation, rebuilt from the handles that the engine hands to its callbacks.
//!
//! The library makes no call on the engine. A reconstruction is a state machine:
//! it hands out a [`abi::Request`], the caller has the engine perform it, and the
//! [`abi::Reply`] resumes the reconstruction, until the value is complete or the
//! reconstruction has failed ([`step::Step`]). A complete value owns its native
//! handles ([`handle::SmartHandle`]) and names the releases that its owner owes.
//!
//! - [`error`]: typed failures, and the conversion of a status code.
//! - [`text`]: zero-terminated UTF-8 out of a buffer; decimal and printed text.
//! - [`abi`]: the engine's calls and their replies as data.
//! - [`handle`], [`property`], [`speech`], [`common`], [`translations`]: what
//!   results and events are made of.
//! - [`translation`]: the five reconstructions.
//! - [`fixture`], [`reconstruct`]: a stand-in for the engine, and whole
//!   reconstructions against it.
//! - [`round_trip`], [`ownership`]: what is proved of whole reconstructions.

pub mod abi;
pub mod common;
pub mod error;
pub mod fixture;
pub mod handle;
pub mod ownership;
pub mod property;
pub mod reconstruct;
pub mod round_trip;
pub mod speech;
pub mod step;
pub mod text;
pub mod translation;
pub mod translations;
