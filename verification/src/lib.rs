//! A filesystem-backed memo cache whose protocol is verified.
//!
//! Every operation of the cache is a small state machine that decides and
//! never performs: it emits a [`effect::Request`], takes the
//! [`effect::Reply`], and so on until it finishes. The contracts say, for
//! every state and every reply, what is asked next and what is returned.

pub mod effect;
pub mod path;
pub mod save;
pub mod flush;
pub mod cache;
pub mod lookup;
pub mod model;
pub mod theorems;
