//! What the functions of the library promise, said of their arguments and results.
//!
//! A law speaks of a call through `call_ensures(f, arguments, result)`: it holds of
//! whatever the function returns. It says what the result is by the fields of the
//! values that go in and come out, by the contents of JSON values, and in the words of
//! [`terms`].

pub mod cache;
pub mod calls;
pub mod connect;
pub mod legacy;
pub mod probing;
pub mod replies;
pub mod service;
pub mod settings;
pub mod terms;
pub mod text;
