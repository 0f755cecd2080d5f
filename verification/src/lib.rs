//! The rules of "The Boring School" web service: who may call which route,
//! how a request is carried out against the school database step by step,
//! and what each outcome is answered.
pub mod access;
pub mod models;
pub mod auth;
pub mod notice;
pub mod flow;
pub mod flow_laws;
pub mod swagger;
pub mod route_laws;
