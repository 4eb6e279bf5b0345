//! Account service core: the error taxonomy, the credential hasher, the account
//! table and the service rules that sit between an HTTP boundary and storage.

pub mod crypto;
pub mod dao;
pub mod dto;
pub mod entity;
pub mod error;
pub mod handler;
pub mod laws;
pub mod observability;
pub mod service;
pub mod state;
pub mod text;
