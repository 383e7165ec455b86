pub mod contact;
pub mod error;
pub mod ident;
pub mod repository;
pub mod service;
