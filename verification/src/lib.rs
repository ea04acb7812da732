//! Core logic of the warehouse management backend: access control,
//! request validation, configuration parsing, pagination and the
//! request-shaping rules of the upload and cache layers.

pub mod text;
pub mod encoding;
pub mod constants;
pub mod errors;
pub mod access;
pub mod pagination;
pub mod config;
pub mod cloudinary;
pub mod redis;
pub mod models;
pub mod dtos;
pub mod repositories;
pub mod handlers;
