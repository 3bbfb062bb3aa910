//! A task list and password-based accounts with signed bearer tokens: the
//! records, their collections, and the request flows over them.
pub mod auth;
pub mod credenciales;
pub mod externo;
pub mod jwt;
pub mod reset;
pub mod tarea;
pub mod usuario;
