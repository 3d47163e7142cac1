//! Access control, password handling and page logic for a door-opening web service.

pub mod auth;
pub mod model;
pub mod forms;
pub mod token;
pub mod pages;
pub mod door;
pub mod text;
pub mod encoded;
pub mod password;
pub mod minify;
