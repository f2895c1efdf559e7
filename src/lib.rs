pub mod db;
pub mod error;
pub mod handler;
pub mod http;
pub mod lemmas;
pub mod router;
