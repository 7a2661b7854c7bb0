//! Launch pipeline of a versioned game client: rule evaluation, Maven
//! coordinates, version inheritance, download planning, argument assembly,
//! credential decisions and account bookkeeping.

pub mod text;
pub mod rules;
pub mod maven;
pub mod version;
pub mod placeholders;
pub mod arguments;
pub mod download;
pub mod launch;
pub mod auth;
pub mod accounts;
pub mod fabric;
pub mod forge;
pub mod instance;
pub mod java;
pub mod config;
