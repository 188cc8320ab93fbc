//! Verified core of a small deployment tool: it turns a route or
//! certificate request into the configuration files, templates and
//! commands that deploy it.

pub mod clientcertificate;
pub mod config;
pub mod deploy;
pub mod route;
pub mod text;
