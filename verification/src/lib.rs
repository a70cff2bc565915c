pub mod deploy_web;
pub mod gpu;
pub mod k3s;
pub mod manifests;
pub mod operators;
pub mod report;
pub mod setup;
pub mod system;
pub mod text;
pub mod types;
pub mod web;
