//! Trust and session core of a livestock-monitoring backend: credential
//! hashing, token claims, device secrets, refresh-session rotation and
//! transactional device provisioning.

pub mod error;
pub mod role;
pub mod password;
pub mod device;
pub mod claims;
pub mod user_agent;
pub mod models;
pub mod user_repository;
pub mod dto;
pub mod response;
pub mod auth_service;
pub mod spm_repository;
pub mod spm_service;
pub mod user_service;
pub mod middleware;
pub mod laws;
