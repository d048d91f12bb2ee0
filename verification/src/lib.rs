//! Verified core of the pool-car tracking backend.
pub mod text;
pub mod auth_utils;
pub mod config;
pub mod time;
pub mod models;
pub mod error;
pub mod auth;
pub mod middleware;
pub mod csv_export;
pub mod pages;
pub mod tracking;
pub mod dashboard;
pub mod chart;
pub mod jwt;
