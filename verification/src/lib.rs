//! Core of a blog backend: accounts, posts, bearer tokens and the two
//! protocol adapters that expose them.

pub mod api;
pub mod auth_service;
pub mod blog_service;
pub mod browser;
pub mod cli;
pub mod clock;
pub mod client;
pub mod consistency;
pub mod credentials;
pub mod error;
pub mod grpc_api;
pub mod grpc_service;
pub mod http_handlers;
pub mod jwt;
pub mod lifecycle;
pub mod middleware;
pub mod post;
pub mod post_repository;
pub mod user;
pub mod user_repository;
