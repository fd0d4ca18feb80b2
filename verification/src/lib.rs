//! Core of a project-management backend: role-based access control,
//! command validation, and in-memory stores for projects, tasks, teams,
//! tags, time logs, attachments, notifications and activity logs.
#![verifier::loop_isolation(false)]

pub mod activity;
pub mod api;
pub mod attachment;
pub mod auth;
pub mod commands;
pub mod decimal;
pub mod email;
pub mod enums;
pub mod error;
pub mod fresh;
pub mod laws;
pub mod notification;
pub mod order;
pub mod project;
pub mod seqs;
pub mod tag;
pub mod task;
pub mod team;
pub mod text;
pub mod time_log;
pub mod user;
