//! Verified command-line logic for the Addness CLI: argument validation,
//! request building, text formatting and goal-tree assembly.

pub mod text;
pub mod chat;
pub mod client;
pub mod org;
pub mod activity;
pub mod comment;
pub mod comments;
pub mod notification;
pub mod consent;
pub mod invoice;
pub mod referral;
pub mod todo_chat;
pub mod streak;
pub mod personal;
pub mod today;
pub mod issue;
pub mod invitation;
pub mod assignment;
pub mod api_key;
pub mod codex_job;
pub mod configure;
pub mod diagnosis;
pub mod paths;
pub mod member;
pub mod media;
pub mod meeting;
pub mod goal;
pub mod summary;
pub mod goals;
pub mod link;
pub mod kpi;
pub mod thread;
pub mod auth;
pub mod desktop_auth;
pub mod execution;
pub mod sharetree;
pub mod skill;
pub mod tool;
pub mod goal_chat;
pub mod detect;
pub mod deliverable;
pub mod confirm;
pub mod login;
pub mod json;
pub mod ai_chat_render;
pub mod goal_decompose_render;
pub mod stream_event;
pub mod goal_detail;
pub mod search;
pub mod goal_flow;
pub mod listing;
pub mod result_lines;
