//! The logic of a local-first markdown notes editor: its data model, the
//! recent-items lists, file-window bookkeeping, file-tree filtering, search
//! matching, markdown rendering and export, and the update and save rules.
pub mod text;
pub mod recent;
pub mod paths;
pub mod windows;
pub mod common;
pub mod tree;
pub mod update;
pub mod markdown;
pub mod export;
pub mod files;
pub mod session;
pub mod menu;
pub mod theme;
pub mod onboarding;
pub mod navigation;
pub mod settings;
