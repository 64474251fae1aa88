//! Verified core of the WinSweep disk cleaner.
use vstd::prelude::*;

pub mod text;
pub mod path;
pub mod never_delete;
pub mod types;
pub mod config;
pub mod home_edition;
pub mod services;
pub mod windows_edition;
pub mod updater;
pub mod restart;
pub mod docker;
pub mod wsl;
pub mod windows_api;
pub mod tools;
pub mod scanner;
pub mod cleanup;
pub mod audit;
pub mod package_manager;
pub mod i18n;
pub mod junction;
pub mod ipc;
pub mod signatures;
pub mod cli;
pub mod cache_locations;
pub mod cache_info;
pub mod path_order;
pub mod cleaners;
pub mod docker_cleanup;
pub mod link_chain;

verus! {
} // verus!
