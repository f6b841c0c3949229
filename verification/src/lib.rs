//! Verified interaction logic of the AnkiTUI terminal interface.
use vstd::prelude::*;

pub mod app_commands;
pub mod app_config;
pub mod app_status;
pub mod card_component;
pub mod clock;
pub mod deck_selector;
pub mod command;
pub mod components;
pub mod config_manager;
pub mod controller;
pub mod data_helpers;
pub mod dispatch;
pub mod dispatcher;
pub mod domain_state;
pub mod error_management;
pub mod facade;
pub mod events;
pub mod help;
pub mod ids;
pub mod input;
pub mod loading;
pub mod model;
pub mod outcomes;
pub mod performance;
pub mod requests;
pub mod screens;
pub mod registry;
pub mod screens_components;
pub mod settings;
pub mod state_manager;
pub mod store;
pub mod tag_deletion;
pub mod text;
pub mod tui_app;
pub mod tui_error;
pub mod ui_map;
pub mod ui_state;
pub mod viewmodels;

verus! {

} // verus!
