//! Cover art for the installed games of Lutris, from the SteamGridDB
//! catalogue.
//!
//! The library holds every decision of the program and performs none of its
//! input and output; all it asks of its surroundings is where the user's
//! directories are. The acquisition pipeline is a state machine
//! (`pipeline`): it says which request is to be made next and takes the
//! answer; what holds of all its runs is proved in `laws` and `order`. The
//! rules of the catalogue's HTTP interface are in `api::client`, the places
//! of the files in `config` and `download`, the state of the interactive
//! program in `app`, what its screens show in `ui`, and what is printed
//! without it in `report`.

pub mod api;
pub mod app;
pub mod config;
pub mod db;
pub mod download;
pub mod laws;
pub mod order;
pub mod paths;
pub mod pipeline;
pub mod report;
pub mod selection;
pub mod startup;
pub mod text;
pub mod ui;
