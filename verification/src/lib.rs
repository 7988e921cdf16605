//! The reconciliation core of a live hockey score service: game reports and
//! their state machine, event normalisation, votes, users, standings, and the
//! decisions of the listeners, the writer and the notification dispatcher.

#![allow(non_snake_case)]
#![allow(non_camel_case_types)]

pub mod text;
pub mod models;
pub mod report;
pub mod event;
pub mod provider;
pub mod normalize;
pub mod views;
pub mod playbyplay;
pub mod state_machine;
pub mod event_store;
pub mod vote;
pub mod game;
pub mod season;
pub mod registry;
pub mod user;
pub mod bus;
pub mod listener;
pub mod teams;
pub mod apn;
pub mod push;
pub mod notification;
pub mod writer;
pub mod orchestrator;
pub mod standing;
pub mod playoff;
pub mod config;
pub mod rest;
pub mod athlete;
pub mod stats;
pub mod details;
pub mod legacy;
pub mod api;
