//! The admin hub of a music server, as state machines over plain values: the
//! sign-in page, the server's rooms (libraries, discovery, federation,
//! backups) and the listening report.

pub mod backups;
pub mod backups_laws;
pub mod backups_view;
pub mod clock;
pub mod discovery;
pub mod discovery_laws;
pub mod discovery_view;
pub mod double;
pub mod errands;
pub mod federation;
pub mod federation_laws;
pub mod federation_view;
pub mod home;
pub mod hub;
pub mod keys_laws;
pub mod layout;
pub mod libraries;
pub mod libraries_laws;
pub mod libraries_view;
pub mod line;
pub mod login;
pub mod msg;
pub mod outside;
pub mod paths;
pub mod phrases;
pub mod played_laws;
pub mod rooms_laws;
pub mod rows_laws;
pub mod screen;
pub mod shown_laws;
pub mod stats;
pub mod stats_laws;
pub mod stats_series;
pub mod stats_view;
pub mod stats_words;
pub mod text;
pub mod zone;
