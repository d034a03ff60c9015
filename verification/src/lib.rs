//! The events domain library: registration engine, seat accounting,
//! capability tokens, the calendar feed, schedulers, booths and lead rules.

pub mod text;
pub mod vocab;
pub mod error;
pub mod b64;
pub mod ids;
pub mod capability;
pub mod rows;
pub mod ics;
pub mod intake;
pub mod seat;
pub mod desk;
pub mod events;
pub mod sale_seam;
pub mod booth;
pub mod scheduler;
pub mod leads;
pub mod lead_groups;
pub mod lead_sql;
pub mod tickets;
pub mod surface;
pub mod entity;
pub mod model;
