//! The logic of the splat.site embed server: HTML escaping, colour codes,
//! schedule and weapon pages, the refresh rules of the schedule cache and
//! the choice of the listening port.

pub mod text;
pub mod helper;
pub mod data;
pub mod common;
pub mod rgb;
pub mod cliargs;
pub mod time;
pub mod template;
pub mod schedule;
pub mod weapon;
pub mod state;
pub mod img;
