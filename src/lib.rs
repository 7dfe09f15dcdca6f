//! Parser for the line-oriented log of a multiplayer game server.
//!
//! Each line is matched against a fixed grammar table of line kinds; a line that
//! exactly one kind matches is turned into a typed [`LogEntry`]. The
//! [`LogProcessor`] takes lines one at a time, in order, and also gathers the
//! lines of a cvar dump into one entry.
pub mod checks;
pub mod entries;
pub mod extract;
pub mod grammar;
pub mod laws;
pub mod model;
pub mod processor;
pub mod scan;
pub mod shapes;
pub mod table;

pub use model::{
    Decimal, Duration, Error, HitGroup, KillAttributes, LogEntry, LogPrefix, Player, PlayerID,
    Team, TeamAll, Vector3,
};
pub use processor::{
    numbers_fit, numbers_fit_with, parse_line, parse_line_with, LogProcessor, ParsedLine,
};
pub use table::LineKind;
