//! World clock core: parse zone tokens, resolve each zone against one captured
//! instant, order the results by wall-clock time and render them as text.
//!
//! The IANA zone database and the calendar behind the strftime patterns come
//! from `chrono` and `chrono-tz`. The few calls into them are gathered in
//! [`tzdb`], each with the contract that is taken on trust; everything else is
//! verified against those contracts.

pub mod clock;
pub mod error;
pub mod instant;
pub mod offset;
pub mod order;
pub mod render;
pub mod resolve;
pub mod tzdb;
pub mod zone;

pub use clock::{parse_zones, resolve_zones, world_clock};
pub use error::ClockError;
pub use instant::{LocalInstant, ZoneTime};
pub use offset::{format_offset, offset_annotation, ZeroOffset};
pub use order::{label_width, sort_by_civil_time};
pub use render::{render_line, render_local, render_report, render_zone, DEFAULT_PATTERN};
pub use resolve::ExplicitTz;
pub use zone::TzWithName;
