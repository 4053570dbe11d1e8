//! One captured moment, as the local clock and as a zone's clock show it.
//!
//! A run captures the time once. Every zone is resolved against that one
//! value, so no two rows can disagree about what "now" is.

use crate::tzdb::{
    format_at_offset, format_in_zone, instant_in_calendar, offset_time_text, offset_within_a_day,
    zone_in_database, zone_time_text, MAX_UTC_SECS, MIN_UTC_SECS,
};
use crate::zone::TzWithName;
use vstd::prelude::*;
use vstd::string::*;

verus! {

/// A moment together with the local clock's offset from UTC at that moment.
pub struct LocalMoment {
    /// Whole seconds since the Unix epoch.
    pub utc_secs: int,
    /// Nanoseconds past the whole second.
    pub nanos: int,
    /// Seconds that the local clock runs ahead of UTC.
    pub offset_secs: int,
}

impl LocalMoment {
    /// The moment lies in the calendar and the offset is less than a day.
    pub open spec fn in_calendar(self) -> bool {
        &&& instant_in_calendar(self.utc_secs, self.nanos)
        &&& offset_within_a_day(self.offset_secs)
    }
}

/// The reference instant of a run: the moment it was started, with the local
/// offset that was in force then.
#[derive(Clone, Copy, Debug)]
pub struct LocalInstant {
    utc_secs: i64,
    nanos: u32,
    offset_secs: i32,
}

impl View for LocalInstant {
    type V = LocalMoment;

    closed spec fn view(&self) -> LocalMoment {
        LocalMoment {
            utc_secs: self.utc_secs as int,
            nanos: self.nanos as int,
            offset_secs: self.offset_secs as int,
        }
    }
}

impl LocalInstant {
    #[verifier::type_invariant]
    closed spec fn held_in_calendar(self) -> bool {
        self@.in_calendar()
    }

    /// Takes a moment as seconds and nanoseconds since the Unix epoch, with
    /// the local offset in seconds east of UTC. Gives `None` for a moment
    /// outside the calendar, a nanosecond count of a second or more, or an
    /// offset of a day or more.
    pub fn new(utc_secs: i64, nanos: u32, offset_secs: i32) -> (instant: Option<LocalInstant>)
        ensures
            instant is Some <==> (LocalMoment {
                utc_secs: utc_secs as int,
                nanos: nanos as int,
                offset_secs: offset_secs as int,
            }).in_calendar(),
            instant matches Some(i) ==> i@ == (LocalMoment {
                utc_secs: utc_secs as int,
                nanos: nanos as int,
                offset_secs: offset_secs as int,
            }),
    {
        if MIN_UTC_SECS <= utc_secs && utc_secs <= MAX_UTC_SECS && nanos < 1_000_000_000 && -86_400
            < offset_secs && offset_secs < 86_400 {
            Some(LocalInstant { utc_secs, nanos, offset_secs })
        } else {
            None
        }
    }

    /// Whole seconds since the Unix epoch.
    pub fn utc_secs(&self) -> (secs: i64)
        ensures
            secs == self@.utc_secs,
            self@.in_calendar(),
    {
        proof {
            use_type_invariant(self);
        }
        self.utc_secs
    }

    /// Nanoseconds past the whole second.
    pub fn nanos(&self) -> (nanos: u32)
        ensures
            nanos == self@.nanos,
    {
        self.nanos
    }

    /// Seconds that the local clock runs ahead of UTC.
    pub fn local_offset(&self) -> (offset: i32)
        ensures
            offset == self@.offset_secs,
    {
        self.offset_secs
    }

    /// The local wall-clock time rendered with a strftime pattern, or `None`
    /// where the pattern cannot be rendered.
    pub fn format(&self, pattern: &str) -> (text: Option<String>)
        ensures
            self@.in_calendar(),
            match text {
                Some(t) => offset_time_text(
                    self@.offset_secs,
                    self@.utc_secs,
                    self@.nanos,
                    pattern@,
                ) == Some(t@),
                None => offset_time_text(self@.offset_secs, self@.utc_secs, self@.nanos, pattern@)
                    is None,
            },
    {
        proof {
            use_type_invariant(self);
        }
        format_at_offset(self.offset_secs, self.utc_secs, self.nanos, pattern)
    }
}

/// A moment together with a zone and the offset from UTC taken for that zone.
pub struct ZoneMoment {
    /// The zone's name in the database.
    pub zone: Seq<char>,
    /// Whole seconds since the Unix epoch.
    pub utc_secs: int,
    /// Nanoseconds past the whole second.
    pub nanos: int,
    /// Seconds that the zone's clock runs ahead of UTC.
    pub utc_offset: int,
}

impl ZoneMoment {
    /// The reading of the zone's wall clock, counted in seconds as if that
    /// clock were UTC. Two readings compare as their calendar dates and times
    /// do.
    pub open spec fn civil_secs(self) -> int {
        self.utc_secs + self.utc_offset
    }

    /// This wall-clock reading is earlier than `other`.
    pub open spec fn civil_before(self, other: ZoneMoment) -> bool {
        self.civil_secs() < other.civil_secs() || (self.civil_secs() == other.civil_secs()
            && self.nanos < other.nanos)
    }

    /// The two wall clocks read the same.
    pub open spec fn civil_same(self, other: ZoneMoment) -> bool {
        self.civil_secs() == other.civil_secs() && self.nanos == other.nanos
    }
}

/// A moment as the wall clock of one zone shows it.
#[derive(Debug)]
pub struct ZoneTime {
    zone: String,
    utc_secs: i64,
    nanos: u32,
    utc_offset: i32,
}

impl View for ZoneTime {
    type V = ZoneMoment;

    closed spec fn view(&self) -> ZoneMoment {
        ZoneMoment {
            zone: self.zone@,
            utc_secs: self.utc_secs as int,
            nanos: self.nanos as int,
            utc_offset: self.utc_offset as int,
        }
    }
}

impl Clone for ZoneTime {
    fn clone(&self) -> (copy: ZoneTime)
        ensures
            copy@ == self@,
    {
        proof {
            use_type_invariant(self);
        }
        ZoneTime {
            zone: self.zone.clone(),
            utc_secs: self.utc_secs,
            nanos: self.nanos,
            utc_offset: self.utc_offset,
        }
    }
}

impl ZoneTime {
    #[verifier::type_invariant]
    closed spec fn held_in_calendar(self) -> bool {
        &&& zone_in_database(self.zone@)
        &&& instant_in_calendar(self.utc_secs as int, self.nanos as int)
    }

    /// The moment `instant` on the clock of `zone`, taking `utc_offset`
    /// seconds as what that clock is ahead of UTC.
    pub fn at(instant: &LocalInstant, zone: &TzWithName, utc_offset: i32) -> (time: ZoneTime)
        ensures
            time@ == (ZoneMoment {
                zone: zone@.zone,
                utc_secs: instant@.utc_secs,
                nanos: instant@.nanos,
                utc_offset: utc_offset as int,
            }),
    {
        let utc_secs = instant.utc_secs();
        ZoneTime {
            zone: String::from_str(zone.zone()),
            utc_secs,
            nanos: instant.nanos(),
            utc_offset,
        }
    }

    /// The wall-clock reading in seconds, as `ZoneMoment::civil_secs` counts.
    pub fn civil_secs(&self) -> (secs: i64)
        ensures
            secs == self@.civil_secs(),
    {
        proof {
            use_type_invariant(self);
        }
        self.utc_secs + (self.utc_offset as i64)
    }

    /// Nanoseconds past the whole second.
    pub fn nanos(&self) -> (nanos: u32)
        ensures
            nanos == self@.nanos,
    {
        self.nanos
    }

    /// Seconds that the zone's clock is taken to run ahead of UTC.
    pub fn utc_offset(&self) -> (offset: i32)
        ensures
            offset == self@.utc_offset,
    {
        self.utc_offset
    }

    /// Whether this wall clock reads earlier than `other`.
    pub fn is_before(&self, other: &ZoneTime) -> (earlier: bool)
        ensures
            earlier == self@.civil_before(other@),
    {
        let mine = self.civil_secs();
        let theirs = other.civil_secs();
        mine < theirs || (mine == theirs && self.nanos < other.nanos)
    }

    /// The wall-clock time rendered with a strftime pattern, or `None` where
    /// the pattern cannot be rendered.
    pub fn format(&self, pattern: &str) -> (text: Option<String>)
        ensures
            match text {
                Some(t) => zone_time_text(self@.zone, self@.utc_secs, self@.nanos, pattern@)
                    == Some(t@),
                None => zone_time_text(self@.zone, self@.utc_secs, self@.nanos, pattern@) is None,
            },
    {
        proof {
            use_type_invariant(self);
        }
        format_in_zone(self.zone.as_str(), self.utc_secs, self.nanos, pattern)
    }
}

} // verus!
