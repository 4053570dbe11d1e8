//! Resolving a zone request against the reference instant.

use crate::instant::{LocalInstant, LocalMoment, ZoneMoment, ZoneTime};
use crate::offset::{annotation_text, offset_text, ZeroOffset};
use crate::tzdb::{utc_offset_at, zone_utc_offset};
use crate::zone::{TzWithName, ZoneRequest};
use vstd::prelude::*;

verus! {

/// A zone as it will be shown.
pub struct ResolvedZone {
    /// The label to print.
    pub label: Seq<char>,
    /// Seconds that the zone's clock is ahead of the local clock.
    pub offset_from_local: int,
    /// The moment on the zone's clock.
    pub time: ZoneMoment,
}

/// What resolving `request` at `instant` gives when the zone's clock is
/// `remote_offset` seconds ahead of UTC and the local clock `local_offset`.
pub open spec fn resolved_with(
    instant: LocalMoment,
    local_offset: int,
    request: ZoneRequest,
    remote_offset: int,
) -> ResolvedZone {
    ResolvedZone {
        label: request.label,
        offset_from_local: remote_offset - local_offset,
        time: ZoneMoment {
            zone: request.zone,
            utc_secs: instant.utc_secs,
            nanos: instant.nanos,
            utc_offset: remote_offset,
        },
    }
}

/// What resolving `request` at `instant` gives: the zone's offset is the one
/// the database holds for that moment.
pub open spec fn resolved(instant: LocalMoment, local_offset: int, request: ZoneRequest)
    -> ResolvedZone {
    resolved_with(
        instant,
        local_offset,
        request,
        zone_utc_offset(request.zone, instant.utc_secs),
    )
}

/// A resolved zone: its label, how far its clock is from the local one, and
/// the reference instant on its clock. Built once and never changed.
#[derive(Debug)]
pub struct ExplicitTz {
    name: String,
    offset_from_local: i64,
    dt: ZoneTime,
}

impl View for ExplicitTz {
    type V = ResolvedZone;

    closed spec fn view(&self) -> ResolvedZone {
        ResolvedZone {
            label: self.name@,
            offset_from_local: self.offset_from_local as int,
            time: self.dt@,
        }
    }
}

impl ExplicitTz {
    /// Resolves `twn` at the moment `local`, looking up the offset that the
    /// zone observes at that moment. `local_offset_secs` is what the local
    /// clock is ahead of UTC.
    pub fn new(local: &LocalInstant, local_offset_secs: i32, twn: TzWithName) -> (zone: ExplicitTz)
        ensures
            zone@ == resolved(local@, local_offset_secs as int, twn@),
            zone@.offset_from_local == zone_utc_offset(twn@.zone, local@.utc_secs)
                - local_offset_secs,
            zone@.time.civil_secs() == local@.utc_secs + zone_utc_offset(
                twn@.zone,
                local@.utc_secs,
            ),
            zone@.time.nanos == local@.nanos,
            zone@.label == twn@.label,
    {
        let remote_offset = utc_offset_at(twn.zone(), local.utc_secs());
        ExplicitTz::from_offset(local, local_offset_secs, twn, remote_offset)
    }

    /// Resolves `twn` at the moment `local` for a zone whose clock is
    /// `remote_offset_secs` ahead of UTC.
    pub fn from_offset(
        local: &LocalInstant,
        local_offset_secs: i32,
        twn: TzWithName,
        remote_offset_secs: i32,
    ) -> (zone: ExplicitTz)
        ensures
            zone@ == resolved_with(
                local@,
                local_offset_secs as int,
                twn@,
                remote_offset_secs as int,
            ),
    {
        let offset_from_local = (remote_offset_secs as i64) - (local_offset_secs as i64);
        let dt = ZoneTime::at(local, &twn, remote_offset_secs);
        let (_, name) = twn.into_parts();
        ExplicitTz { name, offset_from_local, dt }
    }

    /// The label to print.
    pub fn name(&self) -> (label: &str)
        ensures
            label@ == self@.label,
    {
        self.name.as_str()
    }

    /// Seconds that the zone's clock is ahead of the local clock.
    pub fn offset_from_local(&self) -> (secs: i64)
        ensures
            secs == self@.offset_from_local,
    {
        self.offset_from_local
    }

    /// The reference instant on the zone's clock.
    pub fn dt(&self) -> (time: &ZoneTime)
        ensures
            time@ == self@.time,
    {
        &self.dt
    }
}

/// A zone whose clock is as far from UTC as the local clock is zero seconds
/// from local and reads what the local clock reads. Its annotation is empty
/// where zero is omitted and `+0h` where it is shown.
pub proof fn lemma_local_zone_is_zero_from_local(
    instant: LocalMoment,
    request: ZoneRequest,
    offset: int,
)
    ensures
        resolved_with(instant, offset, request, offset).offset_from_local == 0,
        resolved_with(instant, offset, request, offset).time.civil_secs() == instant.utc_secs
            + offset,
        annotation_text(
            resolved_with(instant, offset, request, offset).offset_from_local,
            ZeroOffset::Omit,
        ) == Seq::<char>::empty(),
        annotation_text(
            resolved_with(instant, offset, request, offset).offset_from_local,
            ZeroOffset::Show,
        ) == seq!['+', '0', 'h'],
{
    assert(offset_text(0) =~= seq!['+', '0', 'h']);
}

} // verus!
