//! Options of a sibling in a counter group, and its attribute. A sibling shares
//! the leader's clock, and takes no exclusivity, pinning or group statistics.
use vstd::prelude::*;

use crate::attr::{attr_of, from as leader_from, supported, Attr};
use crate::config::{
    ExtraRecord, Inherit, OnExecve, Priv, RecordIdFormat, SampleFormat, SampleOn, SampleSkid,
    SigData, WakeUp,
};
use crate::error::Error;
use crate::event::EventConfig;
use crate::uapi as b;
use crate::version::Version;

verus! {

#[derive(Clone, Copy, Debug, Default)]
pub struct Opts {
    pub exclude: Priv,
    pub inherit: Option<Inherit>,
    pub on_execve: Option<OnExecve>,
    pub stat_format: StatFormat,
    pub enable: bool,
    pub sample_on: SampleOn,
    pub sample_skid: SampleSkid,
    pub sample_format: SampleFormat,
    pub extra_record: ExtraRecord,
    pub record_id_all: bool,
    pub record_id_format: RecordIdFormat,
    pub wake_up: WakeUp,
    /// Since `linux-5.4`.
    pub aux_output: bool,
    pub on_sample: OnSample,
}

/// The statistics fields of a sibling.
#[derive(Clone, Copy, Debug, Default, PartialEq, Eq, Structural)]
pub struct StatFormat {
    pub id: bool,
    pub time_enabled: bool,
    pub time_running: bool,
    /// Since `linux-6.0`.
    pub lost_records: bool,
}

impl StatFormat {
    pub open spec fn lift(self) -> crate::config::StatFormat {
        crate::config::StatFormat {
            id: self.id,
            time_enabled: self.time_enabled,
            time_running: self.time_running,
            lost_records: self.lost_records,
            siblings: false,
        }
    }

    pub fn as_read_format(&self, v: &Version) -> (r: Result<u64, Error>)
        ensures
            r is Err <==> !self.lift().supported_by(*v),
            r is Err ==> r == Err::<u64, Error>(Error::Unsupported),
            r is Ok ==> r == Ok::<u64, Error>(crate::config::read_format_of(self.lift())),
    {
        let s = crate::config::StatFormat {
            id: self.id,
            time_enabled: self.time_enabled,
            time_running: self.time_running,
            lost_records: self.lost_records,
            siblings: false,
        };
        s.as_read_format(v)
    }
}

/// What a sibling's overflow does besides sampling.
#[derive(Clone, Copy, Debug, Default)]
pub struct OnSample {
    /// Since `linux-6.13`.
    pub aux: Option<AuxTracer>,
    /// Since `linux-5.13`; the kernel wants it together with `OnExecve::Remove`.
    pub sigtrap: Option<SigData>,
}

/// Pauses or resumes the group's aux tracing on overflow (since `linux-6.13`).
#[derive(Clone, Copy, Debug, PartialEq, Eq, Structural)]
pub enum AuxTracer {
    Pause,
    Resume,
}

/// The leader's options that a sibling's options stand for.
pub open spec fn lift(o: Opts) -> crate::config::Opts {
    crate::config::Opts {
        exclude: o.exclude,
        only_group: false,
        pin_on_pmu: false,
        inherit: o.inherit,
        on_execve: o.on_execve,
        stat_format: o.stat_format.lift(),
        enable: o.enable,
        sample_on: o.sample_on,
        sample_skid: o.sample_skid,
        sample_format: o.sample_format,
        extra_record: o.extra_record,
        record_id_all: o.record_id_all,
        record_id_format: o.record_id_format,
        wake_up: o.wake_up,
        sigtrap_on_sample: o.on_sample.sigtrap,
        timer: None,
        pause_aux: false,
    }
}

fn lift_exec(o: &Opts) -> (r: crate::config::Opts)
    ensures
        r == lift(*o),
{
    crate::config::Opts {
        exclude: o.exclude,
        only_group: false,
        pin_on_pmu: false,
        inherit: o.inherit,
        on_execve: o.on_execve,
        stat_format: crate::config::StatFormat {
            id: o.stat_format.id,
            time_enabled: o.stat_format.time_enabled,
            time_running: o.stat_format.time_running,
            lost_records: o.stat_format.lost_records,
            siblings: false,
        },
        enable: o.enable,
        sample_on: o.sample_on,
        sample_skid: o.sample_skid,
        sample_format: o.sample_format,
        extra_record: o.extra_record,
        record_id_all: o.record_id_all,
        record_id_format: o.record_id_format,
        wake_up: o.wake_up,
        sigtrap_on_sample: o.on_sample.sigtrap,
        timer: None,
        pause_aux: false,
    }
}

pub open spec fn sibling_supported(e: EventConfig, o: Opts, v: Version) -> bool {
    &&& supported(e, lift(o), v)
    &&& o.aux_output ==> v.spec_at_least(5, 4)
    &&& o.on_sample.aux is Some ==> v.spec_at_least(6, 13)
}

pub open spec fn aux_action_of(a: Option<AuxTracer>) -> u32 {
    match a {
        Some(AuxTracer::Pause) => b::ATTR_AUX_PAUSE,
        Some(AuxTracer::Resume) => b::ATTR_AUX_RESUME,
        None => 0,
    }
}

/// The sibling attribute: as a leader's, with the leader's clock, `aux_output`,
/// and the aux action bits.
pub open spec fn sibling_attr_of(e: EventConfig, o: Opts, leader: Attr) -> Attr {
    let a = attr_of(e, lift(o));
    Attr {
        flags: a.flags | (leader.flags & b::ATTR_USE_CLOCKID) | (if o.aux_output {
            b::ATTR_AUX_OUTPUT
        } else {
            0
        }),
        clockid: leader.clockid,
        aux_action: aux_action_of(o.on_sample.aux),
        ..a
    }
}

/// Assembles a sibling's attribute for kernel `v`, under `leader`'s attribute.
pub fn from(e: EventConfig, o: &Opts, leader: &Attr, v: &Version) -> (r: Result<Attr, Error>)
    ensures
        r is Ok <==> sibling_supported(e, *o, *v),
        r is Err ==> r == Err::<Attr, Error>(Error::Unsupported),
        r is Ok ==> r == Ok::<Attr, Error>(sibling_attr_of(e, *o, *leader)),
{
    let lifted = lift_exec(o);
    let a = leader_from(e, &lifted, v)?;
    if o.aux_output && !v.at_least(5, 4) {
        return Err(Error::Unsupported);
    }
    let aux_action = match o.on_sample.aux {
        Some(AuxTracer::Pause) => b::ATTR_AUX_PAUSE,
        Some(AuxTracer::Resume) => b::ATTR_AUX_RESUME,
        None => 0,
    };
    if o.on_sample.aux.is_some() && !v.at_least(6, 13) {
        return Err(Error::Unsupported);
    }
    let aux_output = if o.aux_output {
        b::ATTR_AUX_OUTPUT
    } else {
        0
    };
    Ok(Attr {
        flags: a.flags | (leader.flags & b::ATTR_USE_CLOCKID) | aux_output,
        clockid: leader.clockid,
        aux_action,
        ..a
    })
}

} // verus!
