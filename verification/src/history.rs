//! Charging sessions: which readings belong to one, when it has ended, and
//! what is kept of it.
use crate::provider::{NormalizedData, NormalizedResource};
use vstd::prelude::*;
use vstd::string::*;

verus! {

/// One reading of a charging session: the record, and the text in which it
/// is stored beside the summary.
#[derive(Debug, PartialEq, Eq)]
pub struct ChargingHistoryStage {
    pub data: NormalizedResource,
    pub raw: String,
}

impl Clone for ChargingHistoryStage {
    fn clone(&self) -> (r: Self)
        ensures
            r == *self,
    {
        ChargingHistoryStage { data: self.data.clone(), raw: self.raw.clone() }
    }
}

/// The source of a charging session.
#[derive(Debug, PartialEq, Eq, PartialOrd, Ord, Hash)]
pub enum DeviceType {
    Local,
    /// A companion device, by its identifier.
    Remote(String),
}

/// The average and the peak of a session, and its readings one by one.
#[derive(Debug, PartialEq, Eq)]
pub struct ChargingHistoryDetail {
    pub avg: NormalizedData,
    pub peak: NormalizedData,
    pub curve: Vec<NormalizedResource>,
    pub raw: Vec<String>,
}

/// What is kept of a charging session.
#[derive(Debug, PartialEq, Eq)]
pub struct ChargingHistory {
    pub is_remote: bool,
    pub name: String,
    pub udid: String,
    pub from_level: i32,
    pub end_level: i32,
    pub duration: i64,
    pub timestamp: i64,
    pub adapter_name: String,
    pub detail: ChargingHistoryDetail,
}

/// The fewest readings that make a session worth keeping.
pub const MIN_SESSION: usize = 3;

/// The level at which the battery counts as full.
pub const FULL_LEVEL: i32 = 100;

/// The sum of the metrics of the first `upto` readings, field by field.
pub open spec fn total(staged: Seq<ChargingHistoryStage>, upto: nat) -> NormalizedData
    decreases upto,
{
    if upto == 0 {
        NormalizedData::zeroed()
    } else {
        total(staged, (upto - 1) as nat).spec_plus(staged[upto - 1].data.data)
    }
}

/// The largest of the metrics of the first `upto` readings and zero, field
/// by field.
pub open spec fn peak(staged: Seq<ChargingHistoryStage>, upto: nat) -> NormalizedData
    decreases upto,
{
    if upto == 0 {
        NormalizedData::zeroed()
    } else {
        peak(staged, (upto - 1) as nat).spec_max_with(staged[upto - 1].data.data)
    }
}

/// A count as a divisor: itself, or the largest divisor there is.
pub open spec fn divisor(count: nat) -> u32 {
    if count > u32::MAX {
        u32::MAX
    } else {
        count as u32
    }
}

/// The time between two moments, cut off at what 64 bits can hold.
pub open spec fn elapsed(from: i64, to: i64) -> i64 {
    if to - from > i64::MAX {
        i64::MAX
    } else if to - from < i64::MIN {
        i64::MIN
    } else {
        (to - from) as i64
    }
}

/// Whether a summary is the one of a session: the levels and the time of
/// its first and last reading, the adapter of its last, the average and
/// the peak of its metrics, and its readings in their order.
pub open spec fn summarizes(
    history: ChargingHistory,
    staged: Seq<ChargingHistoryStage>,
    typ: DeviceType,
    name: String,
) -> bool {
    let first = staged.first().data;
    let last = staged.last().data;
    &&& history.is_remote == (typ is Remote)
    &&& history.name == name
    &&& history.udid@ == (match typ {
        DeviceType::Local => "local"@,
        DeviceType::Remote(udid) => udid@,
    })
    &&& history.from_level == first.data.battery_level
    &&& history.end_level == last.data.battery_level
    &&& history.timestamp == first.last_update
    &&& history.duration == elapsed(first.last_update, last.last_update)
    &&& history.adapter_name@ == (match last.adapter_name {
        Some(n) => n@,
        None => "Unknown"@,
    })
    &&& history.detail.avg == total(staged, staged.len()).spec_div(divisor(staged.len()))
    &&& history.detail.peak == peak(staged, staged.len())
    &&& history.detail.curve@.len() == staged.len()
    &&& history.detail.raw@.len() == staged.len()
    &&& forall|i: int|
        0 <= i < staged.len() ==> history.detail.curve@[i] == (#[trigger] staged[i]).data
            && history.detail.raw@[i] == staged[i].raw
}

/// Sums a charging session up. A session without readings has no summary.
pub fn summarize(staged: Vec<ChargingHistoryStage>, typ: DeviceType, name: String) -> (r: Option<
    ChargingHistory,
>)
    ensures
        r is Some <==> staged@.len() > 0,
        r matches Some(history) ==> summarizes(history, staged@, typ, name),
{
    let len = staged.len();
    if len == 0 {
        return None;
    }
    let from_level = staged[0].data.data.battery_level;
    let end_level = staged[len - 1].data.data.battery_level;
    let timestamp = staged[0].data.last_update;
    let wide: i128 = staged[len - 1].data.last_update as i128 - timestamp as i128;
    let duration: i64 = if wide > i64::MAX as i128 {
        i64::MAX
    } else if wide < i64::MIN as i128 {
        i64::MIN
    } else {
        wide as i64
    };
    let adapter_name = match &staged[len - 1].data.adapter_name {
        Some(n) => n.clone(),
        None => String::from_str("Unknown"),
    };
    let mut sum = NormalizedData::default();
    let mut top = NormalizedData::default();
    let mut curve: Vec<NormalizedResource> = Vec::new();
    let mut raw: Vec<String> = Vec::new();
    let mut i: usize = 0;
    while i < len
        invariant
            i <= len,
            len == staged@.len(),
            sum == total(staged@, i as nat),
            top == peak(staged@, i as nat),
            curve@.len() == i,
            raw@.len() == i,
            forall|j: int|
                0 <= j < i ==> curve@[j] == (#[trigger] staged@[j]).data && raw@[j]
                    == staged@[j].raw,
        decreases len - i,
    {
        let stage = &staged[i];
        sum = sum.plus(&stage.data.data);
        top = top.max_with(&stage.data.data);
        curve.push(stage.data.clone());
        raw.push(stage.raw.clone());
        i = i + 1;
    }
    let n: u32 = if len > u32::MAX as usize {
        u32::MAX
    } else {
        len as u32
    };
    let is_remote = match &typ {
        DeviceType::Local => false,
        DeviceType::Remote(_) => true,
    };
    let udid = match &typ {
        DeviceType::Local => String::from_str("local"),
        DeviceType::Remote(udid) => udid.clone(),
    };
    Some(
        ChargingHistory {
            is_remote,
            name,
            udid,
            from_level,
            end_level,
            duration,
            timestamp,
            adapter_name,
            detail: ChargingHistoryDetail { avg: sum.div(n), peak: top, curve, raw },
        },
    )
}

/// Whether a reading ends the session that is under way: the source has
/// stopped charging, or the battery is full.
pub open spec fn ends_session(staged: Seq<ChargingHistoryStage>, data: NormalizedResource) -> bool {
    staged.len() > 0 && ((staged.last().data.is_charging && !data.is_charging)
        || data.data.battery_level == FULL_LEVEL)
}

/// Whether a reading goes into the session: the source is charging, the
/// battery is not full, and the reading is newer than the last one.
pub open spec fn joins_session(staged: Seq<ChargingHistoryStage>, data: NormalizedResource) -> bool {
    &&& staged.len() == 0 || data.last_update != staged.last().data.last_update
    &&& data.is_charging
    &&& data.data.battery_level != FULL_LEVEL
}

/// The readings of the charging session of one source that is under way.
pub struct ChargingSession {
    staged: Vec<ChargingHistoryStage>,
}

impl ChargingSession {
    /// The readings so far, oldest first.
    pub closed spec fn staged(&self) -> Seq<ChargingHistoryStage> {
        self.staged@
    }

    /// No session is under way.
    pub fn new() -> (r: ChargingSession)
        ensures
            r.staged() == Seq::<ChargingHistoryStage>::empty(),
    {
        ChargingSession { staged: Vec::new() }
    }

    /// Takes a reading. One that ends the session empties it and hands the
    /// session out where it is long enough to keep. Any other reading that
    /// belongs to a session joins it.
    pub fn record(&mut self, data: NormalizedResource, raw: String) -> (r: Option<
        Vec<ChargingHistoryStage>,
    >)
        ensures
            ends_session(old(self).staged(), data) ==> {
                &&& final(self).staged() == Seq::<ChargingHistoryStage>::empty()
                &&& r is Some <==> old(self).staged().len() >= MIN_SESSION
                &&& r matches Some(done) ==> done@ == old(self).staged()
            },
            !ends_session(old(self).staged(), data) ==> {
                &&& r is None
                &&& final(self).staged() == if joins_session(old(self).staged(), data) {
                    old(self).staged().push(ChargingHistoryStage { data, raw })
                } else {
                    old(self).staged()
                }
            },
    {
        let len = self.staged.len();
        let full = data.data.battery_level == FULL_LEVEL;
        let ended = len > 0 && ((self.staged[len - 1].data.is_charging && !data.is_charging) || full);
        if ended {
            let mut done: Vec<ChargingHistoryStage> = Vec::new();
            core::mem::swap(&mut self.staged, &mut done);
            if done.len() >= MIN_SESSION {
                return Some(done);
            }
            return None;
        }
        let newer = len == 0 || data.last_update != self.staged[len - 1].data.last_update;
        if newer && data.is_charging && !full {
            self.staged.push(ChargingHistoryStage { data, raw });
        }
        None
    }
}

} // verus!
