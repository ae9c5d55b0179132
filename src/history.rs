//! Watering history and the rate limiter that spaces waterings apart.
use vstd::prelude::*;
use crate::clock::current_timestamp;

verus! {

/// Seconds in one hour.
pub const SECONDS_PER_HOUR: i64 = 3600;

/// One watering: when it happened (seconds since the Unix epoch), how many
/// grams were pumped, and the soil moisture measured just before, in parts
/// per million.
#[derive(Clone, Copy, Debug, PartialEq, Eq, Structural)]
pub struct WateringRecord {
    pub time: i64,
    pub amount: u64,
    pub moisture_before_watering: i64,
}

impl WateringRecord {
    /// A record of a watering at time `time`.
    pub fn new_at(time: i64, amount: u64, moisture_before_watering: i64) -> (r: WateringRecord)
        ensures
            r == (WateringRecord { time, amount, moisture_before_watering }),
    {
        WateringRecord { time, amount, moisture_before_watering }
    }

    /// A record of a watering that happens now.
    pub fn new(amount: u64, moisture_before_watering: i64) -> (r: WateringRecord)
        ensures
            exists|now: i64| r == (WateringRecord { time: now, amount, moisture_before_watering }),
    {
        WateringRecord::new_at(current_timestamp(), amount, moisture_before_watering)
    }
}

/// The waterings so far, in the order they happened.
pub struct History {
    pub watering_records: Vec<WateringRecord>,
}

/// The latest time among `records`, or `None` when there is none.
pub open spec fn latest_time(records: Seq<WateringRecord>) -> Option<i64>
    decreases records.len(),
{
    if records.len() == 0 {
        None
    } else {
        let t = records.last().time;
        match latest_time(records.drop_last()) {
            None => Some(t),
            Some(u) => Some(if u > t { u } else { t }),
        }
    }
}

/// Whole hours from `then` to `now`, rounded toward zero.
pub open spec fn hours_between(now: int, then: int) -> int {
    let d = now - then;
    if d >= 0 {
        d / 3600
    } else {
        -((-d) / 3600)
    }
}

/// Why no watering is due.
#[derive(Clone, Copy, Debug, PartialEq, Eq, Structural)]
pub enum WateringError {
    /// The history holds no watering to measure the interval from.
    NoHistory,
    /// Only `hours_passed` hours have passed since the last watering, and at
    /// least `min_hours + 1` are asked for.
    TooSoon { hours_passed: i64, min_hours: u64 },
}

/// The rate limiter's verdict at time `now`.
pub open spec fn watering_check(records: Seq<WateringRecord>, now: i64, min_hours: u64) -> Result<
    (),
    WateringError,
> {
    match latest_time(records) {
        None => Err(WateringError::NoHistory),
        Some(t) => {
            let h = hours_between(now as int, t as int);
            if h > min_hours {
                Ok(())
            } else {
                Err(WateringError::TooSoon { hours_passed: h as i64, min_hours })
            }
        },
    }
}

/// The `n` latest records, latest first.
pub open spec fn most_recent_spec(records: Seq<WateringRecord>, n: int) -> Seq<WateringRecord> {
    let k = if n < records.len() {
        n
    } else {
        records.len() as int
    };
    Seq::new(k as nat, |i: int| records[records.len() - 1 - i])
}

impl History {
    pub fn new() -> (r: History)
        ensures
            r.watering_records@.len() == 0,
    {
        History { watering_records: Vec::new() }
    }

    /// The time of the latest watering.
    pub fn last_watering_time(&self) -> (r: Option<i64>)
        ensures
            r == latest_time(self.watering_records@),
    {
        let records = &self.watering_records;
        let mut latest: Option<i64> = None;
        let mut i: usize = 0;
        while i < records.len()
            invariant
                i <= records@.len(),
                latest == latest_time(records@.take(i as int)),
            decreases records@.len() - i,
        {
            let t = records[i].time;
            latest = match latest {
                None => Some(t),
                Some(u) => Some(if u > t { u } else { t }),
            };
            proof {
                let next = records@.take(i + 1);
                assert(next.drop_last() =~= records@.take(i as int));
            }
            i = i + 1;
        }
        assert(records@.take(i as int) =~= records@);
        latest
    }

    /// Appends the record of a watering.
    pub fn push(&mut self, record: WateringRecord)
        ensures
            final(self).watering_records@ == old(self).watering_records@.push(record),
    {
        self.watering_records.push(record);
    }

    /// The `n` latest records, latest first.
    pub fn most_recent(&self, n: usize) -> (r: Vec<WateringRecord>)
        ensures
            r@ == most_recent_spec(self.watering_records@, n as int),
    {
        let records = &self.watering_records;
        let k: usize = if n < records.len() {
            n
        } else {
            records.len()
        };
        let mut out: Vec<WateringRecord> = Vec::new();
        let mut i: usize = 0;
        while i < k
            invariant
                k <= records@.len(),
                k == if n < records@.len() {
                    n as int
                } else {
                    records@.len() as int
                },
                i <= k,
                out@ =~= Seq::new(i as nat, |j: int| records@[records@.len() - 1 - j]),
            decreases k - i,
        {
            out.push(records[records.len() - 1 - i]);
            i = i + 1;
        }
        out
    }

    /// Checks the minimum interval: a watering is due at `now` only when
    /// more than `min_hours` whole hours have passed since the latest one.
    pub fn watering_due(&self, now: i64, min_hours: u64) -> (r: Result<(), WateringError>)
        ensures
            r == watering_check(self.watering_records@, now, min_hours),
    {
        match self.last_watering_time() {
            None => Err(WateringError::NoHistory),
            Some(t) => {
                let d: i128 = now as i128 - t as i128;
                let h: i128 = if d >= 0 {
                    d / 3600
                } else {
                    -((-d) / 3600)
                };
                if h > min_hours as i128 {
                    Ok(())
                } else {
                    Err(WateringError::TooSoon { hours_passed: h as i64, min_hours })
                }
            },
        }
    }
}

impl Default for History {
    fn default() -> (r: History)
        ensures
            r.watering_records@.len() == 0,
    {
        History::new()
    }
}

/// A watering is attempted exactly when the history has a latest record and
/// more than the configured number of whole hours have passed since it; an
/// empty history refuses with `NoHistory`.
pub proof fn lemma_rate_limit(records: Seq<WateringRecord>, now: i64, min_hours: u64)
    ensures
        watering_check(records, now, min_hours) is Ok <==> (latest_time(records) matches Some(t)
            && hours_between(now as int, t as int) > min_hours),
        records.len() == 0 ==> watering_check(records, now, min_hours) == Err::<(), WateringError>(
            WateringError::NoHistory,
        ),
{
}

} // verus!
