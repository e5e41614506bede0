//! The verified half of a decode session: what is decided before and after
//! each call into the native engine, and the stream snapshot it keeps.
use vstd::prelude::*;
use vstd::string::StringSliceAdditionalSpecFns;

use crate::error::{Error, Result};
use crate::rational::{is_lowest_terms, TimeBase};
use crate::timestamp::{ticks_in, ticks_of_seconds, Timestamp};

verus! {

/// Whether `bytes` holds a zero byte, which would end a native string early.
pub open spec fn has_zero_byte(bytes: Seq<u8>) -> bool {
    exists|i: int| 0 <= i < bytes.len() && bytes[i] == 0
}

/// Turns a path into the zero-terminated bytes that the engine takes: its
/// UTF-8 bytes and a closing zero. A path that itself holds a zero byte cannot
/// be written so, and is refused before the engine is involved.
pub fn encode_path(path: &str) -> (r: Result<Vec<u8>>)
    ensures
        match r {
            Ok(v) => !has_zero_byte(path.spec_bytes()) && v@ == path.spec_bytes().push(0),
            Err(e) => has_zero_byte(path.spec_bytes()) && e == Error::PathEncoding,
        },
{
    let bytes = path.as_bytes();
    let mut out: Vec<u8> = Vec::new();
    let mut i: usize = 0;
    while i < bytes.len()
        invariant
            bytes@ == path.spec_bytes(),
            i <= bytes@.len(),
            out@ == bytes@.subrange(0, i as int),
            forall|j: int| 0 <= j < i ==> bytes@[j] != 0,
        decreases bytes@.len() - i,
    {
        if bytes[i] == 0 {
            return Err(Error::PathEncoding);
        }
        out.push(bytes[i]);
        i = i + 1;
    }
    assert(out@ == bytes@);
    out.push(0);
    Ok(out)
}

/// Reads the status of the engine's open call: zero means the resource is
/// open, anything else is kept as the engine's error code.
pub fn check_open_status(status: i32) -> (r: Result<()>)
    ensures
        r == (if status == 0 {
            Ok(())
        } else {
            Err(Error::Engine(status))
        }),
{
    if status == 0 {
        Ok(())
    } else {
        Err(Error::Engine(status))
    }
}

/// What the engine reports about an open stream, as it reports it: times in
/// raw ticks, and the time base as an unreduced fraction.
#[derive(Clone, Copy, Debug, PartialEq, Eq, Structural)]
pub struct EngineInfo {
    pub bitrate: i32,
    pub sample_rate: i32,
    pub start_time: i64,
    pub duration: i64,
    pub time_base_num: i64,
    pub time_base_den: i64,
}

impl EngineInfo {
    /// The report names a time base that can be reduced.
    pub open spec fn readable(self) -> bool {
        &&& self.time_base_den != 0
        &&& self.time_base_num != i64::MIN
        &&& self.time_base_den != i64::MIN
    }
}

/// Stream metadata, read once when the session opens.
#[derive(Clone, Copy, Debug, PartialEq, Eq, Structural)]
pub struct Info {
    pub bitrate: i32,
    pub sample_rate: i32,
    pub start_time: Timestamp,
    pub duration: Timestamp,
    pub time_base: TimeBase,
}

/// `info` is the engine's report `raw` with its times typed: the time base
/// reduced, and both times counted in it.
pub open spec fn describes(info: Info, raw: EngineInfo) -> bool {
    &&& info.bitrate == raw.bitrate
    &&& info.sample_rate == raw.sample_rate
    &&& is_lowest_terms(
        info.time_base.num(),
        info.time_base.den(),
        raw.time_base_num as int,
        raw.time_base_den as int,
    )
    &&& info.start_time == Timestamp::at(info.time_base, raw.start_time)
    &&& info.duration == Timestamp::at(info.time_base, raw.duration)
}

impl Info {
    pub fn from_engine(raw: &EngineInfo) -> (r: Info)
        requires
            raw.readable(),
        ensures
            describes(r, *raw),
    {
        let time_base = TimeBase::new(raw.time_base_num, raw.time_base_den);
        Info {
            bitrate: raw.bitrate,
            sample_rate: raw.sample_rate,
            start_time: Timestamp::from_pts(time_base, raw.start_time),
            duration: Timestamp::from_pts(time_base, raw.duration),
            time_base,
        }
    }
}

/// One piece of decoded 16-bit PCM data and the time it starts at. The bytes
/// belong to the session's decode buffer and are valid until the next call on
/// the session.
#[derive(Debug)]
pub struct Chunk<'a> {
    pub data: &'a [i8],
    pub time: Timestamp,
}

/// The state of an open session that does not live in the engine: the stream
/// snapshot, by which every tick count that the engine returns is read.
#[derive(Debug)]
pub struct Session {
    pub(crate) info: Info,
}

impl Session {
    /// The snapshot taken when the session opened.
    pub open(crate) spec fn snapshot(self) -> Info {
        self.info
    }

    /// The session of a stream that the engine opened and reported as `raw`.
    pub fn new(raw: &EngineInfo) -> (r: Session)
        requires
            raw.readable(),
        ensures
            describes(r.snapshot(), *raw),
    {
        Session { info: Info::from_engine(raw) }
    }

    /// The snapshot; the engine is not asked again, and nothing that a
    /// session does changes it.
    pub fn info(&self) -> (r: &Info)
        ensures
            *r == self.snapshot(),
    {
        &self.info
    }

    /// Reads the engine's answer to a request for the next chunk: `produced`
    /// above zero means that `data` was decoded at `pts` ticks of the stream's
    /// time base; otherwise the stream is at its end, or decoding failed.
    pub fn chunk<'a>(&self, produced: i32, data: &'a [i8], pts: i64) -> (r: Option<Chunk<'a>>)
        ensures
            match r {
                Some(c) => produced > 0 && c.data@ == data@ && c.time == Timestamp::at(
                    self.snapshot().time_base,
                    pts,
                ),
                None => produced <= 0,
            },
    {
        if produced > 0 {
            Some(Chunk { data, time: Timestamp::from_pts(self.info.time_base, pts) })
        } else {
            None
        }
    }

    /// Chunk times are ordered exactly as the engine's tick counts are: the
    /// times that a session hands out never decrease while the engine's
    /// ticks do not.
    pub proof fn law_chunk_times_keep_tick_order(self, p: i64, q: i64)
        ensures
            Timestamp::at(self.snapshot().time_base, p).ticks() <= Timestamp::at(
                self.snapshot().time_base,
                q,
            ).ticks() <==> p <= q,
    {
    }

    /// The tick that a seek to `seconds` whole seconds asks the engine for:
    /// `seconds × den ÷ num` of the stream's time base, truncated toward zero.
    pub fn seek_target(&self, seconds: i64) -> (r: i64)
        requires
            self.snapshot().time_base.num() != 0,
            i64::MIN <= ticks_in(self.snapshot().time_base, seconds as int) <= i64::MAX,
        ensures
            r == ticks_in(self.snapshot().time_base, seconds as int),
    {
        ticks_of_seconds(self.info.time_base, seconds)
    }
}

} // verus!
