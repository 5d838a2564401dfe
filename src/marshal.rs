use vstd::prelude::*;
use idevice::IdeviceError;
use crate::error::{category_of, device_error_code, ErrorCode};

verus! {

/// Whether the bytes hold a NUL, which a C string cannot carry.
pub open spec fn has_nul(s: Seq<u8>) -> bool {
    exists|i: int| 0 <= i < s.len() && s[i] == 0
}

/// The C form of a text: its bytes followed by one NUL terminator.
pub open spec fn c_text(s: Seq<u8>) -> Seq<u8> {
    s.push(0)
}

/// Encodes a text as a NUL-terminated C string; `None` when the text holds a
/// NUL of its own.
pub fn to_c_text(s: &Vec<u8>) -> (r: Option<Vec<u8>>)
    ensures
        r is None <==> has_nul(s@),
        r is Some ==> r->Some_0@ == c_text(s@),
{
    let mut out: Vec<u8> = Vec::with_capacity(s.len());
    let mut i: usize = 0;
    while i < s.len()
        invariant
            i <= s@.len(),
            out@ == s@.subrange(0, i as int),
            forall|j: int| 0 <= j < i ==> s@[j] != 0,
        decreases s@.len() - i,
    {
        if s[i] == 0 {
            return None;
        }
        out.push(s[i]);
        i = i + 1;
    }
    assert(out@ == s@);
    out.push(0);
    Some(out)
}

/// The label of a log record as the device library reports it.
pub struct LabelEntry {
    pub subsystem: Vec<u8>,
    pub category: Vec<u8>,
}

/// A log record as the device library reports it, with its texts as UTF-8
/// bytes and its timestamp in seconds since the epoch.
pub struct LogEntry {
    pub pid: u32,
    pub timestamp: i64,
    pub level: u8,
    pub image_name: Vec<u8>,
    pub filename: Vec<u8>,
    pub message: Vec<u8>,
    pub label: Option<LabelEntry>,
}

/// The label of a marshaled record: two owned C strings.
pub struct SyslogLabel {
    pub subsystem: Vec<u8>,
    pub category: Vec<u8>,
}

/// A marshaled log record: the scalars of the entry, its texts as owned C
/// strings, and its label, absent when the entry has none.
pub struct OsTraceLog {
    pub pid: u32,
    pub timestamp: i64,
    pub level: u8,
    pub image_name: Vec<u8>,
    pub filename: Vec<u8>,
    pub message: Vec<u8>,
    pub label: Option<SyslogLabel>,
}

/// Every text of the entry can be written as a C string.
pub open spec fn representable(e: LogEntry) -> bool {
    &&& !has_nul(e.image_name@)
    &&& !has_nul(e.filename@)
    &&& !has_nul(e.message@)
    &&& (e.label matches Some(l) ==> !has_nul(l.subsystem@) && !has_nul(l.category@))
}

/// `m` is the marshaled form of `e`.
pub open spec fn marshaled(e: LogEntry, m: OsTraceLog) -> bool {
    &&& m.pid == e.pid
    &&& m.timestamp == e.timestamp
    &&& m.level == e.level
    &&& m.image_name@ == c_text(e.image_name@)
    &&& m.filename@ == c_text(e.filename@)
    &&& m.message@ == c_text(e.message@)
    &&& (e.label is None <==> m.label is None)
    &&& (e.label matches Some(l) ==> m.label matches Some(ml)
        && ml.subsystem@ == c_text(l.subsystem@) && ml.category@ == c_text(l.category@))
}

/// Converts one log entry into its marshaled record, with storage of its own
/// for each text and for the label; `InvalidString` when a text holds a NUL.
pub fn marshal_log(e: &LogEntry) -> (r: Result<OsTraceLog, ErrorCode>)
    ensures
        r is Ok <==> representable(*e),
        r matches Ok(m) ==> marshaled(*e, m),
        r matches Err(c) ==> c is InvalidString,
{
    let image_name = match to_c_text(&e.image_name) {
        Some(t) => t,
        None => return Err(ErrorCode::InvalidString),
    };
    let filename = match to_c_text(&e.filename) {
        Some(t) => t,
        None => return Err(ErrorCode::InvalidString),
    };
    let message = match to_c_text(&e.message) {
        Some(t) => t,
        None => return Err(ErrorCode::InvalidString),
    };
    let label = match &e.label {
        None => None,
        Some(l) => {
            let subsystem = match to_c_text(&l.subsystem) {
                Some(t) => t,
                None => return Err(ErrorCode::InvalidString),
            };
            let category = match to_c_text(&l.category) {
                Some(t) => t,
                None => return Err(ErrorCode::InvalidString),
            };
            Some(SyslogLabel { subsystem, category })
        },
    };
    Ok(OsTraceLog {
        pid: e.pid,
        timestamp: e.timestamp,
        level: e.level,
        image_name,
        filename,
        message,
        label,
    })
}

/// Decides the outcome of reading the next record of a trace: the code, and
/// the marshaled record to hand to the caller, present exactly on success.
pub fn finish_next(res: Result<LogEntry, IdeviceError>) -> (r: (ErrorCode, Option<OsTraceLog>))
    ensures
        r.0 is Success <==> r.1 is Some,
        res matches Ok(e) ==> (representable(e) <==> r.0 is Success),
        res matches Ok(e) ==> (r.1 matches Some(m) ==> marshaled(e, m)),
        res matches Ok(e) ==> (!representable(e) ==> r.0 is InvalidString),
        res matches Err(err) ==> r.0 == ErrorCode::Device(category_of(err)) && r.0.wf()
            && r.1 is None,
{
    match res {
        Ok(e) => match marshal_log(&e) {
            Ok(m) => (ErrorCode::Success, Some(m)),
            Err(c) => (c, None),
        },
        Err(err) => (device_error_code(&err), None),
    }
}

} // verus!
