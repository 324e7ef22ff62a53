//! Caller-side command assembly: the decisions each synchronous entry point
//! makes before a command is enqueued to the worker — default quality,
//! reply timeouts, the lazy-worker decision, and the parse of a requested
//! device identifier into a device index.

use vstd::prelude::*;
use crate::actor::CameraCommand;
use crate::status::CameraDevice;

verus! {

/// Quality used when a capture request names none.
pub const DEFAULT_CAPTURE_QUALITY: u8 = 90;

/// Fixed low quality of a preview capture.
pub const PREVIEW_QUALITY: u8 = 60;

/// Seconds a caller waits for a Start or Stop reply.
pub const START_STOP_TIMEOUT_SECS: u64 = 5;

/// Seconds a caller waits for a Capture or GetStatus reply.
pub const QUERY_TIMEOUT_SECS: u64 = 2;

/// Build the Capture command for an explicit or defaulted quality.
pub fn capture_command(quality: Option<u8>) -> (c: CameraCommand)
    ensures
        c == (CameraCommand::Capture {
            quality: match quality {
                Some(q) => q,
                None => DEFAULT_CAPTURE_QUALITY,
            },
        }),
{
    match quality {
        Some(q) => CameraCommand::Capture { quality: q },
        None => CameraCommand::Capture { quality: DEFAULT_CAPTURE_QUALITY },
    }
}

/// Build the Capture command a preview uses: a capture at the fixed
/// preview quality, sharing all other capture semantics.
pub fn preview_command() -> (c: CameraCommand)
    ensures
        c == (CameraCommand::Capture { quality: PREVIEW_QUALITY }),
{
    CameraCommand::Capture { quality: PREVIEW_QUALITY }
}

/// How long a caller blocks on its reply channel for each command.
pub open spec fn reply_timeout_spec(c: CameraCommand) -> u64 {
    match c {
        CameraCommand::Start { .. } => START_STOP_TIMEOUT_SECS,
        CameraCommand::Stop => START_STOP_TIMEOUT_SECS,
        CameraCommand::Capture { .. } => QUERY_TIMEOUT_SECS,
        CameraCommand::GetStatus => QUERY_TIMEOUT_SECS,
    }
}

/// The reply timeout, in seconds, for one command.
pub fn reply_timeout_secs(c: &CameraCommand) -> (t: u64)
    ensures
        t == reply_timeout_spec(*c),
{
    match c {
        CameraCommand::Start { .. } => START_STOP_TIMEOUT_SECS,
        CameraCommand::Stop => START_STOP_TIMEOUT_SECS,
        CameraCommand::Capture { .. } => QUERY_TIMEOUT_SECS,
        CameraCommand::GetStatus => QUERY_TIMEOUT_SECS,
    }
}

/// The registry's check-and-create decision, made under its lock: a worker
/// is spawned exactly when no queue endpoint exists yet, so two first
/// callers serialized by the lock create exactly one worker.
pub fn worker_must_spawn(endpoint_present: bool) -> (r: bool)
    ensures
        r == !endpoint_present,
{
    !endpoint_present
}

/// A decimal digit byte.
pub open spec fn is_digit_byte(b: u8) -> bool {
    48 <= b && b <= 57
}

/// Every byte a decimal digit.
pub open spec fn all_digit_bytes(s: Seq<u8>) -> bool {
    forall|k: int| 0 <= k < s.len() ==> is_digit_byte(s[k])
}

/// The value of a decimal digit string.
pub open spec fn digits_value(s: Seq<u8>) -> int
    decreases s.len(),
{
    if s.len() == 0 {
        0
    } else {
        digits_value(s.drop_last()) * 10 + (s.last() - 48)
    }
}

/// The identifier's digits: an optional leading plus sign is accepted,
/// as the standard integer parse accepts it.
pub open spec fn numeric_part(s: Seq<u8>) -> Seq<u8> {
    if s.len() > 0 && s[0] == 43 {
        s.subrange(1, s.len() as int)
    } else {
        s
    }
}

/// The index a requested device identifier selects: its decimal value when
/// it parses as one that fits, and the first device (index 0) otherwise or
/// when no identifier was given.
pub open spec fn parsed_index(id: Option<Seq<u8>>) -> u32 {
    match id {
        None => 0,
        Some(s) => {
            let d = numeric_part(s);
            if d.len() > 0 && all_digit_bytes(d) && digits_value(d) <= u32::MAX {
                digits_value(d) as u32
            } else {
                0
            }
        },
    }
}

/// The identifier bytes, if an identifier was given.
pub open spec fn id_view(id: Option<Vec<u8>>) -> Option<Seq<u8>> {
    match id {
        Some(v) => Some(v@),
        None => None,
    }
}

proof fn lemma_digits_value_nonneg(s: Seq<u8>)
    requires
        all_digit_bytes(s),
    ensures
        digits_value(s) >= 0,
    decreases s.len(),
{
    if s.len() > 0 {
        assert(all_digit_bytes(s.drop_last()));
        lemma_digits_value_nonneg(s.drop_last());
    }
}

proof fn lemma_digits_value_mono(s: Seq<u8>, k: int)
    requires
        0 <= k <= s.len(),
        all_digit_bytes(s),
    ensures
        digits_value(s.subrange(0, k)) <= digits_value(s),
    decreases s.len() - k,
{
    if k == s.len() {
        assert(s.subrange(0, k) =~= s);
    } else {
        assert(s.subrange(0, k + 1).drop_last() =~= s.subrange(0, k));
        assert(all_digit_bytes(s.subrange(0, k)));
        lemma_digits_value_nonneg(s.subrange(0, k));
        lemma_digits_value_mono(s, k + 1);
    }
}

/// Parse a requested device identifier into the index to open: its decimal
/// value when it is one, and the first device otherwise.
pub fn device_index_from_id(id: &Option<Vec<u8>>) -> (r: u32)
    ensures
        r == parsed_index(id_view(*id)),
{
    let v = match id {
        Some(v) => v,
        None => {
            return 0;
        },
    };
    let start: usize = if v.len() > 0 && v[0] == 43u8 {
        1
    } else {
        0
    };
    let ghost d = numeric_part(v@);
    proof {
        assert(d =~= v@.subrange(start as int, v@.len() as int));
    }
    if v.len() == start {
        return 0;
    }
    let mut acc: u32 = 0;
    let mut j: usize = start;
    while j < v.len()
        invariant
            start <= j <= v.len(),
            id_view(*id) == Some(v@),
            d == numeric_part(v@),
            d =~= v@.subrange(start as int, v@.len() as int),
            d.len() == v@.len() - start,
            d.len() > 0,
            forall|k: int| 0 <= k < j - start ==> is_digit_byte(d[k]),
            acc == digits_value(d.subrange(0, j - start)),
        decreases v.len() - j,
    {
        let b = v[j];
        assert(d[j - start] == b);
        if b < 48 || b > 57 {
            assert(!is_digit_byte(d[j - start]));
            return 0;
        }
        let digit: u32 = (b - 48) as u32;
        proof {
            assert(d.subrange(0, j - start + 1).drop_last() =~= d.subrange(0, j - start));
            assert(d.subrange(0, j - start + 1).last() == d[j - start]);
        }
        if acc > (u32::MAX - digit) / 10 {
            proof {
                assert(digits_value(d.subrange(0, j - start + 1)) > u32::MAX);
                if all_digit_bytes(d) {
                    lemma_digits_value_mono(d, j - start + 1);
                }
            }
            return 0;
        }
        acc = acc * 10 + digit;
        j += 1;
    }
    proof {
        assert(d.subrange(0, d.len() as int) =~= d);
        assert(all_digit_bytes(d));
    }
    acc
}

/// The device list shown to callers, from the enumerated (identifier, name)
/// pairs: one entry per device, in enumeration order.
pub fn devices_from_query(pairs: Vec<(String, String)>) -> (r: Vec<CameraDevice>)
    ensures
        r@.len() == pairs@.len(),
        forall|k: int|
            0 <= k < pairs@.len() ==> r@[k].id@ == pairs@[k].0@ && r@[k].name@ == pairs@[k].1@,
{
    let mut out: Vec<CameraDevice> = Vec::new();
    let mut i: usize = 0;
    while i < pairs.len()
        invariant
            0 <= i <= pairs@.len(),
            out@.len() == i,
            forall|k: int|
                0 <= k < i ==> out@[k].id@ == pairs@[k].0@ && out@[k].name@ == pairs@[k].1@,
        decreases pairs@.len() - i,
    {
        let (id, name) = (pairs[i].0.clone(), pairs[i].1.clone());
        out.push(CameraDevice { id, name });
        i += 1;
    }
    out
}

} // verus!
