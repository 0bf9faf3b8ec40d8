//! The ingestion entry point: the one synchronous-facing surface. It copies
//! the inputs into a [`LogEvent`] for the background delivery and returns the
//! acknowledgment string at once. The acknowledgment confirms receipt only,
//! never durable persistence: delivery runs later, on a background execution
//! unit outside this crate, and its failures are operator-visible only.
//!
//! The caller's elapsed time arrives already rendered in its natural decimal
//! form; the severity code is rendered here.

use vstd::prelude::*;
use vstd::string::*;
use crate::decimal::int_str;
use crate::upsert::LogEvent;

verus! {

/// The acknowledgment for a received event: the four inputs in order, each
/// in its natural rendering, joined by single spaces.
pub open spec fn ack_of(id: Seq<char>, level: int, time: Seq<char>, message: Seq<char>) -> Seq<
    char,
> {
    id + seq![' '] + int_str(level) + seq![' '] + time + seq![' '] + message
}

/// Accepts one log event. Returns the acknowledgment-of-receipt string along
/// with the copied event for the background connect-and-write sequence; the
/// caller of the bridge sees only the string, always, whatever later becomes
/// of the event.
pub fn log(id: String, log_level: i32, time: String, message: String) -> (r: (String, LogEvent))
    ensures
        r.0@ == ack_of(id@, log_level as int, time@, message@),
        r.1.mission_id@ == id@,
        r.1.level == log_level,
        r.1.time@ == time@,
        r.1.message@ == message@,
{
    let mut ack = String::new();
    ack.append(id.as_str());
    ack.append(" ");
    crate::decimal::append_int(&mut ack, log_level);
    ack.append(" ");
    ack.append(time.as_str());
    ack.append(" ");
    ack.append(message.as_str());
    proof {
        reveal_strlit(" ");
        assert(ack@ =~= ack_of(id@, log_level as int, time@, message@));
    }
    let event = LogEvent { mission_id: id, level: log_level, time, message };
    (ack, event)
}

} // verus!
