//! Choice of the cron schedule that periodic scanners run on.

use vstd::prelude::*;
use crate::text::copy_str;

verus! {

/// Every thirty seconds, on the half minute.
pub const DEFAULT_CRON_EXPRESSION: &'static str = "0/30 * * * * *";

/// Default size of the scheduler's channel.
pub const DEFAULT_CHANNELS: usize = 5;

/// Whether the job scheduler accepts `expr` as a cron schedule.
pub uninterp spec fn cron_schedule_accepted(expr: Seq<char>) -> bool;

/// Asks `tokio_cron_scheduler::Job::new` to parse `expr`, a six-field cron
/// schedule with seconds; returns whether the job could be built. The parse
/// depends on the expression alone, so its outcome is named, not described.
#[verifier::external_body]
fn cron_accepted(expr: &str) -> (ok: bool)
    ensures
        ok == cron_schedule_accepted(expr@),
{
    tokio_cron_scheduler::Job::new(expr, |_id, _lock| {}).is_ok()
}

/// The expression a scanner is asked to run on: the first one given, else the default.
pub open spec fn requested_cron(first: Option<Seq<char>>, second: Option<Seq<char>>) -> Seq<char> {
    match first {
        Some(c) => c,
        None => match second {
            Some(c) => c,
            None => DEFAULT_CRON_EXPRESSION@,
        },
    }
}

/// The expression a scanner runs on: the requested one when the scheduler accepts it,
/// else the default.
pub open spec fn effective_cron(requested: Seq<char>) -> Seq<char> {
    if cron_schedule_accepted(requested) {
        requested
    } else {
        DEFAULT_CRON_EXPRESSION@
    }
}

pub open spec fn opt_view(o: Option<String>) -> Option<Seq<char>> {
    match o {
        Some(s) => Some(s@),
        None => None,
    }
}

/// Resolves the cron expression and channel size a scanner starts with.
/// Arguments given at startup take precedence over the configured values,
/// which take precedence over the defaults; a schedule the scheduler refuses
/// falls back to the default one.
pub fn resolve_schedule(
    arg_cron: &Option<String>,
    configured_cron: &Option<String>,
    arg_channels: Option<usize>,
    configured_channels: Option<usize>,
) -> (r: (String, usize))
    ensures
        r.0@ == effective_cron(requested_cron(opt_view(*arg_cron), opt_view(*configured_cron))),
        r.1 == (match arg_channels {
            Some(c) => c,
            None => match configured_channels {
                Some(c) => c,
                None => DEFAULT_CHANNELS,
            },
        }),
{
    let requested: &str = match arg_cron {
        Some(c) => c.as_str(),
        None => match configured_cron {
            Some(c) => c.as_str(),
            None => DEFAULT_CRON_EXPRESSION,
        },
    };
    let cron = if cron_accepted(requested) {
        copy_str(requested)
    } else {
        copy_str(DEFAULT_CRON_EXPRESSION)
    };
    let channels = match arg_channels {
        Some(c) => c,
        None => match configured_channels {
            Some(c) => c,
            None => DEFAULT_CHANNELS,
        },
    };
    (cron, channels)
}

} // verus!
