//! Traces: the filters and paging of the trace list, and the summary of one
//! trace from its spans.
use vstd::prelude::*;

use crate::http::{is_error, parse_uuid_str, uuid_parse, uuid_text, uuid_to_string, ApiError};
use crate::listing::{after_offset, apply_offset, capped_limit};
use crate::messages::opt_view;
use crate::text::{str_eq, to_owned_string};
use crate::time::{before, div_toward_zero, millis_between, nanos_between, Timestamp};

verus! {

/// A trace as the store lists it.
#[derive(Debug, Clone)]
pub struct TraceRecord {
    pub trace_id: String,
    pub root_service_name: Option<String>,
    pub start_time: Timestamp,
    pub end_time: Timestamp,
    pub error_count: i64,
    pub tool_names: Vec<String>,
    pub conversation_id: Option<u128>,
}

/// A trace as the list shows it.
#[derive(Debug, Clone)]
pub struct TraceSummaryResponse {
    pub trace_id: String,
    pub persona_id: String,
    pub start_time: Timestamp,
    pub duration_ms: i64,
    pub skill_name: Option<String>,
    pub status: String,
    pub conversation_id: Option<String>,
}

/// Query of `GET /api/traces`.
#[derive(Debug, Clone)]
pub struct TracesQueryParams {
    pub limit: Option<i64>,
    pub offset: Option<i64>,
    pub since: Option<Timestamp>,
    pub until: Option<Timestamp>,
    pub skill: Option<String>,
    pub status: Option<String>,
    pub conversation: Option<String>,
}

/// The number of traces asked of the store: 50 by default, at most 200.
pub fn trace_limit(params: &TracesQueryParams) -> (r: i64)
    ensures
        r == (match params.limit {
            Some(l) => if l < 200 {
                l
            } else {
                200
            },
            None => 50,
        }),
{
    capped_limit(params.limit, 50, 200)
}

/// The status of a trace: `error` when any of its spans failed.
pub open spec fn trace_status(t: TraceRecord) -> Seq<char> {
    if t.error_count > 0 {
        "error"@
    } else {
        "ok"@
    }
}

/// The conversation filter of the query: a conversation id that does not
/// parse filters nothing.
pub open spec fn conversation_filter(params: TracesQueryParams) -> Option<u128> {
    match params.conversation {
        Some(c) => uuid_parse(c@),
        None => None,
    }
}

/// Whether a trace passes the query's filters on status, conversation and
/// start time (inclusive bounds).
pub open spec fn trace_passes(params: TracesQueryParams, conv: Option<u128>, t: TraceRecord) -> bool {
    &&& (match params.status {
        Some(s) => trace_status(t) == s@,
        None => true,
    })
    &&& (match conv {
        Some(c) => t.conversation_id == Some(c),
        None => true,
    })
    &&& (match params.since {
        Some(s) => !t.start_time.precedes(s),
        None => true,
    })
    &&& (match params.until {
        Some(u) => !u.precedes(t.start_time),
        None => true,
    })
}

/// The traces that pass the filters, in order.
pub open spec fn passing_traces(ts: Seq<TraceRecord>, params: TracesQueryParams, conv: Option<u128>) -> Seq<
    TraceRecord,
>
    decreases ts.len(),
{
    if ts.len() == 0 {
        Seq::empty()
    } else if trace_passes(params, conv, ts.last()) {
        passing_traces(ts.drop_last(), params, conv).push(ts.last())
    } else {
        passing_traces(ts.drop_last(), params, conv)
    }
}

/// Whether a summary shows a trace: its persona is the root service, its
/// skill the first tool it used, its duration the whole milliseconds from
/// start to end.
pub open spec fn trace_summary_match(t: TraceRecord, s: TraceSummaryResponse) -> bool {
    &&& s.trace_id@ == t.trace_id@
    &&& s.persona_id@ == (match t.root_service_name {
        Some(n) => n@,
        None => Seq::empty(),
    })
    &&& s.start_time == t.start_time
    &&& s.duration_ms == div_toward_zero(nanos_between(t.start_time, t.end_time), 1_000_000)
    &&& opt_view(s.skill_name) == (if t.tool_names.len() > 0 {
        Some(t.tool_names[0]@)
    } else {
        None::<Seq<char>>
    })
    &&& s.status@ == trace_status(t)
    &&& opt_view(s.conversation_id) == (match t.conversation_id {
        Some(c) => Some(uuid_text(c)),
        None => None::<Seq<char>>,
    })
}

/// Whether every point in time of a listing request lies in the range of
/// date-times (as every chrono date-time does).
pub open spec fn times_ok(ts: Seq<TraceRecord>, params: TracesQueryParams) -> bool {
    &&& forall|i: int|
        0 <= i < ts.len() ==> (#[trigger] ts[i]).start_time.wf() && ts[i].end_time.wf()
    &&& (match params.since {
        Some(s) => s.wf(),
        None => true,
    })
    &&& (match params.until {
        Some(u) => u.wf(),
        None => true,
    })
}

/// Whether every point in time of a listing request lies in the range of
/// date-times; always so for points that came from chrono date-times.
pub fn listing_in_range(traces: &[TraceRecord], params: &TracesQueryParams) -> (r: bool)
    ensures
        r == times_ok(traces@, *params),
{
    let mut i: usize = 0;
    while i < traces.len()
        invariant
            i <= traces.len(),
            forall|j: int|
                0 <= j < i ==> (#[trigger] traces@[j]).start_time.wf() && traces@[j].end_time.wf(),
        decreases traces.len() - i,
    {
        if !crate::time::in_range(traces[i].start_time) || !crate::time::in_range(traces[i].end_time) {
            return false;
        }
        i = i + 1;
    }
    let since_ok = match params.since {
        Some(s) => crate::time::in_range(s),
        None => true,
    };
    let until_ok = match params.until {
        Some(u) => crate::time::in_range(u),
        None => true,
    };
    since_ok && until_ok
}

fn summarize_trace(t: &TraceRecord) -> (r: TraceSummaryResponse)
    requires
        t.start_time.wf(),
        t.end_time.wf(),
    ensures
        trace_summary_match(*t, r),
{
    let status = if t.error_count > 0 {
        to_owned_string("error")
    } else {
        to_owned_string("ok")
    };
    let persona_id = match &t.root_service_name {
        Some(n) => n.clone(),
        None => String::new(),
    };
    let skill_name = if t.tool_names.len() > 0 {
        Some(t.tool_names[0].clone())
    } else {
        None
    };
    let conversation_id = match t.conversation_id {
        Some(c) => Some(uuid_to_string(c)),
        None => None,
    };
    TraceSummaryResponse {
        trace_id: t.trace_id.clone(),
        persona_id,
        start_time: t.start_time,
        duration_ms: millis_between(t.start_time, t.end_time),
        skill_name,
        status,
        conversation_id,
    }
}

/// The answer of `GET /api/traces` from the traces the store listed: the
/// ones that pass the filters, as summaries, after the offset.
pub fn trace_listing(traces: &[TraceRecord], params: &TracesQueryParams) -> (r: Vec<
    TraceSummaryResponse,
>)
    requires
        times_ok(traces@, *params),
    ensures
        ({
            let kept = after_offset(
                passing_traces(traces@, *params, conversation_filter(*params)),
                params.offset,
            );
            &&& r.len() == kept.len()
            &&& forall|i: int| 0 <= i < r.len() ==> trace_summary_match(kept[i], #[trigger] r[i])
        }),
{
    let conv = match &params.conversation {
        Some(c) => parse_uuid_str(c.as_str()),
        None => None,
    };
    let ghost p = *params;
    let mut sums: Vec<TraceSummaryResponse> = Vec::new();
    let mut i: usize = 0;
    assert(traces@.take(0) =~= Seq::<TraceRecord>::empty());
    while i < traces.len()
        invariant
            i <= traces.len(),
            p == *params,
            times_ok(traces@, p),
            conv == conversation_filter(p),
            sums.len() == passing_traces(traces@.take(i as int), p, conv).len(),
            forall|k: int|
                0 <= k < sums.len() ==> trace_summary_match(
                    passing_traces(traces@.take(i as int), p, conv)[k],
                    #[trigger] sums[k],
                ),
        decreases traces.len() - i,
    {
        let t = &traces[i];
        proof {
            let s = traces@.take(i + 1);
            assert(s.drop_last() =~= traces@.take(i as int));
            assert(s.last() == traces@[i as int]);
            assert(traces@[i as int].start_time.wf());
        }
        let status_ok = match &params.status {
            Some(s) => {
                if t.error_count > 0 {
                    str_eq(s.as_str(), "error")
                } else {
                    str_eq(s.as_str(), "ok")
                }
            },
            None => true,
        };
        let conv_ok = match conv {
            Some(c) => t.conversation_id == Some(c),
            None => true,
        };
        let since_ok = match params.since {
            Some(s) => !before(t.start_time, s),
            None => true,
        };
        let until_ok = match params.until {
            Some(u) => !before(u, t.start_time),
            None => true,
        };
        if status_ok && conv_ok && since_ok && until_ok {
            sums.push(summarize_trace(t));
        }
        i = i + 1;
    }
    assert(traces@.take(traces.len() as int) =~= traces@);
    let ghost all = passing_traces(traces@, p, conv);
    let ghost before_offset = sums@;
    let r = apply_offset(sums, params.offset);
    proof {
        if (crate::listing::offset_of(params.offset) as int) < all.len() {
            let o = crate::listing::offset_of(params.offset) as int;
            assert forall|i: int| 0 <= i < r.len() implies trace_summary_match(
                after_offset(all, params.offset)[i],
                #[trigger] r[i],
            ) by {
                assert(r@[i] == before_offset[o + i]);
            }
        }
    }
    r
}

// -- One trace --------------------------------------------------------------------------

/// A span as the store keeps it.
#[derive(Debug)]
pub struct SpanRecord {
    pub span_id: String,
    pub name: String,
    pub start_time: Timestamp,
    pub end_time: Timestamp,
    pub duration_ms: i64,
    pub attributes: serde_json::Value,
    pub service_name: Option<String>,
}

/// A span as the trace view shows it.
#[derive(Debug)]
pub struct SpanEntryResponse {
    pub span_id: String,
    pub name: String,
    pub start_time: Timestamp,
    pub duration_ms: i64,
    pub attributes: serde_json::Value,
}

/// A trace with its spans.
#[derive(Debug)]
pub struct TraceDetailResponse {
    pub trace_id: String,
    pub persona_id: String,
    pub start_time: Timestamp,
    pub duration_ms: i64,
    pub spans: Vec<SpanEntryResponse>,
}

/// The earliest start of the spans.
pub open spec fn earliest_start(s: Seq<SpanRecord>) -> Timestamp
    decreases s.len(),
{
    if s.len() <= 1 {
        s[0].start_time
    } else {
        let m = earliest_start(s.drop_last());
        let x = s.last().start_time;
        if x.precedes(m) {
            x
        } else {
            m
        }
    }
}

/// The latest end of the spans.
pub open spec fn latest_end(s: Seq<SpanRecord>) -> Timestamp
    decreases s.len(),
{
    if s.len() <= 1 {
        s[0].end_time
    } else {
        let m = latest_end(s.drop_last());
        let x = s.last().end_time;
        if m.precedes(x) {
            x
        } else {
            m
        }
    }
}

/// Whether every point in time of the spans lies in the range of
/// date-times; always so for points that came from chrono date-times.
pub fn spans_in_range(spans: &[SpanRecord]) -> (r: bool)
    ensures
        r == forall|i: int|
            0 <= i < spans.len() ==> (#[trigger] spans[i]).start_time.wf() && spans[i].end_time.wf(),
{
    let mut i: usize = 0;
    while i < spans.len()
        invariant
            i <= spans.len(),
            forall|j: int|
                0 <= j < i ==> (#[trigger] spans@[j]).start_time.wf() && spans@[j].end_time.wf(),
        decreases spans.len() - i,
    {
        if !crate::time::in_range(spans[i].start_time) || !crate::time::in_range(spans[i].end_time) {
            return false;
        }
        i = i + 1;
    }
    true
}

/// The answer of `GET /api/traces/{id}` from the spans the store returned:
/// `404` (JSON) for a trace without spans; otherwise the trace runs from
/// its earliest span start to its latest span end, and its persona is the
/// first span's service.
pub fn trace_detail(trace_id: &str, spans: Vec<SpanRecord>) -> (r: Result<TraceDetailResponse, ApiError>)
    requires
        forall|i: int|
            0 <= i < spans.len() ==> (#[trigger] spans[i]).start_time.wf() && spans[i].end_time.wf(),
    ensures
        spans.len() == 0 ==> r is Err && is_error(r->Err_0, 404, "Trace not found"@, true),
        spans.len() > 0 ==> r is Ok && {
            let d = r->Ok_0;
            &&& d.trace_id@ == trace_id@
            &&& d.persona_id@ == (match spans[0].service_name {
                Some(n) => n@,
                None => Seq::empty(),
            })
            &&& d.start_time == earliest_start(spans@)
            &&& d.duration_ms == div_toward_zero(
                nanos_between(earliest_start(spans@), latest_end(spans@)),
                1_000_000,
            )
            &&& d.spans.len() == spans.len()
            &&& forall|i: int|
                0 <= i < spans.len() ==> {
                    let e = #[trigger] d.spans[i];
                    &&& e.span_id == spans[i].span_id
                    &&& e.name == spans[i].name
                    &&& e.start_time == spans[i].start_time
                    &&& e.duration_ms == spans[i].duration_ms
                }
        },
{
    if spans.len() == 0 {
        return Err(ApiError::json(404, "Trace not found"));
    }
    let mut start = spans[0].start_time;
    let mut end = spans[0].end_time;
    let mut i: usize = 1;
    assert(spans@.take(1).drop_last() =~= Seq::<SpanRecord>::empty());
    while i < spans.len()
        invariant
            1 <= i <= spans.len(),
            forall|j: int|
                0 <= j < spans.len() ==> (#[trigger] spans[j]).start_time.wf()
                    && spans[j].end_time.wf(),
            start.wf(),
            end.wf(),
            start == earliest_start(spans@.take(i as int)),
            end == latest_end(spans@.take(i as int)),
        decreases spans.len() - i,
    {
        proof {
            let t = spans@.take(i + 1);
            assert(t.drop_last() =~= spans@.take(i as int));
            assert(t.last() == spans@[i as int]);
        }
        if before(spans[i].start_time, start) {
            start = spans[i].start_time;
        }
        if before(end, spans[i].end_time) {
            end = spans[i].end_time;
        }
        i = i + 1;
    }
    assert(spans@.take(spans.len() as int) =~= spans@);
    let persona_id = match &spans[0].service_name {
        Some(n) => n.clone(),
        None => String::new(),
    };
    let duration_ms = millis_between(start, end);
    let ghost orig = spans@;
    let total = spans.len();
    let mut rest = spans;
    let mut entries: Vec<SpanEntryResponse> = Vec::new();
    while rest.len() > 0
        invariant
            entries.len() + rest.len() == total,
            total == orig.len(),
            rest@ == orig.skip(entries.len() as int),
            forall|j: int|
                0 <= j < entries.len() ==> {
                    let e = #[trigger] entries[j];
                    &&& e.span_id == orig[j].span_id
                    &&& e.name == orig[j].name
                    &&& e.start_time == orig[j].start_time
                    &&& e.duration_ms == orig[j].duration_ms
                },
        decreases rest.len(),
    {
        let s = rest.remove(0);
        assert(orig.skip(entries.len() + 1) =~= orig.skip(entries.len() as int).remove(0));
        entries.push(
            SpanEntryResponse {
                span_id: s.span_id,
                name: s.name,
                start_time: s.start_time,
                duration_ms: s.duration_ms,
                attributes: s.attributes,
            },
        );
    }
    Ok(
        TraceDetailResponse {
            trace_id: to_owned_string(trace_id),
            persona_id,
            start_time: start,
            duration_ms,
            spans: entries,
        },
    )
}

// -- Laws of the listing --------------------------------------------------------------

/// Every listed trace is one of the store's traces and meets each filter of
/// the query: the requested status (`error` exactly for traces with
/// errors), the conversation, and a start no earlier than `since` and no
/// later than `until`.
pub proof fn law_listed_traces_meet_the_filters(
    ts: Seq<TraceRecord>,
    params: TracesQueryParams,
    conv: Option<u128>,
    k: int,
)
    requires
        0 <= k < passing_traces(ts, params, conv).len(),
    ensures
        ({
            let t = passing_traces(ts, params, conv)[k];
            &&& exists|j: int| 0 <= j < ts.len() && ts[j] == t
            &&& params.status matches Some(s) ==> ((t.error_count > 0 && s@ == "error"@) || (
            t.error_count <= 0 && s@ == "ok"@))
            &&& conv matches Some(c) ==> t.conversation_id == Some(c)
            &&& params.since matches Some(s) ==> !t.start_time.precedes(s)
            &&& params.until matches Some(u) ==> !u.precedes(t.start_time)
        }),
    decreases ts.len(),
{
    let init = ts.drop_last();
    let p = passing_traces(ts, params, conv);
    let pi = passing_traces(init, params, conv);
    if trace_passes(params, conv, ts.last()) && k == pi.len() {
        assert(p[k] == ts.last());
        assert(ts[ts.len() - 1] == ts.last());
    } else {
        assert(p[k] == pi[k]);
        law_listed_traces_meet_the_filters(init, params, conv, k);
        let t = pi[k];
        let j = choose|j: int| 0 <= j < init.len() && init[j] == t;
        assert(ts[j] == init[j]);
    }
}

/// A trace's detail runs from its earliest span start to its latest span
/// end: no span starts before the start or ends after the end, and some
/// span starts at it and some ends at it.
pub proof fn law_trace_bounds(s: Seq<SpanRecord>)
    requires
        s.len() > 0,
    ensures
        forall|i: int| 0 <= i < s.len() ==> !(#[trigger] s[i]).start_time.precedes(earliest_start(s)),
        forall|i: int| 0 <= i < s.len() ==> !latest_end(s).precedes((#[trigger] s[i]).end_time),
        exists|i: int| 0 <= i < s.len() && s[i].start_time == earliest_start(s),
        exists|i: int| 0 <= i < s.len() && s[i].end_time == latest_end(s),
    decreases s.len(),
{
    if s.len() == 1 {
        assert(s[0].start_time == earliest_start(s));
        assert(s[0].end_time == latest_end(s));
    } else {
        let init = s.drop_last();
        law_trace_bounds(init);
        let last = s.len() - 1;
        assert(s[last] == s.last());
        assert forall|i: int| 0 <= i < s.len() implies !(#[trigger] s[i]).start_time.precedes(
            earliest_start(s),
        ) by {
            if i < last {
                assert(s[i] == init[i]);
            }
        }
        assert forall|i: int| 0 <= i < s.len() implies !latest_end(s).precedes(
            (#[trigger] s[i]).end_time,
        ) by {
            if i < last {
                assert(s[i] == init[i]);
            }
        }
        if s.last().start_time.precedes(earliest_start(init)) {
            assert(s[last].start_time == earliest_start(s));
        } else {
            let i = choose|i: int| 0 <= i < init.len() && init[i].start_time == earliest_start(init);
            assert(s[i] == init[i]);
        }
        if latest_end(init).precedes(s.last().end_time) {
            assert(s[last].end_time == latest_end(s));
        } else {
            let i = choose|i: int| 0 <= i < init.len() && init[i].end_time == latest_end(init);
            assert(s[i] == init[i]);
        }
    }
}

} // verus!
