//! Log listing: severity names and numbers, the query asked of the store,
//! and the time filters and paging applied to what it returned.
use vstd::prelude::*;

use crate::listing::{after_offset, apply_offset, capped_limit};
use crate::messages::opt_view;
use crate::text::{str_eq, to_owned_string};
use crate::time::{before, Timestamp};

verus! {

// -- Severity -----------------------------------------------------------------------

/// What `str::to_uppercase` gives for a string.
pub uninterp spec fn upper_text(s: Seq<char>) -> Seq<char>;

/// Calls `str::to_uppercase`. Its result is named `upper_text`; of an
/// all-ASCII text it is the text with `a` to `z` upper-cased and every other
/// character kept (the Unicode upper case of an ASCII letter is its ASCII
/// capital, and ASCII has no other lower-case letters). What it gives for
/// other characters is left to the name.
#[verifier::external_body]
fn to_uppercase(s: &str) -> (r: String)
    ensures
        r@ == upper_text(s@),
        crate::text::all_ascii(s@) ==> r@ == s@.map_values(|c: char| crate::text::ascii_upper(c)),
{
    s.to_uppercase()
}

/// The severity number of an upper-case severity name.
pub open spec fn severity_of_upper(u: Seq<char>) -> Option<i32> {
    if u == "TRACE"@ {
        Some(1)
    } else if u == "DEBUG"@ {
        Some(5)
    } else if u == "INFO"@ {
        Some(9)
    } else if u == "WARN"@ {
        Some(13)
    } else if u == "ERROR"@ {
        Some(17)
    } else {
        None
    }
}

/// The severity number of an upper-case severity name.
pub fn severity_number_of_upper(u: &str) -> (r: Option<i32>)
    ensures
        r == severity_of_upper(u@),
{
    if str_eq(u, "TRACE") {
        Some(1)
    } else if str_eq(u, "DEBUG") {
        Some(5)
    } else if str_eq(u, "INFO") {
        Some(9)
    } else if str_eq(u, "WARN") {
        Some(13)
    } else if str_eq(u, "ERROR") {
        Some(17)
    } else {
        None
    }
}

/// The lowest severity number of a severity name, in any case.
pub fn severity_text_to_number(severity: &str) -> (r: Option<i32>)
    ensures
        r == severity_of_upper(upper_text(severity@)),
        crate::text::all_ascii(severity@) ==> r == severity_of_upper(
            severity@.map_values(|c: char| crate::text::ascii_upper(c)),
        ),
{
    let u = to_uppercase(severity);
    severity_number_of_upper(u.as_str())
}

/// The name of a severity number's band.
pub open spec fn severity_name(num: i32) -> Seq<char> {
    if 1 <= num <= 4 {
        "TRACE"@
    } else if 5 <= num <= 8 {
        "DEBUG"@
    } else if 9 <= num <= 12 {
        "INFO"@
    } else if 13 <= num <= 16 {
        "WARN"@
    } else if 17 <= num <= 20 {
        "ERROR"@
    } else {
        "UNKNOWN"@
    }
}

/// The name of a severity number's band.
pub fn severity_number_to_text(num: i32) -> (r: &'static str)
    ensures
        r@ == severity_name(num),
{
    if 1 <= num && num <= 4 {
        "TRACE"
    } else if 5 <= num && num <= 8 {
        "DEBUG"
    } else if 9 <= num && num <= 12 {
        "INFO"
    } else if 13 <= num && num <= 16 {
        "WARN"
    } else if 17 <= num && num <= 20 {
        "ERROR"
    } else {
        "UNKNOWN"
    }
}

/// Severity names and numbers agree: a known upper-case name maps to the
/// lowest number of its band, whose name is that name again; and the name
/// of any number from 1 to 20 maps back to the lowest number of its band.
pub proof fn law_severity_round_trip(u: Seq<char>, num: i32)
    ensures
        severity_of_upper(u) is Some ==> severity_name(severity_of_upper(u)->0) == u,
        1 <= num <= 20 ==> ({
            let low = severity_of_upper(severity_name(num));
            &&& low is Some
            &&& low->0 <= num < low->0 + 4
        }),
{
    reveal_strlit("TRACE");
    reveal_strlit("DEBUG");
    reveal_strlit("INFO");
    reveal_strlit("WARN");
    reveal_strlit("ERROR");
    assert("TRACE"@[0] != "DEBUG"@[0]);
    assert("TRACE"@[0] != "INFO"@[0]);
    assert("TRACE"@[0] != "WARN"@[0]);
    assert("TRACE"@[0] != "ERROR"@[0]);
    assert("DEBUG"@[0] != "INFO"@[0]);
    assert("DEBUG"@[0] != "WARN"@[0]);
    assert("DEBUG"@[0] != "ERROR"@[0]);
    assert("INFO"@[0] != "WARN"@[0]);
    assert("INFO"@[0] != "ERROR"@[0]);
    assert("WARN"@[0] != "ERROR"@[0]);
}

// -- Listing ------------------------------------------------------------------------

/// Query of `GET /api/logs` (empty parameters count as absent).
#[derive(Debug, Clone)]
pub struct LogsQueryParams {
    pub limit: Option<i64>,
    pub offset: Option<i64>,
    pub search: Option<String>,
    pub severity: Option<String>,
    pub since: Option<Timestamp>,
    pub until: Option<Timestamp>,
    pub trace_id: Option<String>,
    pub conversation: Option<String>,
}

/// What is asked of the log store.
#[derive(Debug, Clone)]
pub struct LogQuery {
    /// 100 by default, at most 500.
    pub limit: i64,
    /// The lowest severity number, when a known severity name was given.
    pub min_severity: Option<i32>,
    /// The search text, when it is not empty.
    pub search: Option<String>,
    pub trace_id: Option<String>,
}

/// The store query of a log listing.
pub fn log_query(params: &LogsQueryParams) -> (r: LogQuery)
    ensures
        r.limit == (match params.limit {
            Some(l) => if l < 500 {
                l
            } else {
                500
            },
            None => 100,
        }),
        r.min_severity == (match params.severity {
            Some(s) => severity_of_upper(upper_text(s@)),
            None => None,
        }),
        opt_view(r.search) == (match params.search {
            Some(s) => if s@.len() > 0 {
                Some(s@)
            } else {
                None
            },
            None => None,
        }),
        opt_view(r.trace_id) == opt_view(params.trace_id),
{
    let min_severity = match &params.severity {
        Some(s) => severity_text_to_number(s.as_str()),
        None => None,
    };
    let search = match &params.search {
        Some(s) => {
            if s.as_str().is_empty() {
                None
            } else {
                Some(s.clone())
            }
        },
        None => None,
    };
    LogQuery {
        limit: capped_limit(params.limit, 100, 500),
        min_severity,
        search,
        trace_id: params.trace_id.clone(),
    }
}

/// A log entry as the store keeps it.
#[derive(Debug)]
pub struct LogRecord {
    pub id: String,
    pub timestamp: Timestamp,
    pub severity_number: Option<i32>,
    pub severity_text: Option<String>,
    pub target: Option<String>,
    pub body: Option<String>,
    pub attributes: serde_json::Value,
    pub trace_id: Option<String>,
    /// `conversation_id` of the attributes, when it is a string.
    pub conversation_id: Option<String>,
}

/// A log entry as the API returns it.
#[derive(Debug)]
pub struct LogEntryResponse {
    pub id: String,
    pub timestamp: Timestamp,
    pub severity: String,
    pub target: String,
    pub message: String,
    pub fields: serde_json::Value,
    pub trace_id: Option<String>,
    pub conversation_id: Option<String>,
}

/// Whether a log entry lies in the query's time window (inclusive bounds).
pub open spec fn log_in_window(params: LogsQueryParams, l: LogRecord) -> bool {
    &&& (match params.since {
        Some(s) => !l.timestamp.precedes(s),
        None => true,
    })
    &&& (match params.until {
        Some(u) => !u.precedes(l.timestamp),
        None => true,
    })
}

/// The log entries in the window, in order.
pub open spec fn logs_in_window(ls: Seq<LogRecord>, params: LogsQueryParams) -> Seq<LogRecord>
    decreases ls.len(),
{
    if ls.len() == 0 {
        Seq::empty()
    } else if log_in_window(params, ls.last()) {
        logs_in_window(ls.drop_last(), params).push(ls.last())
    } else {
        logs_in_window(ls.drop_last(), params)
    }
}

/// The severity shown for an entry: its own severity text, else the band of
/// its severity number, else `INFO`.
pub open spec fn shown_severity(l: LogRecord) -> Seq<char> {
    match l.severity_text {
        Some(t) => t@,
        None => match l.severity_number {
            Some(n) => severity_name(n),
            None => "INFO"@,
        },
    }
}

/// Whether an API entry shows a stored entry.
pub open spec fn log_entry_match(l: LogRecord, e: LogEntryResponse) -> bool {
    &&& e.id@ == l.id@
    &&& e.timestamp == l.timestamp
    &&& e.severity@ == shown_severity(l)
    &&& e.target@ == (match l.target {
        Some(t) => t@,
        None => Seq::empty(),
    })
    &&& e.message@ == (match l.body {
        Some(b) => b@,
        None => Seq::empty(),
    })
    &&& opt_view(e.trace_id) == opt_view(l.trace_id)
    &&& opt_view(e.conversation_id) == opt_view(l.conversation_id)
}

fn log_entry(l: LogRecord) -> (r: LogEntryResponse)
    ensures
        log_entry_match(l, r),
        r.fields == l.attributes,
{
    let severity = match l.severity_text {
        Some(t) => t,
        None => match l.severity_number {
            Some(n) => to_owned_string(severity_number_to_text(n)),
            None => to_owned_string("INFO"),
        },
    };
    let target = match l.target {
        Some(t) => t,
        None => String::new(),
    };
    let message = match l.body {
        Some(b) => b,
        None => String::new(),
    };
    LogEntryResponse {
        id: l.id,
        timestamp: l.timestamp,
        severity,
        target,
        message,
        fields: l.attributes,
        trace_id: l.trace_id,
        conversation_id: l.conversation_id,
    }
}

/// The answer of `GET /api/logs` from the entries the store listed: those
/// in the time window, as API entries, after the offset.
pub fn log_listing(logs: Vec<LogRecord>, params: &LogsQueryParams) -> (r: Vec<LogEntryResponse>)
    ensures
        ({
            let kept = after_offset(logs_in_window(logs@, *params), params.offset);
            &&& r.len() == kept.len()
            &&& forall|i: int| 0 <= i < r.len() ==> log_entry_match(kept[i], #[trigger] r[i])
        }),
{
    let ghost orig = logs@;
    let ghost p = *params;
    let total = logs.len();
    let mut rest = logs;
    let mut out: Vec<LogEntryResponse> = Vec::new();
    let mut i: usize = 0;
    assert(orig.take(0) =~= Seq::<LogRecord>::empty());
    while rest.len() > 0
        invariant
            i + rest.len() == total,
            total == orig.len(),
            rest@ == orig.skip(i as int),
            p == *params,
            out.len() == logs_in_window(orig.take(i as int), p).len(),
            forall|k: int|
                0 <= k < out.len() ==> log_entry_match(
                    logs_in_window(orig.take(i as int), p)[k],
                    #[trigger] out[k],
                ),
        decreases rest.len(),
    {
        let l = rest.remove(0);
        proof {
            assert(l == orig[i as int]);
            let t = orig.take(i + 1);
            assert(t.drop_last() =~= orig.take(i as int));
            assert(t.last() == orig[i as int]);
            assert(orig.skip(i + 1) =~= orig.skip(i as int).remove(0));
        }
        let since_ok = match params.since {
            Some(s) => !before(l.timestamp, s),
            None => true,
        };
        let until_ok = match params.until {
            Some(u) => !before(u, l.timestamp),
            None => true,
        };
        if since_ok && until_ok {
            out.push(log_entry(l));
        }
        i = i + 1;
    }
    assert(orig.take(total as int) =~= orig);
    let ghost all = logs_in_window(orig, p);
    let ghost before_offset = out@;
    let r = apply_offset(out, params.offset);
    proof {
        if (crate::listing::offset_of(params.offset) as int) < all.len() {
            let o = crate::listing::offset_of(params.offset) as int;
            assert forall|i: int| 0 <= i < r.len() implies log_entry_match(
                after_offset(all, params.offset)[i],
                #[trigger] r[i],
            ) by {
                assert(r@[i] == before_offset[o + i]);
            }
        }
    }
    r
}

// -- Laws of the listing --------------------------------------------------------------

/// Every listed log entry is one of the store's entries and lies in the
/// query's window: no earlier than `since` and no later than `until`.
pub proof fn law_listed_logs_lie_in_the_window(ls: Seq<LogRecord>, params: LogsQueryParams, k: int)
    requires
        0 <= k < logs_in_window(ls, params).len(),
    ensures
        ({
            let l = logs_in_window(ls, params)[k];
            &&& exists|j: int| 0 <= j < ls.len() && ls[j] == l
            &&& params.since matches Some(s) ==> !l.timestamp.precedes(s)
            &&& params.until matches Some(u) ==> !u.precedes(l.timestamp)
        }),
    decreases ls.len(),
{
    let init = ls.drop_last();
    let p = logs_in_window(ls, params);
    let pi = logs_in_window(init, params);
    if log_in_window(params, ls.last()) && k == pi.len() {
        assert(p[k] == ls.last());
        assert(ls[ls.len() - 1] == ls.last());
    } else {
        assert(p[k] == pi[k]);
        law_listed_logs_lie_in_the_window(init, params, k);
        let l = pi[k];
        let j = choose|j: int| 0 <= j < init.len() && init[j] == l;
        assert(ls[j] == init[j]);
    }
}

} // verus!
