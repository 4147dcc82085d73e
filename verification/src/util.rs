//! Shared helpers used by push, pull and get: the remote to sync against
//! and the auto-generated wip commit message.

use vstd::prelude::*;

verus! {

/// The remote that `branch` syncs against: its configured push remote,
/// else `origin`.
pub open spec fn remote_for(push_remote: Option<Seq<char>>) -> Seq<char> {
    match push_remote {
        Some(r) => r,
        None => "origin"@,
    }
}

/// Resolve the remote to sync a branch against. `push_remote` is what git
/// resolves the branch's push destination to (`branch.<name>.pushRemote` →
/// `remote.pushDefault` → `branch.<name>.remote`); without one, `origin`.
pub fn resolve_remote(push_remote: Option<String>) -> (r: String)
    ensures
        r@ == remote_for(push_remote.deep_view()),
{
    match push_remote {
        Some(r) => r,
        None => String::from_str("origin"),
    }
}

/// The wip commit message for a host name and a timestamp:
/// `wip @ <hostname> — <timestamp>`.
pub open spec fn wip_message_text(host: Seq<char>, timestamp: Seq<char>) -> Seq<char> {
    "wip @ "@ + host + " — "@ + timestamp
}

/// Builds `wip @ <host> — <timestamp>`.
pub fn format_wip_message(host: &str, timestamp: &str) -> (m: String)
    ensures
        m@ == wip_message_text(host@, timestamp@),
{
    let mut m = String::from_str("wip @ ");
    m.append(host);
    m.append(" — ");
    m.append(timestamp);
    m
}

/// The name of this machine (`gethostname::gethostname`), converted to a
/// `String` with invalid UTF-8 replaced. It depends on the machine, so
/// nothing is stated of it.
#[verifier::external_body]
fn host_name() -> (h: String) {
    gethostname::gethostname().to_string_lossy().into_owned()
}

pub open spec fn is_decimal_digit(c: char) -> bool {
    '0' <= c && c <= '9'
}

/// The year field of an RFC 3339 timestamp as chrono writes it: four digits
/// for years 0 to 9999, else an explicit sign and at least four digits.
pub open spec fn rfc3339_year(y: Seq<char>) -> bool {
    ||| (y.len() == 4 && forall|i: int| 0 <= i < 4 ==> is_decimal_digit(#[trigger] y[i]))
    ||| (y.len() >= 5 && (y[0] == '+' || y[0] == '-') && forall|i: int|
        1 <= i < y.len() ==> is_decimal_digit(#[trigger] y[i]))
}

/// `t` is an RFC 3339 UTC time with whole seconds and a `Z` suffix:
/// `<year>-MM-DDTHH:MM:SSZ`, each of MM, DD, HH, MM, SS two digits.
pub open spec fn rfc3339_utc_seconds(t: Seq<char>) -> bool {
    let n = t.len();
    &&& n >= 20
    &&& rfc3339_year(t.take(n - 16))
    &&& t[n - 16] == '-' && t[n - 13] == '-' && t[n - 10] == 'T'
    &&& t[n - 7] == ':' && t[n - 4] == ':' && t[n - 1] == 'Z'
    &&& is_decimal_digit(t[n - 15]) && is_decimal_digit(t[n - 14])
    &&& is_decimal_digit(t[n - 12]) && is_decimal_digit(t[n - 11])
    &&& is_decimal_digit(t[n - 9]) && is_decimal_digit(t[n - 8])
    &&& is_decimal_digit(t[n - 6]) && is_decimal_digit(t[n - 5])
    &&& is_decimal_digit(t[n - 3]) && is_decimal_digit(t[n - 2])
}

/// The current UTC time (`chrono::Utc::now`) rendered by
/// `DateTime::to_rfc3339_opts` with whole seconds and a `Z` suffix
/// (`write_rfc3339`: the year, then two-digit month, day, hour, minute and
/// second with their separators, and `Z` for the zero offset). Which time
/// it is depends on the clock and is not stated; its shape is.
#[verifier::external_body]
fn utc_timestamp() -> (t: String)
    ensures
        rfc3339_utc_seconds(t@),
{
    chrono::Utc::now().to_rfc3339_opts(chrono::SecondsFormat::Secs, true)
}

/// Build the auto-generated wip commit message:
/// `wip @ <hostname> — <RFC3339 timestamp>`.
///
/// Diagnostic only (squashed at `wt merge`); the hostname tag identifies
/// which machine made each checkpoint.
pub fn wip_message() -> (m: String)
    ensures
        exists|host: Seq<char>, timestamp: Seq<char>|
            rfc3339_utc_seconds(timestamp) && m@ == wip_message_text(host, timestamp),
{
    let host = host_name();
    let timestamp = utc_timestamp();
    let m = format_wip_message(host.as_str(), timestamp.as_str());
    assert(rfc3339_utc_seconds(timestamp@) && m@ == wip_message_text(host@, timestamp@));
    m
}

/// Every wip message starts with `wip @ ` and holds ` — ` between the host
/// and the timestamp.
pub proof fn law_wip_message_shape(host: Seq<char>, timestamp: Seq<char>)
    ensures
        wip_message_text(host, timestamp).take(6) == "wip @ "@,
        wip_message_text(host, timestamp).subrange(6 + host.len() as int, 9 + host.len() as int) == " — "@,
{
    reveal_strlit("wip @ ");
    reveal_strlit(" — ");
    assert(wip_message_text(host, timestamp).take(6) =~= "wip @ "@);
    assert(wip_message_text(host, timestamp).subrange(6 + host.len() as int, 9 + host.len() as int) =~= " — "@);
}

} // verus!
