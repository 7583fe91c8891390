//! What holds of every login: who waits, who is let in, and what the client is told.
use vstd::prelude::*;

use crate::device::{
    device_pairs, grant_is, grant_taken, issue_of, issued_json, login_started, poll_step,
    token_pairs, GrantStep, RedeemedOf,
};
use crate::envelope::{EnvelopeView, NANOS_PER_SECOND};
use crate::fault::CopilotError;
use crate::ingress::{says, LocalResponse};
use crate::json::JsonView;
use crate::login::{
    bounded, dropped, lemma_placed_and_dropped, live, login_from, login_named, placed, LoginsView,
    PendingView, Table,
};
use crate::lookups::group_lookups;
use crate::policy::{base64url_text, credential_made, StateView};

verus! {

proof fn lemma_told_names()
    ensures
        "status"@ != "interval"@,
        "status"@ != "error"@,
        "status"@ != "verification_uri"@,
        "status"@ != "user_code"@,
        "status"@ != "transaction"@,
        "status"@ != "expires_in"@,
        "interval"@ != "error"@,
        "interval"@ != "verification_uri"@,
        "interval"@ != "user_code"@,
        "interval"@ != "transaction"@,
        "interval"@ != "expires_in"@,
        "error"@ != "verification_uri"@,
        "error"@ != "user_code"@,
        "error"@ != "transaction"@,
        "error"@ != "expires_in"@,
        "verification_uri"@ != "user_code"@,
        "verification_uri"@ != "transaction"@,
        "verification_uri"@ != "expires_in"@,
        "user_code"@ != "transaction"@,
        "user_code"@ != "expires_in"@,
        "transaction"@ != "expires_in"@,
{
    reveal_strlit("status");
    reveal_strlit("interval");
    reveal_strlit("error");
    reveal_strlit("verification_uri");
    reveal_strlit("user_code");
    reveal_strlit("transaction");
    reveal_strlit("expires_in");
    assert("status"@.len() == 6);
    assert("interval"@.len() == 8);
    assert("error"@.len() == 5);
    assert("verification_uri"@.len() == 16);
    assert("user_code"@.len() == 9);
    assert("transaction"@.len() == 11);
    assert("expires_in"@.len() == 10);
}

proof fn lemma_issued_names()
    ensures
        "credential"@ != "expires_at"@,
        "credential"@ != "login"@,
        "credential"@ != "github_expires_in"@,
        "credential"@ != "refresh_token_received"@,
        "expires_at"@ != "login"@,
        "expires_at"@ != "github_expires_in"@,
        "expires_at"@ != "refresh_token_received"@,
        "login"@ != "github_expires_in"@,
        "login"@ != "refresh_token_received"@,
        "github_expires_in"@ != "refresh_token_received"@,
{
    reveal_strlit("credential");
    reveal_strlit("expires_at");
    reveal_strlit("login");
    reveal_strlit("github_expires_in");
    reveal_strlit("refresh_token_received");
    assert("credential"@.len() == 10);
    assert("expires_at"@.len() == 10);
    assert("login"@.len() == 5);
    assert("github_expires_in"@.len() == 17);
    assert("refresh_token_received"@.len() == 22);
    assert("credential"@[0] == 'c');
    assert("expires_at"@[0] == 'e');
}

proof fn lemma_errors()
    ensures
        "authorization_pending"@ != "slow_down"@,
        "authorization_pending"@ != "access_denied"@,
        "slow_down"@ != "access_denied"@,
{
    reveal_strlit("authorization_pending");
    reveal_strlit("slow_down");
    reveal_strlit("access_denied");
    assert("authorization_pending"@.len() == 21);
    assert("slow_down"@.len() == 9);
    assert("access_denied"@.len() == 13);
}

/// Whether no handle is that of two logins.
pub open spec fn handles_distinct(t: Table) -> bool {
    forall|i: int, j: int|
        0 <= i < j < t.len() ==> (#[trigger] t[i]).0 != (#[trigger] t[j]).0
}

proof fn lemma_found(t: Table, handle: Seq<char>, n: int, i: int)
    requires
        0 <= n <= i < t.len(),
        t[i].0 == handle,
        forall|j: int| n <= j < i ==> (#[trigger] t[j]).0 != handle,
    ensures
        login_from(t, handle, n) == Some(t[i].1),
    decreases i - n,
{
    if n < i {
        lemma_found(t, handle, n + 1, i);
    }
}

proof fn lemma_found_is_there(t: Table, handle: Seq<char>, n: int) -> (i: int)
    requires
        0 <= n,
        login_from(t, handle, n) is Some,
    ensures
        n <= i < t.len(),
        t[i] == (handle, login_from(t, handle, n)->0),
    decreases t.len() - n,
{
    if t[n].0 == handle {
        n
    } else {
        lemma_found_is_there(t, handle, n + 1)
    }
}

/// A login is found under a handle exactly where it stands under it.
pub proof fn lemma_login_is_found(t: Table, handle: Seq<char>, p: PendingView)
    requires
        handles_distinct(t),
    ensures
        login_named(t, handle) == Some(p) <==> t.contains((handle, p)),
{
    if t.contains((handle, p)) {
        let i = choose|i: int| 0 <= i < t.len() && t[i] == (handle, p);
        assert forall|j: int| 0 <= j < i implies (#[trigger] t[j]).0 != handle by {
            assert(t[j].0 != t[i].0);
        }
        lemma_found(t, handle, 0, i);
    }
    if login_named(t, handle) == Some(p) {
        let i = lemma_found_is_there(t, handle, 0);
    }
}

proof fn lemma_found_in_prefix(t: Table, e: (Seq<char>, PendingView), other: Seq<char>, n: int)
    requires
        0 <= n <= t.len(),
        e.0 != other,
    ensures
        login_from(t.push(e), other, n) == login_from(t, other, n),
    decreases t.len() - n,
{
    if n < t.len() {
        assert(t.push(e)[n] == t[n]);
        if t[n].0 != other {
            lemma_found_in_prefix(t, e, other, n + 1);
        }
    } else {
        assert(login_from(t.push(e), other, n + 1) is None);
    }
}

proof fn lemma_push_first(t: Table, e: (Seq<char>, PendingView), other: Seq<char>, n: int)
    requires
        0 <= n <= t.len(),
    ensures
        login_from(t.push(e), other, n) == (match login_from(t, other, n) {
            Some(p) => Some(p),
            None => if e.0 == other {
                Some(e.1)
            } else {
                None
            },
        }),
    decreases t.len() - n,
{
    if n < t.len() {
        assert(t.push(e)[n] == t[n]);
        if t[n].0 != other {
            lemma_push_first(t, e, other, n + 1);
        }
    } else {
        assert(login_from(t, other, n) is None);
        assert(t.push(e)[n] == e);
        assert(login_from(t.push(e), other, n + 1) is None);
    }
}

proof fn lemma_dropped_keeps_others(t: Table, handle: Seq<char>, other: Seq<char>)
    requires
        other != handle,
    ensures
        login_named(dropped(t, handle), other) == login_named(t, other),
    decreases t.len(),
{
    if t.len() > 0 {
        let rest = t.drop_last();
        lemma_dropped_keeps_others(rest, handle, other);
        assert(rest.push(t.last()) == t);
        lemma_push_first(rest, t.last(), other, 0);
        if t.last().0 != handle {
            lemma_push_first(dropped(rest, handle), t.last(), other, 0);
        }
    }
}

/// Putting a login under a handle, or taking it away, leaves every other login as it was.
pub proof fn lemma_others_stay(t: Table, handle: Seq<char>, p: PendingView, other: Seq<char>)
    requires
        other != handle,
    ensures
        login_named(placed(t, handle, p), other) == login_named(t, other),
        login_named(dropped(t, handle), other) == login_named(t, other),
{
    lemma_dropped_keeps_others(t, handle, other);
    lemma_found_in_prefix(dropped(t, handle), (handle, p), other, 0);
}

/// The logins that are live are those whose time is not over, in their order.
pub proof fn lemma_live_logins(t: Table, time: u64, e: (Seq<char>, PendingView))
    ensures
        live(t, time).contains(e) <==> t.contains(e) && time < e.1.expires_at,
    decreases t.len(),
{
    if t.len() > 0 {
        let rest = t.drop_last();
        lemma_live_logins(rest, time, e);
        assert(rest.push(t.last()) == t);
        if rest.contains(e) {
            let i = choose|i: int| 0 <= i < rest.len() && rest[i] == e;
            assert(t[i] == e);
        }
        if t.contains(e) && !rest.contains(e) {
            let i = choose|i: int| 0 <= i < t.len() && t[i] == e;
            if i < rest.len() {
                assert(rest[i] == e);
            }
            assert(t.last() == e);
        }
        let kept = live(rest, time);
        if t.last().1.expires_at > time {
            if kept.contains(e) {
                let i = choose|i: int| 0 <= i < kept.len() && kept[i] == e;
                assert(kept.push(t.last())[i] == e);
            }
            assert(kept.push(t.last())[kept.len() as int] == t.last());
            assert(t[t.len() - 1] == t.last());
            if live(t, time).contains(e) {
                let i = choose|i: int| 0 <= i < live(t, time).len() && live(t, time)[i] == e;
                if i < kept.len() {
                    assert(kept[i] == e);
                }
            }
        }
    }
}

/// Whether a client is told to wait so many seconds.
pub open spec fn told_to_wait(r: Result<GrantStep, CopilotError>, seconds: u64) -> bool {
    r matches Ok(GrantStep::Answer(answer)) && answer.status == 202 && answer.body@.get("status"@)
        == Some(JsonView::Text("pending"@)) && answer.body@.get("interval"@) == Some(
        JsonView::Unsigned(seconds),
    )
}

/// Whether a client is refused with a status and an error.
pub open spec fn told_error(answer: LocalResponse, status: u16, error: Seq<char>) -> bool {
    answer.status == status && answer.body@.get("error"@) == Some(JsonView::Text(error))
        && answer.cache_control@ == "no-store"@ && answer.sensitive
}

/// Whether a login waits so many seconds from a time on, and may then be polled again.
pub open spec fn waits_from(q: PendingView, p: PendingView, time: u64, seconds: u64) -> bool {
    &&& !q.polling
    &&& q.interval == seconds
    &&& q.next_poll == time + seconds * 1_000_000_000
    &&& q.device_code == p.device_code
    &&& q.expires_at == p.expires_at
}

/// Where GitHub says that the user is not done yet, the login stays: the client is told to wait
/// as long as before, and may then poll again. Nothing else changes.
pub proof fn lemma_pending_login_stays(
    l: LoginsView,
    handle: Seq<char>,
    p: PendingView,
    grant: JsonView,
    time: u64,
    r: Result<GrantStep, CopilotError>,
    other: Seq<char>,
)
    requires
        login_named(l.pending, handle) == Some(p),
        time < p.expires_at,
        grant.get("error"@) == Some(JsonView::Text("authorization_pending"@)),
        time + p.interval * 1_000_000_000 <= u64::MAX,
        grant_is(r, grant_taken(l, handle, Some(grant), Ok(time)).1),
    ensures
        told_to_wait(r, p.interval),
        ({
            let after = grant_taken(l, handle, Some(grant), Ok(time)).0;
            &&& login_named(after.pending, handle) matches Some(q) && waits_from(
                q,
                p,
                time,
                p.interval,
            )
            &&& after.reserved == l.reserved
            &&& other != handle ==> login_named(after.pending, other) == login_named(
                l.pending,
                other,
            )
        }),
{
    broadcast use group_lookups;

    lemma_told_names();
    lemma_errors();
    let q = crate::login::deferred(p, false, time).0;
    lemma_placed_and_dropped(l.pending, handle, q);
    if other != handle {
        lemma_others_stay(l.pending, handle, q, other);
    }
}

/// Where GitHub says to slow down, the login stays too, and waits five seconds longer from now on.
pub proof fn lemma_slowed_login_stays(
    l: LoginsView,
    handle: Seq<char>,
    p: PendingView,
    grant: JsonView,
    time: u64,
    r: Result<GrantStep, CopilotError>,
    other: Seq<char>,
)
    requires
        login_named(l.pending, handle) == Some(p),
        time < p.expires_at,
        grant.get("error"@) == Some(JsonView::Text("slow_down"@)),
        time + (p.interval + 5) * 1_000_000_000 <= u64::MAX,
        grant_is(r, grant_taken(l, handle, Some(grant), Ok(time)).1),
    ensures
        told_to_wait(r, (p.interval + 5) as u64),
        ({
            let after = grant_taken(l, handle, Some(grant), Ok(time)).0;
            &&& login_named(after.pending, handle) matches Some(q) && waits_from(
                q,
                p,
                time,
                (p.interval + 5) as u64,
            )
            &&& after.reserved == l.reserved
            &&& other != handle ==> login_named(after.pending, other) == login_named(
                l.pending,
                other,
            )
        }),
{
    broadcast use group_lookups;

    lemma_told_names();
    lemma_errors();
    let q = crate::login::deferred(p, true, time).0;
    lemma_placed_and_dropped(l.pending, handle, q);
    if other != handle {
        lemma_others_stay(l.pending, handle, q, other);
    }
}

/// Any other error that GitHub names ends the login: the client is refused, and the login is gone.
pub proof fn lemma_refused_login_is_gone(
    l: LoginsView,
    handle: Seq<char>,
    p: PendingView,
    grant: JsonView,
    error: Seq<char>,
    time: u64,
    r: Result<GrantStep, CopilotError>,
    other: Seq<char>,
)
    requires
        login_named(l.pending, handle) == Some(p),
        time < p.expires_at,
        grant.get("error"@) == Some(JsonView::Text(error)),
        error != "authorization_pending"@,
        error != "slow_down"@,
        grant_is(r, grant_taken(l, handle, Some(grant), Ok(time)).1),
    ensures
        r matches Ok(GrantStep::Answer(answer)) && told_error(
            answer,
            401,
            "authorization_denied_or_expired"@,
        ),
        ({
            let after = grant_taken(l, handle, Some(grant), Ok(time)).0;
            &&& login_named(after.pending, handle) is None
            &&& after.reserved == l.reserved
            &&& other != handle ==> login_named(after.pending, other) == login_named(
                l.pending,
                other,
            )
        }),
{
    broadcast use group_lookups;

    lemma_placed_and_dropped(l.pending, handle, p);
    if other != handle {
        lemma_others_stay(l.pending, handle, p, other);
    }
}

/// A login that is over when GitHub's answer comes, or that is not there, comes to nothing,
/// whatever the answer: the client is told that it has expired.
pub proof fn lemma_late_login_is_gone(
    l: LoginsView,
    handle: Seq<char>,
    grant: Option<JsonView>,
    time: u64,
    r: Result<GrantStep, CopilotError>,
    other: Seq<char>,
)
    requires
        login_named(l.pending, handle) matches Some(p) ==> p.expires_at <= time,
        grant_is(r, grant_taken(l, handle, grant, Ok(time)).1),
    ensures
        r matches Ok(GrantStep::Answer(answer)) && told_error(answer, 401, "login_expired"@),
        ({
            let after = grant_taken(l, handle, grant, Ok(time)).0;
            &&& login_named(after.pending, handle) is None
            &&& after.reserved == l.reserved
            &&& other != handle ==> login_named(after.pending, other) == login_named(
                l.pending,
                other,
            )
        }),
{
    broadcast use group_lookups;

    match login_named(l.pending, handle) {
        Some(p) => {
            lemma_placed_and_dropped(l.pending, handle, p);
            if other != handle {
                lemma_others_stay(l.pending, handle, p, other);
            }
        },
        None => {},
    }
}

/// A token that GitHub gives for a login in time is what is gone on with, with its lifetime where
/// GitHub tells one; and the login is gone, with a place kept for what comes of it.
pub proof fn lemma_token_is_taken(
    l: LoginsView,
    handle: Seq<char>,
    p: PendingView,
    grant: JsonView,
    token: Seq<char>,
    seconds: Option<u64>,
    time: u64,
    r: Result<GrantStep, CopilotError>,
)
    requires
        login_named(l.pending, handle) == Some(p),
        time < p.expires_at,
        !(grant.get("error"@) matches Some(JsonView::Text(_))),
        grant.get("access_token"@) == Some(JsonView::Text(token)),
        grant.get("expires_in"@) == (match seconds {
            Some(n) => Some(JsonView::Unsigned(n)),
            None => None,
        }),
        seconds matches Some(n) ==> time + n * 1_000_000_000 <= u64::MAX,
        grant_is(r, grant_taken(l, handle, Some(grant), Ok(time)).1),
    ensures
        r matches Ok(GrantStep::Identify(got)) && got.token@ == token && got.lifetime == seconds
            && got.login_expires_at == p.expires_at && (match seconds {
            Some(n) => got.upstream_expires_at == Some((time + n * 1_000_000_000) as u64),
            None => got.upstream_expires_at is None,
        }) && got.refresh_token_received == (grant.get("refresh_token"@) matches Some(
            JsonView::Text(_),
        )),
        ({
            let after = grant_taken(l, handle, Some(grant), Ok(time)).0;
            login_named(after.pending, handle) is None && after.reserved == l.reserved + 1
        }),
{
    broadcast use group_lookups;

    lemma_placed_and_dropped(l.pending, handle, p);
}

/// GitHub is asked about a login exactly where it is there, in time, not being asked about, and
/// its waiting time is over; it is then marked as being asked about.
pub proof fn lemma_poll_asks_in_time(l: LoginsView, handle: Seq<char>, p: PendingView, time: u64)
    requires
        handles_distinct(l.pending),
        l.pending.contains((handle, p)),
    ensures
        ({
            let (after, due) = poll_step(l, handle, time);
            &&& due == Ok::<Seq<char>, (u16, JsonView)>(p.device_code) <==> time < p.expires_at
                && !p.polling && p.next_poll <= time
            &&& due is Ok ==> (login_named(after.pending, handle) matches Some(q) && q.polling
                && q.device_code == p.device_code && q.expires_at == p.expires_at && q.interval
                == p.interval && q.next_poll == p.next_poll)
            &&& due is Ok || (due matches Err((status, body)) && if p.expires_at <= time {
                status == 401 && body.get("error"@) == Some(
                    JsonView::Text("invalid_login_transaction"@),
                )
            } else {
                status == 202 && body.get("status"@) == Some(JsonView::Text("pending"@)) && (
                body.get("interval"@) matches Some(JsonView::Unsigned(n)) && n >= 1 && (
                p.next_poll > time ==> (n - 1) * 1_000_000_000 < p.next_poll - time <= n
                    * 1_000_000_000))
            })
        }),
{
    broadcast use group_lookups;

    lemma_told_names();
    let kept = live(l.pending, time);
    lemma_live_logins(l.pending, time, (handle, p));
    lemma_live_distinct(l.pending, time);
    lemma_login_is_found(kept, handle, p);
    match login_named(kept, handle) {
        Some(q) => {
            lemma_login_is_found(kept, handle, q);
            lemma_live_logins(l.pending, time, (handle, q));
            lemma_login_is_found(l.pending, handle, p);
            lemma_login_is_found(l.pending, handle, q);
            assert(q == p);
            lemma_placed_and_dropped(
                kept,
                handle,
                crate::login::PendingOf { polling: true, ..p },
            );
        },
        None => {},
    }
    if p.next_poll > time {
        lemma_seconds(p.next_poll - time);
    }
}

proof fn lemma_seconds(left: int)
    requires
        left > 0,
    ensures
        ({
            let n = (left + NANOS_PER_SECOND - 1) / NANOS_PER_SECOND as int;
            n >= 1 && (n - 1) * 1_000_000_000 < left <= n * 1_000_000_000
        }),
{
}

proof fn lemma_live_distinct(t: Table, time: u64)
    requires
        handles_distinct(t),
    ensures
        handles_distinct(live(t, time)),
    decreases t.len(),
{
    if t.len() > 0 {
        let rest = t.drop_last();
        assert forall|i: int, j: int| 0 <= i < j < rest.len() implies (#[trigger] rest[i]).0 != (
        #[trigger] rest[j]).0 by {
            assert(t[i].0 != t[j].0);
        }
        lemma_live_distinct(rest, time);
        let kept = live(rest, time);
        if t.last().1.expires_at > time {
            assert forall|i: int, j: int| 0 <= i < j < kept.push(t.last()).len() implies (
            #[trigger] kept.push(t.last())[i]).0 != (#[trigger] kept.push(t.last())[j]).0 by {
                if j < kept.len() {
                    assert(kept[i].0 != kept[j].0);
                } else {
                    let e = kept[i];
                    assert(kept.contains(e));
                    lemma_live_logins(rest, time, e);
                    let k = choose|k: int| 0 <= k < rest.len() && rest[k] == e;
                    assert(t[k].0 != t[t.len() - 1].0);
                }
            }
        }
    }
}

/// A login that starts is kept with the device code that GitHub gave, for as long as GitHub says
/// but no longer than a quarter of an hour, and may first be polled after GitHub's interval but no
/// sooner than after five seconds. The client is told the user's code, where to enter it, its
/// handle, and both times.
pub proof fn lemma_started_login(
    grant: JsonView,
    handle: Seq<char>,
    time: u64,
    device_code: Seq<char>,
    user_code: Seq<char>,
    interval: u64,
    lifetime: u64,
)
    requires
        login_started(Some(grant), true, handle, Ok(time)) is Ok,
        grant.get("device_code"@) == Some(JsonView::Text(device_code)),
        grant.get("user_code"@) == Some(JsonView::Text(user_code)),
        grant.get("interval"@) == Some(JsonView::Unsigned(interval)),
        grant.get("expires_in"@) == Some(JsonView::Unsigned(lifetime)),
    ensures
        ({
            let (started, then) = login_started(Some(grant), true, handle, Ok(time))->Ok_0;
            let wait: int = if interval < 5 {
                5
            } else {
                interval as int
            };
            let life: int = if lifetime > 900 {
                900
            } else {
                lifetime as int
            };
            &&& then == time
            &&& started.lifetime == life
            &&& started.pending.device_code == device_code
            &&& !started.pending.polling
            &&& started.pending.interval == wait
            &&& started.pending.next_poll == time + wait * 1_000_000_000
            &&& started.pending.expires_at == time + life * 1_000_000_000
            &&& started.body.get("user_code"@) == Some(JsonView::Text(user_code))
            &&& started.body.get("verification_uri"@) == Some(
                JsonView::Text("https://github.com/login/device"@),
            )
            &&& started.body.get("transaction"@) == Some(JsonView::Text(handle))
            &&& started.body.get("interval"@) matches Some(JsonView::Unsigned(n)) && n == wait
            &&& started.body.get("expires_in"@) matches Some(JsonView::Unsigned(n)) && n == life
            &&& grant.get("verification_uri"@) == Some(
                JsonView::Text("https://github.com/login/device"@),
            )
        }),
{
    broadcast use group_lookups;

    lemma_told_names();
}

/// A login starts where GitHub tells a code for the device and one for the user, the page for it,
/// an interval of no more than a quarter of an hour and a lifetime that is not zero, and the
/// times can be told.
pub proof fn lemma_login_starts(
    grant: JsonView,
    handle: Seq<char>,
    time: u64,
    device_code: Seq<char>,
    user_code: Seq<char>,
    interval: u64,
    lifetime: u64,
)
    requires
        grant.get("device_code"@) == Some(JsonView::Text(device_code)),
        0 < device_code.len(),
        crate::stream_state::bytes_of(device_code) <= 4096,
        grant.get("user_code"@) == Some(JsonView::Text(user_code)),
        0 < user_code.len(),
        crate::stream_state::bytes_of(user_code) <= 128,
        grant.get("verification_uri"@) == Some(
            JsonView::Text("https://github.com/login/device"@),
        ),
        grant.get("interval"@) == Some(JsonView::Unsigned(interval)),
        interval <= 900,
        grant.get("expires_in"@) == Some(JsonView::Unsigned(lifetime)),
        lifetime > 0,
        time + 900 * 1_000_000_000 <= u64::MAX,
    ensures
        login_started(Some(grant), true, handle, Ok(time)) is Ok,
{
    broadcast use group_lookups;

}

/// There are never more than eight logins on the way, counting the places that are kept for some.
pub proof fn lemma_eight_logins(l: LoginsView)
    ensures
        bounded(l) <==> l.pending.len() + l.reserved <= 8,
{
}

/// What is asked of GitHub names the client, and the login by its device code.
pub proof fn lemma_forms(client_id: Seq<char>, device_code: Seq<char>)
    ensures
        device_pairs(client_id).contains(("client_id"@, client_id)),
        device_pairs(client_id).contains(("scope"@, "read:org"@)),
        token_pairs(client_id, device_code).contains(("client_id"@, client_id)),
        token_pairs(client_id, device_code).contains(("device_code"@, device_code)),
        token_pairs(client_id, device_code).contains(
            ("grant_type"@, "urn:ietf:params:oauth:grant-type:device_code"@),
        ),
        device_pairs(client_id).len() == 2,
        token_pairs(client_id, device_code).len() == 3,
{
    assert(device_pairs(client_id)[0] == ("client_id"@, client_id));
    assert(device_pairs(client_id)[1] == ("scope"@, "read:org"@));
    assert(token_pairs(client_id, device_code)[0] == ("client_id"@, client_id));
    assert(token_pairs(client_id, device_code)[1] == ("device_code"@, device_code));
    assert(token_pairs(client_id, device_code)[2] == (
        "grant_type"@,
        "urn:ietf:params:oauth:grant-type:device_code"@,
    ));
}

/// A credential comes of a login only for a user whose id GitHub tells and the policy admits, and
/// only before the login is over; it is for that user, carries the token, and is issued then.
pub proof fn lemma_credential_of_login(
    s: StateView,
    got: RedeemedOf<Seq<char>>,
    identity: JsonView,
    time: u64,
    again: u64,
    user_id: u64,
)
    requires
        identity.get("id"@) == Some(JsonView::Unsigned(user_id)),
    ensures
        ({
            let due = issue_of(s, got, Some(identity), Ok(time), Ok(again));
            &&& due == Ok::<Option<EnvelopeView>, CopilotError>(None)
                <==> !s.config.allowed_user_ids.contains(user_id)
            &&& s.config.allowed_user_ids.contains(user_id) && time < got.login_expires_at
                && credential_made(s, user_id, got.token, got.upstream_expires_at, again) is Ok
                ==> due is Ok
            &&& due matches Ok(Some(e)) ==> {
                &&& s.config.allowed_user_ids.contains(user_id)
                &&& time < got.login_expires_at
                &&& e.user_id == user_id
                &&& e.upstream_token == got.token
                &&& e.upstream_expires_at == got.upstream_expires_at
                &&& e.issued_at == again
                &&& e.audience == s.config.audience
                &&& e.policy_id == s.config.policy_id
                &&& e.version == 1
                &&& e.issuer == "agentgateway"@
                &&& e.purpose == "agentgateway-copilot-user"@
                &&& match s.ttl {
                    Some(ttl) => e.gateway_expires_at == Some((again + ttl) as u64) && again + ttl
                        <= u64::MAX,
                    None => e.gateway_expires_at is None,
                }
            }
        }),
{
}

/// A client that gets a credential is told it, when it expires, whose it is, and for how long the
/// token is valid.
pub proof fn lemma_issued_answer(
    e: EnvelopeView,
    sealed: Seq<u8>,
    identity: JsonView,
    got: RedeemedOf<Seq<char>>,
)
    ensures
        ({
            let body = issued_json(e, sealed, identity, got);
            &&& body.get("credential"@) == Some(JsonView::Text("agw_cp1."@ + base64url_text(sealed)))
            &&& body.get("login"@) == Some(
                match identity.get("login"@) {
                    Some(login) => login,
                    None => JsonView::Null,
                },
            )
            &&& body.get("github_expires_in"@) == Some(
                match got.lifetime {
                    Some(n) => JsonView::Unsigned(n),
                    None => JsonView::Null,
                },
            )
            &&& body.get("refresh_token_received"@) == Some(
                JsonView::Bool(got.refresh_token_received),
            )
            &&& match body.get("expires_at"@) {
                Some(JsonView::Null) => e.gateway_expires_at is None
                    && e.upstream_expires_at is None,
                Some(JsonView::Unsigned(n)) => {
                    &&& (e.gateway_expires_at matches Some(t) ==> n <= t / 1_000_000_000)
                    &&& (e.upstream_expires_at matches Some(t) ==> n <= t / 1_000_000_000)
                    &&& (e.gateway_expires_at matches Some(t) && n == t / 1_000_000_000) || (
                    e.upstream_expires_at matches Some(t) && n == t / 1_000_000_000)
                },
                _ => false,
            }
        }),
{
    broadcast use group_lookups;

    lemma_issued_names();
}

} // verus!
