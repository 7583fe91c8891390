//! Logging in: a user lets the gateway have a token, and gets a credential for it.
use vstd::prelude::*;

use crate::envelope::{deadline, later};
use crate::fault::CopilotError;
use crate::text::{owned, same};

verus! {

/// How many logins may be on the way at once.
pub const MAX_PENDING: usize = 8;

/// For how many seconds a login may be on the way.
pub const MAX_LOGIN_SECONDS: u64 = 900;

/// A login on the way. Times are in nanoseconds since the epoch.
pub struct PendingOf<S> {
    pub device_code: S,
    pub expires_at: u64,
    pub next_poll: u64,
    /// How many seconds to wait between polls.
    pub interval: u64,
    /// Whether it is being polled.
    pub polling: bool,
}

pub type Pending = PendingOf<String>;

pub type PendingView = PendingOf<Seq<char>>;

impl View for PendingOf<String> {
    type V = PendingOf<Seq<char>>;

    open spec fn view(&self) -> PendingView {
        PendingOf {
            device_code: self.device_code@,
            expires_at: self.expires_at,
            next_poll: self.next_poll,
            interval: self.interval,
            polling: self.polling,
        }
    }
}

/// A login that is told to wait, and for how many seconds; or why it cannot be.
pub open spec fn deferred(p: PendingView, slow_down: bool, time: u64) -> (
    PendingView,
    Result<u64, CopilotError>,
) {
    if slow_down && p.interval + 5 > u64::MAX {
        (p, Err(CopilotError::PollingInterval))
    } else {
        let interval = if slow_down {
            (p.interval + 5) as u64
        } else {
            p.interval
        };
        match later(time, interval) {
            Ok(next_poll) => (PendingOf { interval, next_poll, polling: false, ..p }, Ok(interval)),
            Err(e) => (PendingOf { interval, ..p }, Err(e)),
        }
    }
}

impl PendingOf<String> {
    /// Has the login wait, five seconds longer than before where it is to slow down.
    pub fn defer(&mut self, slow_down: bool, time: u64) -> (r: Result<u64, CopilotError>)
        ensures
            deferred(old(self)@, slow_down, time) == (final(self)@, r),
    {
        if slow_down {
            match self.interval.checked_add(5) {
                Some(interval) => self.interval = interval,
                None => return Err(CopilotError::PollingInterval),
            }
        }
        match deadline(time, self.interval) {
            Ok(next_poll) => self.next_poll = next_poll,
            Err(e) => return Err(e),
        }
        self.polling = false;
        Ok(self.interval)
    }
}

/// The logins on the way by their handles.
pub type Table = Seq<(Seq<char>, PendingView)>;

pub open spec fn table_view(entries: Seq<(String, Pending)>) -> Table {
    entries.map_values(|e: (String, Pending)| (e.0@, e.1@))
}

/// The logins that have not expired at a time.
pub open spec fn live(t: Table, time: u64) -> Table
    decreases t.len(),
{
    if t.len() == 0 {
        t
    } else if t.last().1.expires_at > time {
        live(t.drop_last(), time).push(t.last())
    } else {
        live(t.drop_last(), time)
    }
}

/// The logins without those that have a handle.
pub open spec fn dropped(t: Table, handle: Seq<char>) -> Table
    decreases t.len(),
{
    if t.len() == 0 {
        t
    } else if t.last().0 == handle {
        dropped(t.drop_last(), handle)
    } else {
        dropped(t.drop_last(), handle).push(t.last())
    }
}

/// The logins with one that has a handle, and no other with it.
pub open spec fn placed(t: Table, handle: Seq<char>, p: PendingView) -> Table {
    dropped(t, handle).push((handle, p))
}

/// The login with a handle, from the `n`th on.
pub open spec fn login_from(t: Table, handle: Seq<char>, n: int) -> Option<PendingView>
    decreases t.len() - n,
{
    if n < 0 || n >= t.len() {
        None
    } else if t[n].0 == handle {
        Some(t[n].1)
    } else {
        login_from(t, handle, n + 1)
    }
}

/// The login with a handle.
pub open spec fn login_named(t: Table, handle: Seq<char>) -> Option<PendingView> {
    login_from(t, handle, 0)
}

proof fn lemma_live_len(t: Table, time: u64)
    ensures
        live(t, time).len() <= t.len(),
    decreases t.len(),
{
    if t.len() > 0 {
        lemma_live_len(t.drop_last(), time);
    }
}

pub proof fn lemma_dropped_len(t: Table, handle: Seq<char>)
    ensures
        dropped(t, handle).len() <= t.len(),
        login_named(t, handle) is Some ==> dropped(t, handle).len() < t.len(),
    decreases t.len(),
{
    if t.len() > 0 {
        lemma_dropped_len(t.drop_last(), handle);
        if login_named(t, handle) is Some && t.last().0 != handle {
            lemma_found_before(t, handle, 0);
        }
    }
}

proof fn lemma_found_before(t: Table, handle: Seq<char>, n: int)
    requires
        0 <= n < t.len(),
        t.last().0 != handle,
    ensures
        login_from(t, handle, n) == login_from(t.drop_last(), handle, n),
    decreases t.len() - n,
{
    if n < t.len() - 1 {
        assert(t.drop_last()[n] == t[n]);
        if t[n].0 != handle {
            lemma_found_before(t, handle, n + 1);
        }
    } else {
        assert(login_from(t, handle, n + 1) is None);
    }
}

/// A login that was put in is found, and one that was taken out is not.
pub proof fn lemma_placed_and_dropped(t: Table, handle: Seq<char>, p: PendingView)
    ensures
        login_named(placed(t, handle, p), handle) == Some(p),
        login_named(dropped(t, handle), handle) is None,
{
    lemma_dropped_has_none(t, handle);
    let rest = dropped(t, handle);
    lemma_not_found(rest, handle, 0);
    lemma_found_last(rest, handle, p, 0);
}

pub proof fn lemma_dropped_has_none(t: Table, handle: Seq<char>)
    ensures
        forall|i: int|
            0 <= i < dropped(t, handle).len() ==> (#[trigger] dropped(t, handle)[i]).0 != handle,
    decreases t.len(),
{
    if t.len() > 0 {
        lemma_dropped_has_none(t.drop_last(), handle);
        let rest = dropped(t.drop_last(), handle);
        assert forall|i: int| 0 <= i < dropped(t, handle).len() implies (#[trigger] dropped(
            t,
            handle,
        )[i]).0 != handle by {
            if i < rest.len() {
                assert(dropped(t, handle)[i] == rest[i]);
            }
        }
    }
}

pub proof fn lemma_not_found(t: Table, handle: Seq<char>, n: int)
    requires
        0 <= n,
        forall|i: int| 0 <= i < t.len() ==> (#[trigger] t[i]).0 != handle,
    ensures
        login_from(t, handle, n) is None,
    decreases t.len() - n,
{
    if n < t.len() {
        lemma_not_found(t, handle, n + 1);
    }
}

pub proof fn lemma_found_last(t: Table, handle: Seq<char>, p: PendingView, n: int)
    requires
        0 <= n <= t.len(),
        forall|i: int| 0 <= i < t.len() ==> (#[trigger] t[i]).0 != handle,
    ensures
        login_from(t.push((handle, p)), handle, n) == Some(p),
    decreases t.len() - n,
{
    if n < t.len() {
        assert(t.push((handle, p))[n] == t[n]);
        lemma_found_last(t, handle, p, n + 1);
    }
}

/// The logins on the way, and how many more have a place.
pub struct Logins {
    pending: Vec<(String, Pending)>,
    reserved: usize,
}

/// The logins on the way, as mathematics.
pub struct LoginsView {
    pub pending: Table,
    /// Logins that are being started or ended.
    pub reserved: nat,
}

impl View for Logins {
    type V = LoginsView;

    closed spec fn view(&self) -> LoginsView {
        LoginsView { pending: table_view(self.pending@), reserved: self.reserved as nat }
    }
}

/// Whether there are no more logins than there may be.
pub open spec fn bounded(l: LoginsView) -> bool {
    l.pending.len() + l.reserved <= MAX_PENDING
}

impl Logins {
    #[verifier::type_invariant]
    spec fn few(self) -> bool {
        self.pending@.len() + self.reserved <= MAX_PENDING
    }

    /// No logins.
    pub fn new() -> (r: Logins)
        ensures
            r@ == (LoginsView { pending: Seq::empty(), reserved: 0 }),
            bounded(r@),
    {
        let r = Logins { pending: Vec::new(), reserved: 0 };
        assert(table_view(r.pending@) == Seq::<(Seq<char>, PendingView)>::empty());
        r
    }

    /// How many logins are on the way.
    pub fn len(&self) -> (r: usize)
        ensures
            r == self@.pending.len(),
            bounded(self@),
    {
        proof {
            use_type_invariant(self);
        }
        self.pending.len()
    }

    /// How many more logins there may be.
    pub fn available(&self) -> (r: usize)
        ensures
            r == MAX_PENDING - self@.pending.len() - self@.reserved,
            bounded(self@),
    {
        proof {
            use_type_invariant(self);
        }
        MAX_PENDING - self.pending.len() - self.reserved
    }

    /// Takes a place for a login, where there is one.
    pub fn reserve(&mut self) -> (r: bool)
        ensures
            r == (old(self)@.pending.len() + old(self)@.reserved < MAX_PENDING),
            r ==> final(self)@ == (LoginsView {
                reserved: old(self)@.reserved + 1,
                ..old(self)@
            }),
            !r ==> *final(self) == *old(self),
            bounded(final(self)@),
    {
        proof {
            use_type_invariant(&*self);
        }
        if self.pending.len() + self.reserved < MAX_PENDING {
            self.reserved = self.reserved + 1;
            true
        } else {
            false
        }
    }

    /// Gives a place back.
    pub fn release(&mut self)
        requires
            old(self)@.reserved > 0,
        ensures
            final(self)@ == (LoginsView {
                reserved: (old(self)@.reserved - 1) as nat,
                ..old(self)@
            }),
            bounded(final(self)@),
    {
        proof {
            use_type_invariant(&*self);
        }
        self.reserved = self.reserved - 1;
    }

    /// Puts a login in the place that was taken for it.
    pub fn insert(&mut self, handle: String, login: Pending)
        requires
            old(self)@.reserved > 0,
        ensures
            final(self)@ == (LoginsView {
                pending: placed(old(self)@.pending, handle@, login@),
                reserved: (old(self)@.reserved - 1) as nat,
            }),
            bounded(final(self)@),
    {
        let ghost before = self@;
        proof {
            use_type_invariant(&*self);
            lemma_dropped_len(self@.pending, handle@);
        }
        self.drop_named(handle.as_str());
        self.reserved = self.reserved - 1;
        let ghost rest = self@.pending;
        let mut pending: Vec<(String, Pending)> = Vec::new();
        std::mem::swap(&mut pending, &mut self.pending);
        pending.push((handle, login));
        assert(table_view(pending@) == rest.push((handle@, login@)));
        self.pending = pending;
    }

    /// Changes a login that is on the way.
    pub fn update(&mut self, handle: &str, login: Pending)
        requires
            login_named(old(self)@.pending, handle@) is Some,
        ensures
            final(self)@ == (LoginsView {
                pending: placed(old(self)@.pending, handle@, login@),
                ..old(self)@
            }),
            bounded(final(self)@),
    {
        proof {
            use_type_invariant(&*self);
            lemma_dropped_len(self@.pending, handle@);
        }
        self.drop_named(handle);
        let ghost rest = self@.pending;
        let mut pending: Vec<(String, Pending)> = Vec::new();
        std::mem::swap(&mut pending, &mut self.pending);
        let key = owned(handle);
        pending.push((key, login));
        assert(table_view(pending@) == rest.push((handle@, login@)));
        self.pending = pending;
    }

    fn drop_named(&mut self, handle: &str)
        ensures
            final(self)@ == (LoginsView {
                pending: dropped(old(self)@.pending, handle@),
                ..old(self)@
            }),
    {
        let ghost all = self@.pending;
        let ghost held_back = self.reserved;
        proof {
            use_type_invariant(&*self);
        }
        let mut rest: Vec<(String, Pending)> = Vec::new();
        std::mem::swap(&mut rest, &mut self.pending);
        let mut kept: Vec<(String, Pending)> = Vec::new();
        let ghost mut i: int = 0;
        assert(table_view(kept@) == dropped(all.take(0), handle@));
        assert(table_view(rest@) == all.skip(0));
        while rest.len() > 0
            invariant
                0 <= i,
                i + rest.len() == all.len(),
                table_view(rest@) == all.skip(i),
                table_view(kept@) == dropped(all.take(i), handle@),
                kept.len() <= i,
            decreases rest.len(),
        {
            assert(all.take(i + 1).drop_last() == all.take(i));
            assert(all.take(i + 1).last() == all[i]);
            assert(all.skip(i)[0] == all[i]);
            let ghost before = table_view(kept@);
            let ghost held = rest@;
            let entry = rest.remove(0);
            assert(table_view(held)[0] == (entry.0@, entry.1@));
            assert(table_view(rest@) == all.skip(i + 1)) by {
                assert(table_view(rest@) == table_view(held).skip(1));
            }
            if !same(entry.0.as_str(), handle) {
                let ghost one = (entry.0@, entry.1@);
                kept.push(entry);
                assert(table_view(kept@) == before.push(one));
            }
            proof {
                i = i + 1;
            }
        }
        assert(all.take(i) == all);
        self.pending = kept;
    }

    /// Takes out the login with a handle, if there is one.
    pub fn remove(&mut self, handle: &str)
        ensures
            final(self)@ == (LoginsView {
                pending: dropped(old(self)@.pending, handle@),
                ..old(self)@
            }),
            bounded(final(self)@),
    {
        proof {
            use_type_invariant(&*self);
            lemma_dropped_len(self@.pending, handle@);
        }
        self.drop_named(handle);
    }

    /// Takes out the logins that have expired at a time.
    pub fn retain_live(&mut self, time: u64)
        ensures
            final(self)@ == (LoginsView { pending: live(old(self)@.pending, time), ..old(self)@ }),
            bounded(final(self)@),
    {
        let ghost all = self@.pending;
        proof {
            use_type_invariant(&*self);
            lemma_live_len(all, time);
        }
        let mut rest: Vec<(String, Pending)> = Vec::new();
        std::mem::swap(&mut rest, &mut self.pending);
        let mut kept: Vec<(String, Pending)> = Vec::new();
        let ghost mut i: int = 0;
        assert(table_view(kept@) == live(all.take(0), time));
        assert(table_view(rest@) == all.skip(0));
        while rest.len() > 0
            invariant
                0 <= i,
                i + rest.len() == all.len(),
                table_view(rest@) == all.skip(i),
                table_view(kept@) == live(all.take(i), time),
            decreases rest.len(),
        {
            assert(all.take(i + 1).drop_last() == all.take(i));
            assert(all.take(i + 1).last() == all[i]);
            assert(all.skip(i)[0] == all[i]);
            let ghost before = table_view(kept@);
            let ghost held = rest@;
            let entry = rest.remove(0);
            assert(table_view(held)[0] == (entry.0@, entry.1@));
            assert(table_view(rest@) == all.skip(i + 1)) by {
                assert(table_view(rest@) == table_view(held).skip(1));
            }
            if entry.1.expires_at > time {
                let ghost one = (entry.0@, entry.1@);
                kept.push(entry);
                assert(table_view(kept@) == before.push(one));
            }
            proof {
                i = i + 1;
            }
        }
        assert(all.take(i) == all);
        assert(kept@.len() == table_view(kept@).len());
        self.pending = kept;
    }

    /// The login with a handle.
    pub fn get(&self, handle: &str) -> (r: Option<&Pending>)
        ensures
            (match r {
                Some(p) => Some(p@),
                None => None,
            }) == login_named(self@.pending, handle@),
    {
        let ghost all = self@.pending;
        let mut i: usize = 0;
        while i < self.pending.len()
            invariant
                i <= self.pending.len(),
                all == table_view(self.pending@),
                login_named(all, handle@) == login_from(all, handle@, i as int),
            decreases self.pending.len() - i,
        {
            if same(self.pending[i].0.as_str(), handle) {
                return Some(&self.pending[i].1);
            }
            i = i + 1;
        }
        None
    }
}

} // verus!
