//! The per-user admission gate.
//!
//! The limiter counts submissions in fixed windows: a window opens with a user's
//! first submission and stays open for `window_length` seconds. A burst at the
//! end of one window and the start of the next is let through; that is how a
//! fixed window behaves and is accepted here.

use crate::error::ServiceError;
use crate::table::UserTable;
use vstd::prelude::*;

verus! {

/// One user's counting window.
#[derive(Debug, Clone, Copy, PartialEq, Eq, Structural)]
pub struct Window {
    /// Unix seconds at which the window opened.
    pub start: i64,
    /// Submissions admitted since then.
    pub count: u32,
}

/// What an [`AdmissionGate`] is, mathematically.
pub struct GateModel {
    pub windows: Map<Seq<char>, Window>,
    pub window_length: i64,
    pub max_per_window: u32,
}

impl GateModel {
    /// The limiter that has seen no submission.
    pub open spec fn fresh(window_length: i64, max_per_window: u32) -> GateModel {
        GateModel { windows: Map::empty(), window_length, max_per_window }
    }

    /// Whether `user`'s window is still open at time `t`.
    pub open spec fn window_open(self, user: Seq<char>, t: i64) -> bool {
        self.windows.contains_key(user) && t - self.windows[user].start < self.window_length
    }

    /// Whether a submission of `user` at time `t` is let through.
    pub open spec fn admits(self, user: Seq<char>, t: i64) -> bool {
        self.window_open(user, t) ==> self.windows[user].count < self.max_per_window
    }

    /// The limiter after a submission of `user` at time `t`: unchanged when the
    /// submission is turned away; one more in the open window when there is
    /// one; otherwise a new window that opens at `t` with one submission.
    pub open spec fn submit(self, user: Seq<char>, t: i64) -> GateModel {
        if !self.admits(user, t) {
            self
        } else if self.window_open(user, t) {
            let w = self.windows[user];
            GateModel {
                windows: self.windows.insert(
                    user,
                    Window { start: w.start, count: (w.count + 1) as u32 },
                ),
                ..self
            }
        } else {
            GateModel { windows: self.windows.insert(user, Window { start: t, count: 1 }), ..self }
        }
    }

    /// The limiter after `user` has submitted at each of the times `ts` in turn.
    pub open spec fn submit_all(self, user: Seq<char>, ts: Seq<i64>) -> GateModel
        decreases ts.len(),
    {
        if ts.len() == 0 {
            self
        } else {
            self.submit_all(user, ts.drop_last()).submit(user, ts.last())
        }
    }
}

/// Turns a user's submission away once too many have come in one window.
pub struct AdmissionGate {
    windows: UserTable<Window>,
    window_length: i64,
    max_per_window: u32,
}

impl View for AdmissionGate {
    type V = GateModel;

    closed spec fn view(&self) -> GateModel {
        GateModel {
            windows: self.windows@,
            window_length: self.window_length,
            max_per_window: self.max_per_window,
        }
    }
}

impl AdmissionGate {
    /// A limiter that lets each user submit `max_per_window` times in every
    /// window of `window_length` seconds.
    pub fn new(window_length: i64, max_per_window: u32) -> (g: Self)
        ensures
            g@ == GateModel::fresh(window_length, max_per_window),
    {
        AdmissionGate { windows: UserTable::new(), window_length, max_per_window }
    }

    /// Decides on a submission of `user_id` at time `now` and records it when
    /// it is let through. A submission that is turned away fails with
    /// `RateLimitExceeded`, which carries the user's identifier, and leaves
    /// the limiter as it was.
    pub fn submit(&mut self, user_id: &str, now: i64) -> (r: Result<(), ServiceError>)
        ensures
            final(self)@ == old(self)@.submit(user_id@, now),
            r is Ok <==> old(self)@.admits(user_id@, now),
            r matches Err(e) ==> e is RateLimitExceeded && e.detail() == user_id@,
    {
        let next: Window = match self.windows.get(user_id) {
            Some(w) => {
                if (now as i128) - (w.start as i128) < (self.window_length as i128) {
                    if w.count >= self.max_per_window {
                        return Err(ServiceError::RateLimitExceeded(String::from_str(user_id)));
                    }
                    Window { start: w.start, count: w.count + 1 }
                } else {
                    Window { start: now, count: 1 }
                }
            },
            None => Window { start: now, count: 1 },
        };
        self.windows.insert(String::from_str(user_id), next);
        Ok(())
    }

    /// The window that is recorded for `user_id`, if any.
    pub fn window(&self, user_id: &str) -> (w: Option<Window>)
        ensures
            w == if self@.windows.contains_key(user_id@) {
                Some(self@.windows[user_id@])
            } else {
                None
            },
    {
        match self.windows.get(user_id) {
            Some(w) => Some(*w),
            None => None,
        }
    }

    /// The length of a window in seconds.
    pub fn window_length(&self) -> (n: i64)
        ensures
            n == self@.window_length,
    {
        self.window_length
    }

    /// The number of submissions that one window admits.
    pub fn max_per_window(&self) -> (n: u32)
        ensures
            n == self@.max_per_window,
    {
        self.max_per_window
    }
}

/// While a user's submissions come within `window_length` seconds of the
/// first, which found no window open, the limiter counts them in the window
/// that the first one opened: after `k` of them, with `k` no more than the
/// limit, all were let through and the window holds `k`.
pub proof fn lemma_window_counts(g: GateModel, user: Seq<char>, ts: Seq<i64>)
    requires
        1 <= ts.len() <= g.max_per_window,
        !g.window_open(user, ts[0]),
        forall|i: int| 0 <= i < ts.len() ==> (#[trigger] ts[i]) - ts[0] < g.window_length,
    ensures
        g.submit_all(user, ts).windows.contains_key(user),
        g.submit_all(user, ts).windows[user] == (Window { start: ts[0], count: ts.len() as u32 }),
        g.submit_all(user, ts).window_length == g.window_length,
        g.submit_all(user, ts).max_per_window == g.max_per_window,
        forall|i: int|
            0 <= i < ts.len() ==> #[trigger] g.submit_all(user, ts.take(i)).admits(user, ts[i]),
    decreases ts.len(),
{
    let front = ts.drop_last();
    if ts.len() == 1 {
        assert(front =~= Seq::<i64>::empty());
        assert(g.submit_all(user, front) == g);
        assert forall|i: int| 0 <= i < ts.len() implies #[trigger] g.submit_all(
            user,
            ts.take(i),
        ).admits(user, ts[i]) by {
            assert(ts.take(0) =~= Seq::<i64>::empty());
        }
    } else {
        assert(front[0] == ts[0]);
        lemma_window_counts(g, user, front);
        assert forall|i: int| 0 <= i < ts.len() implies #[trigger] g.submit_all(
            user,
            ts.take(i),
        ).admits(user, ts[i]) by {
            if i < ts.len() - 1 {
                assert(front.take(i) =~= ts.take(i));
                assert(g.submit_all(user, front.take(i)).admits(user, front[i]));
            } else {
                assert(ts.take(i) =~= front);
            }
        }
    }
}

/// With a limit of `N >= 1` per window, the submission that follows `N`
/// others from the same user, all within `window_length` seconds of the
/// first, which found no window open, is turned away, and the limiter stays
/// as it was.
pub proof fn lemma_rate_limit_rejects(g: GateModel, user: Seq<char>, ts: Seq<i64>)
    requires
        g.max_per_window >= 1,
        ts.len() == g.max_per_window + 1,
        !g.window_open(user, ts[0]),
        forall|i: int| 0 <= i < ts.len() ==> (#[trigger] ts[i]) - ts[0] < g.window_length,
    ensures
        forall|i: int|
            0 <= i < ts.len() - 1 ==> #[trigger] g.submit_all(user, ts.take(i)).admits(
                user,
                ts[i],
            ),
        !g.submit_all(user, ts.drop_last()).admits(user, ts.last()),
        g.submit_all(user, ts) == g.submit_all(user, ts.drop_last()),
{
    let front = ts.drop_last();
    assert(front[0] == ts[0]);
    lemma_window_counts(g, user, front);
    assert forall|i: int| 0 <= i < ts.len() - 1 implies #[trigger] g.submit_all(
        user,
        ts.take(i),
    ).admits(user, ts[i]) by {
        assert(front.take(i) =~= ts.take(i));
        assert(g.submit_all(user, front.take(i)).admits(user, front[i]));
    }
}

/// A submission that comes `window_length` seconds or more after a user's
/// window opened is let through and opens a new window that holds it alone,
/// however full the old window was.
pub proof fn lemma_window_resets(g: GateModel, user: Seq<char>, t: i64)
    requires
        g.windows.contains_key(user),
        t - g.windows[user].start >= g.window_length,
    ensures
        g.admits(user, t),
        g.submit(user, t).windows[user] == (Window { start: t, count: 1 }),
{
}

} // verus!
