use vstd::arithmetic::div_mod::{
    lemma_fundamental_div_mod, lemma_fundamental_div_mod_converse, lemma_hoist_over_denominator,
};
use vstd::prelude::*;

use crate::window::{Window, WindowModel};

verus! {

/// Empty, stateless context passed to every assignment call; reserved for
/// future per-call metadata (such as the current processing time) without
/// changing the assigner interface.
pub struct WindowAssignerContext {}

/// Policy mapping an event timestamp to the ordered sequence of windows it
/// belongs to. Assignment is a pure function of the configuration and the
/// timestamp; no variant keeps state across calls.
#[derive(Clone, Copy, PartialEq, Eq, Structural, Debug)]
pub enum WindowAssigner {
    /// One window of width `size` per timestamp, aligned to the multiples of
    /// `size`; negative timestamps bucket by the same floor-division rule.
    Tumbling { size: i64 },
    /// Every window of width `size` whose start is a multiple of `slide` and
    /// whose half-open interval holds the timestamp, emitted in ascending
    /// order of start.
    Sliding { size: i64, slide: i64 },
    /// One window reaching `gap` past the timestamp. Merging session windows
    /// of neighbouring records depends on prior records and is the concern of
    /// a collaborator layered on top; this core assigns per timestamp only.
    Session { gap: i64 },
    /// One fixed window covering all representable time, for count-based or
    /// non-windowed semantics.
    Global,
}

/// The window model with lower bound `start` and width `size`.
pub open spec fn window_model_at(start: int, size: int) -> WindowModel {
    WindowModel { min_timestamp: start, max_timestamp: start + size }
}

/// Start of the tumbling window of width `size` that holds `timestamp`: the
/// greatest multiple of `size` at most `timestamp` (`/` on `int` rounds
/// toward negative infinity for a positive divisor).
pub open spec fn tumbling_window_start(timestamp: int, size: int) -> int {
    size * (timestamp / size)
}

/// Start of the lowest sliding window that holds `timestamp`: the least
/// multiple of `slide` strictly greater than `timestamp - size`.
pub open spec fn sliding_first_start(timestamp: int, size: int, slide: int) -> int {
    slide * ((timestamp - size) / slide) + slide
}

/// How many multiples of `slide` lie in the half-open interval
/// `(timestamp - size, timestamp]`: the number of sliding windows holding
/// `timestamp`.
pub open spec fn sliding_window_count(timestamp: int, size: int, slide: int) -> int {
    timestamp / slide - (timestamp - size) / slide
}

/// The `i`-th sliding window assigned to `timestamp`, counting upward from
/// the lowest start.
pub open spec fn sliding_window_model(timestamp: int, size: int, slide: int, i: int) -> WindowModel {
    window_model_at(sliding_first_start(timestamp, size, slide) + i * slide, size)
}

impl WindowAssigner {
    /// Configuration validity, checked when the owning stage opens: widths
    /// and slides are positive, and a slide never exceeds the window size
    /// (a larger slide would leave timestamps in no window at all).
    pub open spec fn valid(self) -> bool {
        match self {
            WindowAssigner::Tumbling { size } => 0 < size,
            WindowAssigner::Sliding { size, slide } => 0 < slide <= size,
            WindowAssigner::Session { gap } => 0 < gap,
            WindowAssigner::Global => true,
        }
    }

    /// The ordered sequence of windows assigned to `timestamp`: the meaning
    /// of `assign_windows`, as a pure function of configuration and
    /// timestamp alone.
    pub open spec fn windows_of(self, timestamp: int) -> Seq<WindowModel> {
        match self {
            WindowAssigner::Tumbling { size } => seq![
                window_model_at(tumbling_window_start(timestamp, size as int), size as int),
            ],
            WindowAssigner::Sliding { size, slide } => Seq::new(
                sliding_window_count(timestamp, size as int, slide as int) as nat,
                |i: int| sliding_window_model(timestamp, size as int, slide as int, i),
            ),
            WindowAssigner::Session { gap } => seq![window_model_at(timestamp, gap as int)],
            WindowAssigner::Global => seq![
                WindowModel { min_timestamp: i64::MIN as int, max_timestamp: i64::MAX as int },
            ],
        }
    }

    /// The one machine limit on assignment: every window assigned to
    /// `timestamp` has bounds that fit the timestamp domain.
    pub open spec fn windows_fit(self, timestamp: int) -> bool {
        forall|i: int|
            0 <= i < self.windows_of(timestamp).len() ==> {
                &&& i64::MIN <= (#[trigger] self.windows_of(timestamp)[i]).min_timestamp
                &&& self.windows_of(timestamp)[i].max_timestamp <= i64::MAX
            }
    }

    /// Executable form of `valid`.
    pub fn is_valid(&self) -> (r: bool)
        ensures
            r == self.valid(),
    {
        match self {
            WindowAssigner::Tumbling { size } => 0 < *size,
            WindowAssigner::Sliding { size, slide } => 0 < *slide && *slide <= *size,
            WindowAssigner::Session { gap } => 0 < *gap,
            WindowAssigner::Global => true,
        }
    }

    /// Assigns `timestamp` to the windows it belongs to under this policy:
    /// exactly the sequence `windows_of(timestamp)`, in emission order. A
    /// pure function of the configuration and the timestamp, so repeated
    /// calls agree.
    pub fn assign_windows(&self, timestamp: i64, _context: WindowAssignerContext) -> (windows: Vec<
        Window,
    >)
        requires
            self.valid(),
            self.windows_fit(timestamp as int),
        ensures
            windows.deep_view() == self.windows_of(timestamp as int),
    {
        let ghost t = timestamp as int;
        match self {
            WindowAssigner::Tumbling { size } => {
                let size = *size;
                let q = floor_div(timestamp, size);
                proof {
                    assert(self.windows_of(t)[0] == window_model_at(
                        tumbling_window_start(t, size as int),
                        size as int,
                    ));
                    assert(i64::MIN <= self.windows_of(t)[0].min_timestamp);
                    assert(self.windows_of(t)[0].max_timestamp <= i64::MAX);
                }
                let start = size * q;
                let mut windows: Vec<Window> = Vec::new();
                windows.push(Window::new(start, start + size));
                proof {
                    assert(windows.deep_view() =~= self.windows_of(t));
                }
                windows
            }
            WindowAssigner::Sliding { size, slide } => {
                let s = *size;
                let d = *slide;
                let ghost first = sliding_first_start(t, s as int, d as int);
                let ghost c = sliding_window_count(t, s as int, d as int);
                proof {
                    lemma_sliding_shape(t, s as int, d as int);
                }
                let delta = sliding_offset(timestamp, s, d);
                proof {
                    assert(t - first == delta);
                    assert(self.windows_of(t)[0] == sliding_window_model(t, s as int, d as int, 0));
                    assert(sliding_window_model(t, s as int, d as int, 0) == window_model_at(
                        first,
                        s as int,
                    )) by {
                        assert(first + 0 * (d as int) == first) by (nonlinear_arith);
                    };
                    assert(i64::MIN <= self.windows_of(t)[0].min_timestamp);
                    assert(self.windows_of(t)[0].max_timestamp <= i64::MAX);
                }
                let start0 = timestamp - delta;
                proof {
                    let qd = delta as int / d as int;
                    lemma_fundamental_div_mod(delta as int, d as int);
                    let rd = (delta as int) % (d as int);
                    assert(0 <= qd <= delta as int) by (nonlinear_arith)
                        requires
                            delta as int == (d as int) * qd + rd,
                            0 <= rd < (d as int),
                            0 < d as int,
                            0 <= delta as int,
                    ;
                }
                let count64 = (delta as u64) / (d as u64) + 1;
                proof {
                    assert(count64 as int == c);
                }
                let mut windows: Vec<Window> = Vec::new();
                windows.push(Window::new(start0, start0 + s));
                let mut cur = start0;
                let mut i: u64 = 1;
                proof {
                    assert(windows.deep_view()[0] == self.windows_of(t)[0]);
                }
                while i < count64
                    invariant
                        0 < d <= s,
                        *self == (WindowAssigner::Sliding { size: s, slide: d }),
                        t == timestamp as int,
                        self.windows_fit(t),
                        first == sliding_first_start(t, s as int, d as int),
                        c == sliding_window_count(t, s as int, d as int),
                        count64 as int == c,
                        1 <= i as int <= c,
                        cur as int == first + (i as int - 1) * (d as int),
                        windows@.len() == i as int,
                        forall|j: int|
                            0 <= j < i as int ==> windows.deep_view()[j] == self.windows_of(t)[j],
                    decreases count64 - i,
                {
                    proof {
                        lemma_sliding_shape(t, s as int, d as int);
                        let ii = i as int;
                        let di = d as int;
                        assert(cur as int + di == first + ii * di) by (nonlinear_arith)
                            requires
                                cur as int == first + (ii - 1) * di,
                        ;
                        assert(ii * di <= (c - 1) * di) by (nonlinear_arith)
                            requires
                                ii <= c - 1,
                                0 < di,
                        ;
                        assert(self.windows_of(t)[ii] == sliding_window_model(t, s as int, di, ii));
                        assert(i64::MIN <= self.windows_of(t)[ii].min_timestamp);
                        assert(self.windows_of(t)[ii].max_timestamp <= i64::MAX);
                        assert(t % di >= 0) by {
                            lemma_fundamental_div_mod(t, di);
                        };
                        assert(first + ii * di <= (d as int) * (t / di) <= t) by {
                            lemma_fundamental_div_mod(t, di);
                        };
                    }
                    cur = cur + d;
                    let ghost dv0 = windows.deep_view();
                    windows.push(Window::new(cur, cur + s));
                    i = i + 1;
                    proof {
                        assert forall|j: int|
                            0 <= j < i as int implies windows.deep_view()[j] == self.windows_of(
                            t,
                        )[j] by {
                            assert(windows.deep_view()[j] == windows@[j].deep_view());
                            if j < i as int - 1 {
                                assert(windows@[j].deep_view() == dv0[j]);
                            }
                        }
                    }
                }
                proof {
                    assert(windows.deep_view() =~= self.windows_of(t));
                }
                windows
            }
            WindowAssigner::Session { gap } => {
                let gap = *gap;
                proof {
                    assert(self.windows_of(t)[0] == window_model_at(t, gap as int));
                    assert(self.windows_of(t)[0].max_timestamp <= i64::MAX);
                }
                let mut windows: Vec<Window> = Vec::new();
                windows.push(Window::new(timestamp, timestamp + gap));
                proof {
                    assert(windows.deep_view() =~= self.windows_of(t));
                }
                windows
            }
            WindowAssigner::Global => {
                let mut windows: Vec<Window> = Vec::new();
                windows.push(Window::new(i64::MIN, i64::MAX));
                proof {
                    assert(windows.deep_view() =~= self.windows_of(t));
                }
                windows
            }
        }
    }

    /// Whether assignment for `timestamp` stays inside the timestamp domain:
    /// the executable form of `windows_fit`, for a driver that must test the
    /// machine limit before it dispatches an element.
    pub fn assignment_fits(&self, timestamp: i64) -> (r: bool)
        requires
            self.valid(),
        ensures
            r == self.windows_fit(timestamp as int),
    {
        let ghost t = timestamp as int;
        match self {
            WindowAssigner::Tumbling { size } => {
                let size = *size;
                let tm = floor_mod(timestamp, size);
                let start = (timestamp as i128) - (tm as i128);
                proof {
                    lemma_fundamental_div_mod(t, size as int);
                    assert(start == tumbling_window_start(t, size as int));
                }
                let r = (i64::MIN as i128) <= start && start + (size as i128) <= (
                i64::MAX as i128);
                proof {
                    assert(self.windows_of(t)[0] == window_model_at(
                        tumbling_window_start(t, size as int),
                        size as int,
                    ));
                    if r {
                        assert forall|i: int| 0 <= i < self.windows_of(t).len() implies {
                            &&& i64::MIN <= (#[trigger] self.windows_of(t)[i]).min_timestamp
                            &&& self.windows_of(t)[i].max_timestamp <= i64::MAX
                        } by {
                            assert(i == 0);
                        }
                    }
                }
                r
            }
            WindowAssigner::Sliding { size, slide } => {
                let s = *size;
                let d = *slide;
                let ghost f = sliding_first_start(t, s as int, d as int);
                let ghost c = sliding_window_count(t, s as int, d as int);
                proof {
                    lemma_sliding_shape(t, s as int, d as int);
                }
                let delta = sliding_offset(timestamp, s, d);
                let tm = floor_mod(timestamp, d);
                let first = (timestamp as i128) - (delta as i128);
                let last = (timestamp as i128) - (tm as i128);
                proof {
                    lemma_fundamental_div_mod(t, d as int);
                    assert(first == f);
                    assert(last == (d as int) * (t / d as int));
                    assert(last == f + (c - 1) * (d as int));
                }
                let r = (i64::MIN as i128) <= first && last + (s as i128) <= (i64::MAX as i128);
                proof {
                    if r {
                        assert forall|i: int| 0 <= i < self.windows_of(t).len() implies {
                            &&& i64::MIN <= (#[trigger] self.windows_of(t)[i]).min_timestamp
                            &&& self.windows_of(t)[i].max_timestamp <= i64::MAX
                        } by {
                            assert(self.windows_of(t)[i] == sliding_window_model(
                                t,
                                s as int,
                                d as int,
                                i,
                            ));
                            assert(0 <= i * (d as int) <= (c - 1) * (d as int)) by (nonlinear_arith)
                                requires
                                    0 <= i <= c - 1,
                                    0 < d as int,
                            ;
                        }
                    } else {
                        if self.windows_fit(t) {
                            assert(self.windows_of(t)[0] == sliding_window_model(
                                t,
                                s as int,
                                d as int,
                                0,
                            ));
                            assert(f + 0 * (d as int) == f) by (nonlinear_arith);
                            assert(i64::MIN <= self.windows_of(t)[0].min_timestamp);
                            assert(self.windows_of(t)[c - 1] == sliding_window_model(
                                t,
                                s as int,
                                d as int,
                                c - 1,
                            ));
                            assert(self.windows_of(t)[c - 1].max_timestamp <= i64::MAX);
                            assert(false);
                        }
                    }
                }
                r
            }
            WindowAssigner::Session { gap } => {
                let gap = *gap;
                let r = (timestamp as i128) + (gap as i128) <= (i64::MAX as i128);
                proof {
                    assert(self.windows_of(t)[0] == window_model_at(t, gap as int));
                    if r {
                        assert forall|i: int| 0 <= i < self.windows_of(t).len() implies {
                            &&& i64::MIN <= (#[trigger] self.windows_of(t)[i]).min_timestamp
                            &&& self.windows_of(t)[i].max_timestamp <= i64::MAX
                        } by {
                            assert(i == 0);
                        }
                    }
                }
                r
            }
            WindowAssigner::Global => {
                proof {
                    assert forall|i: int| 0 <= i < self.windows_of(t).len() implies {
                        &&& i64::MIN <= (#[trigger] self.windows_of(t)[i]).min_timestamp
                        &&& self.windows_of(t)[i].max_timestamp <= i64::MAX
                    } by {
                        assert(i == 0);
                    }
                }
                true
            }
        }
    }

    /// Assignment with its preconditions tested first: `Some` exactly when
    /// the configuration is valid and every window assigned to `timestamp`
    /// fits the timestamp domain, and the windows are then
    /// `windows_of(timestamp)` in emission order; `None` otherwise, with
    /// nothing assigned.
    pub fn try_assign_windows(&self, timestamp: i64, context: WindowAssignerContext) -> (r: Option<
        Vec<Window>,
    >)
        ensures
            match r {
                Some(windows) => self.valid() && self.windows_fit(timestamp as int)
                    && windows.deep_view() == self.windows_of(timestamp as int),
                None => !self.valid() || !self.windows_fit(timestamp as int),
            },
    {
        if self.is_valid() && self.assignment_fits(timestamp) {
            Some(self.assign_windows(timestamp, context))
        } else {
            None
        }
    }
}

/// Determinism: the assigned window sequence is a pure function of the
/// assigner configuration and the timestamp, so any two results that
/// `assign_windows` guarantees for the same configuration and timestamp are
/// the same ordered sequence.
pub proof fn lemma_assign_windows_deterministic(
    assigner: WindowAssigner,
    timestamp: i64,
    first_result: Seq<WindowModel>,
    second_result: Seq<WindowModel>,
)
    requires
        first_result == assigner.windows_of(timestamp as int),
        second_result == assigner.windows_of(timestamp as int),
    ensures
        first_result == second_result,
{
}

/// Tumbling correctness: for a positive `size`, exactly one window is
/// assigned; it starts at `floor(timestamp / size) * size`, is `size` wide,
/// and always holds the timestamp.
pub proof fn lemma_tumbling_correct(size: i64, timestamp: i64)
    requires
        0 < size,
    ensures
        ({
            let ws = (WindowAssigner::Tumbling { size }).windows_of(timestamp as int);
            &&& ws.len() == 1
            &&& ws[0] == window_model_at(
                tumbling_window_start(timestamp as int, size as int),
                size as int,
            )
            &&& ws[0].max_timestamp - ws[0].min_timestamp == size
            &&& ws[0].contains(timestamp as int)
        }),
{
    lemma_fundamental_div_mod(timestamp as int, size as int);
}

/// Sliding completeness: when `slide` divides `size`, the number of windows
/// assigned is exactly `size / slide`, every window is `size` wide, and the
/// starts of consecutive windows (in emission order) ascend by exactly
/// `slide`.
pub proof fn lemma_sliding_complete(size: i64, slide: i64, timestamp: i64)
    requires
        0 < slide <= size,
        size as int % slide as int == 0,
    ensures
        ({
            let ws = (WindowAssigner::Sliding { size, slide }).windows_of(timestamp as int);
            &&& ws.len() == size as int / slide as int
            &&& forall|i: int|
                0 <= i < ws.len() ==> (#[trigger] ws[i]).max_timestamp - ws[i].min_timestamp
                    == size
            &&& forall|i: int|
                0 <= i && i + 1 < ws.len() ==> (#[trigger] ws[i + 1]).min_timestamp == ws[i].min_timestamp
                    + slide
        }),
{
    let t = timestamp as int;
    let s = size as int;
    let d = slide as int;
    let k = s / d;
    let ws = (WindowAssigner::Sliding { size, slide }).windows_of(t);
    lemma_sliding_shape(t, s, d);
    lemma_fundamental_div_mod(s, d);
    lemma_hoist_over_denominator(t, -k, slide as nat);
    assert(t + (-k) * d == t - s) by (nonlinear_arith)
        requires
            s == d * k,
    ;
    assert(ws.len() == k);
    assert forall|i: int| 0 <= i < ws.len() implies (#[trigger] ws[i]).max_timestamp
        - ws[i].min_timestamp == size by {
        assert(ws[i] == sliding_window_model(t, s, d, i));
    }
    assert forall|i: int| 0 <= i && i + 1 < ws.len() implies (#[trigger] ws[i + 1]).min_timestamp
        == ws[i].min_timestamp + slide by {
        assert(ws[i] == sliding_window_model(t, s, d, i));
        assert(ws[i + 1] == sliding_window_model(t, s, d, i + 1));
        assert((i + 1) * d == i * d + d) by (nonlinear_arith);
    }
}

/// Sliding membership: a window of the sliding family — one of width `size`
/// whose start is the `k`-th multiple of `slide` — is assigned to a
/// timestamp exactly when its half-open interval holds that timestamp.
pub proof fn lemma_sliding_membership(size: i64, slide: i64, timestamp: i64, k: int)
    requires
        0 < slide <= size,
    ensures
        ({
            let ws = (WindowAssigner::Sliding { size, slide }).windows_of(timestamp as int);
            let w = window_model_at(k * (slide as int), size as int);
            w.contains(timestamp as int) <==> exists|i: int| 0 <= i < ws.len() && ws[i] == w
        }),
{
    let t = timestamp as int;
    let s = size as int;
    let d = slide as int;
    let ws = (WindowAssigner::Sliding { size, slide }).windows_of(t);
    let w = window_model_at(k * d, s);
    let first = sliding_first_start(t, s, d);
    let c = sliding_window_count(t, s, d);
    let q1 = (t - s) / d;
    let qt = t / d;
    lemma_sliding_shape(t, s, d);
    lemma_fundamental_div_mod(t - s, d);
    lemma_fundamental_div_mod(t, d);
    if w.contains(t) {
        let i = k - q1 - 1;
        assert(q1 < k <= qt) by (nonlinear_arith)
            requires
                d * q1 <= t - s < k * d,
                k * d <= t < d * qt + d,
                0 < d,
        ;
        assert(first + i * d == k * d) by (nonlinear_arith)
            requires
                first == d * q1 + d,
                i == k - q1 - 1,
        ;
        assert(ws[i] == sliding_window_model(t, s, d, i));
        assert(0 <= i < ws.len() && ws[i] == w);
    }
    if exists|i: int| 0 <= i < ws.len() && ws[i] == w {
        let i = choose|i: int| 0 <= i < ws.len() && ws[i] == w;
        assert(ws[i] == sliding_window_model(t, s, d, i));
        assert(sliding_window_model(t, s, d, i).contains(t));
    }
}

/// Boundary inclusion: every window assigned to a timestamp holds it in its
/// half-open interval, so a timestamp equal to a window's inclusive
/// `min_timestamp` is assigned to that window, and no assigned window has the
/// timestamp as its exclusive `max_timestamp`. (The global assigner covers
/// all representable time; its one window holds every timestamp below the
/// end of the representable range.)
pub proof fn lemma_assigned_windows_contain(assigner: WindowAssigner, timestamp: i64)
    requires
        assigner.valid(),
        assigner is Global ==> timestamp < i64::MAX,
    ensures
        forall|i: int|
            0 <= i < assigner.windows_of(timestamp as int).len() ==> (#[trigger] assigner.windows_of(
                timestamp as int,
            )[i]).contains(timestamp as int),
{
    let t = timestamp as int;
    match assigner {
        WindowAssigner::Tumbling { size } => {
            lemma_fundamental_div_mod(t, size as int);
        }
        WindowAssigner::Sliding { size, slide } => {
            let s = size as int;
            let d = slide as int;
            lemma_sliding_shape(t, s, d);
            assert forall|i: int| 0 <= i < assigner.windows_of(t).len() implies (
            #[trigger] assigner.windows_of(t)[i]).contains(t) by {
                assert(assigner.windows_of(t)[i] == sliding_window_model(t, s, d, i));
            }
        }
        WindowAssigner::Session { gap: _ } => {
        }
        WindowAssigner::Global => {
        }
    }
}

/// Shape of the sliding-window sequence for `0 < d <= s`: there is at least
/// one window, the lowest start lies `(t - s) % d + s - d` below `t`, the
/// highest start is the greatest multiple of `d` at most `t`, the count is
/// one more than the floor quotient of `t - first` by `d`, and every window
/// in the sequence holds `t`.
proof fn lemma_sliding_shape(t: int, s: int, d: int)
    requires
        0 < d <= s,
    ensures
        1 <= sliding_window_count(t, s, d),
        t - sliding_first_start(t, s, d) == (t - s) % d + s - d,
        sliding_first_start(t, s, d) + (sliding_window_count(t, s, d) - 1) * d == d * (t / d),
        sliding_window_count(t, s, d) == (t - sliding_first_start(t, s, d)) / d + 1,
        forall|i: int|
            0 <= i < sliding_window_count(t, s, d) ==> #[trigger] sliding_window_model(
                t,
                s,
                d,
                i,
            ).contains(t),
{
    let q1 = (t - s) / d;
    let r1 = (t - s) % d;
    let qt = t / d;
    let rt = t % d;
    lemma_fundamental_div_mod(t - s, d);
    lemma_fundamental_div_mod(t, d);
    let first = sliding_first_start(t, s, d);
    let c = sliding_window_count(t, s, d);
    assert(d * (qt - q1) == s + r1 - rt) by (nonlinear_arith)
        requires
            t - s == d * q1 + r1,
            t == d * qt + rt,
    ;
    assert(qt - q1 >= 1) by (nonlinear_arith)
        requires
            d * (qt - q1) == s + r1 - rt,
            0 < d,
            0 <= r1,
            rt < d,
            d <= s,
    ;
    assert(first + (c - 1) * d == d * qt) by (nonlinear_arith)
        requires
            first == d * q1 + d,
            c == qt - q1,
    ;
    lemma_fundamental_div_mod_converse(t - first, d, c - 1, rt);
    assert forall|i: int| 0 <= i < c implies #[trigger] sliding_window_model(t, s, d, i).contains(
        t,
    ) by {
        assert(0 <= i * d <= (c - 1) * d) by (nonlinear_arith)
            requires
                0 <= i <= c - 1,
                0 < d,
        ;
    }
}

/// Distance from `timestamp` down to the start of the lowest sliding window
/// that holds it, computed without ever forming `timestamp - s` (which could
/// leave the timestamp domain). Always in `[0, s)`.
fn sliding_offset(timestamp: i64, s: i64, d: i64) -> (delta: i64)
    requires
        0 < d <= s,
    ensures
        delta == timestamp as int - sliding_first_start(timestamp as int, s as int, d as int),
        0 <= delta < s,
{
    let ghost t = timestamp as int;
    let sm = floor_mod(s, d);
    let tm = floor_mod(timestamp, d);
    let ru = ((tm as u64) + (d as u64) - (sm as u64)) % (d as u64);
    proof {
        let qs = s as int / d as int;
        let qt = t / d as int;
        lemma_fundamental_div_mod(s as int, d as int);
        lemma_fundamental_div_mod(t, d as int);
        let v = tm as int + d as int - sm as int;
        lemma_fundamental_div_mod(v, d as int);
        let qv = v / d as int;
        let rv = v % d as int;
        assert(t - s == (qt - qs - 1 + qv) * (d as int) + rv) by (nonlinear_arith)
            requires
                t == (d as int) * qt + tm as int,
                s as int == (d as int) * qs + sm as int,
                v == (d as int) * qv + rv,
                v == tm as int + d as int - sm as int,
        ;
        lemma_fundamental_div_mod_converse(t - s, d as int, qt - qs - 1 + qv, rv);
        assert(ru as int == (t - s) % (d as int));
        lemma_fundamental_div_mod(t - s, d as int);
    }
    (s - d) + (ru as i64)
}

/// Floor division of `t` by a positive `d`: the Euclidean quotient, which for
/// a positive divisor rounds toward negative infinity. Built on unsigned
/// division so that no intermediate step can overflow.
fn floor_div(t: i64, d: i64) -> (q: i64)
    requires
        0 < d,
    ensures
        q == t as int / d as int,
{
    let du = d as u64;
    if t >= 0 {
        let qu = (t as u64) / du;
        proof {
            lemma_fundamental_div_mod(t as int, d as int);
        }
        qu as i64
    } else {
        let m = (-(t + 1)) as u64;
        let qm = m / du;
        proof {
            lemma_fundamental_div_mod(m as int, d as int);
            let qi = m as int / d as int;
            let rm = m as int % d as int;
            assert(t as int == (-1 - qi) * (d as int) + (d - 1 - rm)) by (nonlinear_arith)
                requires
                    m as int == (d as int) * qi + rm,
                    t as int == -(m as int) - 1,
            ;
            lemma_fundamental_div_mod_converse(t as int, d as int, -1 - qi, d - 1 - rm);
        }
        -1 - (qm as i64)
    }
}

/// Euclidean remainder of `t` modulo a positive `d`: always in `[0, d)`.
/// Built on unsigned arithmetic so that no intermediate step can overflow.
fn floor_mod(t: i64, d: i64) -> (r: i64)
    requires
        0 < d,
    ensures
        r == t as int % d as int,
        0 <= r < d,
{
    let du = d as u64;
    if t >= 0 {
        let ru = (t as u64) % du;
        proof {
            lemma_fundamental_div_mod(t as int, d as int);
        }
        ru as i64
    } else {
        let m = (-(t + 1)) as u64;
        let rm = m % du;
        proof {
            lemma_fundamental_div_mod(m as int, d as int);
            let qi = m as int / d as int;
            let ri = m as int % d as int;
            assert(t as int == (-1 - qi) * (d as int) + (d - 1 - ri)) by (nonlinear_arith)
                requires
                    m as int == (d as int) * qi + ri,
                    t as int == -(m as int) - 1,
            ;
            lemma_fundamental_div_mod_converse(t as int, d as int, -1 - qi, d - 1 - ri);
        }
        d - 1 - (rm as i64)
    }
}

} // verus!
