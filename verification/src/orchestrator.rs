//! The discovery orchestration rules. A refresh cycle fans one query out
//! per configured game; the per-game streams run concurrently outside this
//! crate and hand their occurrences in as [`StreamEvent`]s, in whatever
//! interleaving the transports produce. The cycle decides, for every
//! occurrence, what the single ordered event stream carries: a record is
//! forwarded once per address and only while its stream still runs and the
//! deadline has not passed, and one completion signal is emitted when every
//! stream has ended — completion, failure and timeout all count as ending.

use vstd::prelude::*;
use crate::dedup::DedupIndex;
use crate::games::{Game, GameSet};
use crate::server::{AddrKey, Server};

verus! {

/// The fixed overall timeout applied to every per-game stream, in
/// milliseconds.
pub const DEFAULT_TIMEOUT_MS: u64 = 10000;

/// What the driver receives from a refresh cycle.
#[derive(Debug)]
pub enum RefreshEvent {
    /// One server, wrapped with the game it belongs to.
    ServerDiscovered(Game, Server),
    /// The refresh is over; emitted exactly once per cycle.
    RefreshComplete,
}

/// One occurrence on some per-game stream, as the driver observed it.
#[derive(Debug)]
pub enum StreamEvent {
    /// The stream yielded a record; `at_ms` is the driver's clock reading.
    Item { game: Game, server: Server, at_ms: u64 },
    /// The stream ended: it completed, failed, or was cancelled on timeout.
    Ended { game: Game },
}

/// The mathematical state of a refresh cycle.
pub struct CycleModel {
    /// Games whose streams are still running.
    pub pending: Set<Game>,
    /// Addresses already emitted during this cycle.
    pub seen: Set<AddrKey>,
    /// The clock reading after which items are ignored.
    pub deadline_ms: u64,
    /// Whether the completion signal has been emitted.
    pub complete_sent: bool,
}

/// Is this item forwarded? Its stream must still run, the deadline must not
/// have passed, and its address must be fresh this cycle.
pub open spec fn accepts(m: CycleModel, game: Game, server: Server, at_ms: u64) -> bool {
    &&& m.pending.contains(game)
    &&& at_ms <= m.deadline_ms
    &&& !m.seen.contains(server.addr.key())
}

/// The cycle state after one stream occurrence.
pub open spec fn step(m: CycleModel, e: StreamEvent) -> CycleModel {
    match e {
        StreamEvent::Item { game, server, at_ms } => {
            if accepts(m, game, server, at_ms) {
                CycleModel {
                    pending: m.pending,
                    seen: m.seen.insert(server.addr.key()),
                    deadline_ms: m.deadline_ms,
                    complete_sent: m.complete_sent,
                }
            } else {
                m
            }
        },
        StreamEvent::Ended { game } => {
            let pending = m.pending.remove(game);
            CycleModel {
                pending,
                seen: m.seen,
                deadline_ms: m.deadline_ms,
                complete_sent: m.complete_sent || (pending == Set::<Game>::empty()
                    && !m.complete_sent),
            }
        },
    }
}

/// What one stream occurrence makes the cycle emit: one event or none.
pub open spec fn step_out(m: CycleModel, e: StreamEvent) -> Seq<RefreshEvent> {
    match e {
        StreamEvent::Item { game, server, at_ms } => {
            if accepts(m, game, server, at_ms) {
                seq![RefreshEvent::ServerDiscovered(game, server)]
            } else {
                Seq::<RefreshEvent>::empty()
            }
        },
        StreamEvent::Ended { game } => {
            if m.pending.remove(game) == Set::<Game>::empty() && !m.complete_sent {
                seq![RefreshEvent::RefreshComplete]
            } else {
                Seq::<RefreshEvent>::empty()
            }
        },
    }
}

/// The cycle state after a whole sequence of stream occurrences.
pub open spec fn run(m: CycleModel, es: Seq<StreamEvent>) -> CycleModel
    decreases es.len(),
{
    if es.len() == 0 {
        m
    } else {
        run(step(m, es[0]), es.drop_first())
    }
}

/// Everything a whole sequence of stream occurrences makes the cycle emit,
/// in order.
pub open spec fn run_out(m: CycleModel, es: Seq<StreamEvent>) -> Seq<RefreshEvent>
    decreases es.len(),
{
    if es.len() == 0 {
        Seq::<RefreshEvent>::empty()
    } else {
        step_out(m, es[0]) + run_out(step(m, es[0]), es.drop_first())
    }
}

/// An optional event as a sequence of zero or one events.
pub open spec fn ev_seq(ev: Option<RefreshEvent>) -> Seq<RefreshEvent> {
    match ev {
        Some(e) => seq![e],
        None => Seq::<RefreshEvent>::empty(),
    }
}

/// The address an emitted event carries, if it carries one.
pub open spec fn discovered_key(e: RefreshEvent) -> Option<AddrKey> {
    match e {
        RefreshEvent::ServerDiscovered(g, s) => Some(s.addr.key()),
        RefreshEvent::RefreshComplete => None,
    }
}

/// How many completion signals a sequence of emitted events carries.
pub open spec fn count_complete(out: Seq<RefreshEvent>) -> int
    decreases out.len(),
{
    if out.len() <= 0 {
        0
    } else {
        (if out[0] is RefreshComplete {
            1int
        } else {
            0int
        }) + count_complete(out.drop_first())
    }
}

/// One refresh cycle: the dedup index, the still-running streams, and the
/// deadline, driven by the stream occurrences the driver observes.
pub struct RefreshCycle {
    pending: GameSet,
    seen: DedupIndex,
    deadline_ms: u64,
    complete_sent: bool,
}

impl View for RefreshCycle {
    type V = CycleModel;

    closed spec fn view(&self) -> CycleModel {
        CycleModel {
            pending: self.pending@,
            seen: self.seen@,
            deadline_ms: self.deadline_ms,
            complete_sent: self.complete_sent,
        }
    }
}

impl RefreshCycle {
    /// Start a cycle over `games`, with a fresh dedup index, at clock
    /// reading `now_ms` and with the given overall timeout.
    pub fn new(games: Vec<Game>, now_ms: u64, timeout_ms: u64) -> (c: RefreshCycle)
        requires
            now_ms + timeout_ms <= u64::MAX,
        ensures
            (c@ == CycleModel {
                pending: games@.to_set(),
                seen: Set::<AddrKey>::empty(),
                deadline_ms: (now_ms + timeout_ms) as u64,
                complete_sent: false,
            }),
    {
        RefreshCycle {
            pending: GameSet::from_vec(games),
            seen: DedupIndex::new(),
            deadline_ms: now_ms + timeout_ms,
            complete_sent: false,
        }
    }

    /// One per-game stream yielded `server` at clock reading `at_ms`:
    /// forward it once per address, while the stream still runs and the
    /// deadline has not passed.
    pub fn on_server(&mut self, game: Game, server: Server, at_ms: u64) -> (ev: Option<
        RefreshEvent,
    >)
        ensures
            final(self)@ == step(old(self)@, (StreamEvent::Item { game, server, at_ms })),
            ev_seq(ev) == step_out(old(self)@, (StreamEvent::Item { game, server, at_ms })),
    {
        if !self.pending.contains(game) || at_ms > self.deadline_ms {
            return None;
        }
        let fresh = self.seen.record(&server.addr);
        if fresh {
            Some(RefreshEvent::ServerDiscovered(game, server))
        } else {
            proof {
                assert(old(self)@.seen.insert(server.addr.key()) =~= old(self)@.seen);
            }
            None
        }
    }

    /// One per-game stream ended — by completing, failing, or being
    /// cancelled on timeout. When the last one ends, the completion signal
    /// is emitted, once.
    pub fn on_stream_end(&mut self, game: Game) -> (ev: Option<RefreshEvent>)
        ensures
            final(self)@ == step(old(self)@, (StreamEvent::Ended { game })),
            ev_seq(ev) == step_out(old(self)@, (StreamEvent::Ended { game })),
    {
        self.pending.remove(game);
        if self.complete_sent {
            return None;
        }
        if self.pending.is_empty() {
            self.complete_sent = true;
            Some(RefreshEvent::RefreshComplete)
        } else {
            None
        }
    }

    /// Feed a batch of observed stream occurrences through the cycle, in
    /// order, and collect what it emits.
    pub fn process_events(&mut self, events: Vec<StreamEvent>) -> (out: Vec<RefreshEvent>)
        ensures
            final(self)@ == run(old(self)@, events@),
            out@ == run_out(old(self)@, events@),
    {
        let ghost m0 = self@;
        let ghost all = events@;
        let mut events = events;
        let mut out: Vec<RefreshEvent> = Vec::new();
        while events.len() > 0
            invariant
                run(m0, all) == run(self@, events@),
                run_out(m0, all) == out@ + run_out(self@, events@),
            decreases events@.len(),
        {
            let ghost pre = events@;
            let ghost m_pre = self@;
            let ghost out_pre = out@;
            let e = events.remove(0);
            proof {
                assert(events@ =~= pre.drop_first());
                assert(e == pre[0]);
            }
            let ev = match e {
                StreamEvent::Item { game, server, at_ms } => {
                    let ev = self.on_server(game, server, at_ms);
                    proof {
                        assert((StreamEvent::Item { game, server, at_ms }) == pre[0]);
                    }
                    ev
                },
                StreamEvent::Ended { game } => {
                    let ev = self.on_stream_end(game);
                    proof {
                        assert((StreamEvent::Ended { game }) == pre[0]);
                    }
                    ev
                },
            };
            match ev {
                Some(x) => {
                    out.push(x);
                },
                None => {},
            }
            proof {
                assert(out@ =~= out_pre + ev_seq(ev));
                assert(run(m_pre, pre) == run(self@, events@));
                assert(run_out(m_pre, pre) == step_out(m_pre, pre[0]) + run_out(self@, events@));
                assert(out_pre + (step_out(m_pre, pre[0]) + run_out(self@, events@)) =~= (out_pre
                    + step_out(m_pre, pre[0])) + run_out(self@, events@));
            }
        }
        proof {
            assert(out@ + run_out(self@, events@) =~= out@);
        }
        out
    }
}

/// Counting completion signals distributes over concatenation.
pub proof fn lemma_count_complete_add(a: Seq<RefreshEvent>, b: Seq<RefreshEvent>)
    ensures
        count_complete(a + b) == count_complete(a) + count_complete(b),
    decreases a.len(),
{
    if a.len() == 0 {
        assert(a + b =~= b);
    } else {
        assert((a + b)[0] == a[0]);
        assert((a + b).drop_first() =~= a.drop_first() + b);
        lemma_count_complete_add(a.drop_first(), b);
    }
}

/// A single event carries one completion signal or none.
pub proof fn lemma_count_complete_single(e: RefreshEvent)
    ensures
        count_complete(seq![e]) == (if e is RefreshComplete {
            1int
        } else {
            0int
        }),
{
    let s = seq![e];
    assert(s.drop_first() =~= Seq::<RefreshEvent>::empty());
    assert(count_complete(Seq::<RefreshEvent>::empty()) == 0);
    assert(s[0] == e);
    assert(count_complete(s) == (if e is RefreshComplete {
        1int
    } else {
        0int
    }) + count_complete(s.drop_first()));
}

/// What one occurrence emits carries a completion signal only where the
/// occurrence is the ending of the last pending stream.
pub proof fn lemma_count_complete_step(m: CycleModel, e: StreamEvent)
    ensures
        count_complete(step_out(m, e)) == (match e {
            StreamEvent::Item { .. } => 0int,
            StreamEvent::Ended { game } => if m.pending.remove(game) == Set::<Game>::empty()
                && !m.complete_sent {
                1int
            } else {
                0int
            },
        }),
{
    match e {
        StreamEvent::Item { game, server, at_ms } => {
            if accepts(m, game, server, at_ms) {
                lemma_count_complete_single(RefreshEvent::ServerDiscovered(game, server));
            }
        },
        StreamEvent::Ended { game } => {
            if m.pending.remove(game) == Set::<Game>::empty() && !m.complete_sent {
                lemma_count_complete_single(RefreshEvent::RefreshComplete);
            }
        },
    }
}

/// The stepping-stone for the dedup law: addresses already seen are kept,
/// every emitted address is new to the cycle and seen afterwards, and no
/// address is emitted twice.
pub proof fn lemma_run_out_keys(m: CycleModel, es: Seq<StreamEvent>)
    ensures
        m.seen.subset_of(run(m, es).seen),
        forall|i: int|
            0 <= i < run_out(m, es).len() ==> (match discovered_key(#[trigger] run_out(m, es)[i]) {
                Some(k) => !m.seen.contains(k) && run(m, es).seen.contains(k),
                None => true,
            }),
        forall|i: int, j: int|
            0 <= i < j < run_out(m, es).len() && discovered_key(#[trigger] run_out(m, es)[i])
                is Some ==> discovered_key(run_out(m, es)[i]) != discovered_key(
                #[trigger] run_out(m, es)[j],
            ),
    decreases es.len(),
{
    if es.len() == 0 {
    } else {
        let e0 = es[0];
        let m1 = step(m, e0);
        let rest = es.drop_first();
        let o0 = step_out(m, e0);
        let o1 = run_out(m1, rest);
        let out = run_out(m, es);
        lemma_run_out_keys(m1, rest);
        assert(out == o0 + o1);
        assert(m.seen.subset_of(m1.seen));
        assert forall|i: int|
            0 <= i < out.len() implies (match discovered_key(#[trigger] out[i]) {
            Some(k) => !m.seen.contains(k) && run(m, es).seen.contains(k),
            None => true,
        }) by {
            if i < o0.len() {
                assert(out[i] == o0[i]);
            } else {
                assert(out[i] == o1[i - o0.len()]);
            }
        }
        assert forall|i: int, j: int|
            0 <= i < j < out.len() && discovered_key(#[trigger] out[i])
                is Some implies discovered_key(out[i]) != discovered_key(
            #[trigger] out[j],
        ) by {
            if i < o0.len() {
                assert(out[i] == o0[i]);
                if j < o0.len() {
                    assert(o0.len() <= 1);
                } else {
                    assert(out[j] == o1[j - o0.len()]);
                    let k = discovered_key(out[i])->0;
                    assert(m1.seen.contains(k));
                    match discovered_key(out[j]) {
                        Some(k2) => {
                            assert(!m1.seen.contains(k2));
                        },
                        None => {},
                    }
                }
            } else {
                assert(out[i] == o1[i - o0.len()]);
                assert(out[j] == o1[j - o0.len()]);
            }
        }
    }
}

/// Dedup invariant: within one refresh cycle, each address appears in the
/// emitted event stream at most once, however the per-game streams
/// interleave and however many of them report the same server.
pub proof fn lemma_no_duplicate_addresses(m: CycleModel, es: Seq<StreamEvent>)
    ensures
        forall|i: int, j: int|
            0 <= i < j < run_out(m, es).len() && discovered_key(#[trigger] run_out(m, es)[i])
                is Some ==> discovered_key(run_out(m, es)[i]) != discovered_key(
                #[trigger] run_out(m, es)[j],
            ),
{
    lemma_run_out_keys(m, es);
}

/// Once the completion signal is out, nothing more is completed: the flag
/// stays set and no further completion signal is emitted.
pub proof fn lemma_no_complete_after_sent(m: CycleModel, es: Seq<StreamEvent>)
    requires
        m.complete_sent,
    ensures
        run(m, es).complete_sent,
        count_complete(run_out(m, es)) == 0,
    decreases es.len(),
{
    if es.len() == 0 {
    } else {
        let e0 = es[0];
        let m1 = step(m, e0);
        assert(m1.complete_sent);
        lemma_count_complete_step(m, e0);
        lemma_no_complete_after_sent(m1, es.drop_first());
        lemma_count_complete_add(step_out(m, e0), run_out(m1, es.drop_first()));
    }
}

/// However many per-game streams fail, time out, or deliver nothing: once
/// the cycle has started with at least one stream, and every still-pending
/// stream eventually ends, the completion signal is emitted exactly once.
pub proof fn lemma_refresh_complete_exactly_once(m: CycleModel, es: Seq<StreamEvent>)
    requires
        !m.complete_sent,
        m.pending != Set::<Game>::empty(),
        forall|g: Game| #[trigger]
            m.pending.contains(g) ==> es.contains((StreamEvent::Ended { game: g })),
    ensures
        count_complete(run_out(m, es)) == 1,
    decreases es.len(),
{
    assert(exists|g: Game| m.pending.contains(g)) by {
        if !(exists|g: Game| m.pending.contains(g)) {
            assert(m.pending =~= Set::<Game>::empty());
        }
    }
    let gw = choose|g: Game| m.pending.contains(g);
    assert(es.contains((StreamEvent::Ended { game: gw })));
    assert(es.len() > 0);
    let e0 = es[0];
    let m1 = step(m, e0);
    let rest = es.drop_first();
    let o0 = step_out(m, e0);
    let o1 = run_out(m1, rest);
    lemma_count_complete_add(o0, o1);
    lemma_count_complete_step(m, e0);
    match e0 {
        StreamEvent::Item { game, server, at_ms } => {
            assert(count_complete(o0) == 0);
            assert forall|g: Game| #[trigger]
                m1.pending.contains(g) implies rest.contains((StreamEvent::Ended { game: g })) by {
                assert(m.pending.contains(g));
                assert(es.contains((StreamEvent::Ended { game: g })));
                let i = choose|i: int|
                    0 <= i < es.len() && (#[trigger] es[i]) == (StreamEvent::Ended { game: g });
                assert(i != 0);
                assert(rest[i - 1] == es[i]);
            }
            lemma_refresh_complete_exactly_once(m1, rest);
        },
        StreamEvent::Ended { game } => {
            let p1 = m.pending.remove(game);
            if p1 == Set::<Game>::empty() {
                assert(count_complete(o0) == 1);
                assert(m1.complete_sent);
                lemma_no_complete_after_sent(m1, rest);
            } else {
                assert(count_complete(o0) == 0);
                assert(!m1.complete_sent);
                assert forall|g: Game| #[trigger]
                    m1.pending.contains(g) implies rest.contains(
                    (StreamEvent::Ended { game: g }),
                ) by {
                    assert(g != game);
                    assert(m.pending.contains(g));
                    assert(es.contains((StreamEvent::Ended { game: g })));
                    let i = choose|i: int|
                        0 <= i < es.len() && (#[trigger] es[i]) == (StreamEvent::Ended {
                            game: g,
                        });
                    assert(i != 0);
                    assert(rest[i - 1] == es[i]);
                }
                lemma_refresh_complete_exactly_once(m1, rest);
            }
        },
    }
}

/// Completion never fires early: while some configured stream has not
/// ended, no completion signal is emitted and that stream stays pending.
pub proof fn lemma_no_premature_complete(m: CycleModel, es: Seq<StreamEvent>, g: Game)
    requires
        m.pending.contains(g),
        forall|i: int|
            0 <= i < es.len() ==> (#[trigger] es[i]) != (StreamEvent::Ended { game: g }),
    ensures
        count_complete(run_out(m, es)) == 0,
        run(m, es).pending.contains(g),
    decreases es.len(),
{
    if es.len() == 0 {
    } else {
        let e0 = es[0];
        let m1 = step(m, e0);
        let rest = es.drop_first();
        lemma_count_complete_step(m, e0);
        match e0 {
            StreamEvent::Item { .. } => {},
            StreamEvent::Ended { game: g0 } => {
                assert(es[0] != (StreamEvent::Ended { game: g }));
                assert(g0 != g);
                assert(m.pending.remove(g0).contains(g));
                assert(m.pending.remove(g0) != Set::<Game>::empty());
            },
        }
        assert(m1.pending.contains(g));
        assert forall|i: int|
            0 <= i < rest.len() implies (#[trigger] rest[i]) != (StreamEvent::Ended {
            game: g,
        }) by {
            assert(rest[i] == es[i + 1]);
        }
        lemma_no_premature_complete(m1, rest, g);
        lemma_count_complete_add(step_out(m, e0), run_out(m1, rest));
    }
}

/// Streams are isolated: an in-time record of a still-running stream whose
/// address is fresh is delivered, whatever records, failures or endings the
/// sibling streams contribute before or after it.
pub proof fn lemma_item_delivered(
    m: CycleModel,
    es: Seq<StreamEvent>,
    i: int,
    game: Game,
    server: Server,
    at_ms: u64,
)
    requires
        0 <= i < es.len(),
        es[i] == (StreamEvent::Item { game, server, at_ms }),
        m.pending.contains(game),
        forall|j: int| 0 <= j < i ==> (#[trigger] es[j]) != (StreamEvent::Ended { game }),
        at_ms <= m.deadline_ms,
        !m.seen.contains(server.addr.key()),
        forall|j: int|
            0 <= j < i ==> (match #[trigger] es[j] {
                StreamEvent::Item { game: g2, server: s2, at_ms: t2 } => s2.addr.key()
                    != server.addr.key(),
                StreamEvent::Ended { .. } => true,
            }),
    ensures
        run_out(m, es).contains((RefreshEvent::ServerDiscovered(game, server))),
    decreases es.len(),
{
    let e0 = es[0];
    let m1 = step(m, e0);
    let rest = es.drop_first();
    let o0 = step_out(m, e0);
    let o1 = run_out(m1, rest);
    let out = run_out(m, es);
    assert(out == o0 + o1);
    if i == 0 {
        assert(accepts(m, game, server, at_ms));
        assert(o0 == seq![RefreshEvent::ServerDiscovered(game, server)]);
        assert(out[0] == (RefreshEvent::ServerDiscovered(game, server)));
    } else {
        assert(m1.deadline_ms == m.deadline_ms);
        assert(m1.pending.contains(game)) by {
            match e0 {
                StreamEvent::Item { .. } => {},
                StreamEvent::Ended { game: g0 } => {
                    assert(es[0] != (StreamEvent::Ended { game }));
                    assert(g0 != game);
                },
            }
        }
        assert(!m1.seen.contains(server.addr.key())) by {
            match e0 {
                StreamEvent::Item { game: g2, server: s2, at_ms: t2 } => {
                    assert(s2.addr.key() != server.addr.key());
                },
                StreamEvent::Ended { .. } => {},
            }
        }
        assert(rest[i - 1] == es[i]);
        assert forall|j: int|
            0 <= j < i - 1 implies (#[trigger] rest[j]) != (StreamEvent::Ended { game }) by {
            assert(rest[j] == es[j + 1]);
        }
        assert forall|j: int|
            0 <= j < i - 1 implies (match #[trigger] rest[j] {
            StreamEvent::Item { game: g2, server: s2, at_ms: t2 } => s2.addr.key()
                != server.addr.key(),
            StreamEvent::Ended { .. } => true,
        }) by {
            assert(rest[j] == es[j + 1]);
        }
        lemma_item_delivered(m1, rest, i - 1, game, server, at_ms);
        let k = choose|k: int|
            0 <= k < o1.len() && (#[trigger] o1[k]) == (RefreshEvent::ServerDiscovered(
                game,
                server,
            ));
        assert(out[o0.len() + k] == o1[k]);
    }
}

/// After the deadline an item contributes nothing: the cycle ignores it and
/// keeps its state, so a timed-out stream adds no further events.
pub proof fn lemma_late_item_ignored(m: CycleModel, game: Game, server: Server, at_ms: u64)
    requires
        at_ms > m.deadline_ms,
    ensures
        step(m, (StreamEvent::Item { game, server, at_ms })) == m,
        step_out(m, (StreamEvent::Item { game, server, at_ms })) == Seq::<RefreshEvent>::empty(),
{
}

/// Feeding further occurrences only appends further events: everything
/// delivered before a cutoff — a timeout, say — stays in the result.
pub proof fn lemma_run_out_append(m: CycleModel, es1: Seq<StreamEvent>, es2: Seq<StreamEvent>)
    ensures
        run(m, es1 + es2) == run(run(m, es1), es2),
        run_out(m, es1 + es2) == run_out(m, es1) + run_out(run(m, es1), es2),
    decreases es1.len(),
{
    if es1.len() == 0 {
        assert(es1 + es2 =~= es2);
        assert(run_out(m, es1) + run_out(m, es2) =~= run_out(m, es2));
    } else {
        let e0 = es1[0];
        let m1 = step(m, e0);
        assert((es1 + es2)[0] == e0);
        assert((es1 + es2).drop_first() =~= es1.drop_first() + es2);
        lemma_run_out_append(m1, es1.drop_first(), es2);
        assert(step_out(m, e0) + (run_out(m1, es1.drop_first()) + run_out(
            run(m, es1),
            es2,
        )) =~= (step_out(m, e0) + run_out(m1, es1.drop_first())) + run_out(run(m, es1), es2));
    }
}

} // verus!
