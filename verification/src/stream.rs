//! What readers of a shared audio region can rely on.
//!
//! The laws here speak of a writer and of a region in which the writer's stores, and no other
//! stores to the same places, have been carried out in order.
use crate::region::{
    fits, ControlWords, RegionState, RegionStore, SparkAudioHeader, DEFAULT_CAPACITY_FRAMES,
    SAMPLE_COUNT,
};
use crate::writer::{next, passing, slot_of, WriterState};
use vstd::prelude::*;

verus! {

/// One operation of a writer.
pub enum WriterOp {
    SetFormat { sample_rate: u32 },
    Reset,
    PushFrame { left: u32, right: u32 },
    PollControl(ControlWords),
}

/// The counters after one operation.
pub open spec fn state_after(w: WriterState, op: WriterOp) -> WriterState {
    match op {
        WriterOp::SetFormat { sample_rate } => w.after_format(sample_rate),
        WriterOp::Reset => w.after_reset(),
        WriterOp::PushFrame { .. } => w.after_frame(),
        WriterOp::PollControl(words) => w.after_poll(words),
    }
}

/// Whether an operation starts the stream over.
pub open spec fn resets(w: WriterState, op: WriterOp) -> bool {
    match op {
        WriterOp::SetFormat { sample_rate } => w.sample_rate != WriterState::effective_rate(
            sample_rate,
        ),
        WriterOp::Reset => true,
        _ => false,
    }
}

/// The stores of one operation.
pub open spec fn stores_of(w: WriterState, op: WriterOp) -> Seq<RegionStore> {
    match op {
        WriterOp::SetFormat { sample_rate } => if resets(w, op) {
            w.with_rate(WriterState::effective_rate(sample_rate)).reset_stores()
        } else {
            Seq::empty()
        },
        WriterOp::Reset => w.reset_stores(),
        WriterOp::PushFrame { left, right } => w.frame_stores(left, right),
        WriterOp::PollControl(_) => Seq::empty(),
    }
}

/// Whether a region's header tells of a writer's counters. What visualizers have left in the
/// reserved words may be anything.
pub open spec fn published(w: WriterState, r: RegionState) -> bool {
    &&& r.header == SparkAudioHeader {
        write_frame: w.write_frame,
        total_frames: w.write_frame,
        reserved: r.header.reserved,
        ..w.fresh_header()
    }
    &&& r.samples.len() == SAMPLE_COUNT
}

/// Whether no frame is in the ring.
pub open spec fn silent(r: RegionState) -> bool {
    forall|i: int| 0 <= i < r.samples.len() ==> #[trigger] r.samples[i] == 0
}

/// Two stores, one after the other.
proof fn lemma_two_stores(r: RegionState, a: RegionStore, b: RegionStore)
    ensures
        r.after_all(seq![a, b]) == r.after(a).after(b),
{
    reveal_with_fuel(RegionState::after_all, 3);
    assert(seq![a, b].drop_first() == seq![b]);
    assert(seq![b].drop_first() == Seq::<RegionStore>::empty());
}

/// Four stores, one after the other.
proof fn lemma_four_stores(
    r: RegionState,
    a: RegionStore,
    b: RegionStore,
    c: RegionStore,
    d: RegionStore,
)
    ensures
        r.after_all(seq![a, b, c, d]) == r.after(a).after(b).after(c).after(d),
{
    reveal_with_fuel(RegionState::after_all, 2);
    assert(seq![a, b, c, d].drop_first() == seq![b, c, d]);
    assert(seq![b, c, d].drop_first() == seq![c, d]);
    lemma_two_stores(r.after(a).after(b), c, d);
}

/// Six stores, one after the other.
proof fn lemma_six_stores(
    r: RegionState,
    a: RegionStore,
    b: RegionStore,
    c: RegionStore,
    d: RegionStore,
    e: RegionStore,
    f: RegionStore,
)
    ensures
        r.after_all(seq![a, b, c, d, e, f]) == r.after(a).after(b).after(c).after(d).after(e).after(
            f,
        ),
{
    reveal_with_fuel(RegionState::after_all, 2);
    assert(seq![a, b, c, d, e, f].drop_first() == seq![b, c, d, e, f]);
    assert(seq![b, c, d, e, f].drop_first() == seq![c, d, e, f]);
    lemma_four_stores(r.after(a).after(b), c, d, e, f);
}

/// What the stores of a reset do: the ring is silent and the header counts from zero.
proof fn lemma_reset(w: WriterState, r: RegionState)
    requires
        r.samples.len() == SAMPLE_COUNT,
    ensures
        ({
            let s = r.after_all(w.reset_stores());
            &&& silent(s)
            &&& s.samples.len() == SAMPLE_COUNT
            &&& s.header == SparkAudioHeader {
                sample_rate: w.sample_rate,
                write_frame: 0,
                total_frames: 0,
                generation: next(w.generation),
                active: 1,
                ..r.header
            }
        }),
{
    let all = w.reset_stores();
    assert(all.drop_first() == seq![all[1], all[2], all[3], all[4], all[5], all[6]]);
    lemma_six_stores(r.after(all[0]), all[1], all[2], all[3], all[4], all[5], all[6]);
}

/// Setting a region up, whatever it held, publishes the writer's first counters and leaves the
/// ring silent: the stream is in its first generation and has no frames.
pub proof fn setup_publishes(r: RegionState)
    requires
        r.samples.len() == SAMPLE_COUNT,
    ensures
        published(WriterState::initial(), r.after_all(WriterState::initial().setup_stores())),
        silent(r.after_all(WriterState::initial().setup_stores())),
        r.after_all(WriterState::initial().setup_stores()).header.generation == 1,
        r.after_all(WriterState::initial().setup_stores()).header.total_frames == 0,
        forall|i: int|
            0 <= i < WriterState::initial().setup_stores().len() ==> fits(
                #[trigger] WriterState::initial().setup_stores()[i],
            ),
{
    let all = WriterState::initial().setup_stores();
    lemma_two_stores(r, all[0], all[1]);
}

/// Every operation stays inside the region, keeps the header true to the counters, and leaves
/// alone the words in which visualizers put their requests. One that starts the stream over
/// leaves the ring silent.
pub proof fn operation_publishes(w: WriterState, r: RegionState, op: WriterOp)
    requires
        published(w, r),
    ensures
        published(state_after(w, op), r.after_all(stores_of(w, op))),
        r.after_all(stores_of(w, op)).header.reserved == r.header.reserved,
        resets(w, op) ==> silent(r.after_all(stores_of(w, op))),
        forall|i: int|
            0 <= i < stores_of(w, op).len() ==> fits(#[trigger] stores_of(w, op)[i]),
{
    match op {
        WriterOp::SetFormat { sample_rate } => {
            if resets(w, op) {
                lemma_reset(w.with_rate(WriterState::effective_rate(sample_rate)), r);
            }
        },
        WriterOp::Reset => {
            lemma_reset(w, r);
        },
        WriterOp::PushFrame { left, right } => {
            let all = w.frame_stores(left, right);
            lemma_slot(w.write_frame);
            lemma_six_stores(r, all[0], all[1], all[2], all[3], all[4], all[5]);
        },
        WriterOp::PollControl(_) => {},
    }
}

/// A slot lies in the ring.
proof fn lemma_slot(frame: u64)
    ensures
        0 <= slot_of(frame) < DEFAULT_CAPACITY_FRAMES,
        2 * slot_of(frame) + 1 < SAMPLE_COUNT,
{
    vstd::arithmetic::div_mod::lemma_mod_bound(
        (frame as usize) as int,
        DEFAULT_CAPACITY_FRAMES as int,
    );
}

/// Numbers less than `d` apart have different remainders.
proof fn lemma_mods_differ(x: int, y: int, d: int)
    requires
        0 <= x < y < x + d,
    ensures
        x % d != y % d,
{
    vstd::arithmetic::div_mod::lemma_fundamental_div_mod(x, d);
    vstd::arithmetic::div_mod::lemma_fundamental_div_mod(y, d);
    let p = x / d;
    let q = y / d;
    if x % d == y % d {
        assert(false) by (nonlinear_arith)
            requires
                x == d * p + x % d,
                y == d * q + y % d,
                x % d == y % d,
                0 < y - x < d,
        ;
    }
}

/// The counters after a run of operations.
pub open spec fn state_after_all(w: WriterState, ops: Seq<WriterOp>) -> WriterState
    decreases ops.len(),
{
    if ops.len() == 0 {
        w
    } else {
        state_after(state_after_all(w, ops.drop_last()), ops.last())
    }
}

/// The region after a run of operations.
pub open spec fn region_after_all(w: WriterState, r: RegionState, ops: Seq<WriterOp>) -> RegionState
    decreases ops.len(),
{
    if ops.len() == 0 {
        r
    } else {
        region_after_all(w, r, ops.drop_last()).after_all(
            stores_of(state_after_all(w, ops.drop_last()), ops.last()),
        )
    }
}

/// How often a run of operations starts the stream over.
pub open spec fn reset_count(w: WriterState, ops: Seq<WriterOp>) -> nat
    decreases ops.len(),
{
    if ops.len() == 0 {
        0
    } else {
        reset_count(w, ops.drop_last()) + if resets(
            state_after_all(w, ops.drop_last()),
            ops.last(),
        ) {
            1nat
        } else {
            0nat
        }
    }
}

/// How many frames a run of operations pushes.
pub open spec fn frame_count(ops: Seq<WriterOp>) -> nat
    decreases ops.len(),
{
    if ops.len() == 0 {
        0
    } else {
        frame_count(ops.drop_last()) + if ops.last() is PushFrame {
            1nat
        } else {
            0nat
        }
    }
}

/// The header stays true to the counters through any run of operations. The generation counts
/// the starts and the frames, and between two starts the header counts the frames, each modulo
/// the range of its word; the sample rate changes only by a start.
pub proof fn header_counts_operations(w: WriterState, r: RegionState, ops: Seq<WriterOp>)
    requires
        published(w, r),
    ensures
        ({
            let s = region_after_all(w, r, ops);
            &&& published(state_after_all(w, ops), s)
            &&& s.header.reserved == r.header.reserved
            &&& s.header.generation == (r.header.generation + reset_count(w, ops)
                + frame_count(ops)) % 0x1_0000_0000_0000_0000
            &&& reset_count(w, ops) == 0 ==> {
                &&& s.header.sample_rate == r.header.sample_rate
                &&& s.header.total_frames == (r.header.total_frames + frame_count(ops))
                    % 0x1_0000_0000_0000_0000
            }
        }),
    decreases ops.len(),
{
    if ops.len() > 0 {
        let head = ops.drop_last();
        header_counts_operations(w, r, head);
        let v = state_after_all(w, head);
        operation_publishes(v, region_after_all(w, r, head), ops.last());
        lemma_next_wraps(w.generation, v.generation, reset_count(w, head) + frame_count(head));
        if reset_count(w, head) == 0 {
            lemma_next_wraps(w.write_frame, v.write_frame, frame_count(head));
        }
    }
}

/// All stores of a run of operations, in order.
pub open spec fn all_stores(w: WriterState, ops: Seq<WriterOp>) -> Seq<RegionStore>
    decreases ops.len(),
{
    if ops.len() == 0 {
        Seq::empty()
    } else {
        all_stores(w, ops.drop_last()) + stores_of(
            state_after_all(w, ops.drop_last()),
            ops.last(),
        )
    }
}

/// How many of some stores announce a new generation.
pub open spec fn announcements(stores: Seq<RegionStore>) -> nat
    decreases stores.len(),
{
    if stores.len() == 0 {
        0
    } else {
        announcements(stores.drop_last()) + if stores.last() is Generation {
            1nat
        } else {
            0nat
        }
    }
}

/// Stores after stores.
proof fn lemma_after_concat(r: RegionState, a: Seq<RegionStore>, b: Seq<RegionStore>)
    ensures
        r.after_all(a + b) == r.after_all(a).after_all(b),
    decreases a.len(),
{
    if a.len() == 0 {
        assert(a + b == b);
    } else {
        assert((a + b).drop_first() == a.drop_first() + b);
        lemma_after_concat(r.after(a.first()), a.drop_first(), b);
    }
}

/// Announcements add up.
proof fn lemma_announcements_concat(a: Seq<RegionStore>, b: Seq<RegionStore>)
    ensures
        announcements(a + b) == announcements(a) + announcements(b),
    decreases b.len(),
{
    if b.len() == 0 {
        assert(a + b == a);
    } else {
        assert((a + b).drop_last() == a + b.drop_last());
        lemma_announcements_concat(a, b.drop_last());
    }
}

/// The region after a run of operations is the region after all of their stores.
pub proof fn operations_are_their_stores(w: WriterState, r: RegionState, ops: Seq<WriterOp>)
    ensures
        region_after_all(w, r, ops) == r.after_all(all_stores(w, ops)),
    decreases ops.len(),
{
    if ops.len() > 0 {
        let head = ops.drop_last();
        operations_are_their_stores(w, r, head);
        lemma_after_concat(
            r,
            all_stores(w, head),
            stores_of(state_after_all(w, head), ops.last()),
        );
    }
}

/// The generation that a region shows after `count` announcements, if it was at rest in
/// generation `start`: a change takes two of them, and after the first the generation is a
/// passing one.
pub open spec fn generation_after(start: u64, count: nat) -> u64 {
    let settled = ((start + count / 2) % 0x1_0000_0000_0000_0000) as u64;
    if count % 2 == 0 {
        settled
    } else {
        passing(settled)
    }
}

/// Of the stores of one operation, the first announces the passing generation and the last the
/// next one. No other store touches the generation.
proof fn lemma_generation_within(w: WriterState, r: RegionState, op: WriterOp, done: int)
    requires
        r.header.generation == w.generation,
        0 <= done <= stores_of(w, op).len(),
    ensures
        ({
            let part = stores_of(w, op).take(done);
            let g = r.after_all(part).header.generation;
            if done == 0 {
                announcements(part) == 0 && g == w.generation
            } else if done < stores_of(w, op).len() {
                announcements(part) == 1 && g == passing(w.generation)
            } else {
                announcements(part) == 2 && g == next(w.generation)
            }
        }),
    decreases done,
{
    let part = stores_of(w, op).take(done);
    if done > 0 {
        lemma_generation_within(w, r, op, done - 1);
        let last = stores_of(w, op)[done - 1];
        let rest = stores_of(w, op).take(done - 1);
        assert(part.drop_last() == rest);
        assert(part == rest + seq![last]);
        lemma_after_concat(r, rest, seq![last]);
        reveal_with_fuel(RegionState::after_all, 2);
        assert(seq![last].drop_first() == Seq::<RegionStore>::empty());
    }
}

/// Every start and every frame makes two announcements.
proof fn lemma_two_announcements_each(w: WriterState, ops: Seq<WriterOp>)
    ensures
        announcements(all_stores(w, ops)) == 2 * (reset_count(w, ops) + frame_count(ops)),
    decreases ops.len(),
{
    if ops.len() > 0 {
        let head = ops.drop_last();
        let v = state_after_all(w, head);
        let stores = stores_of(v, ops.last());
        lemma_two_announcements_each(w, head);
        lemma_announcements_concat(all_stores(w, head), stores);
        let some_region = RegionState {
            header: v.fresh_header(),
            samples: Seq::empty(),
        };
        lemma_generation_within(v, some_region, ops.last(), stores.len() as int);
        assert(stores.take(stores.len() as int) == stores);
    }
}

/// At every point of a run of operations, the announcements so far determine the header's
/// generation.
pub proof fn generation_counts_announcements(
    w: WriterState,
    r: RegionState,
    ops: Seq<WriterOp>,
    done: int,
)
    requires
        published(w, r),
        0 <= done <= all_stores(w, ops).len(),
    ensures
        r.after_all(all_stores(w, ops).take(done)).header.generation == generation_after(
            r.header.generation,
            announcements(all_stores(w, ops).take(done)),
        ),
    decreases ops.len(),
{
    let all = all_stores(w, ops);
    if ops.len() > 0 {
        let head = ops.drop_last();
        let first = all_stores(w, head);
        let v = state_after_all(w, head);
        if done <= first.len() {
            generation_counts_announcements(w, r, head, done);
            assert(all.take(done) == first.take(done));
        } else {
            let k = done - first.len();
            let part = stores_of(v, ops.last()).take(k);
            assert(all.take(done) == first + part);
            lemma_after_concat(r, first, part);
            lemma_announcements_concat(first, part);
            lemma_two_announcements_each(w, head);
            operations_are_their_stores(w, r, head);
            header_counts_operations(w, r, head);
            lemma_generation_within(v, r.after_all(first), ops.last(), k);
            lemma_next_wraps(
                w.generation,
                v.generation,
                reset_count(w, head) + frame_count(head),
            );
        }
    }
}

/// How many stores come before the operation with the given number.
pub open spec fn started(w: WriterState, ops: Seq<WriterOp>, n: int) -> nat {
    all_stores(w, ops.take(n)).len()
}

/// Whether two points of a run lie inside one operation: its first store has been carried out at
/// both of them, and its last at neither.
pub open spec fn inside_one_operation(
    w: WriterState,
    ops: Seq<WriterOp>,
    before: int,
    after: int,
) -> bool {
    exists|n: int|
        0 <= n < ops.len() && #[trigger] started(w, ops, n) < before && after < started(
            w,
            ops,
            n + 1,
        )
}

/// A store of a new generation counts.
proof fn lemma_announcement_counts(stores: Seq<RegionStore>, i: int)
    requires
        0 <= i < stores.len(),
        stores[i] is Generation,
    ensures
        announcements(stores) > 0,
    decreases stores.len(),
{
    if i < stores.len() - 1 {
        lemma_announcement_counts(stores.drop_last(), i);
    }
}

/// Stores that announce nothing are stores of one operation, and neither its first nor its last.
proof fn lemma_quiet_stores(w: WriterState, ops: Seq<WriterOp>, before: int, after: int)
    requires
        0 <= before < after <= all_stores(w, ops).len(),
        announcements(all_stores(w, ops).subrange(before, after)) == 0,
    ensures
        inside_one_operation(w, ops, before, after),
        announcements(all_stores(w, ops).take(before)) % 2 == 1,
    decreases ops.len(),
{
    let all = all_stores(w, ops);
    let head = ops.drop_last();
    let first = all_stores(w, head);
    let v = state_after_all(w, head);
    let rest = stores_of(v, ops.last());
    assert(ops.take(ops.len() - 1) == head);
    assert(ops.take(ops.len() as int) == ops);
    if after <= first.len() {
        assert(all.subrange(before, after) == first.subrange(before, after));
        assert(all.take(before) == first.take(before));
        lemma_quiet_stores(w, head, before, after);
        let n = choose|n: int|
            0 <= n < head.len() && #[trigger] started(w, head, n) < before && after < started(
                w,
                head,
                n + 1,
            );
        assert(ops.take(n) == head.take(n));
        assert(ops.take(n + 1) == head.take(n + 1));
        assert(started(w, ops, n) < before);
    } else {
        if before <= first.len() {
            assert(rest[0] is Generation);
            assert(all[first.len() as int] == rest[0]);
            lemma_announcement_counts(all.subrange(before, after), first.len() - before);
        }
        if after == all.len() {
            assert(rest[rest.len() - 1] is Generation);
            assert(all[after - 1] == rest[rest.len() - 1]);
            lemma_announcement_counts(all.subrange(before, after), after - 1 - before);
        }
        assert(started(w, ops, ops.len() - 1) < before);
        let part = rest.take(before - first.len());
        assert(all.take(before) == first + part);
        lemma_announcements_concat(first, part);
        lemma_two_announcements_each(w, head);
        let some_region = RegionState {
            header: v.fresh_header(),
            samples: Seq::empty(),
        };
        lemma_generation_within(v, some_region, ops.last(), before - first.len());
    }
}

/// Any two points between stores show the same generation exactly if no generation was announced
/// from the one to the other, as long as there were not so many that the counter came round.
pub proof fn generations_tell_announcements(
    w: WriterState,
    r: RegionState,
    ops: Seq<WriterOp>,
    before: int,
    after: int,
)
    requires
        published(w, r),
        0 <= before <= after <= all_stores(w, ops).len(),
        announcements(all_stores(w, ops).subrange(before, after)) < 0xffff_ffff_ffff_ffff,
    ensures
        r.after_all(all_stores(w, ops).take(before)).header.generation == r.after_all(
            all_stores(w, ops).take(after),
        ).header.generation <==> announcements(all_stores(w, ops).subrange(before, after)) == 0,
{
    let all = all_stores(w, ops);
    generation_counts_announcements(w, r, ops, before);
    generation_counts_announcements(w, r, ops, after);
    assert(all.take(after) == all.take(before) + all.subrange(before, after));
    lemma_announcements_concat(all.take(before), all.subrange(before, after));
}

/// The generation is a seqlock-style guard for copies. A reader reads it at any point, copies the
/// header and the samples while the writer may go on, and reads it again. If it finds the same
/// generation, no store was carried out in the meantime, so that all it copied is the region as
/// it was at the first read, unless both reads fell inside one operation.
///
/// This holds as long as there were not so many announcements that the counter came round.
pub proof fn generation_guards_copies(
    w: WriterState,
    r: RegionState,
    ops: Seq<WriterOp>,
    before: int,
    after: int,
)
    requires
        published(w, r),
        0 <= before <= after <= all_stores(w, ops).len(),
        announcements(all_stores(w, ops).subrange(before, after)) < 0xffff_ffff_ffff_ffff,
    ensures
        r.after_all(all_stores(w, ops).take(before)).header.generation == r.after_all(
            all_stores(w, ops).take(after),
        ).header.generation ==> before == after || inside_one_operation(w, ops, before, after),
{
    generations_tell_announcements(w, r, ops, before, after);
    if before < after && announcements(all_stores(w, ops).subrange(before, after)) == 0 {
        lemma_quiet_stores(w, ops, before, after);
    }
}

/// A copy that begins while the writer is at rest is whole if its second read finds the first
/// generation again: the region has been the same at every point since.
pub proof fn copies_from_rest_are_whole(
    w: WriterState,
    r: RegionState,
    ops: Seq<WriterOp>,
    done: int,
)
    requires
        published(w, r),
        0 <= done <= all_stores(w, ops).len(),
        announcements(all_stores(w, ops).take(done)) < 0xffff_ffff_ffff_ffff,
    ensures
        r.after_all(all_stores(w, ops).take(done)).header.generation == r.header.generation
            ==> r.after_all(all_stores(w, ops).take(done)) == r,
        r.after_all(all_stores(w, ops).take(done)).header.generation == r.header.generation
            ==> forall|k: int|
            0 <= k <= done ==> #[trigger] r.after_all(all_stores(w, ops).take(k)) == r,
{
    let all = all_stores(w, ops);
    assert(all.subrange(0, done) == all.take(done));
    generation_guards_copies(w, r, ops, 0, done);
}

/// While the generations of a stream stay in the lower half of their range, a reader can tell a
/// passing generation from the others: it lies in the upper half. A copy between two reads of one
/// generation that is not passing is whole, wherever the reads fall.
pub proof fn settled_generation_guards_copies(
    w: WriterState,
    r: RegionState,
    ops: Seq<WriterOp>,
    before: int,
    after: int,
)
    requires
        published(w, r),
        0 <= before <= after <= all_stores(w, ops).len(),
        w.generation + announcements(all_stores(w, ops).take(after)) < 0x8000_0000_0000_0000,
    ensures
        ({
            let all = all_stores(w, ops);
            let g = r.after_all(all.take(before)).header.generation;
            g < 0x8000_0000_0000_0000 && r.after_all(all.take(after)).header.generation == g
                ==> before == after
        }),
{
    let all = all_stores(w, ops);
    assert(all.take(after) == all.take(before) + all.subrange(before, after));
    lemma_announcements_concat(all.take(before), all.subrange(before, after));
    generation_counts_announcements(w, r, ops, before);
    generations_tell_announcements(w, r, ops, before, after);
    if before < after && announcements(all.subrange(before, after)) == 0 {
        lemma_quiet_stores(w, ops, before, after);
    }
}

/// Every frame and every start moves the generation on, so that a reader can tell the region
/// before it from the region after it.
pub proof fn changes_move_the_generation(w: WriterState, r: RegionState, op: WriterOp)
    requires
        published(w, r),
    ensures
        op is PushFrame || resets(w, op) ==> r.after_all(stores_of(w, op)).header.generation
            == next(r.header.generation) && next(r.header.generation) != r.header.generation,
        !(op is PushFrame || resets(w, op)) ==> r.after_all(stores_of(w, op)) == r,
{
    operation_publishes(w, r, op);
}

/// The writer is announced as active at every point of any run of operations. Closing it then
/// takes that back and changes nothing else.
pub proof fn active_until_closed(w: WriterState, r: RegionState, ops: Seq<WriterOp>, done: int)
    requires
        published(w, r),
        0 <= done <= all_stores(w, ops).len(),
    ensures
        ({
            let s = r.after_all(all_stores(w, ops).take(done));
            &&& s.header.active == 1
            &&& s.after(state_after_all(w, ops).close_store()) == (RegionState {
                header: SparkAudioHeader { active: 0, ..s.header },
                ..s
            })
        }),
{
    lemma_operations_keep_active(w, ops);
    lemma_stays_active(r, all_stores(w, ops).take(done));
}

/// Whether a store leaves the writer announced as active.
spec fn keeps_active(store: RegionStore) -> bool {
    match store {
        RegionStore::Header(_) => false,
        RegionStore::Active(value) => value == 1,
        _ => true,
    }
}

/// No operation takes back that the writer is active.
proof fn lemma_operations_keep_active(w: WriterState, ops: Seq<WriterOp>)
    ensures
        forall|i: int|
            0 <= i < all_stores(w, ops).len() ==> keeps_active(#[trigger] all_stores(w, ops)[i]),
    decreases ops.len(),
{
    if ops.len() > 0 {
        let head = ops.drop_last();
        let first = all_stores(w, head);
        let rest = stores_of(state_after_all(w, head), ops.last());
        lemma_operations_keep_active(w, head);
        assert forall|i: int| 0 <= i < all_stores(w, ops).len() implies keeps_active(
            #[trigger] all_stores(w, ops)[i],
        ) by {
            if i < first.len() {
                assert(all_stores(w, ops)[i] == first[i]);
            } else {
                assert(all_stores(w, ops)[i] == rest[i - first.len()]);
            }
        }
    }
}

/// Stores that leave the writer announced as active do so one after the other.
proof fn lemma_stays_active(r: RegionState, stores: Seq<RegionStore>)
    requires
        r.header.active == 1,
        forall|i: int| 0 <= i < stores.len() ==> keeps_active(#[trigger] stores[i]),
    ensures
        r.after_all(stores).header.active == 1,
    decreases stores.len(),
{
    if stores.len() > 0 {
        assert(keeps_active(stores[0]));
        assert forall|i: int| 0 <= i < stores.drop_first().len() implies keeps_active(
            #[trigger] stores.drop_first()[i],
        ) by {
            assert(keeps_active(stores[i + 1]));
        }
        lemma_stays_active(r.after(stores.first()), stores.drop_first());
    }
}

/// The frames that a run of operations has pushed since it last started the stream over.
pub open spec fn frames_since_start(w: WriterState, ops: Seq<WriterOp>) -> Seq<(u32, u32)>
    decreases ops.len(),
{
    if ops.len() == 0 {
        Seq::empty()
    } else {
        let head = ops.drop_last();
        if resets(state_after_all(w, head), ops.last()) {
            Seq::empty()
        } else {
            match ops.last() {
                WriterOp::PushFrame { left, right } => frames_since_start(w, head).push(
                    (left, right),
                ),
                _ => frames_since_start(w, head),
            }
        }
    }
}

/// Through any run of operations, the header counts the frames since the last start, the ring
/// holds the latest of them, each in the slot of its number, and the slots that none of them
/// has reached are silent.
///
/// This holds up to the number of frames that the machine's word can count.
pub proof fn ring_holds_latest_frames(w: WriterState, r: RegionState, ops: Seq<WriterOp>)
    requires
        published(w, r),
        w.write_frame == 0,
        silent(r),
        frames_since_start(w, ops).len() <= usize::MAX,
    ensures
        ({
            let s = region_after_all(w, r, ops);
            let frames = frames_since_start(w, ops);
            let n = frames.len() as int;
            let capacity = DEFAULT_CAPACITY_FRAMES as int;
            &&& s.header.total_frames == n
            &&& forall|k: int|
                0 <= k < n && n - capacity <= k ==> s.slot(k % capacity) == #[trigger] frames[k]
            &&& forall|j: int| n <= j < capacity ==> #[trigger] s.slot(j) == (0u32, 0u32)
        }),
    decreases ops.len(),
{
    let s = region_after_all(w, r, ops);
    let frames = frames_since_start(w, ops);
    let n = frames.len() as int;
    let capacity = DEFAULT_CAPACITY_FRAMES as int;
    header_counts_operations(w, r, ops);
    if ops.len() == 0 {
        lemma_silent_slots(s);
    } else {
        let head = ops.drop_last();
        let v = state_after_all(w, head);
        let before = region_after_all(w, r, head);
        header_counts_operations(w, r, head);
        operation_publishes(v, before, ops.last());
        if resets(v, ops.last()) {
            lemma_silent_slots(s);
        } else {
            ring_holds_latest_frames(w, r, head);
            if let WriterOp::PushFrame { left, right } = ops.last() {
                lemma_frame_fills_slot(v, before, left, right);
                let slot = slot_of(v.write_frame);
                assert(slot == (n - 1) % capacity);
                assert forall|k: int| 0 <= k < n && n - capacity <= k implies s.slot(k % capacity)
                    == #[trigger] frames[k] by {
                    vstd::arithmetic::div_mod::lemma_mod_bound(k, capacity);
                    if k < n - 1 {
                        lemma_mods_differ(k, n - 1, capacity);
                        assert(frames[k] == frames_since_start(w, head)[k]);
                        assert(s.slot(k % capacity) == before.slot(k % capacity));
                    }
                }
                assert forall|j: int| n <= j < capacity implies #[trigger] s.slot(j) == (
                    0u32,
                    0u32,
                ) by {
                    vstd::arithmetic::div_mod::lemma_small_mod((n - 1) as nat, capacity as nat);
                    assert(s.slot(j) == before.slot(j));
                }
            }
        }
    }
}

/// Every slot of a silent ring is silent.
proof fn lemma_silent_slots(r: RegionState)
    requires
        silent(r),
        r.samples.len() == SAMPLE_COUNT,
    ensures
        forall|j: int| 0 <= j < DEFAULT_CAPACITY_FRAMES ==> #[trigger] r.slot(j) == (0u32, 0u32),
{
    assert forall|j: int| 0 <= j < DEFAULT_CAPACITY_FRAMES implies #[trigger] r.slot(j) == (
        0u32,
        0u32,
    ) by {
        assert(r.samples[2 * j] == 0);
        assert(r.samples[2 * j + 1] == 0);
    }
}

/// A frame fills its slot and leaves the others as they are.
proof fn lemma_frame_fills_slot(w: WriterState, r: RegionState, left: u32, right: u32)
    requires
        r.samples.len() == SAMPLE_COUNT,
    ensures
        ({
            let s = r.after_all(w.frame_stores(left, right));
            &&& s.slot(slot_of(w.write_frame)) == (left, right)
            &&& forall|j: int|
                0 <= j < DEFAULT_CAPACITY_FRAMES && j != slot_of(w.write_frame)
                    ==> #[trigger] s.slot(j) == r.slot(j)
        }),
{
    let all = w.frame_stores(left, right);
    lemma_slot(w.write_frame);
    lemma_six_stores(r, all[0], all[1], all[2], all[3], all[4], all[5]);
}

/// The next number is one more, modulo the range of the word.
proof fn lemma_next_wraps(start: u64, now: u64, count: nat)
    requires
        now == (start + count) % 0x1_0000_0000_0000_0000,
    ensures
        next(now) == (start + (count + 1)) % 0x1_0000_0000_0000_0000,
{
}

/// Whatever part of a frame's stores has been carried out, the header tells of the frame only
/// when both of its samples are in the ring.
pub proof fn samples_come_before_counters(
    w: WriterState,
    r: RegionState,
    left: u32,
    right: u32,
    done: int,
)
    requires
        published(w, r),
        0 <= done <= w.frame_stores(left, right).len(),
    ensures
        ({
            let s = r.after_all(w.frame_stores(left, right).take(done));
            s.header.write_frame != w.write_frame || s.header.total_frames != w.write_frame
                ==> s.slot(slot_of(w.write_frame)) == (left, right)
        }),
{
    let all = w.frame_stores(left, right);
    lemma_slot(w.write_frame);
    let part = all.take(done);
    reveal_with_fuel(RegionState::after_all, 7);
    assert(part.len() > 0 ==> part.drop_first() == all.subrange(1, done));
    assert(part.len() > 1 ==> all.subrange(1, done).drop_first() == all.subrange(2, done));
    assert(part.len() > 2 ==> all.subrange(2, done).drop_first() == all.subrange(3, done));
    assert(part.len() > 3 ==> all.subrange(3, done).drop_first() == all.subrange(4, done));
    assert(part.len() > 4 ==> all.subrange(4, done).drop_first() == all.subrange(5, done));
    assert(part.len() > 5 ==> all.subrange(5, done).drop_first()
        == Seq::<RegionStore>::empty());
}

/// The two announcements of an operation enclose its other stores: at every point inside it the
/// header shows the passing generation, and the next one only when all of it is done.
pub proof fn announcements_enclose_changes(w: WriterState, r: RegionState, op: WriterOp, done: int)
    requires
        published(w, r),
        0 <= done <= stores_of(w, op).len(),
    ensures
        ({
            let g = r.after_all(stores_of(w, op).take(done)).header.generation;
            &&& g == r.header.generation <==> done == 0
            &&& g == passing(r.header.generation) <==> 0 < done < stores_of(w, op).len()
            &&& g == next(r.header.generation) <==> 0 < done == stores_of(w, op).len()
        }),
{
    lemma_generation_within(w, r, op, done);
}

/// Whatever part of a start's stores has been carried out, the header counts from zero only when
/// the old frames are gone and the rate is the new one.
pub proof fn frames_go_before_counters(w: WriterState, r: RegionState, done: int)
    requires
        r.samples.len() == SAMPLE_COUNT,
        0 <= done <= w.reset_stores().len(),
    ensures
        ({
            let s = r.after_all(w.reset_stores().take(done));
            s.header.write_frame != r.header.write_frame || s.header.total_frames
                != r.header.total_frames ==> silent(s) && s.header.sample_rate == w.sample_rate
        }),
{
    let all = w.reset_stores();
    let part = all.take(done);
    reveal_with_fuel(RegionState::after_all, 8);
    assert(part.len() > 0 ==> part.drop_first() == all.subrange(1, done));
    assert(part.len() > 1 ==> all.subrange(1, done).drop_first() == all.subrange(2, done));
    assert(part.len() > 2 ==> all.subrange(2, done).drop_first() == all.subrange(3, done));
    assert(part.len() > 3 ==> all.subrange(3, done).drop_first() == all.subrange(4, done));
    assert(part.len() > 4 ==> all.subrange(4, done).drop_first() == all.subrange(5, done));
    assert(part.len() > 5 ==> all.subrange(5, done).drop_first() == all.subrange(6, done));
    assert(part.len() > 6 ==> all.subrange(6, done).drop_first()
        == Seq::<RegionStore>::empty());
}

/// Whether a run of operations polls for requests.
pub open spec fn polls(ops: Seq<WriterOp>) -> bool {
    exists|i: int| 0 <= i < ops.len() && #[trigger] ops[i] is PollControl
}

/// A request is reported once. Whatever the writer does after a poll, and whatever else the words
/// then hold, the next poll reports a request only if the number of the last one has changed.
pub proof fn requests_are_reported_once(
    w: WriterState,
    words: ControlWords,
    ops: Seq<WriterOp>,
    again: ControlWords,
)
    requires
        !polls(ops),
    ensures
        again.transport_generation == words.transport_generation ==> state_after_all(
            w.after_poll(words),
            ops,
        ).polled_playback(again) is None,
        again.visualizer_generation == words.visualizer_generation ==> state_after_all(
            w.after_poll(words),
            ops,
        ).polled_delta(again) == 0,
{
    lemma_remembers_poll(w.after_poll(words), ops);
}

/// Only a poll changes what the writer remembers of the last requests.
proof fn lemma_remembers_poll(w: WriterState, ops: Seq<WriterOp>)
    requires
        !polls(ops),
    ensures
        state_after_all(w, ops).last_transport_control == w.last_transport_control,
        state_after_all(w, ops).last_visualizer_control == w.last_visualizer_control,
    decreases ops.len(),
{
    if ops.len() > 0 {
        assert(!(ops[ops.len() - 1] is PollControl));
        assert forall|i: int| 0 <= i < ops.drop_last().len() implies !(
        #[trigger] ops.drop_last()[i] is PollControl) by {
            assert(!(ops[i] is PollControl));
        }
        lemma_remembers_poll(w, ops.drop_last());
    }
}

/// No request moves the visualizer by more than sixteen.
pub proof fn visualizer_delta_is_bounded(w: WriterState, words: ControlWords)
    ensures
        -16 <= w.polled_delta(words) <= 16,
{
}

/// A new writer finds no request in a region that it has just set up.
pub proof fn no_requests_at_setup(r: RegionState)
    ensures
        ({
            let words = r.after_all(WriterState::initial().setup_stores()).control_words();
            &&& WriterState::initial().polled_playback(words) is None
            &&& WriterState::initial().polled_delta(words) == 0
        }),
{
    let all = WriterState::initial().setup_stores();
    lemma_two_stores(r, all[0], all[1]);
}

} // verus!
