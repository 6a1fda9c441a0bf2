use vstd::arithmetic::div_mod::{lemma_add_mod_noop, lemma_small_mod};
use vstd::arithmetic::mul::lemma_mul_is_associative;
use vstd::prelude::*;

use std::rc::Rc;

use crate::note::{parse_note, Note, UnknownNote};
use crate::notescale::NoteScale;
use crate::player::{AudioControlFlow, AudioPlayerInterface, PlayerError};

verus! {

/// Why a track could not be built.
#[derive(Clone, Debug)]
pub enum TrackError {
    /// A step names no note.
    UnknownNote(UnknownNote),
    /// The pattern has no step.
    EmptyPattern,
}

/// Nanoseconds from `since` to `now` on a monotonic clock; zero if `now`
/// lies before `since`.
pub open spec fn elapsed(since: u64, now: u64) -> int {
    if now >= since {
        now - since
    } else {
        0
    }
}

/// A beat is due when more than `base / tempo` has elapsed, the tempo being
/// `beats / intervals`: `elapsed * beats > base * intervals`.
pub open spec fn beat_due(elapsed: int, base: int, beats: int, intervals: int) -> bool {
    elapsed * beats > base * intervals
}

/// The cursor after one step on a pattern of `len` steps.
pub open spec fn next_cursor(cursor: int, len: int) -> int {
    (cursor + 1) % len
}

/// The cursor after `n` steps from `start`.
pub open spec fn cursor_after(start: int, len: int, n: nat) -> int
    decreases n,
{
    if n == 0 {
        start
    } else {
        next_cursor(cursor_after(start, len, (n - 1) as nat), len)
    }
}

/// A step sequence with its own tempo, a cursor that wraps, the time of its
/// last beat, and an optional source of sound.
pub struct Track {
    content: Vec<Note>,
    current: usize,
    last_beat: u64,
    note_scale: Option<Rc<dyn NoteScale>>,
    tempo_beats: u64,
    tempo_intervals: u64,
}

impl Track {
    /// A non-empty pattern, a cursor inside it and a positive tempo.
    pub open spec fn wf(&self) -> bool {
        &&& self.pattern().len() >= 1
        &&& self.cursor() < self.pattern().len()
        &&& self.tempo().0 >= 1
        &&& self.tempo().1 >= 1
    }

    /// The notes of the pattern.
    pub closed spec fn pattern(&self) -> Seq<Note> {
        self.content@
    }

    /// The current step.
    pub closed spec fn cursor(&self) -> int {
        self.current as int
    }

    /// When the last beat happened, in nanoseconds.
    pub closed spec fn beat_time(&self) -> u64 {
        self.last_beat
    }

    /// The tempo as `(beats, intervals)`: `beats` beats per `intervals`
    /// base intervals.
    pub closed spec fn tempo(&self) -> (u64, u64) {
        (self.tempo_beats, self.tempo_intervals)
    }

    /// The bound source of sound, if any.
    pub closed spec fn scale(&self) -> Option<Rc<dyn NoteScale>> {
        self.note_scale
    }

    /// Whether a source of sound is bound.
    pub open spec fn has_scale(&self) -> bool {
        self.scale() is Some
    }

    /// Parses every step; fails on an empty pattern or on the first step
    /// that names no note. The track starts on step 0 at time `now`, with
    /// tempo 1 and no sound.
    pub fn try_from(notes: &[&str], now: u64) -> (r: Result<Track, TrackError>)
        ensures
            notes@.len() == 0 ==> r is Err && r->Err_0 is EmptyPattern,
            r is Err && r->Err_0 is EmptyPattern ==> notes@.len() == 0,
            r is Ok <==> notes@.len() >= 1 && forall|i: int|
                0 <= i < notes@.len() ==> (#[trigger] parse_note(notes@[i]@)) is Some,
            r is Ok ==> {
                let t = r->Ok_0;
                &&& t.wf()
                &&& t.pattern().len() == notes@.len()
                &&& forall|i: int|
                    0 <= i < notes@.len() ==> Some(#[trigger] t.pattern()[i]) == parse_note(
                        notes@[i]@,
                    )
                &&& t.cursor() == 0
                &&& t.beat_time() == now
                &&& t.tempo() == (1u64, 1u64)
                &&& !t.has_scale()
            },
            r is Err && r->Err_0 is UnknownNote ==> exists|k: int|
                0 <= k < notes@.len() && (forall|i: int|
                    0 <= i < k ==> (#[trigger] parse_note(notes@[i]@)) is Some) && parse_note(
                    notes@[k]@,
                ) is None && r->Err_0->UnknownNote_0.0@ == notes@[k]@,
    {
        if notes.len() == 0 {
            return Err(TrackError::EmptyPattern);
        }
        let mut content: Vec<Note> = Vec::new();
        let mut i: usize = 0;
        while i < notes.len()
            invariant
                i <= notes@.len(),
                content@.len() == i,
                forall|j: int|
                    0 <= j < i ==> Some(#[trigger] content@[j]) == parse_note(notes@[j]@),
                forall|j: int| 0 <= j < i ==> (#[trigger] parse_note(notes@[j]@)) is Some,
            decreases notes@.len() - i,
        {
            match Note::parse(notes[i]) {
                Ok(n) => content.push(n),
                Err(e) => {
                    assert(parse_note(notes@[i as int]@) is None);
                    return Err(TrackError::UnknownNote(e));
                },
            }
            i = i + 1;
        }
        Ok(Track {
            content,
            current: 0,
            last_beat: now,
            note_scale: None,
            tempo_beats: 1,
            tempo_intervals: 1,
        })
    }

    /// The number of steps.
    pub fn length(&self) -> (r: usize)
        ensures
            r == self.pattern().len(),
    {
        self.content.len()
    }

    /// The notes of the pattern.
    pub fn content(&self) -> (r: &Vec<Note>)
        ensures
            r@ == self.pattern(),
    {
        &self.content
    }

    /// The current step.
    pub fn current(&self) -> (r: usize)
        ensures
            r == self.cursor(),
    {
        self.current
    }

    /// When the last beat happened, in nanoseconds.
    pub fn last_beat(&self) -> (r: u64)
        ensures
            r == self.beat_time(),
    {
        self.last_beat
    }

    /// Starts the beat phase afresh at `now`; the cursor stays.
    pub fn set_last_beat(&mut self, now: u64)
        ensures
            final(self).beat_time() == now,
            final(self).cursor() == old(self).cursor(),
            final(self).pattern() == old(self).pattern(),
            final(self).tempo() == old(self).tempo(),
            final(self).scale() == old(self).scale(),
    {
        self.last_beat = now;
    }

    /// Sets the tempo to `beats` beats per `intervals` base intervals.
    pub fn set_tempo(self, beats: u64, intervals: u64) -> (r: Track)
        requires
            beats >= 1,
            intervals >= 1,
        ensures
            r.tempo() == (beats, intervals),
            r.pattern() == self.pattern(),
            r.cursor() == self.cursor(),
            r.beat_time() == self.beat_time(),
            r.scale() == self.scale(),
            self.wf() ==> r.wf(),
    {
        Track { tempo_beats: beats, tempo_intervals: intervals, ..self }
    }

    /// Binds a source of sound, or none for a silent track.
    pub fn set_note_scale(self, note_scale: Option<Rc<dyn NoteScale>>) -> (r: Track)
        ensures
            r.scale() == note_scale,
            r.tempo() == self.tempo(),
            r.pattern() == self.pattern(),
            r.cursor() == self.cursor(),
            r.beat_time() == self.beat_time(),
            self.wf() ==> r.wf(),
    {
        Track { note_scale, ..self }
    }

    /// Whether more than `beat / tempo` nanoseconds have passed between the
    /// last beat and `now`.
    pub fn should_beat(&self, beat: u64, now: u64) -> (r: bool)
        ensures
            r == beat_due(
                elapsed(self.beat_time(), now),
                beat as int,
                self.tempo().0 as int,
                self.tempo().1 as int,
            ),
    {
        let since: u64 = if now >= self.last_beat {
            now - self.last_beat
        } else {
            0
        };
        let e = since as u128;
        let b = self.tempo_beats as u128;
        let base = beat as u128;
        let iv = self.tempo_intervals as u128;
        proof {
            lemma_product_fits(since as int, self.tempo_beats as int);
            lemma_product_fits(beat as int, self.tempo_intervals as int);
        }
        e * b > base * iv
    }

    /// Moves to the next step, wrapping at the end, records `now` as the
    /// time of the beat, and returns the note under the cursor.
    pub fn advance(&mut self, now: u64) -> (r: Note)
        requires
            old(self).wf(),
        ensures
            final(self).wf(),
            final(self).cursor() == next_cursor(old(self).cursor(), old(self).pattern().len() as int),
            final(self).beat_time() == now,
            final(self).pattern() == old(self).pattern(),
            final(self).tempo() == old(self).tempo(),
            final(self).scale() == old(self).scale(),
            r == final(self).pattern()[final(self).cursor()],
    {
        self.last_beat = now;
        let n = self.content.len();
        self.current = (self.current + 1) % n;
        self.content[self.current]
    }

    /// A beat: advances the cursor and, when a source of sound is bound,
    /// has it queue the note now under the cursor, returning its answer.
    pub fn beat(&mut self, now: u64, player: &mut AudioPlayerInterface) -> (r: Result<
        (),
        PlayerError,
    >)
        requires
            old(self).wf(),
        ensures
            beaten(*old(self), *final(self), now),
            !old(self).has_scale() ==> r is Ok && final(player).submitted() == old(player).submitted(),
            r is Err ==> old(self).has_scale() && r->Err_0 == PlayerError::Closed && final(player).submitted() == old(player).submitted(),
            r is Ok && old(self).has_scale() ==> final(player).submitted().len() == old(player).submitted().len() + 1 && final(player).submitted().drop_last() == old(player).submitted() && final(player).submitted().last() is PlayStatic,
            r is Ok && old(self).has_scale() && scale_command(
                *old(self),
                final(self).pattern()[final(self).cursor()],
            ) is Some ==> final(player).submitted() == old(player).submitted().push(
                scale_command(
                    *old(self),
                    final(self).pattern()[final(self).cursor()],
                )->0,
            ),
    {
        let note = self.advance(now);
        match &self.note_scale {
            Some(scale) => scale.play_note(note, player),
            None => Ok(()),
        }
    }

    /// Goes back to the first step; the time of the last beat is kept.
    pub fn restart(&mut self)
        requires
            old(self).wf(),
        ensures
            final(self).wf(),
            final(self).cursor() == 0,
            final(self).beat_time() == old(self).beat_time(),
            final(self).pattern() == old(self).pattern(),
            final(self).tempo() == old(self).tempo(),
            final(self).scale() == old(self).scale(),
    {
        self.current = 0;
    }
}

/// The command that the track's bound source queues for `note`, where the
/// source fixes it.
pub open spec fn scale_command(track: Track, note: Note) -> Option<AudioControlFlow> {
    match track.scale() {
        Some(scale) => scale.command_for(note),
        None => None,
    }
}

/// `after` is `before` after one beat at time `now`.
pub open spec fn beaten(before: Track, after: Track, now: u64) -> bool {
    &&& after.wf()
    &&& after.cursor() == next_cursor(before.cursor(), before.pattern().len() as int)
    &&& after.beat_time() == now
    &&& after.pattern() == before.pattern()
    &&& after.tempo() == before.tempo()
    &&& after.scale() == before.scale()
}

/// Whether `track` is due for a beat at `now`, with base interval `beat`.
pub open spec fn due(track: Track, beat: u64, now: u64) -> bool {
    beat_due(
        elapsed(track.beat_time(), now),
        beat as int,
        track.tempo().0 as int,
        track.tempo().1 as int,
    )
}

/// A track's part in a tick: it beats if it is due, else it stays.
pub open spec fn ticked(before: Track, after: Track, beat: u64, now: u64) -> bool {
    if due(before, beat, now) {
        beaten(before, after, now)
    } else {
        after == before
    }
}

/// One scheduler tick at `now`: every track that is due beats, in order,
/// the others stay as they are. When a bound source fails to queue its
/// note, that track has still beaten, no later track beats, and the
/// failure is returned.
pub fn tick(
    tracks: &mut Vec<Track>,
    beat: u64,
    now: u64,
    player: &mut AudioPlayerInterface,
) -> (r: Result<(), PlayerError>)
    requires
        forall|i: int| 0 <= i < old(tracks)@.len() ==> (#[trigger] old(tracks)@[i]).wf(),
    ensures
        final(tracks)@.len() == old(tracks)@.len(),
        forall|i: int| 0 <= i < final(tracks)@.len() ==> (#[trigger] final(tracks)@[i]).wf(),
        r is Ok ==> forall|i: int|
            0 <= i < final(tracks)@.len() ==> ticked(
                old(tracks)@[i],
                #[trigger] final(tracks)@[i],
                beat,
                now,
            ),
        r is Err ==> r->Err_0 == PlayerError::Closed && exists|k: int|
            0 <= k < old(tracks)@.len() && due(#[trigger] old(tracks)@[k], beat, now)
                && old(tracks)@[k].has_scale() && beaten(
                old(tracks)@[k],
                final(tracks)@[k],
                now,
            ) && (forall|i: int|
                0 <= i < k ==> ticked(old(tracks)@[i], #[trigger] final(tracks)@[i], beat, now))
                && (forall|i: int|
                k < i < old(tracks)@.len() ==> #[trigger] final(tracks)@[i] == old(tracks)@[i]),
        (forall|j: int|
            0 <= j < old(tracks)@.len() && due(#[trigger] old(tracks)@[j], beat, now)
                ==> !old(tracks)@[j].has_scale()) ==> r is Ok,
{
    let ghost all = tracks@;
    let mut rest: Vec<Track> = Vec::new();
    core::mem::swap(&mut rest, tracks);
    let n = rest.len();
    let mut result: Result<(), PlayerError> = Ok(());
    let ghost mut failed: int = 0;
    let mut i: usize = 0;
    while rest.len() > 0
        invariant
            i + rest@.len() == all.len(),
            all.len() == n,
            rest@ == all.subrange(i as int, all.len() as int),
            tracks@.len() == i,
            forall|j: int| 0 <= j < all.len() ==> (#[trigger] all[j]).wf(),
            forall|j: int| 0 <= j < i ==> (#[trigger] tracks@[j]).wf(),
            result is Ok ==> forall|j: int|
                0 <= j < i ==> ticked(all[j], #[trigger] tracks@[j], beat, now),
            result is Err ==> {
                &&& result->Err_0 == PlayerError::Closed
                &&& 0 <= failed < i
                &&& due(all[failed], beat, now)
                &&& all[failed].has_scale()
                &&& beaten(all[failed], tracks@[failed], now)
                &&& forall|j: int|
                    0 <= j < failed ==> ticked(all[j], #[trigger] tracks@[j], beat, now)
                &&& forall|j: int| failed < j < i ==> #[trigger] tracks@[j] == all[j]
            },
            (forall|j: int|
                0 <= j < all.len() && due(#[trigger] all[j], beat, now) ==> !all[j].has_scale())
                ==> result is Ok,
        decreases rest@.len(),
    {
        let mut track = rest.remove(0);
        assert(track == all[i as int]);
        if result.is_ok() && track.should_beat(beat, now) {
            result = track.beat(now, player);
            proof {
                if result is Err {
                    failed = i as int;
                }
            }
        }
        tracks.push(track);
        i = i + 1;
        proof {
            assert(rest@ =~= all.subrange(i as int, all.len() as int));
        }
    }
    result
}

/// After `n` beats from step 0 on a pattern of `len` steps, the cursor is
/// `n mod len`.
pub proof fn lemma_cursor_wraps(len: int, n: nat)
    requires
        len >= 1,
    ensures
        cursor_after(0, len, n) == (n as int) % len,
    decreases n,
{
    if n > 0 {
        lemma_cursor_wraps(len, (n - 1) as nat);
        if len == 1 {
            assert(next_cursor(cursor_after(0, len, (n - 1) as nat), len) == 0);
            assert((n as int) % len == 0);
        } else {
            lemma_small_mod(1, len as nat);
            lemma_add_mod_noop(n - 1, 1, len);
        }
    } else {
        lemma_small_mod(0, len as nat);
    }
}

/// Tracks `ts[0]`, `ts[1]`, ... where each is the one before after a beat
/// (whatever the beat's submission answered): the pattern stays and the
/// cursor moves one step.
pub open spec fn beat_chain(ts: Seq<Track>) -> bool {
    forall|k: int|
        0 <= k < ts.len() - 1 ==> {
            &&& (#[trigger] ts[k + 1]).pattern() == ts[k].pattern()
            &&& ts[k + 1].cursor() == next_cursor(ts[k].cursor(), ts[k].pattern().len() as int)
        }
}

/// A track on step 0 with `L` steps, after `N` beats, is on step `N mod L`.
pub proof fn lemma_beats_wrap(ts: Seq<Track>)
    requires
        ts.len() >= 1,
        ts[0].wf(),
        ts[0].cursor() == 0,
        beat_chain(ts),
    ensures
        ts.last().cursor() == (ts.len() - 1) % (ts[0].pattern().len() as int),
        ts.last().pattern() == ts[0].pattern(),
    decreases ts.len(),
{
    let len = ts[0].pattern().len() as int;
    let n = (ts.len() - 1) as nat;
    if ts.len() > 1 {
        let prefix = ts.drop_last();
        assert(beat_chain(prefix)) by {
            assert forall|k: int| 0 <= k < prefix.len() - 1 implies {
                &&& (#[trigger] prefix[k + 1]).pattern() == prefix[k].pattern()
                &&& prefix[k + 1].cursor() == next_cursor(
                    prefix[k].cursor(),
                    prefix[k].pattern().len() as int,
                )
            } by {
                assert(prefix[k + 1] == ts[k + 1]);
                assert(prefix[k] == ts[k]);
            }
        }
        lemma_beats_wrap(prefix);
        let k = ts.len() - 2;
        assert(ts[k + 1].pattern() == ts[k].pattern());
        assert(ts[k + 1].cursor() == next_cursor(ts[k].cursor(), ts[k].pattern().len() as int));
        assert(prefix.last() == ts[k]);
        assert(ts.last() == ts[k + 1]);
        lemma_cursor_wraps(len, (n - 1) as nat);
        lemma_cursor_wraps(len, n);
    } else {
        lemma_small_mod(0, len as nat);
    }
}

/// Doubling the tempo halves the wait: at tempo `2T` a beat is due after
/// `e` exactly when at tempo `T` it is due after `2e`.
pub proof fn lemma_tempo_doubling(e: int, base: int, beats: int, intervals: int)
    ensures
        beat_due(e, base, 2 * beats, intervals) == beat_due(2 * e, base, beats, intervals),
{
    lemma_mul_is_associative(e, 2, beats);
    assert(e * 2 == 2 * e);
}

/// A higher tempo makes a beat due no later.
pub proof fn lemma_faster_is_sooner(e: int, base: int, slow: int, fast: int, intervals: int)
    requires
        e >= 0,
        slow <= fast,
        beat_due(e, base, slow, intervals),
    ensures
        beat_due(e, base, fast, intervals),
{
    assert(e * slow <= e * fast) by (nonlinear_arith)
        requires
            e >= 0,
            slow <= fast,
    ;
}

/// Away from the exact threshold `e * tempo == base`, a beat is due exactly
/// when the elapsed time has reached `base / tempo`.
pub proof fn lemma_due_past_threshold(e: int, base: int, beats: int, intervals: int)
    requires
        e * beats != base * intervals,
    ensures
        beat_due(e, base, beats, intervals) <==> e * beats >= base * intervals,
{
}

/// The product of two 64-bit values fits in 128 bits.
proof fn lemma_product_fits(x: int, y: int)
    requires
        0 <= x <= u64::MAX,
        0 <= y <= u64::MAX,
    ensures
        0 <= x * y <= u128::MAX,
{
    assert(0 <= x * y <= u64::MAX * u64::MAX) by (nonlinear_arith)
        requires
            0 <= x <= u64::MAX,
            0 <= y <= u64::MAX,
    ;
}

} // verus!
