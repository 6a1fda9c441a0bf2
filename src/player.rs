use vstd::prelude::*;

use kira::manager::backend::DefaultBackend;
use kira::manager::{AudioManager, AudioManagerSettings};
use kira::dsp::Frame;
use kira::sound::static_sound::{
    PlaybackState, StaticSoundData, StaticSoundHandle, StaticSoundSettings,
};
use kira::manager::error::PlaySoundError;
use kira::tween::Tween;
use std::sync::mpsc::{Receiver, Sender};
use std::sync::Arc;

verus! {

/// kira's decoded or synthesised sound: its sample rate and frames are
/// read, its settings carried through unopened.
#[verifier::external_type_specification]
pub struct ExStaticSoundData(StaticSoundData);

/// kira's stereo sample, carried through unopened.
#[verifier::external_type_specification]
#[verifier::external_body]
pub struct ExFrame(Frame);

/// kira's playback settings of a sound, carried through unopened.
#[verifier::external_type_specification]
#[verifier::external_body]
pub struct ExStaticSoundSettings(StaticSoundSettings);

/// kira's handle on one live sound instance, carried through unopened.
#[verifier::external_type_specification]
#[verifier::external_body]
pub struct ExStaticSoundHandle(StaticSoundHandle);

/// kira's audio manager: it owns the output device and mixes every live
/// sound.
#[verifier::external_body]
pub struct SoundBackend {
    manager: AudioManager<DefaultBackend>,
}

/// The audio backend, with the record of every request made of it.
pub struct AudioBackend {
    device: SoundBackend,
    requests: Ghost<Seq<BackendRequest>>,
}

impl AudioBackend {
    /// Every request made of the backend so far, in order.
    pub closed spec fn requests(&self) -> Seq<BackendRequest> {
        self.requests@
    }
}

/// The sending end of std's multi-producer, single-consumer queue.
#[verifier::external_type_specification]
#[verifier::external_body]
#[verifier::reject_recursive_types(T)]
pub struct ExSender<T>(Sender<T>);

/// The receiving end of std's multi-producer, single-consumer queue.
#[verifier::external_type_specification]
#[verifier::external_body]
#[verifier::reject_recursive_types(T)]
pub struct ExReceiver<T>(Receiver<T>);

/// A command for the playback engine.
pub enum AudioControlFlow {
    /// Start playing a sound.
    PlayStatic { sound: Box<StaticSoundData> },
    /// Halt and discard every active sound.
    Stop,
    /// Pause the whole backend.
    Pause,
    /// Resume the whole backend.
    Resume,
}

impl AudioControlFlow {
    /// The command's name, for logs.
    pub fn name(&self) -> (r: &'static str)
        ensures
            r@ == match *self {
                AudioControlFlow::PlayStatic { .. } => "PlayStatic"@,
                AudioControlFlow::Stop => "Stop"@,
                AudioControlFlow::Pause => "Pause"@,
                AudioControlFlow::Resume => "Resume"@,
            },
    {
        match self {
            AudioControlFlow::PlayStatic { .. } => "PlayStatic",
            AudioControlFlow::Stop => "Stop",
            AudioControlFlow::Pause => "Pause",
            AudioControlFlow::Resume => "Resume",
        }
    }
}

/// What can go wrong while submitting or carrying out a command.
#[derive(Clone, Copy, Debug, PartialEq, Eq, Structural)]
pub enum PlayerError {
    /// The audio backend could not be set up.
    BackendUnavailable,
    /// The backend already plays as many sounds as it can hold.
    SoundLimitReached,
    /// The sound has no frames or no sample rate, or the backend could not
    /// turn it into a live sound.
    SoundRejected,
    /// The backend's command queue refused the command.
    CommandFailed,
    /// The engine has terminated: nobody receives commands any more.
    Closed,
}

/// Relies on `StaticSoundHandle::state`: tells whether the sound has
/// stopped for good. The answer depends on the audio thread's progress.
#[verifier::external_body]
fn sound_finished(handle: &StaticSoundHandle) -> (r: bool) {
    matches!(handle.state(), PlaybackState::Stopped)
}

/// Relies on `AudioManager::new`: sets up the default backend.
#[verifier::external_body]
fn open_backend() -> (r: Result<SoundBackend, PlayerError>)
    ensures
        r is Err ==> r->Err_0 == PlayerError::BackendUnavailable,
{
    AudioManager::<DefaultBackend>::new(AudioManagerSettings::default())
        .map(|manager| SoundBackend { manager })
        .map_err(|_| PlayerError::BackendUnavailable)
}

/// Relies on `AudioManager::play`: asks the backend to start a sound made
/// of these frames at this sample rate, with kira's default settings, and
/// returns the handle of the live instance. With at least one frame, a
/// positive sample rate and the default settings, kira starts the sound
/// without panicking.
#[verifier::external_body]
fn start_sound(backend: &mut AudioBackend, sample_rate: u32, frames: Arc<Vec<Frame>>) -> (r:
    Result<StaticSoundHandle, PlayerError>)
    requires
        frames@.len() > 0,
        sample_rate > 0,
    ensures
        final(backend).requests() == old(backend).requests().push(
            BackendRequest::Play(sample_rate, frames),
        ),
        r is Err ==> r->Err_0 != PlayerError::Closed && r->Err_0
            != PlayerError::BackendUnavailable,
{
    let sound = StaticSoundData { sample_rate, frames, settings: StaticSoundSettings::default() };
    backend.device.manager.play(sound).map_err(|e| match e {
        PlaySoundError::SoundLimitReached => PlayerError::SoundLimitReached,
        PlaySoundError::IntoSoundError(_) => PlayerError::SoundRejected,
        _ => PlayerError::CommandFailed,
    })
}

/// Relies on `AudioManager::pause`: asks the backend to pause all audio.
/// Its only error is a refused command.
#[verifier::external_body]
fn pause_backend(backend: &mut AudioBackend) -> (r: Result<(), PlayerError>)
    ensures
        final(backend).requests() == old(backend).requests().push(BackendRequest::Pause),
        r is Err ==> r->Err_0 == PlayerError::CommandFailed,
{
    backend.device.manager.pause(Tween::default()).map_err(|_| PlayerError::CommandFailed)
}

/// Relies on `AudioManager::resume`: asks the backend to resume all audio.
/// Its only error is a refused command.
#[verifier::external_body]
fn resume_backend(backend: &mut AudioBackend) -> (r: Result<(), PlayerError>)
    ensures
        final(backend).requests() == old(backend).requests().push(BackendRequest::Resume),
        r is Err ==> r->Err_0 == PlayerError::CommandFailed,
{
    backend.device.manager.resume(Tween::default()).map_err(|_| PlayerError::CommandFailed)
}

/// Relies on `StaticSoundHandle::stop`: asks the backend to stop one sound.
/// Its only error is a refused command.
#[verifier::external_body]
fn stop_sound(backend: &mut AudioBackend, handle: &mut StaticSoundHandle) -> (r: Result<
    (),
    PlayerError,
>)
    ensures
        final(backend).requests() == old(backend).requests().push(
            BackendRequest::Stop(*old(handle)),
        ),
        r is Err ==> r->Err_0 == PlayerError::CommandFailed,
{
    handle.stop(Tween::default()).map_err(|_| PlayerError::CommandFailed)
}

/// Relies on `std::sync::mpsc::channel`: an unbounded FIFO queue with any
/// number of senders and one receiver.
#[verifier::external_body]
fn open_queue() -> (r: (Sender<AudioControlFlow>, Receiver<AudioControlFlow>)) {
    std::sync::mpsc::channel()
}

/// Relies on `Sender::send`: puts the command on the queue without waiting,
/// or, when the receiving side is gone, fails and queues nothing.
#[verifier::external_body]
fn enqueue(endpoint: &mut AudioPlayerInterface, command: AudioControlFlow) -> (r: Result<
    (),
    PlayerError,
>)
    ensures
        r is Ok ==> final(endpoint).submitted() == old(endpoint).submitted().push(command),
        r is Err ==> r->Err_0 == PlayerError::Closed && final(endpoint).submitted() == old(endpoint).submitted(),
{
    endpoint.sender.send(command).map_err(|_| PlayerError::Closed)
}

/// Relies on `Sender::clone`: a further endpoint into the same queue.
pub assume_specification<T>[ <Sender<T> as Clone>::clone ](sender: &Sender<T>) -> Sender<T>;

/// Relies on `Receiver::recv`: waits for the next command in FIFO order,
/// and gives `None` when every sender is gone and the queue is empty.
#[verifier::external_body]
fn dequeue(receiver: &Receiver<AudioControlFlow>) -> (r: Option<AudioControlFlow>) {
    receiver.recv().ok()
}

/// The handles that survive reaping: handle `i` is dropped exactly when
/// `finished[i]` holds.
pub open spec fn kept<H>(handles: Seq<H>, finished: Seq<bool>) -> Seq<H>
    decreases handles.len(),
{
    if handles.len() == 0 {
        Seq::empty()
    } else {
        let i = handles.len() - 1;
        let rest = kept(handles.drop_last(), finished);
        if i < finished.len() && finished[i] {
            rest
        } else {
            rest.push(handles.last())
        }
    }
}

/// `after` is what reaping leaves of `before` for some answer, per handle,
/// to "has it finished?".
pub open spec fn reaped<H>(before: Seq<H>, after: Seq<H>) -> bool {
    exists|finished: Seq<bool>| finished.len() == before.len() && after == kept(before, finished)
}

/// A request that the engine makes of the backend.
pub enum BackendRequest {
    /// Start a sound of these frames at this sample rate.
    Play(u32, Arc<Vec<Frame>>),
    /// Pause all audio.
    Pause,
    /// Resume all audio.
    Resume,
    /// Stop this instance.
    Stop(StaticSoundHandle),
}

/// A sound the backend can start: at least one frame, and a positive
/// sample rate.
pub open spec fn playable(sound: StaticSoundData) -> bool {
    sound.frames@.len() > 0 && sound.sample_rate > 0
}

/// One stop request per handle, in order.
pub open spec fn stop_requests(handles: Seq<StaticSoundHandle>) -> Seq<BackendRequest> {
    handles.map_values(|h: StaticSoundHandle| BackendRequest::Stop(h))
}

/// How one command changes the active set and the log of backend requests:
/// reap first; then `Play` asks the backend to start the sound (when it is
/// playable) and adds the new instance when the backend accepted it,
/// `Pause` and `Resume` ask the backend once, and `Stop` asks the backend
/// to stop every instance left after reaping, in order, and clears the set.
pub open spec fn transition(
    before: Seq<StaticSoundHandle>,
    log: Seq<BackendRequest>,
    command: AudioControlFlow,
    succeeded: bool,
    after: Seq<StaticSoundHandle>,
    log_after: Seq<BackendRequest>,
) -> bool {
    match command {
        AudioControlFlow::Stop => {
            &&& after.len() == 0
            &&& exists|live: Seq<StaticSoundHandle>|
                #[trigger] reaped(before, live) && log_after == log + stop_requests(live)
        },
        AudioControlFlow::PlayStatic { sound } => {
            &&& log_after == if playable(*sound) {
                log.push(BackendRequest::Play(sound.sample_rate, sound.frames))
            } else {
                log
            }
            &&& if succeeded {
                playable(*sound) && after.len() > 0 && reaped(before, after.drop_last())
            } else {
                reaped(before, after)
            }
        },
        AudioControlFlow::Pause => reaped(before, after) && log_after == log.push(
            BackendRequest::Pause,
        ),
        AudioControlFlow::Resume => reaped(before, after) && log_after == log.push(
            BackendRequest::Resume,
        ),
    }
}

/// Keeps, in order, the handles whose `finished` flag is not set (a missing
/// flag counts as not finished).
pub fn retain_unfinished<H>(handles: Vec<H>, finished: &Vec<bool>) -> (r: Vec<H>)
    ensures
        r@ == kept(handles@, finished@),
{
    let ghost all = handles@;
    let mut rest = handles;
    let mut out: Vec<H> = Vec::new();
    let mut i: usize = 0;
    let n = rest.len();
    while rest.len() > 0
        invariant
            i + rest@.len() == all.len(),
            all.len() == n,
            rest@ == all.subrange(i as int, all.len() as int),
            out@ == kept(all.subrange(0, i as int), finished@),
        decreases rest@.len(),
    {
        let h = rest.remove(0);
        proof {
            assert(all.subrange(0, i + 1).drop_last() =~= all.subrange(0, i as int));
            assert(all.subrange(0, i + 1).last() == all[i as int]);
        }
        let done = i < finished.len() && finished[i];
        if !done {
            out.push(h);
        }
        i = i + 1;
        proof {
            assert(rest@ =~= all.subrange(i as int, all.len() as int));
        }
    }
    assert(all.subrange(0, i as int) =~= all);
    out
}

/// The engine: sole owner of the backend and of every live sound instance.
pub struct AudioPlayer {
    backend: AudioBackend,
    statics: Vec<StaticSoundHandle>,
    receiver: Receiver<AudioControlFlow>,
}

/// A submission endpoint into the engine's command queue; clones share
/// the queue.
#[derive(Clone)]
pub struct AudioPlayerInterface {
    sender: Sender<AudioControlFlow>,
    submitted: Ghost<Seq<AudioControlFlow>>,
}

/// Sets up the backend and builds an engine with an empty active set,
/// together with the first endpoint of its queue.
pub fn create_audio_player() -> (r: Result<(AudioPlayer, AudioPlayerInterface), PlayerError>)
    ensures
        r is Ok ==> r->Ok_0.0.active().len() == 0 && r->Ok_0.0.requests().len() == 0
            && r->Ok_0.1.submitted().len() == 0,
        r is Err ==> r->Err_0 == PlayerError::BackendUnavailable,
{
    let device = open_backend()?;
    let (sender, receiver) = open_queue();
    let backend = AudioBackend { device, requests: Ghost(Seq::empty()) };
    Ok((
        AudioPlayer { backend, statics: Vec::new(), receiver },
        AudioPlayerInterface { sender, submitted: Ghost(Seq::empty()) },
    ))
}

impl AudioPlayer {
    /// The live sound instances.
    pub closed spec fn active(&self) -> Seq<StaticSoundHandle> {
        self.statics@
    }

    /// Every request made of the backend so far, in order.
    pub closed spec fn requests(&self) -> Seq<BackendRequest> {
        self.backend.requests()
    }

    /// The number of live sound instances.
    pub fn active_count(&self) -> (r: usize)
        ensures
            r == self.active().len(),
    {
        self.statics.len()
    }

    /// Drops the instances whose sound has finished.
    fn reap(&mut self)
        ensures
            reaped(old(self).active(), final(self).active()),
            final(self).requests() == old(self).requests(),
    {
        let ghost before = self.statics@;
        let mut finished: Vec<bool> = Vec::new();
        let mut i: usize = 0;
        while i < self.statics.len()
            invariant
                i <= self.statics@.len(),
                finished@.len() == i,
                self.statics@ == before,
            decreases self.statics@.len() - i,
        {
            finished.push(sound_finished(&self.statics[i]));
            i = i + 1;
        }
        let mut handles: Vec<StaticSoundHandle> = Vec::new();
        core::mem::swap(&mut handles, &mut self.statics);
        self.statics = retain_unfinished(handles, &finished);
    }

    /// Asks the backend to stop every active instance, in order, and
    /// empties the set, whatever the backend answers; reports the first
    /// refusal, if any.
    fn stop_all(&mut self) -> (r: Result<(), PlayerError>)
        ensures
            final(self).active().len() == 0,
            final(self).requests() == old(self).requests() + stop_requests(old(self).active()),
            old(self).active().len() == 0 ==> r is Ok,
            r is Err ==> r->Err_0 == PlayerError::CommandFailed,
    {
        let ghost all = self.statics@;
        let ghost log = self.backend.requests();
        let ghost mut k: int = 0;
        let mut result: Result<(), PlayerError> = Ok(());
        while self.statics.len() > 0
            invariant
                0 <= k <= all.len(),
                self.statics@ == all.subrange(k, all.len() as int),
                self.backend.requests() == log + stop_requests(all.subrange(0, k)),
                all.len() == 0 ==> result is Ok,
                result is Err ==> result->Err_0 == PlayerError::CommandFailed,
            decreases self.statics@.len(),
        {
            let mut handle = self.statics.remove(0);
            let ghost h = handle;
            let stopped = stop_sound(&mut self.backend, &mut handle);
            proof {
                assert(h == all[k]);
                assert(all.subrange(0, k + 1) =~= all.subrange(0, k).push(h));
                assert(stop_requests(all.subrange(0, k + 1)) =~= stop_requests(
                    all.subrange(0, k),
                ).push(BackendRequest::Stop(h)));
                k = k + 1;
                assert(self.statics@ =~= all.subrange(k, all.len() as int));
            }
            if result.is_ok() {
                result = stopped;
            }
        }
        proof {
            assert(all.subrange(0, k) =~= all);
        }
        result
    }

    /// Carries out one command: reaps finished instances, then plays,
    /// pauses, resumes or stops. A sound with no frames or no sample rate
    /// is refused without reaching the backend.
    pub fn handle(&mut self, command: AudioControlFlow) -> (r: Result<(), PlayerError>)
        ensures
            transition(
                old(self).active(),
                old(self).requests(),
                command,
                r is Ok,
                final(self).active(),
                final(self).requests(),
            ),
            command is Stop && old(self).active().len() == 0 ==> r is Ok,
            command matches AudioControlFlow::PlayStatic { sound } && !playable(*sound) ==> r
                == Err::<(), PlayerError>(PlayerError::SoundRejected),
            r is Err && !(command is PlayStatic) ==> r->Err_0 == PlayerError::CommandFailed,
            r is Err ==> r->Err_0 != PlayerError::Closed && r->Err_0
                != PlayerError::BackendUnavailable,
    {
        self.reap();
        let ghost live = self.statics@;
        match command {
            AudioControlFlow::PlayStatic { sound } => {
                let data = *sound;
                if data.frames.len() == 0 || data.sample_rate == 0 {
                    return Err(PlayerError::SoundRejected);
                }
                match start_sound(&mut self.backend, data.sample_rate, data.frames) {
                    Ok(handle) => {
                        self.statics.push(handle);
                        assert(self.statics@.drop_last() =~= live);
                        Ok(())
                    },
                    Err(e) => Err(e),
                }
            },
            AudioControlFlow::Pause => {
                pause_backend(&mut self.backend)
            },
            AudioControlFlow::Resume => {
                resume_backend(&mut self.backend)
            },
            AudioControlFlow::Stop => {
                proof {
                    if old(self).active().len() == 0 {
                        reveal_with_fuel(kept, 1);
                        let f = choose|f: Seq<bool>|
                            f.len() == old(self).active().len() && live == kept(
                                old(self).active(),
                                f,
                            );
                        assert(live.len() == 0);
                    }
                }
                let r = self.stop_all();
                assert(reaped(old(self).active(), live));
                r
            },
        }
    }

    /// Waits for the next command and carries it out. Gives `None`, and
    /// changes nothing, when the queue reports that no endpoint is left.
    pub fn step(&mut self) -> (r: Option<Result<(), PlayerError>>)
        ensures
            r is None ==> final(self).active() == old(self).active() && final(self).requests()
                == old(self).requests(),
            r matches Some(Err(e)) ==> e != PlayerError::Closed && e
                != PlayerError::BackendUnavailable,
            r is Some ==> exists|command: AudioControlFlow|
                #[trigger] transition(
                    old(self).active(),
                    old(self).requests(),
                    command,
                    r->Some_0 is Ok,
                    final(self).active(),
                    final(self).requests(),
                ),
    {
        match dequeue(&self.receiver) {
            Some(command) => Some(self.handle(command)),
            None => None,
        }
    }
}

impl AudioPlayerInterface {
    /// The commands this endpoint has put on the queue, in order.
    pub closed spec fn submitted(&self) -> Seq<AudioControlFlow> {
        self.submitted@
    }

    /// Queues `Play` for a sound; fails, queueing nothing, only when the
    /// engine is gone.
    pub fn play_sound(&mut self, sound: StaticSoundData) -> (r: Result<(), PlayerError>)
        ensures
            r is Ok ==> final(self).submitted() == old(self).submitted().push(
                AudioControlFlow::PlayStatic { sound: Box::new(sound) },
            ),
            r is Err ==> r->Err_0 == PlayerError::Closed && final(self).submitted() == old(self).submitted(),
    {
        enqueue(self, AudioControlFlow::PlayStatic { sound: Box::new(sound) })
    }

    /// Queues `Pause`; fails, queueing nothing, only when the engine is gone.
    pub fn pause(&mut self) -> (r: Result<(), PlayerError>)
        ensures
            r is Ok ==> final(self).submitted() == old(self).submitted().push(
                AudioControlFlow::Pause,
            ),
            r is Err ==> r->Err_0 == PlayerError::Closed && final(self).submitted() == old(self).submitted(),
    {
        enqueue(self, AudioControlFlow::Pause)
    }

    /// Queues `Resume`; fails, queueing nothing, only when the engine is
    /// gone.
    pub fn resume(&mut self) -> (r: Result<(), PlayerError>)
        ensures
            r is Ok ==> final(self).submitted() == old(self).submitted().push(
                AudioControlFlow::Resume,
            ),
            r is Err ==> r->Err_0 == PlayerError::Closed && final(self).submitted() == old(self).submitted(),
    {
        enqueue(self, AudioControlFlow::Resume)
    }

    /// Queues `Stop`; fails, queueing nothing, only when the engine is gone.
    pub fn stop(&mut self) -> (r: Result<(), PlayerError>)
        ensures
            r is Ok ==> final(self).submitted() == old(self).submitted().push(
                AudioControlFlow::Stop,
            ),
            r is Err ==> r->Err_0 == PlayerError::Closed && final(self).submitted() == old(self).submitted(),
    {
        enqueue(self, AudioControlFlow::Stop)
    }
}

/// Reaping never adds an instance.
pub proof fn lemma_kept_no_longer<H>(handles: Seq<H>, finished: Seq<bool>)
    ensures
        kept(handles, finished).len() <= handles.len(),
    decreases handles.len(),
{
    if handles.len() > 0 {
        lemma_kept_no_longer(handles.drop_last(), finished);
    }
}

/// One command grows the active set by at most one instance, so the set
/// stays bounded by the number of sounds started and not yet finished.
pub proof fn lemma_growth_bounded(
    before: Seq<StaticSoundHandle>,
    log: Seq<BackendRequest>,
    command: AudioControlFlow,
    succeeded: bool,
    after: Seq<StaticSoundHandle>,
    log_after: Seq<BackendRequest>,
)
    requires
        transition(before, log, command, succeeded, after, log_after),
    ensures
        after.len() <= before.len() + 1,
{
    match command {
        AudioControlFlow::Stop => {},
        AudioControlFlow::PlayStatic { .. } => {
            let live = if succeeded {
                after.drop_last()
            } else {
                after
            };
            let f = choose|f: Seq<bool>| f.len() == before.len() && live == kept(before, f);
            lemma_kept_no_longer(before, f);
        },
        _ => {
            let f = choose|f: Seq<bool>| f.len() == before.len() && after == kept(before, f);
            lemma_kept_no_longer(before, f);
        },
    }
}

/// Reaping an empty set leaves it empty.
proof fn lemma_reaped_empty(before: Seq<StaticSoundHandle>, after: Seq<StaticSoundHandle>)
    requires
        before.len() == 0,
        reaped(before, after),
    ensures
        after.len() == 0,
{
    let f = choose|f: Seq<bool>| f.len() == before.len() && after == kept(before, f);
    reveal_with_fuel(kept, 1);
}

/// `Stop` with no active instance leaves the active set empty and asks the
/// backend for nothing.
pub proof fn lemma_stop_when_idle(
    before: Seq<StaticSoundHandle>,
    log: Seq<BackendRequest>,
    succeeded: bool,
    after: Seq<StaticSoundHandle>,
    log_after: Seq<BackendRequest>,
)
    requires
        before.len() == 0,
        transition(before, log, AudioControlFlow::Stop, succeeded, after, log_after),
    ensures
        after.len() == 0,
        log_after == log,
{
    let live = choose|live: Seq<StaticSoundHandle>|
        #[trigger] reaped(before, live) && log_after == log + stop_requests(live);
    lemma_reaped_empty(before, live);
    assert(log + stop_requests(live) =~= log);
}

/// `Play(a)`, `Play(b)` and `Stop`, handled in that order, leave no active
/// instance, whatever became of the two sounds: the backend is asked to
/// start each playable sound, in order, and then only to stop instances.
pub proof fn lemma_stop_after_plays(
    s0: Seq<StaticSoundHandle>,
    s1: Seq<StaticSoundHandle>,
    s2: Seq<StaticSoundHandle>,
    s3: Seq<StaticSoundHandle>,
    l0: Seq<BackendRequest>,
    l1: Seq<BackendRequest>,
    l2: Seq<BackendRequest>,
    l3: Seq<BackendRequest>,
    a: Box<StaticSoundData>,
    b: Box<StaticSoundData>,
    ok1: bool,
    ok2: bool,
    ok3: bool,
)
    requires
        transition(s0, l0, AudioControlFlow::PlayStatic { sound: a }, ok1, s1, l1),
        transition(s1, l1, AudioControlFlow::PlayStatic { sound: b }, ok2, s2, l2),
        transition(s2, l2, AudioControlFlow::Stop, ok3, s3, l3),
    ensures
        s3.len() == 0,
        playable(*a) ==> l1 == l0.push(BackendRequest::Play(a.sample_rate, a.frames)),
        playable(*b) ==> l2 == l1.push(BackendRequest::Play(b.sample_rate, b.frames)),
        l3.len() >= l2.len(),
        l3.subrange(0, l2.len() as int) == l2,
        forall|k: int| l2.len() <= k < l3.len() ==> (#[trigger] l3[k]) is Stop,
{
    let live = choose|live: Seq<StaticSoundHandle>|
        #[trigger] reaped(s2, live) && l3 == l2 + stop_requests(live);
    assert(l3.subrange(0, l2.len() as int) =~= l2);
}

} // verus!
