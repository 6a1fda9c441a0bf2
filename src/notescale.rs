use vstd::prelude::*;

use crate::note::Note;
use crate::player::{AudioControlFlow, AudioPlayerInterface, PlayerError};

verus! {

/// A source of sound for notes: given a note, it submits a playable sound
/// to the engine.
pub trait NoteScale {
    /// The command that playing `note` queues, where the source fixes it.
    open spec fn command_for(&self, note: Note) -> Option<AudioControlFlow> {
        None
    }

    /// Queues one `Play` command for `note` on `player`'s queue; fails,
    /// queueing nothing, only when the engine is gone.
    fn play_note(&self, note: Note, player: &mut AudioPlayerInterface) -> (r: Result<
        (),
        PlayerError,
    >)
        ensures
            r is Ok ==> final(player).submitted().len() == old(player).submitted().len() + 1
                && final(player).submitted().drop_last() == old(player).submitted()
                && final(player).submitted().last() is PlayStatic,
            r is Ok && self.command_for(note) is Some ==> final(player).submitted() == old(player).submitted().push(self.command_for(note)->0),
            r is Err ==> r->Err_0 == PlayerError::Closed && final(player).submitted() == old(player).submitted(),
    ;
}

} // verus!
