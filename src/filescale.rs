use vstd::prelude::*;

use kira::sound::static_sound::StaticSoundData;

use crate::note::{all_notes, note_index, note_name, Note};
use crate::notescale::NoteScale;
use crate::player::{AudioControlFlow, AudioPlayerInterface, PlayerError};

verus! {

/// Why a bank of samples could not be built.
#[derive(Clone, Copy, Debug, PartialEq, Eq, Structural)]
pub enum ScaleError {
    /// The file-name template could not be filled in.
    BadTemplate,
    /// The sounds handed over are not one per note.
    MissingSounds,
}

/// What `strfmt` makes of a template when `{note}` stands for `note`, or
/// `None` where it refuses the template.
pub uninterp spec fn filled(template: Seq<char>, note: Seq<char>) -> Option<Seq<char>>;

/// Relies on `strfmt::strfmt`: formats the template with the single
/// variable `note`; the outcome depends on the two strings alone.
#[verifier::external_body]
fn fill_template(template: &str, note: &str) -> (r: Result<String, ScaleError>)
    ensures
        r is Ok <==> filled(template@, note@) is Some,
        r is Ok ==> Some(r->Ok_0@) == filled(template@, note@),
        r is Err ==> r->Err_0 == ScaleError::BadTemplate,
{
    let vars = std::collections::HashMap::from([(String::from("note"), note)]);
    strfmt::strfmt(template, &vars).map_err(|_| ScaleError::BadTemplate)
}

/// Relies on the derived `Clone` of `StaticSoundData`: it copies the sample
/// rate and settings and shares the same frames.
pub assume_specification[ <StaticSoundData as Clone>::clone ](
    data: &StaticSoundData,
) -> (r: StaticSoundData)
    ensures
        r == *data,
;

/// A bank of samples: one loaded sound per note, complete from the moment
/// it is built.
pub struct FileScale {
    notes_data: Vec<StaticSoundData>,
}

/// The bank under the name its piano samples are known by.
pub type PianoScale = FileScale;

impl FileScale {
    /// Every note has its sound: there is exactly one per note.
    #[verifier::type_invariant]
    spec fn complete(self) -> bool {
        self.notes_data@.len() == 7
    }

    /// The sounds, in the canonical order of the notes.
    pub closed spec fn sounds(&self) -> Seq<StaticSoundData> {
        self.notes_data@
    }

    /// The file names to load, one per note in canonical order: the
    /// template filled in with each note's letter. Fails exactly when the
    /// template cannot be filled in for some note.
    pub fn file_names(template: &str) -> (r: Result<Vec<String>, ScaleError>)
        ensures
            r is Ok <==> forall|i: int|
                0 <= i < 7 ==> (#[trigger] filled(template@, note_name(all_notes()[i]))) is Some,
            r is Ok ==> r->Ok_0@.len() == 7 && forall|i: int|
                0 <= i < 7 ==> Some((#[trigger] r->Ok_0@[i])@) == filled(
                    template@,
                    note_name(all_notes()[i]),
                ),
            r is Err ==> r->Err_0 == ScaleError::BadTemplate,
    {
        let notes = Note::all();
        let mut names: Vec<String> = Vec::new();
        let mut i: usize = 0;
        while i < 7
            invariant
                i <= 7,
                notes@ == all_notes(),
                names@.len() == i,
                forall|j: int|
                    0 <= j < i ==> Some((#[trigger] names@[j])@) == filled(
                        template@,
                        note_name(all_notes()[j]),
                    ),
                forall|j: int|
                    0 <= j < i ==> (#[trigger] filled(template@, note_name(all_notes()[j])))
                        is Some,
            decreases 7 - i,
        {
            let letter = notes[i].to_str();
            let name = fill_template(template, letter)?;
            names.push(name);
            i = i + 1;
        }
        Ok(names)
    }

    /// Builds the bank from one sound per note, in canonical order; any
    /// other number of sounds is refused, so no partial bank exists.
    pub fn from_sounds(sounds: Vec<StaticSoundData>) -> (r: Result<FileScale, ScaleError>)
        ensures
            r is Ok <==> sounds@.len() == 7,
            r is Ok ==> r->Ok_0.sounds() == sounds@,
            r is Err ==> r->Err_0 == ScaleError::MissingSounds,
    {
        if sounds.len() == 7 {
            Ok(FileScale { notes_data: sounds })
        } else {
            Err(ScaleError::MissingSounds)
        }
    }

    /// The sound of a note: a plain read that cannot fail.
    pub fn lookup(&self, note: Note) -> (r: &StaticSoundData)
        ensures
            self.sounds().len() == 7,
            *r == self.sounds()[note_index(note)],
    {
        proof {
            use_type_invariant(self);
        }
        &self.notes_data[note.index()]
    }
}

impl NoteScale for FileScale {
    /// A copy of the note's own sound.
    open spec fn command_for(&self, note: Note) -> Option<AudioControlFlow> {
        Some(AudioControlFlow::PlayStatic { sound: Box::new(self.sounds()[note_index(note)]) })
    }

    /// Queues a copy of the note's sound; fails only when the engine is gone.
    fn play_note(&self, note: Note, player: &mut AudioPlayerInterface) -> (r: Result<
        (),
        PlayerError,
    >) {
        let sound = self.lookup(note).clone();
        player.play_sound(sound)
    }
}

/// Seven sounds in canonical order cover every note, each at its own place.
pub proof fn lemma_bank_complete(sounds: Seq<StaticSoundData>, note: Note)
    requires
        sounds.len() == 7,
    ensures
        sounds.len() == all_notes().len(),
        0 <= note_index(note) < sounds.len(),
        all_notes()[note_index(note)] == note,
{
}

} // verus!
