use vstd::prelude::*;
use vstd::string::*;

verus! {

/// The error returned when a string names none of the seven notes.
/// It holds the string that was rejected.
#[derive(Clone, Debug)]
pub struct UnknownNote(pub String);

impl UnknownNote {
    /// A sentence that describes the error.
    pub fn message(&self) -> (r: String)
        ensures
            r@ == "The provided string '"@ + self.0@ + "' is unknown"@,
    {
        let mut r = String::from_str("The provided string '");
        r.append(self.0.as_str());
        r.append("' is unknown");
        r
    }
}

/// One of the seven natural pitches.
#[derive(Clone, Copy, Debug, PartialEq, Eq, Hash, Structural)]
pub enum Note {
    C,
    D,
    E,
    F,
    G,
    A,
    B,
}

/// The single letter that names a note.
pub open spec fn note_name(n: Note) -> Seq<char> {
    match n {
        Note::C => seq!['C'],
        Note::D => seq!['D'],
        Note::E => seq!['E'],
        Note::F => seq!['F'],
        Note::G => seq!['G'],
        Note::A => seq!['A'],
        Note::B => seq!['B'],
    }
}

/// The position of a note in the canonical order C, D, E, F, G, A, B.
pub open spec fn note_index(n: Note) -> int {
    match n {
        Note::C => 0,
        Note::D => 1,
        Note::E => 2,
        Note::F => 3,
        Note::G => 4,
        Note::A => 5,
        Note::B => 6,
    }
}

/// The seven notes in canonical order.
pub open spec fn all_notes() -> Seq<Note> {
    seq![Note::C, Note::D, Note::E, Note::F, Note::G, Note::A, Note::B]
}

/// The note that a string names, if any.
pub open spec fn parse_note(s: Seq<char>) -> Option<Note> {
    if s == seq!['C'] {
        Some(Note::C)
    } else if s == seq!['D'] {
        Some(Note::D)
    } else if s == seq!['E'] {
        Some(Note::E)
    } else if s == seq!['F'] {
        Some(Note::F)
    } else if s == seq!['G'] {
        Some(Note::G)
    } else if s == seq!['A'] {
        Some(Note::A)
    } else if s == seq!['B'] {
        Some(Note::B)
    } else {
        None
    }
}

impl Note {
    /// Reads a note from its letter; any other string is an `UnknownNote`.
    pub fn parse(s: &str) -> (r: Result<Note, UnknownNote>)
        ensures
            r is Ok <==> parse_note(s@) is Some,
            r is Ok ==> Some(r->Ok_0) == parse_note(s@),
            r is Err ==> r->Err_0.0@ == s@,
    {
        let rejected = UnknownNote(String::from_str(s));
        if s.unicode_len() != 1 {
            return Err(rejected);
        }
        let c = s.get_char(0);
        assert(s@ == seq![c]);
        match c {
            'C' => Ok(Note::C),
            'D' => Ok(Note::D),
            'E' => Ok(Note::E),
            'F' => Ok(Note::F),
            'G' => Ok(Note::G),
            'A' => Ok(Note::A),
            'B' => Ok(Note::B),
            _ => Err(rejected),
        }
    }

    /// The letter that names this note.
    pub fn to_str(self) -> (r: &'static str)
        ensures
            r@ == note_name(self),
    {
        match self {
            Note::C => {
                proof {
                    reveal_strlit("C");
                }
                "C"
            },
            Note::D => {
                proof {
                    reveal_strlit("D");
                }
                "D"
            },
            Note::E => {
                proof {
                    reveal_strlit("E");
                }
                "E"
            },
            Note::F => {
                proof {
                    reveal_strlit("F");
                }
                "F"
            },
            Note::G => {
                proof {
                    reveal_strlit("G");
                }
                "G"
            },
            Note::A => {
                proof {
                    reveal_strlit("A");
                }
                "A"
            },
            Note::B => {
                proof {
                    reveal_strlit("B");
                }
                "B"
            },
        }
    }

    /// The position of this note in the canonical order.
    pub fn index(self) -> (r: usize)
        ensures
            r == note_index(self),
            r < 7,
    {
        match self {
            Note::C => 0,
            Note::D => 1,
            Note::E => 2,
            Note::F => 3,
            Note::G => 4,
            Note::A => 5,
            Note::B => 6,
        }
    }

    /// Every note, in the canonical order C, D, E, F, G, A, B.
    pub fn all() -> (r: [Note; 7])
        ensures
            r@ == all_notes(),
    {
        let r = [Note::C, Note::D, Note::E, Note::F, Note::G, Note::A, Note::B];
        assert(r@ =~= all_notes());
        r
    }
}

/// Writing a note and reading it back gives the same note, and a string that
/// reads as a note is exactly that note's letter.
pub proof fn lemma_note_round_trip(n: Note, s: Seq<char>)
    ensures
        parse_note(note_name(n)) == Some(n),
        parse_note(s) is Some ==> note_name(parse_note(s)->0) == s,
{
    let name = note_name(n);
    assert(name.len() == 1);
    assert(seq!['C'][0] == 'C' && seq!['D'][0] == 'D' && seq!['E'][0] == 'E' && seq!['F'][0]
        == 'F' && seq!['G'][0] == 'G' && seq!['A'][0] == 'A' && seq!['B'][0] == 'B');
    assert(name[0] == note_name(n)[0]);
}

} // verus!
