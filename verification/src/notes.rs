//! Random notes: the text that fills the rows of a test database.

use vstd::prelude::*;
use vstd::string::*;

verus! {

/// The words that notes are made of.
pub const WORDS: [&'static str; 58] = [
    "Cras",
    "Fusce",
    "Lorem",
    "Maecenas",
    "Nunc",
    "Orci",
    "Pellentesque",
    "Ut",
    "adipiscing",
    "amet",
    "at",
    "bibendum",
    "commodo",
    "condimentum",
    "consectetur",
    "dapibus",
    "dis",
    "dolor",
    "egestas",
    "elit",
    "eros",
    "et",
    "eu",
    "fringilla",
    "iaculis",
    "id",
    "in",
    "ipsum",
    "lacinia",
    "lorem",
    "magnis",
    "malesuada",
    "mi",
    "montes",
    "nascetur",
    "natoque",
    "nec",
    "nisi",
    "nulla",
    "parturient",
    "pellentesque",
    "penatibus",
    "placerat",
    "purus",
    "quam",
    "ridiculus",
    "risus",
    "sagittis",
    "scelerisque",
    "sed",
    "sem",
    "sit",
    "tincidunt",
    "tortor",
    "ultrices",
    "varius",
    "vel",
    "venenatis",
];

/// The note that a choice of words makes: each word, followed by a space.
pub open spec fn note_text(picks: Seq<usize>) -> Seq<char>
    decreases picks.len(),
{
    if picks.len() == 0 {
        Seq::empty()
    } else {
        note_text(picks.drop_last()) + WORDS[picks.last() as int]@ + seq![' ']
    }
}

/// Every pick names a word.
pub open spec fn picks_in_range(picks: Seq<usize>) -> bool {
    forall|i: int| 0 <= i < picks.len() ==> #[trigger] picks[i] < WORDS.len()
}

/// The note that `picks` make.
pub fn note_from_picks(picks: &Vec<usize>) -> (note: String)
    requires
        picks_in_range(picks@),
    ensures
        note@ == note_text(picks@),
{
    let mut note = String::new();
    let mut i: usize = 0;
    while i < picks.len()
        invariant
            i <= picks.len(),
            picks_in_range(picks@),
            note@ == note_text(picks@.take(i as int)),
        decreases picks.len() - i,
    {
        note.append(WORDS[picks[i]]);
        note.push(' ');
        assert(picks@.take(i + 1).drop_last() =~= picks@.take(i as int));
        i += 1;
    }
    assert(picks@.take(picks.len() as int) =~= picks@);
    note
}

/// `fastrand::usize` on the range below `bound`: a number that the generator
/// of the thread draws from that range. The range must hold a number.
#[verifier::external_body]
fn random_below(bound: usize) -> (n: usize)
    requires
        bound > 0,
    ensures
        n < bound,
{
    fastrand::usize(..bound)
}

/// `fastrand::seed`: starts the generator of the thread afresh from `seed`.
#[verifier::external_body]
pub(crate) fn seed_generator(seed: u64) {
    fastrand::seed(seed)
}

/// A text that is a note of fewer than `word_count` words.
pub open spec fn is_note(text: Seq<char>, word_count: usize) -> bool {
    exists|picks: Seq<usize>|
        picks.len() < word_count && picks_in_range(picks) && text == note_text(picks)
}

/// A random note: words drawn from [`WORDS`], each followed by a space. The
/// number of words is drawn first, from those below `word_count`.
pub fn create_note(word_count: usize) -> (note: String)
    requires
        word_count > 0,
    ensures
        is_note(note@, word_count),
{
    let words_for_note = random_below(word_count);
    let mut picks: Vec<usize> = Vec::new();
    while picks.len() < words_for_note
        invariant
            picks.len() <= words_for_note,
            picks_in_range(picks@),
        decreases words_for_note - picks.len(),
    {
        let pick = random_below(WORDS.len());
        picks.push(pick);
    }
    note_from_picks(&picks)
}

} // verus!
