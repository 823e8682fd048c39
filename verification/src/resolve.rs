//! Resolution of a model directory's entries into the four artifact slots.
//!
//! A file is classified by its name alone. Entries are taken in the order
//! given, and a later file of a slot replaces an earlier one.

use crate::model::ModelFiles;
use vstd::prelude::*;

verus! {

/// What a file of a model directory is, going by its name.
#[derive(Clone, Copy, Debug, PartialEq, Eq, Structural)]
pub enum FileKind {
    /// A vocabulary marked as the source side's.
    SourceVocab,
    /// A vocabulary marked as the target side's.
    TargetVocab,
    /// A vocabulary without a marker, shared by both sides.
    SharedVocab,
    /// Quantized model weights.
    Weights,
    /// A lexical shortlist.
    Shortlist,
    /// Anything else; such a file is ignored.
    Other,
}

/// One of the four places of a model descriptor.
#[derive(Clone, Copy, Debug, PartialEq, Eq, Structural)]
pub enum Slot {
    SourceVocab,
    TargetVocab,
    Weights,
    Shortlist,
}

/// One entry of a model directory: the file's name and its full path.
#[derive(Debug, PartialEq, Eq)]
pub struct DirectoryEntry {
    pub file_name: String,
    pub path: String,
}

/// The kind of the file called `name`.
pub open spec fn kind_of(name: Seq<char>) -> FileKind {
    if ".spm"@.is_suffix_of(name) {
        if "srcvocab"@.is_prefix_of(name) {
            FileKind::SourceVocab
        } else if "trgvocab"@.is_prefix_of(name) {
            FileKind::TargetVocab
        } else {
            FileKind::SharedVocab
        }
    } else if ".intgemm.alphas.bin"@.is_suffix_of(name) || ".intgemm8.bin"@.is_suffix_of(name) {
        FileKind::Weights
    } else if ".s2t.bin"@.is_suffix_of(name) {
        FileKind::Shortlist
    } else {
        FileKind::Other
    }
}

impl FileKind {
    /// Whether a file of this kind is assigned to `slot`.
    pub open spec fn fills(self, slot: Slot) -> bool {
        match slot {
            Slot::SourceVocab => self == FileKind::SourceVocab || self == FileKind::SharedVocab,
            Slot::TargetVocab => self == FileKind::TargetVocab || self == FileKind::SharedVocab,
            Slot::Weights => self == FileKind::Weights,
            Slot::Shortlist => self == FileKind::Shortlist,
        }
    }
}

/// The path that `slot` holds after the entries were taken in order: that of
/// the last entry assigned to the slot, and the empty path where there is none.
pub open spec fn slot_path(entries: Seq<DirectoryEntry>, slot: Slot) -> Seq<char>
    decreases entries.len(),
{
    if entries.len() == 0 {
        Seq::empty()
    } else if kind_of(entries.last().file_name@).fills(slot) {
        entries.last().path@
    } else {
        slot_path(entries.drop_last(), slot)
    }
}

/// The characters of `text`, in order.
fn chars_of(text: &str) -> (chars: Vec<char>)
    ensures
        chars@ == text@,
{
    broadcast use vstd::string::axiom_spec_iter;

    let mut chars: Vec<char> = Vec::new();
    for c in it: text.chars()
        invariant
            it.seq() == text@,
            chars@ == it.seq().take(it.index()),
    {
        chars.push(c);
    }
    chars
}

/// Whether `name` begins with `prefix`.
fn starts_with(name: &Vec<char>, prefix: &str) -> (found: bool)
    ensures
        found == prefix@.is_prefix_of(name@),
{
    let pattern = chars_of(prefix);
    if pattern.len() > name.len() {
        return false;
    }
    let mut i: usize = 0;
    while i < pattern.len()
        invariant
            i <= pattern.len() <= name.len(),
            pattern@ == prefix@,
            forall|k: int| 0 <= k < i ==> name@[k] == pattern@[k],
        decreases pattern.len() - i,
    {
        if name[i] != pattern[i] {
            assert(name@.subrange(0, pattern@.len() as int)[i as int] != pattern@[i as int]);
            return false;
        }
        i += 1;
    }
    true
}

/// Whether `name` ends with `suffix`.
fn ends_with(name: &Vec<char>, suffix: &str) -> (found: bool)
    ensures
        found == suffix@.is_suffix_of(name@),
{
    let pattern = chars_of(suffix);
    if pattern.len() > name.len() {
        return false;
    }
    let start: usize = name.len() - pattern.len();
    let mut i: usize = 0;
    while i < pattern.len()
        invariant
            i <= pattern.len() <= name.len(),
            start == name.len() - pattern.len(),
            pattern@ == suffix@,
            forall|k: int| 0 <= k < i ==> name@[start + k] == pattern@[k],
        decreases pattern.len() - i,
    {
        if name[start + i] != pattern[i] {
            assert(name@.subrange(start as int, name@.len() as int)[i as int] != pattern@[i as int]);
            return false;
        }
        i += 1;
    }
    true
}

/// Classifies the file called `name`.
pub fn classify(name: &str) -> (kind: FileKind)
    ensures
        kind == kind_of(name@),
{
    let name = chars_of(name);
    if ends_with(&name, ".spm") {
        if starts_with(&name, "srcvocab") {
            FileKind::SourceVocab
        } else if starts_with(&name, "trgvocab") {
            FileKind::TargetVocab
        } else {
            FileKind::SharedVocab
        }
    } else if ends_with(&name, ".intgemm.alphas.bin") || ends_with(&name, ".intgemm8.bin") {
        FileKind::Weights
    } else if ends_with(&name, ".s2t.bin") {
        FileKind::Shortlist
    } else {
        FileKind::Other
    }
}

impl ModelFiles {
    /// The descriptor that a directory with these entries resolves to. Each
    /// slot gets the path of the last entry assigned to it; a slot that no
    /// entry is assigned to stays empty.
    pub fn from_entries(entries: &[DirectoryEntry]) -> (files: ModelFiles)
        ensures
            files@.src_vocab_path == slot_path(entries@, Slot::SourceVocab),
            files@.trg_vocab_path == slot_path(entries@, Slot::TargetVocab),
            files@.model_path == slot_path(entries@, Slot::Weights),
            files@.shortlist_path == slot_path(entries@, Slot::Shortlist),
    {
        let mut src_vocab_path = String::new();
        let mut trg_vocab_path = String::new();
        let mut model_path = String::new();
        let mut shortlist_path = String::new();
        let mut i: usize = 0;
        while i < entries.len()
            invariant
                i <= entries.len(),
                src_vocab_path@ == slot_path(entries@.take(i as int), Slot::SourceVocab),
                trg_vocab_path@ == slot_path(entries@.take(i as int), Slot::TargetVocab),
                model_path@ == slot_path(entries@.take(i as int), Slot::Weights),
                shortlist_path@ == slot_path(entries@.take(i as int), Slot::Shortlist),
            decreases entries.len() - i,
        {
            let entry = &entries[i];
            proof {
                let seen = entries@.take(i + 1);
                assert(seen.last() == entries@[i as int]);
                assert(seen.drop_last() == entries@.take(i as int));
            }
            match classify(entry.file_name.as_str()) {
                FileKind::SourceVocab => {
                    src_vocab_path = entry.path.clone();
                },
                FileKind::TargetVocab => {
                    trg_vocab_path = entry.path.clone();
                },
                FileKind::SharedVocab => {
                    src_vocab_path = entry.path.clone();
                    trg_vocab_path = entry.path.clone();
                },
                FileKind::Weights => {
                    model_path = entry.path.clone();
                },
                FileKind::Shortlist => {
                    shortlist_path = entry.path.clone();
                },
                FileKind::Other => {},
            }
            i += 1;
        }
        assert(entries@.take(i as int) == entries@);
        ModelFiles::new(src_vocab_path, trg_vocab_path, model_path, shortlist_path)
    }
}

/// Last match wins: where the entry at `i` is assigned to `slot` and no
/// later entry is, the slot holds that entry's path.
pub proof fn lemma_last_match_wins(entries: Seq<DirectoryEntry>, slot: Slot, i: int)
    requires
        0 <= i < entries.len(),
        kind_of(entries[i].file_name@).fills(slot),
        forall|j: int| i < j < entries.len() ==> !kind_of(entries[j].file_name@).fills(slot),
    ensures
        slot_path(entries, slot) == entries[i].path@,
    decreases entries.len(),
{
    if i < entries.len() - 1 {
        lemma_last_match_wins(entries.drop_last(), slot, i);
    }
}

/// A slot that no entry is assigned to stays empty.
pub proof fn lemma_unmatched_slot_is_empty(entries: Seq<DirectoryEntry>, slot: Slot)
    requires
        forall|j: int| 0 <= j < entries.len() ==> !kind_of(entries[j].file_name@).fills(slot),
    ensures
        slot_path(entries, slot) == Seq::<char>::empty(),
    decreases entries.len(),
{
    if entries.len() > 0 {
        lemma_unmatched_slot_is_empty(entries.drop_last(), slot);
    }
}

} // verus!
