use linguaspark::model::ModelFiles;
use linguaspark::resolve::{classify, DirectoryEntry, FileKind};

fn entry(dir: &str, name: &str) -> DirectoryEntry {
    DirectoryEntry {
        file_name: name.to_string(),
        path: format!("{}/{}", dir, name),
    }
}

fn paths(files: &ModelFiles) -> [String; 4] {
    [
        files.src_vocab_path().to_string(),
        files.trg_vocab_path().to_string(),
        files.model_path().to_string(),
        files.shortlist_path().to_string(),
    ]
}

#[test]
fn four_artifacts_fill_their_slots() {
    let entries = vec![
        entry("/m", "srcvocab.spm"),
        entry("/m", "trgvocab.spm"),
        entry("/m", "model.intgemm8.bin"),
        entry("/m", "lex.s2t.bin"),
    ];
    let files = ModelFiles::from_entries(&entries);
    assert_eq!(
        paths(&files),
        [
            "/m/srcvocab.spm",
            "/m/trgvocab.spm",
            "/m/model.intgemm8.bin",
            "/m/lex.s2t.bin"
        ]
    );
    assert!(files.is_complete());
}

#[test]
fn four_artifacts_fill_their_slots_in_any_order() {
    let entries = vec![
        entry("/m", "lex.s2t.bin"),
        entry("/m", "model.intgemm8.bin"),
        entry("/m", "trgvocab.spm"),
        entry("/m", "srcvocab.spm"),
    ];
    let files = ModelFiles::from_entries(&entries);
    assert_eq!(
        paths(&files),
        [
            "/m/srcvocab.spm",
            "/m/trgvocab.spm",
            "/m/model.intgemm8.bin",
            "/m/lex.s2t.bin"
        ]
    );
}

#[test]
fn single_vocabulary_fills_both_vocabulary_slots() {
    let entries = vec![entry("/m", "vocab.spm")];
    let files = ModelFiles::from_entries(&entries);
    assert_eq!(paths(&files), ["/m/vocab.spm", "/m/vocab.spm", "", ""]);
    assert!(!files.is_complete());
}

#[test]
fn later_weight_file_replaces_earlier_one() {
    let first = vec![entry("/m", "a.intgemm8.bin"), entry("/m", "b.intgemm8.bin")];
    assert_eq!(ModelFiles::from_entries(&first).model_path(), "/m/b.intgemm8.bin");
    let second = vec![entry("/m", "b.intgemm8.bin"), entry("/m", "a.intgemm8.bin")];
    assert_eq!(ModelFiles::from_entries(&second).model_path(), "/m/a.intgemm8.bin");
}

#[test]
fn later_weight_file_of_the_other_suffix_replaces_too() {
    let entries = vec![
        entry("/m", "a.intgemm8.bin"),
        entry("/m", "notes.txt"),
        entry("/m", "b.intgemm.alphas.bin"),
        entry("/m", "lex.s2t.bin"),
    ];
    let files = ModelFiles::from_entries(&entries);
    assert_eq!(files.model_path(), "/m/b.intgemm.alphas.bin");
    assert_eq!(files.shortlist_path(), "/m/lex.s2t.bin");
}

#[test]
fn shared_vocabulary_after_marked_ones_replaces_both() {
    let entries = vec![
        entry("/m", "srcvocab.spm"),
        entry("/m", "trgvocab.spm"),
        entry("/m", "vocab.spm"),
    ];
    let files = ModelFiles::from_entries(&entries);
    assert_eq!(paths(&files), ["/m/vocab.spm", "/m/vocab.spm", "", ""]);
}

#[test]
fn marked_vocabulary_after_shared_one_replaces_its_side_only() {
    let entries = vec![entry("/m", "vocab.spm"), entry("/m", "trgvocab.de.spm")];
    let files = ModelFiles::from_entries(&entries);
    assert_eq!(paths(&files), ["/m/vocab.spm", "/m/trgvocab.de.spm", "", ""]);
}

#[test]
fn no_entries_leave_every_slot_empty() {
    let entries: Vec<DirectoryEntry> = Vec::new();
    let files = ModelFiles::from_entries(&entries);
    assert_eq!(paths(&files), ["", "", "", ""]);
}

#[test]
fn other_files_are_ignored() {
    let entries = vec![
        entry("/m", "README.md"),
        entry("/m", "model.bin"),
        entry("/m", "srcvocab.txt"),
        entry("/m", "lex.s2t.bin.gz"),
    ];
    let files = ModelFiles::from_entries(&entries);
    assert_eq!(paths(&files), ["", "", "", ""]);
}

#[test]
fn the_path_is_taken_from_the_entry_not_from_the_name() {
    let entries = vec![DirectoryEntry {
        file_name: "lex.s2t.bin".to_string(),
        path: "/elsewhere/shortlist".to_string(),
    }];
    let files = ModelFiles::from_entries(&entries);
    assert_eq!(files.shortlist_path(), "/elsewhere/shortlist");
}

#[test]
fn classify_vocabularies() {
    assert_eq!(classify("srcvocab.spm"), FileKind::SourceVocab);
    assert_eq!(classify("srcvocab.ende.spm"), FileKind::SourceVocab);
    assert_eq!(classify("trgvocab.spm"), FileKind::TargetVocab);
    assert_eq!(classify("trgvocab.ende.spm"), FileKind::TargetVocab);
    assert_eq!(classify("vocab.spm"), FileKind::SharedVocab);
    assert_eq!(classify("vocab.srcvocab.spm"), FileKind::SharedVocab);
    assert_eq!(classify(".spm"), FileKind::SharedVocab);
}

#[test]
fn classify_weights_of_both_suffixes() {
    assert_eq!(classify("model.intgemm8.bin"), FileKind::Weights);
    assert_eq!(classify("model.intgemm.alphas.bin"), FileKind::Weights);
    assert_eq!(classify(".intgemm8.bin"), FileKind::Weights);
    assert_eq!(classify("srcvocab.intgemm8.bin"), FileKind::Weights);
}

#[test]
fn classify_shortlist() {
    assert_eq!(classify("lex.s2t.bin"), FileKind::Shortlist);
    assert_eq!(classify("lex.50.50.ende.s2t.bin"), FileKind::Shortlist);
}

#[test]
fn classify_everything_else_as_other() {
    assert_eq!(classify(""), FileKind::Other);
    assert_eq!(classify("spm"), FileKind::Other);
    assert_eq!(classify("srcvocab"), FileKind::Other);
    assert_eq!(classify("srcvocab.spm.bak"), FileKind::Other);
    assert_eq!(classify("model.bin"), FileKind::Other);
    assert_eq!(classify("model.intgemm.bin"), FileKind::Other);
    assert_eq!(classify("model.intgemm8.bin "), FileKind::Other);
    assert_eq!(classify("lex.s2t.BIN"), FileKind::Other);
    assert_eq!(classify("vocab.SPM"), FileKind::Other);
}

#[test]
fn classify_names_beyond_ascii() {
    assert_eq!(classify("wörter.spm"), FileKind::SharedVocab);
    assert_eq!(classify("srcvocab.日本語.spm"), FileKind::SourceVocab);
    assert_eq!(classify("модель.intgemm8.bin"), FileKind::Weights);
    assert_eq!(classify("é"), FileKind::Other);
}

#[test]
fn classify_agrees_with_prefix_and_suffix_of_the_name() {
    let names = [
        "srcvocab.spm",
        "trgvocab.spm",
        "vocab.spm",
        "a.intgemm8.bin",
        "a.intgemm.alphas.bin",
        "a.s2t.bin",
        "a.bin",
        "",
        "srcvocab.s2t.bin",
        "trgvocab.intgemm8.bin",
    ];
    for name in names {
        let expected = if name.ends_with(".spm") {
            if name.starts_with("srcvocab") {
                FileKind::SourceVocab
            } else if name.starts_with("trgvocab") {
                FileKind::TargetVocab
            } else {
                FileKind::SharedVocab
            }
        } else if name.ends_with(".intgemm.alphas.bin") || name.ends_with(".intgemm8.bin") {
            FileKind::Weights
        } else if name.ends_with(".s2t.bin") {
            FileKind::Shortlist
        } else {
            FileKind::Other
        };
        assert_eq!(classify(name), expected, "{}", name);
    }
}
