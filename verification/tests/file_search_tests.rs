use peek::file_search::{
    file_extension, is_supported_extension, is_supported_file, pick_match, search_file, Candidate,
    Folded,
};

fn entry(dir: &str, name: &str, is_dir: bool) -> Candidate {
    Candidate { path: format!("{}/{}", dir, name), name: name.to_string(), depth: 1, is_dir }
}

fn root(dir: &str) -> Candidate {
    let name = dir.rsplit('/').next().unwrap_or(dir);
    Candidate { path: dir.to_string(), name: name.to_string(), depth: 0, is_dir: true }
}

fn listing(dir: &str, files: &[&str], dirs: &[&str]) -> Vec<Candidate> {
    let mut entries = vec![root(dir)];
    for name in files {
        entries.push(entry(dir, name, false));
    }
    for name in dirs {
        entries.push(entry(dir, name, true));
    }
    entries
}

fn folded(name: &str, accepted: bool) -> Folded {
    Folded { name: name.to_string(), accepted, direct: false }
}

fn named(name: &str) -> Folded {
    Folded { name: name.to_string(), accepted: true, direct: true }
}

#[test]
fn test_search_file_exact_match() {
    let entries = listing("/tmp/work", &["test.pdf"], &[]);

    let result = search_file(&entries, "test.pdf");
    assert!(result.is_some());
    assert_eq!(result, Some("/tmp/work/test.pdf".to_string()));
}

#[test]
fn test_search_file_partial_match() {
    let entries = listing("/tmp/work", &["report_2025.pdf"], &[]);

    let result = search_file(&entries, "report");
    assert!(result.is_some());
    assert_eq!(result, Some("/tmp/work/report_2025.pdf".to_string()));
}

#[test]
fn test_search_file_unsupported_extension() {
    let entries = listing("/tmp/work", &["test.exe"], &[]);

    let result = search_file(&entries, "test.exe");
    assert!(result.is_none());
}

#[test]
fn test_is_supported_file() {
    assert!(is_supported_file("test.pdf", false));
    assert!(is_supported_file("image.png", false));
    assert!(!is_supported_file("script.exe", false));
}

#[test]
fn test_search_directory() {
    let entries = listing("/tmp/work", &[], &["mydir"]);

    let result = search_file(&entries, "mydir");
    assert!(result.is_some());
    assert_eq!(result, Some("/tmp/work/mydir".to_string()));
}

#[test]
fn test_case_insensitive_search() {
    let entries = listing("/tmp/work", &["Document.PDF"], &[]);

    let result = search_file(&entries, "document");
    assert!(result.is_some());
    assert_eq!(result, Some("/tmp/work/Document.PDF".to_string()));
}

#[test]
fn test_partial_match_priority() {
    let entries = listing("/tmp/work", &["report_final.pdf", "report_draft.pdf"], &[]);

    let result = search_file(&entries, "report");
    assert!(result.is_some());
    // The first one in the order of the listing.
    assert_eq!(result, Some("/tmp/work/report_final.pdf".to_string()));
}

#[test]
fn exact_match_wins_over_earlier_partial_matches() {
    let entries = listing("/tmp/work", &["notes_old.txt", "my_notes.md"], &["notes.d", "notes"]);
    assert_eq!(search_file(&entries, "notes"), Some("/tmp/work/notes".to_string()));

    // A file named like the pattern but without a supported extension is no match at all.
    let entries = listing("/tmp/work", &["notes", "notes_old.txt"], &[]);
    assert_eq!(search_file(&entries, "notes"), Some("/tmp/work/notes_old.txt".to_string()));

    let entries = listing("/tmp/work", &["readme.md.txt", "README.md"], &[]);
    assert_eq!(search_file(&entries, "readme.md"), Some("/tmp/work/README.md".to_string()));
}

#[test]
fn exact_match_is_case_insensitive_and_first_wins() {
    let entries = listing("/tmp/work", &["Test.PDF", "test.pdf"], &[]);
    assert_eq!(search_file(&entries, "TEST.pdf"), Some("/tmp/work/Test.PDF".to_string()));
    assert_eq!(search_file(&entries, "tEST.PDF"), Some("/tmp/work/Test.PDF".to_string()));
}

#[test]
fn the_entry_named_letter_for_letter_wins() {
    let entries = listing("/tmp/work", &["Test.PDF", "test.pdf", "TEST.PDF"], &[]);
    assert_eq!(search_file(&entries, "test.pdf"), Some("/tmp/work/test.pdf".to_string()));
    assert_eq!(search_file(&entries, "Test.PDF"), Some("/tmp/work/Test.PDF".to_string()));
    assert_eq!(search_file(&entries, "TEST.PDF"), Some("/tmp/work/TEST.PDF".to_string()));

    let entries = listing("/tmp/work", &["my_notes.md", "NOTES.MD", "notes.md"], &[]);
    assert_eq!(search_file(&entries, "notes.md"), Some("/tmp/work/notes.md".to_string()));
}

#[test]
fn an_entry_named_letter_for_letter_must_be_supported() {
    let entries = listing("/tmp/work", &["Setup.EXE.txt", "setup.exe"], &[]);
    assert_eq!(search_file(&entries, "setup.exe"), Some("/tmp/work/Setup.EXE.txt".to_string()));
}

#[test]
fn pattern_in_upper_case_matches_lower_case_name() {
    let entries = listing("/tmp/work", &["report_2025.pdf"], &[]);
    assert_eq!(search_file(&entries, "REPORT"), Some("/tmp/work/report_2025.pdf".to_string()));
}

#[test]
fn unsupported_exact_name_yields_to_supported_partial_match() {
    let entries = listing("/tmp/work", &["test.exe", "test.exe.txt"], &[]);
    assert_eq!(search_file(&entries, "test.exe"), Some("/tmp/work/test.exe.txt".to_string()));
}

#[test]
fn directory_matches_whatever_its_name() {
    let entries = listing("/tmp/work", &["build.exe"], &["build.exe.d", "bin"]);
    assert_eq!(search_file(&entries, "build"), Some("/tmp/work/build.exe.d".to_string()));
    assert_eq!(search_file(&entries, "bin"), Some("/tmp/work/bin".to_string()));
}

#[test]
fn the_listed_directory_itself_is_skipped() {
    let entries = listing("/tmp/work", &[], &[]);
    assert_eq!(search_file(&entries, "work"), None);
    let entries = listing("/tmp/work", &["homework.txt"], &[]);
    assert_eq!(search_file(&entries, "work"), Some("/tmp/work/homework.txt".to_string()));
}

#[test]
fn deeper_entries_are_not_considered() {
    let mut entries = listing("/tmp/work", &[], &["sub"]);
    entries.push(Candidate {
        path: "/tmp/work/sub/deep.pdf".to_string(),
        name: "deep.pdf".to_string(),
        depth: 2,
        is_dir: false,
    });
    assert_eq!(search_file(&entries, "deep"), None);
    assert_eq!(search_file(&entries, "sub"), Some("/tmp/work/sub".to_string()));
}

#[test]
fn nothing_matches_in_an_empty_listing() {
    assert_eq!(search_file(&Vec::new(), "anything"), None);
    assert_eq!(search_file(&Vec::new(), ""), None);
}

#[test]
fn the_listed_directory_is_named_by_the_empty_pattern_only() {
    let entries = listing("/tmp/work", &[], &[]);
    assert_eq!(search_file(&entries, "user"), None);
    assert_eq!(search_file(&entries, "/tmp/work"), None);
}

#[test]
fn empty_pattern_names_the_listed_directory() {
    let entries = listing("/tmp/work", &["a.exe", "b.txt", "c.pdf"], &["sub"]);
    assert_eq!(search_file(&entries, ""), Some("/tmp/work".to_string()));
    let entries = listing("/tmp/work", &[], &[]);
    assert_eq!(search_file(&entries, ""), Some("/tmp/work".to_string()));
}

#[test]
fn empty_pattern_without_the_directory_matches_the_first_accepted_entry() {
    let entries = vec![
        entry("/tmp/work", "a.exe", false),
        entry("/tmp/work", "b.txt", false),
        entry("/tmp/work", "c.pdf", false),
    ];
    assert_eq!(search_file(&entries, ""), Some("/tmp/work/b.txt".to_string()));
}

#[test]
fn search_lowercases_beyond_ascii() {
    let entries = listing("/tmp/work", &["ÜBERSICHT.PDF"], &[]);
    assert_eq!(search_file(&entries, "übersicht"), Some("/tmp/work/ÜBERSICHT.PDF".to_string()));
}

#[test]
fn every_supported_extension_is_accepted() {
    let all = [
        "pdf", "html", "htm", "xml", "json", "txt", "md", "jpg", "jpeg", "png", "gif", "svg",
        "webp", "bmp", "mp4", "webm", "ogg", "mp3", "wav",
    ];
    for ext in all {
        assert!(is_supported_extension(ext), "{}", ext);
        assert!(is_supported_file(&format!("file.{}", ext), false), "{}", ext);
        assert!(is_supported_file(&format!("FILE.{}", ext.to_uppercase()), false), "{}", ext);
    }
}

#[test]
fn other_extensions_are_refused() {
    for ext in ["exe", "sh", "rs", "pd", "pdff", "", "PDF", "Pdf", " pdf", "tar"] {
        assert!(!is_supported_extension(ext), "{:?}", ext);
    }
    assert!(!is_supported_file("archive.tar.gz", false));
    assert!(!is_supported_file("Makefile", false));
    assert!(!is_supported_file("name.", false));
    assert!(!is_supported_file("", false));
}

#[test]
fn extension_check_is_case_insensitive() {
    assert!(is_supported_file("Document.PDF", false));
    assert!(is_supported_file("photo.JpEg", false));
    assert!(!is_supported_file("setup.EXE", false));
}

#[test]
fn directories_are_always_supported() {
    assert!(is_supported_file("mydir", true));
    assert!(is_supported_file("program.exe", true));
    assert!(is_supported_file("", true));
    assert!(is_supported_file(".git", true));
}

#[test]
fn extension_is_what_follows_the_last_dot() {
    assert_eq!(file_extension("test.pdf"), Some("pdf"));
    assert_eq!(file_extension("archive.tar.gz"), Some("gz"));
    assert_eq!(file_extension("Document.PDF"), Some("PDF"));
    assert_eq!(file_extension("name."), Some(""));
    assert_eq!(file_extension("..pdf"), Some("pdf"));
    assert_eq!(file_extension("a.é"), Some("é"));
    assert_eq!(file_extension("é.txt"), Some("txt"));
}

#[test]
fn some_names_have_no_extension() {
    assert_eq!(file_extension("Makefile"), None);
    assert_eq!(file_extension(""), None);
    assert_eq!(file_extension(".bashrc"), None);
    assert_eq!(file_extension(".pdf"), None);
    assert_eq!(file_extension("."), None);
    assert_eq!(file_extension(".."), None);
}

#[test]
fn hidden_file_named_like_an_extension_is_refused() {
    assert!(!is_supported_file(".pdf", false));
    assert!(is_supported_file(".hidden.pdf", false));
}

#[test]
fn pick_prefers_exact_over_partial() {
    let entries = vec![folded("report_final.pdf", true), folded("report", true)];
    assert_eq!(pick_match(&entries, "report"), Some(1));
}

#[test]
fn pick_takes_the_first_partial_match() {
    let entries =
        vec![folded("summary.pdf", true), folded("report_a.pdf", true), folded("report_b.pdf", true)];
    assert_eq!(pick_match(&entries, "report"), Some(1));
    assert_eq!(pick_match(&entries, "pdf"), Some(0));
    assert_eq!(pick_match(&entries, "b.pdf"), Some(2));
}

#[test]
fn pick_skips_entries_that_are_not_accepted() {
    let entries = vec![folded("report", false), folded("report_a.pdf", true)];
    assert_eq!(pick_match(&entries, "report"), Some(1));
    let entries = vec![folded("report", false), folded("report.exe", false)];
    assert_eq!(pick_match(&entries, "report"), None);
}

#[test]
fn pick_prefers_the_entry_named_directly() {
    let entries = vec![folded("report", true), named("report"), folded("report", true)];
    assert_eq!(pick_match(&entries, "report"), Some(1));
    let entries = vec![folded("report.pdf", true), named("other"), named("another")];
    assert_eq!(pick_match(&entries, "report"), Some(1));
    let entries = vec![Folded { name: "dir".to_string(), accepted: false, direct: true }];
    assert_eq!(pick_match(&entries, ""), Some(0));
}

#[test]
fn pick_compares_as_written() {
    let entries = vec![folded("Report.pdf", true)];
    assert_eq!(pick_match(&entries, "report"), None);
    assert_eq!(pick_match(&entries, "Report"), Some(0));
}

#[test]
fn pick_finds_nothing_without_a_match() {
    let entries = vec![folded("a.pdf", true), folded("b.pdf", true)];
    assert_eq!(pick_match(&entries, "c"), None);
    assert_eq!(pick_match(&entries, "a.pdfx"), None);
    assert_eq!(pick_match(&Vec::new(), "a"), None);
}
