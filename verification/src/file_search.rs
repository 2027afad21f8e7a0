//! The search of one directory listing for the entry that a pattern names.

use crate::text::{
    chars_of, contains, has_substring, lemma_substring_reflexive, lowercase_of, same_text,
};
use vstd::prelude::*;
use vstd::string::*;

verus! {

/// One entry of a directory listing, as the enumeration reports it.
#[derive(Debug, PartialEq, Eq)]
pub struct Candidate {
    /// The path under which the entry can be reached.
    pub path: String,
    /// The entry's file name.
    pub name: String,
    /// How far below the listed directory the entry stands: 0 is the
    /// directory itself, 1 an entry directly inside it.
    pub depth: usize,
    /// Whether the entry is a directory.
    pub is_dir: bool,
}

/// A `Candidate` with its texts as sequences of characters.
pub struct CandidateView {
    pub path: Seq<char>,
    pub name: Seq<char>,
    pub depth: nat,
    pub is_dir: bool,
}

impl View for Candidate {
    type V = CandidateView;

    open spec fn view(&self) -> CandidateView {
        CandidateView {
            path: self.path@,
            name: self.name@,
            depth: self.depth as nat,
            is_dir: self.is_dir,
        }
    }
}

/// The views of a listing's entries, in the listing's order.
pub open spec fn listing_view(entries: Seq<Candidate>) -> Seq<CandidateView> {
    entries.map_values(|c: Candidate| c@)
}

/// The extensions, in lowercase, of the files that a browser can show.
pub open spec fn supported_extensions() -> Seq<Seq<char>> {
    seq![
        "pdf"@,
        "html"@,
        "htm"@,
        "xml"@,
        "json"@,
        "txt"@,
        "md"@,
        "jpg"@,
        "jpeg"@,
        "png"@,
        "gif"@,
        "svg"@,
        "webp"@,
        "bmp"@,
        "mp4"@,
        "webm"@,
        "ogg"@,
        "mp3"@,
        "wav"@,
    ]
}

/// The position of the last `.` of `name` at which an extension begins:
/// `i` holds a `.`, no `.` follows it, and it is not the first character.
pub open spec fn is_extension_dot(name: Seq<char>, i: int) -> bool {
    &&& 0 < i < name.len()
    &&& name[i] == '.'
    &&& forall|j: int| i < j < name.len() ==> name[j] != '.'
}

/// The extension of a file name: what follows its last `.`. A name without
/// a `.`, a name whose only `.` is its first character, and the name `..`
/// have none.
pub open spec fn extension_of(name: Seq<char>) -> Option<Seq<char>> {
    if name =~= seq!['.', '.'] {
        None
    } else if exists|i: int| is_extension_dot(name, i) {
        let dot = choose|i: int| is_extension_dot(name, i);
        Some(name.subrange(dot + 1, name.len() as int))
    } else {
        None
    }
}

/// Whether an entry may be opened: a directory always, a file when the
/// lowercase form of its extension is one of the supported extensions.
pub open spec fn is_supported(name: Seq<char>, is_dir: bool) -> bool {
    is_dir || match extension_of(name) {
        Some(ext) => supported_extensions().contains(lowercase_of(ext)),
        None => false,
    }
}

/// The supported extensions, in the order of `supported_extensions`.
fn supported_extension_list() -> (list: Vec<&'static str>)
    ensures
        list@.len() == supported_extensions().len(),
        forall|i: int| 0 <= i < list@.len() ==> (#[trigger] list@[i])@ == supported_extensions()[i],
{
    vec![
        "pdf",
        "html",
        "htm",
        "xml",
        "json",
        "txt",
        "md",
        "jpg",
        "jpeg",
        "png",
        "gif",
        "svg",
        "webp",
        "bmp",
        "mp4",
        "webm",
        "ogg",
        "mp3",
        "wav",
    ]
}

/// Whether `ext`, taken as it is written, is one of the supported
/// extensions.
pub fn is_supported_extension(ext: &str) -> (supported: bool)
    ensures
        supported == supported_extensions().contains(ext@),
{
    let text = chars_of(ext);
    let list = supported_extension_list();
    let mut i: usize = 0;
    while i < list.len()
        invariant
            i <= list@.len(),
            text@ == ext@,
            list@.len() == supported_extensions().len(),
            forall|j: int| 0 <= j < list@.len() ==> (#[trigger] list@[j])@ == supported_extensions()[j],
            forall|j: int| 0 <= j < i ==> supported_extensions()[j] != ext@,
        decreases list@.len() - i,
    {
        let known = chars_of(list[i]);
        if same_text(text.as_slice(), known.as_slice()) {
            return true;
        }
        i += 1;
    }
    false
}

/// The extension of the file name `name`, if it has one.
pub fn file_extension(name: &str) -> (ext: Option<&str>)
    ensures
        match ext {
            Some(e) => extension_of(name@) == Some(e@),
            None => extension_of(name@) is None,
        },
{
    let text = chars_of(name);
    let len: usize = text.len();
    if len == 2 && text[0] == '.' && text[1] == '.' {
        return None;
    }
    let mut i: usize = len;
    while i > 0
        invariant
            i <= len,
            len == text@.len(),
            text@ == name@,
            forall|j: int| i <= j < len ==> text@[j] != '.',
            name@ != seq!['.', '.'],
        decreases i,
    {
        i -= 1;
        if text[i] == '.' {
            if i == 0 {
                return None;
            }
            assert(is_extension_dot(name@, i as int));
            return Some(name.substring_char(i + 1, len));
        }
    }
    None
}

/// Whether the entry with file name `name` may be opened. `is_dir` says
/// whether the entry is a directory.
pub fn is_supported_file(name: &str, is_dir: bool) -> (supported: bool)
    ensures
        supported == is_supported(name@, is_dir),
{
    if is_dir {
        return true;
    }
    match file_extension(name) {
        Some(ext) => {
            let lowered = ext.to_lowercase();
            is_supported_extension(lowered.as_str())
        },
        None => false,
    }
}

/// An entry made ready for matching.
#[derive(Debug, PartialEq, Eq)]
pub struct Folded {
    /// The entry's file name in lowercase.
    pub name: String,
    /// Whether the entry takes part in the matching of names.
    pub accepted: bool,
    /// Whether the entry is the one that the pattern names letter for
    /// letter, and may be opened.
    pub direct: bool,
}

/// A `Folded` with its name as a sequence of characters.
pub struct FoldedView {
    pub name: Seq<char>,
    pub accepted: bool,
    pub direct: bool,
}

impl View for Folded {
    type V = FoldedView;

    open spec fn view(&self) -> FoldedView {
        FoldedView { name: self.name@, accepted: self.accepted, direct: self.direct }
    }
}

impl FoldedView {
    /// The entry is accepted and its name is the needle.
    pub open spec fn is_exact(self, needle: Seq<char>) -> bool {
        self.accepted && self.name == needle
    }

    /// The entry is accepted and the needle stands in its name.
    pub open spec fn is_partial(self, needle: Seq<char>) -> bool {
        self.accepted && has_substring(self.name, needle)
    }
}

/// The views of the folded entries, in their order.
pub open spec fn folded_view(folded: Seq<Folded>) -> Seq<FoldedView> {
    folded.map_values(|f: Folded| f@)
}

/// Some entry is named directly.
pub open spec fn has_direct(folded: Seq<FoldedView>) -> bool {
    exists|j: int| 0 <= j < folded.len() && (#[trigger] folded[j]).direct
}

/// Some entry is an exact match of the needle.
pub open spec fn has_exact(folded: Seq<FoldedView>, needle: Seq<char>) -> bool {
    exists|j: int| 0 <= j < folded.len() && (#[trigger] folded[j]).is_exact(needle)
}

/// Entry `i` is the one that is selected: the first that is named directly
/// where there is one; else the first exact match where there is one; else
/// the first partial match.
pub open spec fn is_pick(folded: Seq<FoldedView>, needle: Seq<char>, i: int) -> bool {
    &&& 0 <= i < folded.len()
    &&& if has_direct(folded) {
        &&& folded[i].direct
        &&& forall|j: int| 0 <= j < i ==> !(#[trigger] folded[j]).direct
    } else if has_exact(folded, needle) {
        &&& folded[i].is_exact(needle)
        &&& forall|j: int| 0 <= j < i ==> !(#[trigger] folded[j]).is_exact(needle)
    } else {
        &&& folded[i].is_partial(needle)
        &&& forall|j: int| 0 <= j < i ==> !(#[trigger] folded[j]).is_partial(needle)
    }
}

/// The index of the entry that is selected, if one is.
pub open spec fn pick(folded: Seq<FoldedView>, needle: Seq<char>) -> Option<int> {
    if exists|i: int| is_pick(folded, needle, i) {
        Some(choose|i: int| is_pick(folded, needle, i))
    } else {
        None
    }
}

/// At most one entry is selected.
pub proof fn lemma_pick_unique(folded: Seq<FoldedView>, needle: Seq<char>, i: int, k: int)
    requires
        is_pick(folded, needle, i),
        is_pick(folded, needle, k),
    ensures
        i == k,
{
}

/// The entry that is selected among `folded`: the first that is named
/// directly; where there is none, the first accepted entry whose name is
/// `needle`; where there is none either, the first accepted entry whose
/// name holds `needle`. Names and needle are compared as they are written,
/// so case-insensitive matching asks for both in lowercase.
pub fn pick_match(folded: &Vec<Folded>, needle: &str) -> (found: Option<usize>)
    ensures
        match found {
            Some(i) => pick(folded_view(folded@), needle@) == Some(i as int),
            None => pick(folded_view(folded@), needle@) is None,
        },
{
    let ghost views = folded_view(folded@);
    let text = chars_of(needle);
    let mut i: usize = 0;
    while i < folded.len()
        invariant
            i <= folded@.len(),
            views == folded_view(folded@),
            forall|j: int| 0 <= j < i ==> !(#[trigger] views[j]).direct,
        decreases folded@.len() - i,
    {
        if folded[i].direct {
            proof {
                assert(views[i as int].direct);
                assert(is_pick(views, needle@, i as int));
                lemma_pick_unique(views, needle@, i as int, pick(views, needle@).unwrap());
            }
            return Some(i);
        }
        i += 1;
    }
    let mut i: usize = 0;
    while i < folded.len()
        invariant
            i <= folded@.len(),
            text@ == needle@,
            views == folded_view(folded@),
            !has_direct(views),
            forall|j: int| 0 <= j < i ==> !(#[trigger] views[j]).is_exact(needle@),
        decreases folded@.len() - i,
    {
        if folded[i].accepted {
            let name = chars_of(folded[i].name.as_str());
            if same_text(name.as_slice(), text.as_slice()) {
                proof {
                    assert(views[i as int].is_exact(needle@));
                    assert(is_pick(views, needle@, i as int));
                    lemma_pick_unique(views, needle@, i as int, pick(views, needle@).unwrap());
                }
                return Some(i);
            }
        }
        i += 1;
    }
    let mut i: usize = 0;
    while i < folded.len()
        invariant
            i <= folded@.len(),
            text@ == needle@,
            views == folded_view(folded@),
            !has_direct(views),
            !has_exact(views, needle@),
            forall|j: int| 0 <= j < i ==> !(#[trigger] views[j]).is_partial(needle@),
        decreases folded@.len() - i,
    {
        if folded[i].accepted {
            let name = chars_of(folded[i].name.as_str());
            if contains(name.as_slice(), text.as_slice()) {
                proof {
                    assert(views[i as int].is_partial(needle@));
                    assert(is_pick(views, needle@, i as int));
                    lemma_pick_unique(views, needle@, i as int, pick(views, needle@).unwrap());
                }
                return Some(i);
            }
        }
        i += 1;
    }
    None
}

/// Whether an entry of a listing takes part in the matching of names: it
/// stands directly inside the listed directory and may be opened.
pub open spec fn is_accepted(c: CandidateView) -> bool {
    c.depth == 1 && is_supported(c.name, c.is_dir)
}

/// Whether an entry is what the pattern names when it is taken as a path
/// inside the listed directory, and may be opened: for the empty pattern
/// the listed directory itself, for any other pattern the entry directly
/// inside the directory whose name is the pattern, letter for letter.
pub open spec fn is_direct(c: CandidateView, pattern: Seq<char>) -> bool {
    &&& is_supported(c.name, c.is_dir)
    &&& if pattern.len() == 0 {
        c.depth == 0
    } else {
        c.depth == 1 && c.name == pattern
    }
}

/// A listing made ready for the matching of `pattern`.
pub open spec fn fold(entries: Seq<CandidateView>, pattern: Seq<char>) -> Seq<FoldedView> {
    entries.map_values(
        |c: CandidateView|
            FoldedView {
                name: lowercase_of(c.name),
                accepted: is_accepted(c),
                direct: is_direct(c, pattern),
            },
    )
}

/// The index of the entry that `pattern` names in a listing. An entry that
/// the pattern names letter for letter comes first: for the empty pattern
/// that is the listed directory itself. Then, among the accepted entries,
/// the first whose name equals the pattern without regard to case; where
/// there is none, the first whose name holds the pattern without regard to
/// case.
pub open spec fn search_index(entries: Seq<CandidateView>, pattern: Seq<char>) -> Option<int> {
    pick(fold(entries, pattern), lowercase_of(pattern))
}

/// The path of the entry that `pattern` names in a listing, if it names one.
pub open spec fn search(entries: Seq<CandidateView>, pattern: Seq<char>) -> Option<Seq<char>> {
    match search_index(entries, pattern) {
        Some(i) => Some(entries[i].path),
        None => None,
    }
}

/// Searches a directory listing for the entry that `pattern` names and
/// returns the entry's path. Only entries that may be opened are found.
/// The entry that the pattern names letter for letter wins: the listed
/// directory itself for the empty pattern, else the entry of that name
/// directly inside it. Failing that, an entry directly inside the directory
/// whose name equals the pattern without regard to case wins over one whose
/// name merely holds it; among equals the listing's order decides.
pub fn search_file(entries: &Vec<Candidate>, pattern: &str) -> (found: Option<String>)
    ensures
        match found {
            Some(path) => search(listing_view(entries@), pattern@) == Some(path@),
            None => search(listing_view(entries@), pattern@) is None,
        },
{
    let ghost views = listing_view(entries@);
    let needle = pattern.to_lowercase();
    let literal = chars_of(pattern);
    let mut folded: Vec<Folded> = Vec::new();
    let mut i: usize = 0;
    while i < entries.len()
        invariant
            i <= entries@.len(),
            views == listing_view(entries@),
            literal@ == pattern@,
            folded@.len() == i,
            forall|j: int| 0 <= j < i ==> (#[trigger] folded@[j])@ == fold(views, pattern@)[j],
        decreases entries@.len() - i,
    {
        let entry = &entries[i];
        let supported = is_supported_file(entry.name.as_str(), entry.is_dir);
        let named = if literal.len() == 0 {
            entry.depth == 0
        } else {
            let name = chars_of(entry.name.as_str());
            entry.depth == 1 && same_text(name.as_slice(), literal.as_slice())
        };
        folded.push(
            Folded {
                name: entry.name.as_str().to_lowercase(),
                accepted: entry.depth == 1 && supported,
                direct: supported && named,
            },
        );
        i += 1;
    }
    assert(folded_view(folded@) =~= fold(views, pattern@));
    match pick_match(&folded, needle.as_str()) {
        Some(k) => Some(entries[k].path.clone()),
        None => None,
    }
}

/// Among the entries up to `i`, where entry `i` is named directly, one is
/// the first that is named directly.
proof fn lemma_first_direct(folded: Seq<FoldedView>, i: int) -> (k: int)
    requires
        0 <= i < folded.len(),
        folded[i].direct,
    ensures
        0 <= k <= i,
        folded[k].direct,
        forall|j: int| 0 <= j < k ==> !(#[trigger] folded[j]).direct,
    decreases i,
{
    if exists|j: int| 0 <= j < i && (#[trigger] folded[j]).direct {
        let j = choose|j: int| 0 <= j < i && (#[trigger] folded[j]).direct;
        lemma_first_direct(folded, j)
    } else {
        i
    }
}

/// Among the entries up to `i`, where entry `i` is an exact match, one is
/// the first exact match.
proof fn lemma_first_exact(folded: Seq<FoldedView>, needle: Seq<char>, i: int) -> (k: int)
    requires
        0 <= i < folded.len(),
        folded[i].is_exact(needle),
    ensures
        0 <= k <= i,
        folded[k].is_exact(needle),
        forall|j: int| 0 <= j < k ==> !(#[trigger] folded[j]).is_exact(needle),
    decreases i,
{
    if exists|j: int| 0 <= j < i && (#[trigger] folded[j]).is_exact(needle) {
        let j = choose|j: int| 0 <= j < i && (#[trigger] folded[j]).is_exact(needle);
        lemma_first_exact(folded, needle, j)
    } else {
        i
    }
}

/// Among the entries up to `i`, where entry `i` is a partial match, one is
/// the first partial match.
proof fn lemma_first_partial(folded: Seq<FoldedView>, needle: Seq<char>, i: int) -> (k: int)
    requires
        0 <= i < folded.len(),
        folded[i].is_partial(needle),
    ensures
        0 <= k <= i,
        folded[k].is_partial(needle),
        forall|j: int| 0 <= j < k ==> !(#[trigger] folded[j]).is_partial(needle),
    decreases i,
{
    if exists|j: int| 0 <= j < i && (#[trigger] folded[j]).is_partial(needle) {
        let j = choose|j: int| 0 <= j < i && (#[trigger] folded[j]).is_partial(needle);
        lemma_first_partial(folded, needle, j)
    } else {
        i
    }
}

/// An entry is selected exactly when some entry is named directly or some
/// accepted entry holds the needle in its name; the selected entry is
/// then one of these.
pub proof fn lemma_pick_some_iff_match(folded: Seq<FoldedView>, needle: Seq<char>)
    ensures
        pick(folded, needle) is Some <==> exists|i: int|
            0 <= i < folded.len() && ((#[trigger] folded[i]).direct || folded[i].is_partial(needle)),
        pick(folded, needle) matches Some(k) ==> is_pick(folded, needle, k) && (folded[k].direct
            || folded[k].is_partial(needle)),
{
    if exists|i: int|
        0 <= i < folded.len() && ((#[trigger] folded[i]).direct || folded[i].is_partial(needle)) {
        let i = choose|i: int|
            0 <= i < folded.len() && ((#[trigger] folded[i]).direct || folded[i].is_partial(
                needle,
            ));
        if has_direct(folded) {
            let d = choose|j: int| 0 <= j < folded.len() && (#[trigger] folded[j]).direct;
            let k = lemma_first_direct(folded, d);
            assert(is_pick(folded, needle, k));
        } else if has_exact(folded, needle) {
            let e = choose|j: int| 0 <= j < folded.len() && (#[trigger] folded[j]).is_exact(needle);
            let k = lemma_first_exact(folded, needle, e);
            assert(is_pick(folded, needle, k));
        } else {
            let k = lemma_first_partial(folded, needle, i);
            assert(is_pick(folded, needle, k));
        }
    }
    if pick(folded, needle) is Some {
        let k = pick(folded, needle).unwrap();
        assert(is_pick(folded, needle, k));
        if folded[k].is_exact(needle) {
            lemma_substring_reflexive(needle);
        }
    }
}

/// An entry that a pattern other than the empty one names letter for
/// letter is accepted and holds the pattern in its name.
pub proof fn lemma_direct_is_exact(c: CandidateView, pattern: Seq<char>)
    requires
        pattern.len() > 0,
        is_direct(c, pattern),
    ensures
        is_accepted(c),
        lowercase_of(c.name) == lowercase_of(pattern),
        has_substring(lowercase_of(c.name), lowercase_of(pattern)),
{
    lemma_substring_reflexive(lowercase_of(pattern));
}

/// Whether a file is supported depends on its extension only through the
/// extension's lowercase form: two files whose extensions differ in case
/// alone are both accepted or both refused.
pub proof fn extension_check_ignores_case(first: Seq<char>, second: Seq<char>)
    requires
        extension_of(first) is Some,
        extension_of(second) is Some,
        lowercase_of(extension_of(first).unwrap()) == lowercase_of(extension_of(second).unwrap()),
    ensures
        is_supported(first, false) == is_supported(second, false),
{
}

/// Apart from the entry that a pattern names letter for letter, the search
/// depends on names and pattern only through their lowercase forms: two
/// patterns that differ in case alone, neither of which names an entry
/// letter for letter, select the same entry.
pub proof fn search_ignores_case_of_pattern(
    entries: Seq<CandidateView>,
    first: Seq<char>,
    second: Seq<char>,
)
    requires
        lowercase_of(first) == lowercase_of(second),
        forall|i: int| 0 <= i < entries.len() ==> !is_direct(#[trigger] entries[i], first),
        forall|i: int| 0 <= i < entries.len() ==> !is_direct(#[trigger] entries[i], second),
    ensures
        search(entries, first) == search(entries, second),
{
    assert(fold(entries, first) =~= fold(entries, second));
}

/// A directory is supported whatever its name is: the extension filter
/// applies to files only.
pub proof fn directory_is_supported(name: Seq<char>)
    ensures
        is_supported(name, true),
{
}

/// A directory directly inside the listed directory whose name holds the
/// pattern, without regard to case, is a match: the search finds an entry,
/// and finds this one unless an entry named letter for letter, an exact
/// match or an earlier match takes precedence.
pub proof fn directory_matches_by_name(entries: Seq<CandidateView>, pattern: Seq<char>, i: int)
    requires
        0 <= i < entries.len(),
        entries[i].is_dir,
        entries[i].depth == 1,
        has_substring(lowercase_of(entries[i].name), lowercase_of(pattern)),
    ensures
        is_accepted(entries[i]),
        search_index(entries, pattern) is Some,
        !has_direct(fold(entries, pattern)) && !has_exact(
            fold(entries, pattern),
            lowercase_of(pattern),
        ) && (forall|j: int|
            0 <= j < i ==> !(#[trigger] fold(entries, pattern)[j]).is_partial(lowercase_of(pattern)))
            ==> search(entries, pattern) == Some(entries[i].path),
{
    let folded = fold(entries, pattern);
    let needle = lowercase_of(pattern);
    assert(folded[i].is_partial(needle));
    lemma_pick_some_iff_match(folded, needle);
    if !has_direct(folded) && !has_exact(folded, needle) && (forall|j: int|
        0 <= j < i ==> !(#[trigger] folded[j]).is_partial(needle)) {
        assert(is_pick(folded, needle, i));
        lemma_pick_unique(folded, needle, i, pick(folded, needle).unwrap());
    }
}

/// The entry that the pattern names letter for letter wins over every
/// other match: where entry `i` is the first such entry, the search returns
/// it, whatever other entries equal or hold the pattern without regard to
/// case.
pub proof fn literal_match_wins(entries: Seq<CandidateView>, pattern: Seq<char>, i: int)
    requires
        0 <= i < entries.len(),
        is_direct(entries[i], pattern),
        forall|j: int| 0 <= j < i ==> !is_direct(#[trigger] entries[j], pattern),
    ensures
        search_index(entries, pattern) == Some(i),
        search(entries, pattern) == Some(entries[i].path),
{
    let folded = fold(entries, pattern);
    let needle = lowercase_of(pattern);
    assert(folded[i].direct);
    assert forall|j: int| 0 <= j < i implies !(#[trigger] folded[j]).direct by {
        assert(!is_direct(entries[j], pattern));
    }
    assert(is_pick(folded, needle, i));
    lemma_pick_unique(folded, needle, i, pick(folded, needle).unwrap());
}

/// An exact match wins over partial matches: where no entry is named
/// letter for letter and entry `i` is the first accepted entry whose name
/// equals the pattern without regard to case, the search returns it,
/// whatever entries before or after it hold the pattern in their names.
pub proof fn first_exact_match_wins(entries: Seq<CandidateView>, pattern: Seq<char>, i: int)
    requires
        0 <= i < entries.len(),
        forall|j: int| 0 <= j < entries.len() ==> !is_direct(#[trigger] entries[j], pattern),
        is_accepted(entries[i]),
        lowercase_of(entries[i].name) == lowercase_of(pattern),
        forall|j: int|
            0 <= j < i ==> !(is_accepted(#[trigger] entries[j]) && lowercase_of(entries[j].name)
                == lowercase_of(pattern)),
    ensures
        search_index(entries, pattern) == Some(i),
        search(entries, pattern) == Some(entries[i].path),
{
    let folded = fold(entries, pattern);
    let needle = lowercase_of(pattern);
    assert(folded[i].is_exact(needle));
    assert(!has_direct(folded)) by {
        if has_direct(folded) {
            let j = choose|j: int| 0 <= j < folded.len() && (#[trigger] folded[j]).direct;
            assert(is_direct(entries[j], pattern));
        }
    }
    assert forall|j: int| 0 <= j < i implies !(#[trigger] folded[j]).is_exact(needle) by {
        assert(!(is_accepted(entries[j]) && lowercase_of(entries[j].name) == needle));
    }
    assert(is_pick(folded, needle, i));
    lemma_pick_unique(folded, needle, i, pick(folded, needle).unwrap());
}

/// The empty pattern names the listed directory: where the listing reports
/// the directory itself, as a directory, the search returns its path.
pub proof fn empty_pattern_names_the_directory(entries: Seq<CandidateView>, i: int)
    requires
        0 <= i < entries.len(),
        entries[i].depth == 0,
        entries[i].is_dir,
        forall|j: int| 0 <= j < i ==> (#[trigger] entries[j]).depth != 0,
    ensures
        search(entries, Seq::<char>::empty()) == Some(entries[i].path),
{
    literal_match_wins(entries, Seq::<char>::empty(), i);
}

/// For a pattern other than the empty one, the search finds nothing
/// exactly when no accepted entry holds the pattern in its name, without
/// regard to case.
pub proof fn search_fails_iff_nothing_matches(entries: Seq<CandidateView>, pattern: Seq<char>)
    requires
        pattern.len() > 0,
    ensures
        search(entries, pattern) is None <==> forall|i: int|
            0 <= i < entries.len() ==> !(is_accepted(#[trigger] entries[i]) && has_substring(
                lowercase_of(entries[i].name),
                lowercase_of(pattern),
            )),
{
    let folded = fold(entries, pattern);
    let needle = lowercase_of(pattern);
    lemma_pick_some_iff_match(folded, needle);
    if exists|i: int|
        0 <= i < folded.len() && ((#[trigger] folded[i]).direct || folded[i].is_partial(needle)) {
        let i = choose|i: int|
            0 <= i < folded.len() && ((#[trigger] folded[i]).direct || folded[i].is_partial(
                needle,
            ));
        if folded[i].direct {
            lemma_direct_is_exact(entries[i], pattern);
        }
        assert(is_accepted(entries[i]) && has_substring(lowercase_of(entries[i].name), needle));
    } else {
        assert forall|i: int| 0 <= i < entries.len() implies !(is_accepted(#[trigger] entries[i])
            && has_substring(lowercase_of(entries[i].name), needle)) by {
            assert(!folded[i].is_partial(needle));
        }
    }
}

} // verus!
