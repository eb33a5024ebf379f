//! Where the interpreter and the processing script are looked for.
//!
//! Each path has a fixed list of candidates; the first that exists on disk
//! wins. When none does, a bundled asset may be extracted, and failing that a
//! last-resort path is used.
use vstd::prelude::*;

verus! {

/// The directory a candidate path is taken relative to.
#[derive(Debug, Clone, Copy, PartialEq, Eq, Structural)]
pub enum Base {
    /// The application's temporary directory, where assets are extracted.
    TempCache,
    /// The directory of the running executable.
    ExeDir,
}

/// One place to look.
#[derive(Debug, Clone)]
pub struct Candidate {
    pub base: Base,
    /// The path below `base`, with `/` between its parts.
    pub sub: String,
    /// When it wins, the host turns it into its canonical form where it can.
    pub canonicalize: bool,
}

impl Candidate {
    pub open spec fn view_tuple(&self) -> (Base, Seq<char>, bool) {
        (self.base, self.sub@, self.canonicalize)
    }
}

pub open spec fn candidate_views(v: Seq<Candidate>) -> Seq<(Base, Seq<char>, bool)> {
    v.map_values(|c: Candidate| c.view_tuple())
}

/// The result of a search.
#[derive(Debug, Clone)]
pub enum Resolution {
    /// The candidate at this index exists.
    Found(usize),
    /// None exists: extract this asset and use the extracted path, or use
    /// `fallback` when extraction fails.
    Extract { asset: String, fallback: String },
    /// None exists and nothing is extracted: use this path as it is.
    Fallback(String),
}

/// The interpreter's candidates, in the order they are tried.
pub open spec fn python_candidates_spec(windows: bool) -> Seq<(Base, Seq<char>, bool)> {
    if windows {
        seq![
            (Base::TempCache, "python/python.exe"@, false),
            (Base::ExeDir, "python/python.exe"@, false),
            (Base::ExeDir, "python.exe"@, false),
        ]
    } else {
        seq![
            (Base::ExeDir, "../Resources/python/bin/python3"@, true),
            (Base::ExeDir, "python/bin/python3"@, true),
            (Base::ExeDir, "python3"@, true),
        ]
    }
}

/// The processing script's candidates, in the order they are tried.
pub open spec fn processor_candidates_spec() -> Seq<(Base, Seq<char>, bool)> {
    seq![
        (Base::TempCache, "pdf_processor.py"@, false),
        (Base::ExeDir, "../Resources/pdf_processor.py"@, true),
        (Base::ExeDir, "pdf_processor.py"@, true),
        (Base::ExeDir, "resources/pdf_processor.py"@, true),
    ]
}

/// `i` is the first of the first `limit` candidates that exists.
pub open spec fn is_first_existing(exists: Seq<bool>, limit: int, i: int) -> bool {
    &&& 0 <= i < limit
    &&& i < exists.len()
    &&& exists[i]
    &&& forall|j: int| 0 <= j < i ==> !exists[j]
}

/// None of the first `limit` candidates exists.
pub open spec fn none_exists(exists: Seq<bool>, limit: int) -> bool {
    forall|j: int| 0 <= j < limit && j < exists.len() ==> !exists[j]
}

fn candidate(base: Base, sub: &str, canonicalize: bool) -> (r: Candidate)
    ensures
        r.view_tuple() == (base, sub@, canonicalize),
{
    Candidate { base, sub: String::from_str(sub), canonicalize }
}

/// The interpreter's candidates on Windows (`windows`) or elsewhere.
pub fn python_candidates(windows: bool) -> (r: Vec<Candidate>)
    ensures
        candidate_views(r@) == python_candidates_spec(windows),
{
    let r = if windows {
        vec![
            candidate(Base::TempCache, "python/python.exe", false),
            candidate(Base::ExeDir, "python/python.exe", false),
            candidate(Base::ExeDir, "python.exe", false),
        ]
    } else {
        vec![
            candidate(Base::ExeDir, "../Resources/python/bin/python3", true),
            candidate(Base::ExeDir, "python/bin/python3", true),
            candidate(Base::ExeDir, "python3", true),
        ]
    };
    assert(candidate_views(r@) =~= python_candidates_spec(windows));
    r
}

/// The processing script's candidates.
pub fn processor_candidates() -> (r: Vec<Candidate>)
    ensures
        candidate_views(r@) == processor_candidates_spec(),
{
    let r = vec![
        candidate(Base::TempCache, "pdf_processor.py", false),
        candidate(Base::ExeDir, "../Resources/pdf_processor.py", true),
        candidate(Base::ExeDir, "pdf_processor.py", true),
        candidate(Base::ExeDir, "resources/pdf_processor.py", true),
    ];
    assert(candidate_views(r@) =~= processor_candidates_spec());
    r
}

/// The first of the first `limit` flags that is set.
fn first_existing(exists: &Vec<bool>, limit: usize) -> (r: Option<usize>)
    ensures
        r matches Some(i) ==> is_first_existing(exists@, limit as int, i as int),
        r is None <==> none_exists(exists@, limit as int),
{
    let mut i: usize = 0;
    while i < limit && i < exists.len()
        invariant
            forall|j: int| 0 <= j < i ==> !exists@[j],
            i <= exists@.len(),
        decreases exists@.len() - i,
    {
        if exists[i] {
            return Some(i);
        }
        i = i + 1;
    }
    None
}

/// Resolves the interpreter. `exists[i]` says whether candidate `i` of
/// `python_candidates(windows)` is on disk.
pub fn get_python_path(windows: bool, exists: &Vec<bool>) -> (r: Resolution)
    ensures
        r matches Resolution::Found(i) ==> is_first_existing(
            exists@,
            python_candidates_spec(windows).len() as int,
            i as int,
        ),
        !none_exists(exists@, python_candidates_spec(windows).len() as int) ==> r is Found,
        none_exists(exists@, python_candidates_spec(windows).len() as int) && windows ==> (r matches Resolution::Extract { asset, fallback } && asset@ == "python/python.exe"@ && fallback@ == "python"@),
        none_exists(exists@, python_candidates_spec(windows).len() as int) && !windows ==> (r matches Resolution::Fallback(f) && f@ == "python3"@),
{
    match first_existing(exists, 3) {
        Some(i) => Resolution::Found(i),
        None => {
            if windows {
                Resolution::Extract {
                    asset: String::from_str("python/python.exe"),
                    fallback: String::from_str("python"),
                }
            } else {
                Resolution::Fallback(String::from_str("python3"))
            }
        },
    }
}

/// Resolves the processing script. `exists[i]` says whether candidate `i` of
/// `processor_candidates()` is on disk.
pub fn get_processor_path(exists: &Vec<bool>) -> (r: Resolution)
    ensures
        r matches Resolution::Found(i) ==> is_first_existing(
            exists@,
            processor_candidates_spec().len() as int,
            i as int,
        ),
        !none_exists(exists@, processor_candidates_spec().len() as int) ==> r is Found,
        none_exists(exists@, processor_candidates_spec().len() as int) ==> (r matches Resolution::Extract { asset, fallback } && asset@ == "pdf_processor.py"@ && fallback@ == "src-tauri/resources/pdf_processor.py"@),
{
    match first_existing(exists, 4) {
        Some(i) => Resolution::Found(i),
        None => Resolution::Extract {
            asset: String::from_str("pdf_processor.py"),
            fallback: String::from_str("src-tauri/resources/pdf_processor.py"),
        },
    }
}

/// When exactly one candidate exists, the search picks that one: never an
/// earlier or a later one.
pub proof fn lemma_only_existing_candidate_wins(exists: Seq<bool>, limit: int, n: int, i: int)
    requires
        0 <= n < limit,
        n < exists.len(),
        exists[n],
        forall|j: int| 0 <= j < exists.len() && j != n ==> !exists[j],
    ensures
        !none_exists(exists, limit),
        is_first_existing(exists, limit, i) <==> i == n,
{
}

} // verus!
