//! Extraction of bundled assets into the application's temporary directory.
//!
//! Whether a target is on disk is itself the cache: a target that exists is
//! never written again. The host performs the steps planned here.
use vstd::prelude::*;

verus! {

/// The catalog key of a requested path: every `\` becomes `/`.
pub open spec fn asset_key_spec(path: Seq<char>) -> Seq<char> {
    Seq::new(path.len(), |i: int| if path[i] == '\\' { '/' } else { path[i] })
}

/// A requested path names a directory when it ends in a separator.
pub open spec fn names_directory(path: Seq<char>) -> bool {
    path.len() > 0 && (path.last() == '/' || path.last() == '\\')
}

/// What extracting one asset does.
#[derive(Debug, Clone, Copy, PartialEq, Eq, Structural)]
pub enum ExtractStep {
    /// The target is already on disk: it is returned as it is.
    Reuse,
    /// Create the target as a directory tree.
    MakeDir,
    /// Create the target's parent directories as needed, then write the
    /// asset's bytes to it.
    WriteFile,
    /// The catalog has no such asset.
    Missing,
}

pub open spec fn extraction_step(path: Seq<char>, target_exists: bool, in_catalog: bool) -> ExtractStep {
    if target_exists {
        ExtractStep::Reuse
    } else if !in_catalog {
        ExtractStep::Missing
    } else if names_directory(path) {
        ExtractStep::MakeDir
    } else {
        ExtractStep::WriteFile
    }
}

/// Maps `\` to `/` in a requested path, giving the key under which the
/// catalog holds it.
pub fn asset_key(path: &str) -> (r: String)
    ensures
        r@ == asset_key_spec(path@),
{
    let n = path.unicode_len();
    let mut r = String::new();
    let mut i: usize = 0;
    while i < n
        invariant
            n == path@.len(),
            i <= n,
            r@ =~= asset_key_spec(path@).take(i as int),
        decreases n - i,
    {
        let c = path.get_char(i);
        if c == '\\' {
            r.append("/");
            proof {
                reveal_strlit("/");
            }
        } else {
            r.append(path.substring_char(i, i + 1));
        }
        i = i + 1;
        assert(r@ =~= asset_key_spec(path@).take(i as int));
    }
    r
}

/// Decides one extraction. `target_exists` says whether the target is on
/// disk; `in_catalog` whether the catalog holds `asset_key(path)`, which is
/// consulted only when the target is absent.
pub fn plan_extraction(path: &str, target_exists: bool, in_catalog: bool) -> (r: ExtractStep)
    ensures
        r == extraction_step(path@, target_exists, in_catalog),
{
    if target_exists {
        return ExtractStep::Reuse;
    }
    if !in_catalog {
        return ExtractStep::Missing;
    }
    let n = path.unicode_len();
    if n > 0 {
        let c = path.get_char(n - 1);
        if c == '/' || c == '\\' {
            return ExtractStep::MakeDir;
        }
    }
    ExtractStep::WriteFile
}

/// The part of the disk that extraction touches.
pub struct DiskModel {
    pub files: Map<Seq<char>, Seq<u8>>,
    pub dirs: Set<Seq<char>>,
}

impl DiskModel {
    pub open spec fn has(&self, target: Seq<char>) -> bool {
        self.files.contains_key(target) || self.dirs.contains(target)
    }

    /// The disk after `step` on `target`, with `content` the asset's bytes.
    pub open spec fn after(&self, target: Seq<char>, step: ExtractStep, content: Seq<u8>) -> DiskModel {
        match step {
            ExtractStep::MakeDir => DiskModel { files: self.files, dirs: self.dirs.insert(target) },
            ExtractStep::WriteFile => DiskModel {
                files: self.files.insert(target, content),
                dirs: self.dirs,
            },
            _ => *self,
        }
    }
}

pub open spec fn writes(step: ExtractStep) -> bool {
    step is MakeDir || step is WriteFile
}

/// Extracting the same asset twice: once the first extraction has succeeded,
/// the second finds its target, writes nothing, and leaves the disk exactly as
/// the first left it, whatever the catalog holds by then.
pub proof fn lemma_extraction_idempotent(
    disk: DiskModel,
    path: Seq<char>,
    target: Seq<char>,
    in_catalog: bool,
    content: Seq<u8>,
    in_catalog_again: bool,
    content_again: Seq<u8>,
)
    requires
        extraction_step(path, disk.has(target), in_catalog) != ExtractStep::Missing,
    ensures
        ({
            let first = disk.after(target, extraction_step(path, disk.has(target), in_catalog), content);
            let second = extraction_step(path, first.has(target), in_catalog_again);
            &&& second == ExtractStep::Reuse
            &&& !writes(second)
            &&& first.after(target, second, content_again) == first
        }),
{
    let first = disk.after(target, extraction_step(path, disk.has(target), in_catalog), content);
    assert(first.has(target));
}

/// Why an extraction failed; each `reason` is the system's own text.
#[derive(Debug, Clone)]
pub enum ExtractionError {
    /// The application's temporary directory could not be created.
    TempDir { reason: String },
    /// The catalog has no asset under this key.
    NotFound { asset: String },
    /// A directory target could not be created.
    CreateDir { reason: String },
    /// The parent directories of a file target could not be created.
    CreateParent { reason: String },
    /// The file could not be written.
    Write { reason: String },
}

impl ExtractionError {
    pub open spec fn message_spec(&self) -> Seq<char> {
        match self {
            ExtractionError::TempDir { reason } => "Failed to create temp dir: "@ + reason@,
            ExtractionError::NotFound { asset } => "Resource not found: "@ + asset@,
            ExtractionError::CreateDir { reason } => "Failed to create directory: "@ + reason@,
            ExtractionError::CreateParent { reason } => "Failed to create parent directory: "@
                + reason@,
            ExtractionError::Write { reason } => "Failed to write file: "@ + reason@,
        }
    }

    pub fn message(&self) -> (r: String)
        ensures
            r@ == self.message_spec(),
    {
        match self {
            ExtractionError::TempDir { reason } => {
                String::from_str("Failed to create temp dir: ").concat(reason.as_str())
            },
            ExtractionError::NotFound { asset } => {
                String::from_str("Resource not found: ").concat(asset.as_str())
            },
            ExtractionError::CreateDir { reason } => {
                String::from_str("Failed to create directory: ").concat(reason.as_str())
            },
            ExtractionError::CreateParent { reason } => {
                String::from_str("Failed to create parent directory: ").concat(reason.as_str())
            },
            ExtractionError::Write { reason } => {
                String::from_str("Failed to write file: ").concat(reason.as_str())
            },
        }
    }
}

/// `s` begins with `prefix`.
pub open spec fn has_prefix(s: Seq<char>, prefix: Seq<char>) -> bool {
    prefix.len() <= s.len() && s.subrange(0, prefix.len() as int) == prefix
}

/// A directory request as a key prefix: it ends in `/`.
pub open spec fn dir_prefix_spec(path: Seq<char>) -> Seq<char> {
    if path.len() > 0 && path.last() == '/' {
        path
    } else {
        path.push('/')
    }
}

pub open spec fn views(v: Seq<String>) -> Seq<Seq<char>> {
    v.map_values(|s: String| s@)
}

/// The keys of `keys` that begin with `prefix`, in their order.
pub open spec fn keys_under(keys: Seq<Seq<char>>, prefix: Seq<char>) -> Seq<Seq<char>>
    decreases keys.len(),
{
    if keys.len() == 0 {
        Seq::empty()
    } else {
        let rest = keys_under(keys.drop_last(), prefix);
        if has_prefix(keys.last(), prefix) {
            rest.push(keys.last())
        } else {
            rest
        }
    }
}

fn starts_with(s: &str, prefix: &str) -> (r: bool)
    ensures
        r == has_prefix(s@, prefix@),
{
    let n = s.unicode_len();
    let m = prefix.unicode_len();
    if m > n {
        return false;
    }
    let mut i: usize = 0;
    while i < m
        invariant
            n == s@.len(),
            m == prefix@.len(),
            m <= n,
            i <= m,
            forall|j: int| 0 <= j < i ==> s@[j] == prefix@[j],
        decreases m - i,
    {
        if s.get_char(i) != prefix.get_char(i) {
            assert(s@.subrange(0, m as int)[i as int] != prefix@[i as int]);
            return false;
        }
        i = i + 1;
    }
    assert(s@.subrange(0, m as int) =~= prefix@);
    true
}

/// The key prefix under which a directory's assets lie.
pub fn dir_prefix(path: &str) -> (r: String)
    ensures
        r@ == dir_prefix_spec(path@),
{
    let n = path.unicode_len();
    if n > 0 && path.get_char(n - 1) == '/' {
        String::from_str(path)
    } else {
        proof {
            reveal_strlit("/");
        }
        let r = String::from_str(path).concat("/");
        assert(r@ =~= dir_prefix_spec(path@));
        r
    }
}

/// The assets that extracting the directory `path` extracts, one by one and
/// in catalog order: every key of `catalog` under `dir_prefix(path)`. The
/// host stops at the first that fails and reports that failure.
pub fn extract_dir_to_temp(path: &str, catalog: &Vec<String>) -> (r: Vec<String>)
    ensures
        views(r@) == keys_under(views(catalog@), dir_prefix_spec(path@)),
{
    let prefix = dir_prefix(path);
    let mut r: Vec<String> = Vec::new();
    let mut i: usize = 0;
    while i < catalog.len()
        invariant
            i <= catalog@.len(),
            prefix@ == dir_prefix_spec(path@),
            views(r@) =~= keys_under(views(catalog@).take(i as int), prefix@),
        decreases catalog@.len() - i,
    {
        let key = &catalog[i];
        proof {
            assert(views(catalog@).take(i + 1).drop_last() =~= views(catalog@).take(i as int));
        }
        if starts_with(key.as_str(), prefix.as_str()) {
            r.push(key.clone());
        }
        i = i + 1;
        assert(views(r@) =~= keys_under(views(catalog@).take(i as int), prefix@));
    }
    assert(views(catalog@).take(i as int) =~= views(catalog@));
    r
}

/// What is extracted when the application starts.
#[derive(Debug, Clone)]
pub struct StartupPlan {
    /// The processing script, extracted first.
    pub script: String,
    /// The interpreter bundle's assets, extracted as `extract_dir_to_temp` says.
    pub interpreter_files: Vec<String>,
}

pub open spec fn script_asset() -> Seq<char> {
    "pdf_processor.py"@
}

pub open spec fn interpreter_dir() -> Seq<char> {
    "python/"@
}

/// The startup extraction: the script, then the whole interpreter bundle.
/// Failures there are not reported; they come up when a path is resolved.
pub fn init_embedded_resources(catalog: &Vec<String>) -> (r: StartupPlan)
    ensures
        r.script@ == script_asset(),
        views(r.interpreter_files@) == keys_under(
            views(catalog@),
            dir_prefix_spec(interpreter_dir()),
        ),
{
    let script = String::from_str("pdf_processor.py");
    let interpreter_files = extract_dir_to_temp("python/", catalog);
    StartupPlan { script, interpreter_files }
}

} // verus!
