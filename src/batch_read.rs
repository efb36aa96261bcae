//! The batch file read tool: reads several files, or the files a glob
//! pattern matches, in one call, under a cap on the number of files and a
//! cap on the lines returned in total.
//!
//! What touches the file system (whether a path exists, what a pattern
//! matches, the lines of a file) is handed in by the caller; this module
//! decides what is read and what each file's entry reports.

use vstd::prelude::*;
use crate::config_types::Language;
use crate::i18n::{arg_views, interpolated, tr, tr_args, translated, Catalogs};
use crate::text::{contains_char, copy_strings, insert_sorted, push_char, strictly_sorted, views};
use crate::tools::{FunctionCallError, ToolKind};

verus! {

pub const DEFAULT_LIMIT: usize = 2000;
pub const DEFAULT_OFFSET: usize = 1;
/// Files read by one call at most.
pub const MAX_FILES: usize = 20;
/// Lines returned by one call at most.
pub const MAX_TOTAL_LINES: usize = 50000;

/// The batch file read tool.
pub struct BatchesReadFileHandler;

/// How a file is read: a plain slice of lines, or an indentation block.
#[derive(Debug, Clone, Copy, PartialEq, Eq, Structural, Default)]
pub enum ReadMode {
    #[default]
    Slice,
    Indentation,
}

/// Options of an indentation-block read.
#[derive(Debug, Clone, Copy, PartialEq, Eq, Structural, Default)]
pub struct IndentationArgs {
    pub anchor_line: Option<usize>,
    pub max_levels: usize,
    pub include_siblings: bool,
    pub include_header: bool,
    pub max_lines: Option<usize>,
}

/// One requested path, with options that override the call's defaults.
#[derive(Debug, Clone, PartialEq, Eq)]
pub struct PathSpec {
    pub path: String,
    pub offset: Option<usize>,
    pub limit: Option<usize>,
    pub mode: Option<ReadMode>,
    pub indentation: Option<IndentationArgs>,
}

/// The arguments of one call.
#[derive(Debug, Clone, PartialEq, Eq)]
pub struct BatchesReadFileArgs {
    pub paths: Vec<PathSpec>,
    pub offset: Option<usize>,
    pub limit: Option<usize>,
    pub mode: Option<ReadMode>,
    pub indentation: Option<IndentationArgs>,
}

/// How one file is read: from line `offset` (1-based), at most `limit` lines.
#[derive(Debug, Clone, Copy, PartialEq, Eq, Structural)]
pub struct ReadOptions {
    pub offset: usize,
    pub limit: usize,
    pub mode: ReadMode,
    pub indentation: IndentationArgs,
}

/// A file to read.
#[derive(Debug, Clone, PartialEq, Eq)]
pub struct ResolvedFile {
    pub path: String,
    pub options: ReadOptions,
}

/// Why a requested path yields no read.
#[derive(Debug, Clone, PartialEq, Eq)]
pub enum PathError {
    NotFound { path: String },
    NotFile { path: String },
    NoMatches { pattern: String },
    InvalidPattern { pattern: String },
    InvalidOffset { path: String },
    InvalidLimit { path: String },
    FileLimitExceeded { path: String },
    TotalLineLimitExceeded { path: String },
}

/// What a requested path resolved to.
#[derive(Debug, Clone, PartialEq, Eq)]
pub enum PathResolution {
    File(ResolvedFile),
    Error(PathError),
}

/// The report of one file.
#[derive(Debug, Clone, PartialEq, Eq)]
pub struct BatchesReadFileEntry {
    pub path: String,
    pub success: bool,
    pub lines: Vec<String>,
    pub error: Option<String>,
}

/// The report of one call.
#[derive(Debug, Clone, PartialEq, Eq)]
pub struct BatchesReadFileOutput {
    pub total_lines: usize,
    pub files: Vec<BatchesReadFileEntry>,
}

impl ReadOptions {
    /// Line 1 on, 2000 lines, as a plain slice.
    pub fn default_options() -> (r: ReadOptions)
        ensures
            r.offset == DEFAULT_OFFSET,
            r.limit == DEFAULT_LIMIT,
            r.mode == ReadMode::Slice,
            r.indentation == IndentationArgs::spec_default(),
    {
        ReadOptions {
            offset: DEFAULT_OFFSET,
            limit: DEFAULT_LIMIT,
            mode: ReadMode::Slice,
            indentation: IndentationArgs::new_default(),
        }
    }
}

impl Default for ReadOptions {
    fn default() -> (r: ReadOptions)
        ensures
            r.offset == DEFAULT_OFFSET,
            r.limit == DEFAULT_LIMIT,
            r.mode == ReadMode::Slice,
            r.indentation == IndentationArgs::spec_default(),
    {
        ReadOptions::default_options()
    }
}

impl BatchesReadFileHandler {
    /// The tool takes function payloads.
    pub fn kind(&self) -> (r: ToolKind)
        ensures
            r == ToolKind::Function,
    {
        ToolKind::Function
    }
}

impl IndentationArgs {
    pub open spec fn spec_default() -> IndentationArgs {
        IndentationArgs {
            anchor_line: None,
            max_levels: 0,
            include_siblings: false,
            include_header: true,
            max_lines: None,
        }
    }

    /// Indentation options with nothing set but the header.
    pub fn new_default() -> (r: IndentationArgs)
        ensures
            r == IndentationArgs::spec_default(),
    {
        IndentationArgs {
            anchor_line: None,
            max_levels: 0,
            include_siblings: false,
            include_header: true,
            max_lines: None,
        }
    }
}

/// The call's defaults with the spec's own options laid over them.
pub open spec fn merged(d: ReadOptions, s: PathSpec) -> ReadOptions {
    ReadOptions {
        offset: match s.offset {
            Some(o) => o,
            None => d.offset,
        },
        limit: match s.limit {
            Some(l) => l,
            None => d.limit,
        },
        mode: match s.mode {
            Some(m) => m,
            None => d.mode,
        },
        indentation: match s.indentation {
            Some(i) => i,
            None => d.indentation,
        },
    }
}

/// Lays a path spec's own options over the call's defaults.
pub fn merge_options(defaults: &ReadOptions, spec: &PathSpec) -> (r: ReadOptions)
    ensures
        r == merged(*defaults, *spec),
{
    let mut m = *defaults;
    if let Some(offset) = spec.offset {
        m.offset = offset;
    }
    if let Some(limit) = spec.limit {
        m.limit = limit;
    }
    if let Some(mode) = spec.mode {
        m.mode = mode;
    }
    if let Some(indentation) = spec.indentation {
        m.indentation = indentation;
    }
    m
}

/// Whether a path is a glob pattern: it holds `*`, `?` or `[`.
pub open spec fn is_pattern(p: Seq<char>) -> bool {
    p.contains('*') || p.contains('?') || p.contains('[')
}

pub fn contains_glob_chars(value: &str) -> (r: bool)
    ensures
        r == is_pattern(value@),
{
    contains_char(value, '*') || contains_char(value, '?') || contains_char(value, '[')
}

/// `p` taken relative to `cwd`, as `Path::join` does on Unix: an absolute
/// `p` stands alone, else a separator goes between the two where `cwd`
/// does not end in one.
pub open spec fn joined(cwd: Seq<char>, p: Seq<char>) -> Seq<char> {
    if p.len() > 0 && p[0] == '/' {
        p
    } else if cwd.len() == 0 {
        p
    } else if cwd.last() == '/' {
        cwd + p
    } else {
        cwd + seq!['/'] + p
    }
}

fn join_path(cwd: &str, raw: &str) -> (r: String)
    ensures
        r@ == joined(cwd@, raw@),
{
    let n = cwd.unicode_len();
    if raw.unicode_len() > 0 && raw.get_char(0) == '/' {
        return String::from_str(raw);
    }
    if n == 0 {
        return String::from_str(raw);
    }
    let mut r = String::from_str(cwd);
    if cwd.get_char(n - 1) != '/' {
        push_char(&mut r, '/');
    }
    r.append(raw);
    r
}

/// The file a plain path names.
pub fn resolve_path(cwd: &str, raw_path: &str) -> (r: String)
    ensures
        r@ == joined(cwd@, raw_path@),
{
    join_path(cwd, raw_path)
}

/// The pattern a glob path stands for.
pub fn resolve_pattern(cwd: &str, pattern: &str) -> (r: String)
    ensures
        r@ == joined(cwd@, pattern@),
{
    join_path(cwd, pattern)
}

/// The path or pattern an error reports.
pub open spec fn error_text(e: PathError) -> Seq<char> {
    match e {
        PathError::NotFound { path } => path@,
        PathError::NotFile { path } => path@,
        PathError::InvalidOffset { path } => path@,
        PathError::InvalidLimit { path } => path@,
        PathError::FileLimitExceeded { path } => path@,
        PathError::TotalLineLimitExceeded { path } => path@,
        PathError::NoMatches { pattern } => pattern@,
        PathError::InvalidPattern { pattern } => pattern@,
    }
}

pub fn error_path(error: &PathError) -> (r: String)
    ensures
        r@ == error_text(*error),
{
    match error {
        PathError::NotFound { path }
        | PathError::NotFile { path }
        | PathError::InvalidOffset { path }
        | PathError::InvalidLimit { path }
        | PathError::FileLimitExceeded { path }
        | PathError::TotalLineLimitExceeded { path } => path.clone(),
        PathError::NoMatches { pattern } | PathError::InvalidPattern { pattern } => pattern.clone(),
    }
}

/// The catalog key of an error's message and the name of its argument.
pub open spec fn error_key(e: PathError) -> (Seq<char>, Seq<char>) {
    match e {
        PathError::NotFound { .. } => ("batches_read_file.error.file_not_found"@, "path"@),
        PathError::NotFile { .. } => ("batches_read_file.error.not_file"@, "path"@),
        PathError::NoMatches { .. } => ("batches_read_file.error.no_matches"@, "pattern"@),
        PathError::InvalidPattern { .. } => ("batches_read_file.error.invalid_pattern"@, "pattern"@),
        PathError::InvalidOffset { .. } => ("batches_read_file.error.file_invalid_offset"@, "path"@),
        PathError::InvalidLimit { .. } => ("batches_read_file.error.file_invalid_limit"@, "path"@),
        PathError::FileLimitExceeded { .. } => ("batches_read_file.error.file_limit_exceeded"@, "path"@),
        PathError::TotalLineLimitExceeded { .. } => ("batches_read_file.error.total_line_limit"@, "path"@),
    }
}

/// The message of an error: its catalog text with its path filled in.
pub open spec fn error_message(c: Catalogs, language: Language, e: PathError) -> Seq<char> {
    interpolated(
        translated(c, language, error_key(e).0),
        seq![(error_key(e).1, error_text(e))],
        0,
    )
}

fn message_with(catalogs: &Catalogs, language: Language, key: &str, name: &str, value: &str) -> (r:
    String)
    ensures
        r@ == interpolated(translated(*catalogs, language, key@), seq![(name@, value@)], 0),
{
    let args = [(name, value)];
    let r = tr_args(catalogs, language, key, &args);
    assert(arg_views(args@) =~= seq![(name@, value@)]);
    r
}

/// The message reported for an error, in the given language.
pub fn path_error_message(catalogs: &Catalogs, language: Language, error: &PathError) -> (r: String)
    ensures
        r@ == error_message(*catalogs, language, *error),
{
    match error {
        PathError::NotFound { path } => message_with(catalogs, language, "batches_read_file.error.file_not_found", "path", path.as_str()),
        PathError::NotFile { path } => message_with(catalogs, language, "batches_read_file.error.not_file", "path", path.as_str()),
        PathError::NoMatches { pattern } => message_with(catalogs, language, "batches_read_file.error.no_matches", "pattern", pattern.as_str()),
        PathError::InvalidPattern { pattern } => message_with(catalogs, language, "batches_read_file.error.invalid_pattern", "pattern", pattern.as_str()),
        PathError::InvalidOffset { path } => message_with(catalogs, language, "batches_read_file.error.file_invalid_offset", "path", path.as_str()),
        PathError::InvalidLimit { path } => message_with(catalogs, language, "batches_read_file.error.file_invalid_limit", "path", path.as_str()),
        PathError::FileLimitExceeded { path } => message_with(catalogs, language, "batches_read_file.error.file_limit_exceeded", "path", path.as_str()),
        PathError::TotalLineLimitExceeded { path } => message_with(catalogs, language, "batches_read_file.error.total_line_limit", "path", path.as_str()),
    }
}

/// The entry of a path that yields no read.
pub fn error_entry(path: String, message: String) -> (r: BatchesReadFileEntry)
    ensures
        r.path == path,
        !r.success,
        r.lines@ == Seq::<String>::empty(),
        r.error == Some(message),
{
    let r = BatchesReadFileEntry { path, success: false, lines: Vec::new(), error: Some(message) };
    assert(r.lines@ =~= Seq::<String>::empty());
    r
}

/// How many resolutions before index `i` are files.
pub open spec fn files_before(s: Seq<PathResolution>, i: int) -> nat
    decreases i,
{
    if i <= 0 {
        0
    } else {
        files_before(s, i - 1) + if s[i - 1] is File {
            1nat
        } else {
            0nat
        }
    }
}

/// `out` is `s` with every file past the first `MAX_FILES` turned into a
/// file-limit error.
pub open spec fn file_limited(s: Seq<PathResolution>, out: Seq<PathResolution>) -> bool {
    &&& out.len() == s.len()
    &&& forall|i: int|
        0 <= i < s.len() ==> if s[i] is File && files_before(s, i) >= MAX_FILES {
            #[trigger] out[i] is Error && out[i]->Error_0 is FileLimitExceeded
                && out[i]->Error_0->FileLimitExceeded_path@ == s[i]->File_0.path@
        } else {
            out[i] == s[i]
        }
}

/// Turns every file past the first `MAX_FILES` into a file-limit error.
pub fn apply_file_limit(entries: &mut Vec<PathResolution>)
    ensures
        file_limited(old(entries)@, final(entries)@),
{
    let ghost s = entries@;
    let mut file_count: usize = 0;
    let mut i: usize = 0;
    while i < entries.len()
        invariant
            entries@.len() == s.len(),
            i <= s.len(),
            file_count as nat == if files_before(s, i as int) >= MAX_FILES {
                MAX_FILES as nat
            } else {
                files_before(s, i as int)
            },
            forall|k: int| i <= k < s.len() ==> entries@[k] == s[k],
            forall|k: int|
                0 <= k < i ==> if s[k] is File && files_before(s, k) >= MAX_FILES {
                    #[trigger] entries@[k] is Error && entries@[k]->Error_0 is FileLimitExceeded
                        && entries@[k]->Error_0->FileLimitExceeded_path@ == s[k]->File_0.path@
                } else {
                    entries@[k] == s[k]
                },
        decreases s.len() - i,
    {
        let replace = match &entries[i] {
            PathResolution::File(f) => {
                if file_count < MAX_FILES {
                    file_count = file_count + 1;
                    None
                } else {
                    Some(f.path.clone())
                }
            },
            PathResolution::Error(_) => None,
        };
        if let Some(path) = replace {
            entries.set(i, PathResolution::Error(PathError::FileLimitExceeded { path }));
        }
        i = i + 1;
    }
}


/// What the file system says of a requested path: for a plain path whether
/// it is missing, something other than a file, or a file; for a pattern
/// whether it is malformed or which files it matches.
#[derive(Debug, Clone, PartialEq, Eq)]
pub enum PathProbe {
    Missing,
    NotFile,
    File,
    InvalidPattern,
    Matches(Vec<String>),
}

/// What the caller must probe for a spec: the pattern to expand or the
/// path to look at, both taken relative to `cwd`.
pub fn probe_target(cwd: &str, spec: &PathSpec) -> (r: (bool, String))
    ensures
        r.0 == is_pattern(spec.path@),
        r.1@ == joined(cwd@, spec.path@),
{
    if contains_glob_chars(spec.path.as_str()) {
        (true, resolve_pattern(cwd, spec.path.as_str()))
    } else {
        (false, resolve_path(cwd, spec.path.as_str()))
    }
}

/// `out` reads the files whose paths `v` holds, once each in ascending
/// path order, all with options `m`.
pub open spec fn sorted_files(out: Seq<PathResolution>, m: ReadOptions, v: Seq<Seq<char>>) -> bool {
    &&& forall|i: int| 0 <= i < out.len() ==> #[trigger] out[i] is File && out[i]->File_0.options == m
    &&& strictly_sorted(out.map_values(|r: PathResolution| r->File_0.path@), true)
    &&& forall|k: Seq<char>|
        out.map_values(|r: PathResolution| r->File_0.path@).contains(k) <==> v.contains(k)
}

/// What one spec resolves to, given what the file system said of it.
pub open spec fn chunk_ok(
    cwd: Seq<char>,
    d: ReadOptions,
    s: PathSpec,
    probe: PathProbe,
    out: Seq<PathResolution>,
) -> bool {
    let m = merged(d, s);
    if m.offset == 0 {
        out == seq![PathResolution::Error(PathError::InvalidOffset { path: s.path })]
    } else if m.limit == 0 {
        out == seq![PathResolution::Error(PathError::InvalidLimit { path: s.path })]
    } else if is_pattern(s.path@) {
        match probe {
            PathProbe::Matches(v) => if v@.len() == 0 {
                out == seq![PathResolution::Error(PathError::NoMatches { pattern: s.path })]
            } else {
                sorted_files(out, m, views(v@))
            },
            _ => out == seq![PathResolution::Error(PathError::InvalidPattern { pattern: s.path })],
        }
    } else {
        match probe {
            PathProbe::File => out.len() == 1 && out[0] is File && out[0]->File_0.path@ == joined(
                cwd,
                s.path@,
            ) && out[0]->File_0.options == m,
            PathProbe::NotFile => out == seq![PathResolution::Error(PathError::NotFile { path: s.path })],
            _ => out == seq![PathResolution::Error(PathError::NotFound { path: s.path })],
        }
    }
}

/// The resolutions of several specs, one after the other.
pub open spec fn concat_chunks(c: Seq<Seq<PathResolution>>) -> Seq<PathResolution>
    decreases c.len(),
{
    if c.len() == 0 {
        Seq::empty()
    } else {
        concat_chunks(c.drop_last()) + c.last()
    }
}

/// `chunks` holds what each spec resolves to.
pub open spec fn expanded_by(
    cwd: Seq<char>,
    d: ReadOptions,
    specs: Seq<PathSpec>,
    probes: Seq<PathProbe>,
    chunks: Seq<Seq<PathResolution>>,
) -> bool {
    &&& chunks.len() == specs.len()
    &&& forall|i: int|
        0 <= i < chunks.len() ==> chunk_ok(cwd, d, specs[i], probes[i], #[trigger] chunks[i])
}

fn one_error(e: PathError) -> (r: Vec<PathResolution>)
    ensures
        r@ == seq![PathResolution::Error(e)],
{
    let r = vec![PathResolution::Error(e)];
    assert(r@ =~= seq![PathResolution::Error(e)]);
    r
}

/// Resolves one spec.
pub fn expand_one(cwd: &str, defaults: &ReadOptions, spec: &PathSpec, probe: &PathProbe) -> (r: Vec<
    PathResolution,
>)
    ensures
        chunk_ok(cwd@, *defaults, *spec, *probe, r@),
{
    let m = merge_options(defaults, spec);
    if m.offset == 0 {
        return one_error(PathError::InvalidOffset { path: spec.path.clone() });
    }
    if m.limit == 0 {
        return one_error(PathError::InvalidLimit { path: spec.path.clone() });
    }
    if contains_glob_chars(spec.path.as_str()) {
        match probe {
            PathProbe::Matches(v) => {
                if v.len() == 0 {
                    return one_error(PathError::NoMatches { pattern: spec.path.clone() });
                }
                let mut files: Vec<String> = Vec::new();
                let mut j: usize = 0;
                while j < v.len()
                    invariant
                        j <= v.len(),
                        strictly_sorted(views(files@), true),
                        forall|k: Seq<char>|
                            views(files@).contains(k) <==> views(v@.subrange(0, j as int)).contains(k),
                    decreases v.len() - j,
                {
                    let ghost before = views(files@);
                    insert_sorted(&mut files, v[j].clone(), true);
                    assert forall|k: Seq<char>|
                        views(files@).contains(k) <==> views(v@.subrange(0, j as int + 1)).contains(k) by {
                        let a = views(v@.subrange(0, j as int));
                        let b = views(v@.subrange(0, j as int + 1));
                        assert(b =~= a.push(v@[j as int]@));
                        if a.contains(k) {
                            let t = choose|t: int| 0 <= t < a.len() && a[t] == k;
                            assert(b[t] == k);
                        }
                        if b.contains(k) {
                            let t = choose|t: int| 0 <= t < b.len() && b[t] == k;
                            if t < a.len() {
                                assert(a[t] == k);
                            }
                        }
                        if k == v@[j as int]@ {
                            assert(b[j as int] == k);
                        }
                    }
                    j = j + 1;
                }
                assert(v@.subrange(0, v@.len() as int) =~= v@);
                let mut out: Vec<PathResolution> = Vec::new();
                let mut t: usize = 0;
                while t < files.len()
                    invariant
                        t <= files.len(),
                        out@.len() == t,
                        forall|i: int|
                            0 <= i < t ==> #[trigger] out@[i] is File && out@[i]->File_0.options == m
                                && out@[i]->File_0.path@ == files@[i]@,
                    decreases files.len() - t,
                {
                    out.push(PathResolution::File(ResolvedFile { path: files[t].clone(), options: m }));
                    t = t + 1;
                }
                assert(out@.map_values(|r: PathResolution| r->File_0.path@) =~= views(files@));
                out
            },
            _ => one_error(PathError::InvalidPattern { pattern: spec.path.clone() }),
        }
    } else {
        match probe {
            PathProbe::File => {
                let r = vec![
                    PathResolution::File(
                        ResolvedFile { path: resolve_path(cwd, spec.path.as_str()), options: m },
                    ),
                ];
                r
            },
            PathProbe::NotFile => one_error(PathError::NotFile { path: spec.path.clone() }),
            _ => one_error(PathError::NotFound { path: spec.path.clone() }),
        }
    }
}

/// Resolves every spec, given what the file system said of each, then
/// turns the files past the first `MAX_FILES` into file-limit errors.
pub fn expand_path_specs(
    cwd: &str,
    defaults: &ReadOptions,
    specs: &Vec<PathSpec>,
    probes: &Vec<PathProbe>,
) -> (r: Vec<PathResolution>)
    requires
        probes@.len() == specs@.len(),
    ensures
        exists|chunks: Seq<Seq<PathResolution>>|
            #[trigger] expanded_by(cwd@, *defaults, specs@, probes@, chunks) && file_limited(
                concat_chunks(chunks),
                r@,
            ),
{
    let mut out: Vec<PathResolution> = Vec::new();
    let mut i: usize = 0;
    let ghost mut chunks: Seq<Seq<PathResolution>> = Seq::empty();
    while i < specs.len()
        invariant
            i <= specs@.len(),
            probes@.len() == specs@.len(),
            chunks.len() == i,
            forall|k: int|
                0 <= k < i ==> chunk_ok(cwd@, *defaults, specs@[k], probes@[k], #[trigger] chunks[k]),
            out@ == concat_chunks(chunks),
        decreases specs.len() - i,
    {
        let mut chunk = expand_one(cwd, defaults, &specs[i], &probes[i]);
        let ghost c = chunk@;
        out.append(&mut chunk);
        proof {
            let next = chunks.push(c);
            assert(next.drop_last() =~= chunks);
            chunks = next;
        }
        i = i + 1;
    }
    let ghost pre = out@;
    apply_file_limit(&mut out);
    assert(expanded_by(cwd@, *defaults, specs@, probes@, chunks));
    out
}


/// A read the caller performs: `limit` lines of `path` from line `offset`,
/// where the file itself asked for `requested_limit`.
#[derive(Debug, Clone, PartialEq, Eq)]
pub struct ReadRequest {
    pub path: String,
    pub offset: usize,
    pub limit: usize,
    pub requested_limit: usize,
    pub mode: ReadMode,
    pub indentation: IndentationArgs,
}

/// Whether `e` reports `path` with the given outcome.
pub open spec fn entry_is(
    e: BatchesReadFileEntry,
    path: Seq<char>,
    success: bool,
    lines: Seq<String>,
    error: Option<Seq<char>>,
) -> bool {
    &&& e.path@ == path
    &&& e.success == success
    &&& e.lines@ == lines
    &&& match error {
        Some(m) => e.error is Some && e.error->Some_0@ == m,
        None => e.error is None,
    }
}

/// The reads of one call, under a cap on the lines returned in total.
pub struct BatchReader {
    pub total_line_limit: usize,
    pub total_lines: usize,
    pub files: Vec<BatchesReadFileEntry>,
}

impl BatchReader {
    /// No more lines are handed out than the cap allows.
    pub open spec fn wf(&self) -> bool {
        self.total_lines <= self.total_line_limit
    }

    pub fn new(total_line_limit: usize) -> (r: BatchReader)
        ensures
            r.wf(),
            r.total_line_limit == total_line_limit,
            r.total_lines == 0,
            r.files@.len() == 0,
    {
        BatchReader { total_line_limit, total_lines: 0, files: Vec::new() }
    }

    /// Takes the next resolution. An error, and a file for which no line
    /// of the budget is left, get their entry at once; for any other file
    /// the read to perform comes back, cut to the lines left.
    pub fn plan(&mut self, catalogs: &Catalogs, language: Language, resolution: &PathResolution) -> (r:
        Option<ReadRequest>)
        requires
            old(self).wf(),
        ensures
            final(self).wf(),
            final(self).total_line_limit == old(self).total_line_limit,
            final(self).total_lines == old(self).total_lines,
            match *resolution {
                PathResolution::Error(e) => r is None && final(self).files@.len() == old(
                    self,
                ).files@.len() + 1 && final(self).files@.drop_last() == old(self).files@
                    && entry_is(
                    final(self).files@.last(),
                    error_text(e),
                    false,
                    Seq::empty(),
                    Some(error_message(*catalogs, language, e)),
                ),
                PathResolution::File(f) => if old(self).total_lines == old(self).total_line_limit {
                    r is None && final(self).files@.len() == old(self).files@.len() + 1
                        && final(self).files@.drop_last() == old(self).files@ && entry_is(
                        final(self).files@.last(),
                        f.path@,
                        false,
                        Seq::empty(),
                        Some(
                            error_message(
                                *catalogs,
                                language,
                                PathError::TotalLineLimitExceeded { path: f.path },
                            ),
                        ),
                    )
                } else {
                    &&& final(self).files@ == old(self).files@
                    &&& r is Some
                    &&& r->Some_0.path@ == f.path@
                    &&& r->Some_0.offset == f.options.offset
                    &&& r->Some_0.requested_limit == f.options.limit
                    &&& r->Some_0.limit == if f.options.limit < old(self).total_line_limit - old(
                        self,
                    ).total_lines {
                        f.options.limit as int
                    } else {
                        old(self).total_line_limit - old(self).total_lines
                    }
                    &&& r->Some_0.mode == f.options.mode
                    &&& r->Some_0.indentation == f.options.indentation
                },
            },
    {
        match resolution {
            PathResolution::Error(error) => {
                let entry = error_entry(error_path(error), path_error_message(catalogs, language, error));
                self.files.push(entry);
                assert(self.files@.drop_last() =~= old(self).files@);
                None
            },
            PathResolution::File(f) => {
                let remaining = self.total_line_limit - self.total_lines;
                if remaining == 0 {
                    let error = PathError::TotalLineLimitExceeded { path: f.path.clone() };
                    let entry = error_entry(error_path(&error), path_error_message(catalogs, language, &error));
                    self.files.push(entry);
                    assert(self.files@.drop_last() =~= old(self).files@);
                    return None;
                }
                let limit = if f.options.limit < remaining {
                    f.options.limit
                } else {
                    remaining
                };
                Some(ReadRequest {
                    path: f.path.clone(),
                    offset: f.options.offset,
                    limit,
                    requested_limit: f.options.limit,
                    mode: f.options.mode,
                    indentation: f.options.indentation,
                })
            },
        }
    }

    /// Records what a planned read gave. A read cut short by the budget
    /// that used all lines it was given, and so reached the cap, reports
    /// a total-line-limit error beside its lines.
    pub fn record(
        &mut self,
        catalogs: &Catalogs,
        language: Language,
        request: &ReadRequest,
        result: Result<Vec<String>, String>,
    )
        requires
            old(self).wf(),
            request.limit <= old(self).total_line_limit - old(self).total_lines,
            result is Ok ==> result->Ok_0@.len() <= request.limit,
        ensures
            final(self).wf(),
            final(self).total_line_limit == old(self).total_line_limit,
            final(self).files@.len() == old(self).files@.len() + 1,
            final(self).files@.drop_last() == old(self).files@,
            match result {
                Ok(lines) => {
                    let total = old(self).total_lines + lines@.len();
                    let cut = request.limit < request.requested_limit && lines@.len()
                        == request.limit && total >= old(self).total_line_limit;
                    &&& final(self).total_lines == total
                    &&& entry_is(
                        final(self).files@.last(),
                        request.path@,
                        !cut,
                        lines@,
                        if cut {
                            Some(
                                error_message(
                                    *catalogs,
                                    language,
                                    PathError::TotalLineLimitExceeded { path: request.path },
                                ),
                            )
                        } else {
                            None
                        },
                    )
                },
                Err(m) => {
                    &&& final(self).total_lines == old(self).total_lines
                    &&& entry_is(final(self).files@.last(), request.path@, false, Seq::empty(), Some(m@))
                },
            },
    {
        match result {
            Ok(lines) => {
                let new_total = self.total_lines + lines.len();
                let mut error: Option<String> = None;
                let cut = request.limit < request.requested_limit && lines.len() == request.limit
                    && new_total >= self.total_line_limit;
                if cut {
                    error = Some(
                        path_error_message(
                            catalogs,
                            language,
                            &PathError::TotalLineLimitExceeded { path: request.path.clone() },
                        ),
                    );
                }
                self.total_lines = new_total;
                let success = !cut;
                self.files.push(BatchesReadFileEntry { path: request.path.clone(), success, lines, error });
            },
            Err(m) => {
                self.files.push(error_entry(request.path.clone(), m));
            },
        }
        assert(self.files@.drop_last() =~= old(self).files@);
    }

    /// The report of the call.
    pub fn finish(self) -> (r: BatchesReadFileOutput)
        ensures
            r.total_lines == self.total_lines,
            r.files@ == self.files@,
    {
        BatchesReadFileOutput { total_lines: self.total_lines, files: self.files }
    }
}

/// Whether every file of the report was read in full.
pub fn all_succeeded(output: &BatchesReadFileOutput) -> (r: bool)
    ensures
        r == forall|i: int| 0 <= i < output.files@.len() ==> #[trigger] output.files@[i].success,
{
    let mut i: usize = 0;
    while i < output.files.len()
        invariant
            i <= output.files@.len(),
            forall|k: int| 0 <= k < i ==> #[trigger] output.files@[k].success,
        decreases output.files.len() - i,
    {
        if !output.files[i].success {
            return false;
        }
        i = i + 1;
    }
    true
}

/// The text of a catalog key, as an error answered to the model.
fn respond(catalogs: &Catalogs, language: Language, key: &str) -> (r: FunctionCallError)
    ensures
        r == FunctionCallError::RespondToModel(r->RespondToModel_0),
        r->RespondToModel_0@ == translated(*catalogs, language, key@),
{
    FunctionCallError::RespondToModel(tr(catalogs, language, key))
}

/// The options a call's arguments set for every path: at least one path,
/// and offset and limit, where given, above zero.
pub fn validate_batch_args(catalogs: &Catalogs, language: Language, args: &BatchesReadFileArgs) -> (r:
    Result<ReadOptions, FunctionCallError>)
    ensures
        args.paths@.len() == 0 ==> r is Err && r->Err_0->RespondToModel_0@ == translated(
            *catalogs,
            language,
            "batches_read_file.error.empty_paths"@,
        ),
        args.paths@.len() > 0 && args.offset == Some(0usize) ==> r is Err
            && r->Err_0->RespondToModel_0@ == translated(
            *catalogs,
            language,
            "batches_read_file.error.invalid_offset"@,
        ),
        args.paths@.len() > 0 && args.offset != Some(0usize) && args.limit == Some(0usize) ==> r is Err
            && r->Err_0->RespondToModel_0@ == translated(
            *catalogs,
            language,
            "batches_read_file.error.invalid_limit"@,
        ),
        r is Err ==> r->Err_0 is RespondToModel,
        args.paths@.len() > 0 && args.offset != Some(0usize) && args.limit != Some(0usize) ==> r
            == Ok::<ReadOptions, FunctionCallError>(
            ReadOptions {
                offset: match args.offset {
                    Some(o) => o,
                    None => DEFAULT_OFFSET,
                },
                limit: match args.limit {
                    Some(l) => l,
                    None => DEFAULT_LIMIT,
                },
                mode: match args.mode {
                    Some(m) => m,
                    None => ReadMode::Slice,
                },
                indentation: match args.indentation {
                    Some(i) => i,
                    None => IndentationArgs::spec_default(),
                },
            },
        ),
{
    if args.paths.len() == 0 {
        return Err(respond(catalogs, language, "batches_read_file.error.empty_paths"));
    }
    let offset = match args.offset {
        Some(o) => o,
        None => DEFAULT_OFFSET,
    };
    if offset == 0 {
        return Err(respond(catalogs, language, "batches_read_file.error.invalid_offset"));
    }
    let limit = match args.limit {
        Some(l) => l,
        None => DEFAULT_LIMIT,
    };
    if limit == 0 {
        return Err(respond(catalogs, language, "batches_read_file.error.invalid_limit"));
    }
    let mode = match args.mode {
        Some(m) => m,
        None => ReadMode::Slice,
    };
    let indentation = match args.indentation {
        Some(i) => i,
        None => IndentationArgs::new_default(),
    };
    Ok(ReadOptions { offset, limit, mode, indentation })
}

/// The error answered to a call whose payload is not a function call.
pub fn unsupported_payload_error(catalogs: &Catalogs, language: Language) -> (r: FunctionCallError)
    ensures
        r is RespondToModel,
        r->RespondToModel_0@ == translated(
            *catalogs,
            language,
            "batches_read_file.error.unsupported_payload"@,
        ),
{
    respond(catalogs, language, "batches_read_file.error.unsupported_payload")
}

} // verus!
