use agent_core::batch_read::{
    all_succeeded, contains_glob_chars, expand_path_specs, resolve_path, validate_batch_args,
    BatchReader, BatchesReadFileArgs, BatchesReadFileEntry, BatchesReadFileOutput, PathError,
    PathProbe, PathResolution, PathSpec, ReadOptions, ResolvedFile, MAX_FILES,
};
use agent_core::config_types::Language;
use agent_core::i18n::{Catalog, CatalogNode, Catalogs};
use agent_core::tools::FunctionCallError;

const DIR: &str = "/tmp/batch";

fn spec(path: &str) -> PathSpec {
    PathSpec { path: path.to_string(), offset: None, limit: None, mode: None, indentation: None }
}

fn catalogs() -> Catalogs {
    let entries = vec![
        ("total_line_limit", "total line limit reached at ${path}"),
        ("no_matches", "no file matches ${pattern}"),
        ("file_not_found", "not found: ${path}"),
        ("empty_paths", "paths must not be empty"),
        ("invalid_offset", "offset must be at least 1"),
        ("invalid_limit", "limit must be at least 1"),
    ];
    let error = CatalogNode::Table(
        entries.into_iter().map(|(k, v)| (k.to_string(), CatalogNode::Text(v.to_string()))).collect(),
    );
    let doc = CatalogNode::Table(vec![(
        "batches_read_file".to_string(),
        CatalogNode::Table(vec![("error".to_string(), error)]),
    )]);
    Catalogs { en: Catalog::from_node(&doc).unwrap(), zh_cn: Catalog::new() }
}

fn read_all(
    c: &Catalogs,
    resolutions: &[PathResolution],
    cap: usize,
    contents: &[(&str, Vec<&str>)],
) -> BatchesReadFileOutput {
    let mut reader = BatchReader::new(cap);
    for resolution in resolutions {
        if let Some(request) = reader.plan(c, Language::En, resolution) {
            let lines = contents
                .iter()
                .find(|(p, _)| *p == request.path)
                .map(|(_, l)| l.clone())
                .unwrap_or_default();
            let numbered: Vec<String> = lines
                .iter()
                .enumerate()
                .skip(request.offset - 1)
                .take(request.limit)
                .map(|(i, l)| format!("L{}: {}", i + 1, l))
                .collect();
            reader.record(c, Language::En, &request, Ok(numbered));
        }
    }
    reader.finish()
}

#[test]
fn expands_relative_glob_sorted() {
    let specs = vec![spec("*.txt")];
    let probes = vec![PathProbe::Matches(vec![format!("{DIR}/b.txt"), format!("{DIR}/a.txt")])];
    let results = expand_path_specs(DIR, &ReadOptions::default_options(), &specs, &probes);
    let expected = vec![
        PathResolution::File(ResolvedFile {
            path: format!("{DIR}/a.txt"),
            options: ReadOptions::default_options(),
        }),
        PathResolution::File(ResolvedFile {
            path: format!("{DIR}/b.txt"),
            options: ReadOptions::default_options(),
        }),
    ];
    assert_eq!(results, expected);
}

#[test]
fn returns_no_matches_error() {
    let specs = vec![spec("missing-*.txt")];
    let probes = vec![PathProbe::Matches(vec![])];
    let results = expand_path_specs(DIR, &ReadOptions::default_options(), &specs, &probes);
    assert_eq!(
        results,
        vec![PathResolution::Error(PathError::NoMatches { pattern: "missing-*.txt".to_string() })]
    );
}

#[test]
fn file_limit_converts_extra_entries_to_errors() {
    let files: Vec<String> = (0..=20).map(|index| format!("{DIR}/file{index:02}.txt")).collect();
    let specs = vec![spec("*.txt")];
    let probes = vec![PathProbe::Matches(files)];
    let results = expand_path_specs(DIR, &ReadOptions::default_options(), &specs, &probes);
    assert_eq!(results.len(), 21);
    let (allowed, remainder) = results.split_at(20);
    assert!(allowed.iter().all(|entry| matches!(entry, PathResolution::File(_))));
    assert_eq!(remainder.len(), 1);
    assert!(matches!(
        remainder[0],
        PathResolution::Error(PathError::FileLimitExceeded { .. })
    ));
    assert_eq!(MAX_FILES, 20);
}

#[test]
fn reads_files_and_tracks_total_lines() {
    let c = catalogs();
    let specs = vec![spec("one.txt"), spec("two.txt")];
    let probes = vec![PathProbe::File, PathProbe::File];
    let resolutions = expand_path_specs(DIR, &ReadOptions::default_options(), &specs, &probes);
    let first = format!("{DIR}/one.txt");
    let second = format!("{DIR}/two.txt");
    let contents = [(first.as_str(), vec!["alpha", "beta"]), (second.as_str(), vec!["gamma", "delta"])];
    let output = read_all(&c, &resolutions, 10, &contents);
    let expected = BatchesReadFileOutput {
        total_lines: 4,
        files: vec![
            BatchesReadFileEntry {
                path: first.clone(),
                success: true,
                lines: vec!["L1: alpha".to_string(), "L2: beta".to_string()],
                error: None,
            },
            BatchesReadFileEntry {
                path: second.clone(),
                success: true,
                lines: vec!["L1: gamma".to_string(), "L2: delta".to_string()],
                error: None,
            },
        ],
    };
    assert_eq!(output, expected);
    assert!(all_succeeded(&output));
}

#[test]
fn truncates_when_total_line_limit_reached() {
    let c = catalogs();
    let specs = vec![spec("one.txt"), spec("two.txt")];
    let probes = vec![PathProbe::File, PathProbe::File];
    let resolutions = expand_path_specs(DIR, &ReadOptions::default_options(), &specs, &probes);
    let first = format!("{DIR}/one.txt");
    let second = format!("{DIR}/two.txt");
    let contents = [(first.as_str(), vec!["alpha", "beta"]), (second.as_str(), vec!["gamma", "delta"])];
    let output = read_all(&c, &resolutions, 3, &contents);
    assert_eq!(output.total_lines, 3);
    assert_eq!(output.files.len(), 2);
    assert_eq!(output.files[0].lines.len(), 2);
    assert!(output.files[0].success);
    assert!(output.files[0].error.is_none());
    assert_eq!(output.files[1].lines.len(), 1);
    assert!(!output.files[1].success);
    assert!(output.files[1].error.is_some());
    assert_eq!(output.files[0].path, first);
    assert_eq!(output.files[1].path, second);
    assert_eq!(
        output.files[1].error.as_deref(),
        Some("total line limit reached at /tmp/batch/two.txt")
    );
    assert!(!all_succeeded(&output));
}

#[test]
fn exhausted_budget_reports_without_reading() {
    let c = catalogs();
    let resolutions = vec![
        PathResolution::File(ResolvedFile { path: "/a".to_string(), options: ReadOptions::default_options() }),
        PathResolution::File(ResolvedFile { path: "/b".to_string(), options: ReadOptions::default_options() }),
    ];
    let output = read_all(&c, &resolutions, 2, &[("/a", vec!["1", "2", "3"]), ("/b", vec!["x"])]);
    assert_eq!(output.total_lines, 2);
    assert!(!output.files[0].success);
    assert_eq!(output.files[1].lines.len(), 0);
    assert_eq!(
        output.files[1].error.as_deref(),
        Some("total line limit reached at /b")
    );
}

#[test]
fn plain_paths_report_missing_and_invalid_options() {
    let c = catalogs();
    let mut bad_offset = spec("x.txt");
    bad_offset.offset = Some(0);
    let mut bad_limit = spec("y.txt");
    bad_limit.limit = Some(0);
    let specs = vec![spec("gone.txt"), spec("dir"), bad_offset, bad_limit, spec("[bad")];
    let probes = vec![
        PathProbe::Missing,
        PathProbe::NotFile,
        PathProbe::File,
        PathProbe::File,
        PathProbe::InvalidPattern,
    ];
    let results = expand_path_specs("/w/", &ReadOptions::default_options(), &specs, &probes);
    assert_eq!(
        results,
        vec![
            PathResolution::Error(PathError::NotFound { path: "gone.txt".to_string() }),
            PathResolution::Error(PathError::NotFile { path: "dir".to_string() }),
            PathResolution::Error(PathError::InvalidOffset { path: "x.txt".to_string() }),
            PathResolution::Error(PathError::InvalidLimit { path: "y.txt".to_string() }),
            PathResolution::Error(PathError::InvalidPattern { pattern: "[bad".to_string() }),
        ]
    );
    let output = read_all(&c, &results[..1], 10, &[]);
    assert_eq!(output.files[0].error.as_deref(), Some("not found: gone.txt"));
}

#[test]
fn paths_join_like_unix_paths() {
    assert_eq!(resolve_path("/w", "a.txt"), "/w/a.txt");
    assert_eq!(resolve_path("/w/", "a.txt"), "/w/a.txt");
    assert_eq!(resolve_path("/w", "/abs/a.txt"), "/abs/a.txt");
    assert!(contains_glob_chars("a?.txt"));
    assert!(contains_glob_chars("[ab].txt"));
    assert!(!contains_glob_chars("plain.txt"));
}

#[test]
fn arguments_are_validated() {
    let c = catalogs();
    let mut args = BatchesReadFileArgs { paths: vec![], offset: None, limit: None, mode: None, indentation: None };
    assert_eq!(
        validate_batch_args(&c, Language::En, &args),
        Err(FunctionCallError::RespondToModel("paths must not be empty".to_string()))
    );
    args.paths.push(spec("a"));
    args.offset = Some(0);
    assert_eq!(
        validate_batch_args(&c, Language::En, &args),
        Err(FunctionCallError::RespondToModel("offset must be at least 1".to_string()))
    );
    args.offset = Some(3);
    args.limit = Some(0);
    assert_eq!(
        validate_batch_args(&c, Language::En, &args),
        Err(FunctionCallError::RespondToModel("limit must be at least 1".to_string()))
    );
    args.limit = None;
    let options = validate_batch_args(&c, Language::En, &args).unwrap();
    assert_eq!(options.offset, 3);
    assert_eq!(options.limit, 2000);
}

#[test]
fn glob_matches_sort_by_path_components() {
    let specs = vec![spec("*")];
    let probes = vec![PathProbe::Matches(vec![
        "/d/a-b".to_string(),
        "/d/a/b".to_string(),
        "/d/a".to_string(),
    ])];
    let results = expand_path_specs("/d", &ReadOptions::default_options(), &specs, &probes);
    let paths: Vec<String> = results
        .into_iter()
        .map(|r| match r {
            PathResolution::File(f) => f.path,
            PathResolution::Error(e) => panic!("unexpected {e:?}"),
        })
        .collect();
    assert_eq!(paths, vec!["/d/a".to_string(), "/d/a/b".to_string(), "/d/a-b".to_string()]);
}
