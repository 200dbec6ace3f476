use solharvest::entry::ContentEntry;
use solharvest::outcome::{
    interpret_extraction, record_repository, CompileOutcome, ExtractionError, ListingError,
    RepositoryResult,
};
use solharvest::session::{Action, Event, Phase, RepoSession};
use solharvest::target::parse_repository_url;

/// Drives one session over canned listings and extraction outcomes:
/// each directory path maps to a listing, each file name to an
/// extraction result.  The repository is reported accessible, the
/// clone and the compile succeed.
fn run_happy_session(
    url: &[u8],
    listings: &[(&[u8], Vec<ContentEntry>)],
    extractions: &[(&[u8], Result<Vec<u8>, ExtractionError>)],
) -> Option<RepositoryResult> {
    let target = parse_repository_url(&url.to_vec()).unwrap();
    let mut s = RepoSession::new(target);
    loop {
        let action = match s.current_action() {
            Some(a) => a,
            None => break,
        };
        let event = match action {
            Action::CheckAccess { .. } => Event::AccessChecked { status: 200 },
            Action::DeleteWorkspace { .. } => Event::WorkspaceCleaned { ok: true },
            Action::CloneRepository { .. } => Event::CloneFinished { ok: true },
            Action::RunCompile { .. } => Event::CompileFinished {
                outcome: CompileOutcome::Success,
            },
            Action::FetchListing { path, .. } => {
                let listing = listings
                    .iter()
                    .find(|(p, _)| *p == path.as_slice())
                    .map(|(_, l)| l.clone())
                    .expect("unexpected listing path");
                Event::ListingFetched { result: Ok(listing) }
            }
            Action::RunExtraction { file_name, .. } => {
                let outcome = extractions
                    .iter()
                    .find(|(f, _)| *f == file_name.as_slice())
                    .map(|(_, r)| r.clone())
                    .expect("unexpected extraction file");
                Event::ExtractionFinished { result: outcome }
            }
        };
        s.on_event(event);
    }
    s.take_result()
}

#[test]
fn failing_extraction_contributes_no_entry() {
    let listings: Vec<(&[u8], Vec<ContentEntry>)> = vec![(
        b"".as_slice(),
        vec![
            ContentEntry::file(b"Good.sol".to_vec()),
            ContentEntry::file(b"Bad.sol".to_vec()),
        ],
    )];
    let extractions: Vec<(&[u8], Result<Vec<u8>, ExtractionError>)> = vec![
        (b"Good.sol".as_slice(), Ok(b"0x6001".to_vec())),
        (
            b"Bad.sol".as_slice(),
            Err(ExtractionError { exit_status: 1, stderr: b"no artifact".to_vec() }),
        ),
    ];
    let result =
        run_happy_session(b"https://github.com/owner/repo", &listings, &extractions).unwrap();
    assert_eq!(result.repository_name, b"repo".to_vec());
    assert_eq!(result.sources.len(), 1);
    assert_eq!(result.sources[0].file_name, b"Good.sol".to_vec());
    assert_eq!(result.sources[0].bytecode, b"0x6001".to_vec());
}

#[test]
fn nested_directories_are_walked_before_extraction() {
    let listings: Vec<(&[u8], Vec<ContentEntry>)> = vec![
        (
            b"".as_slice(),
            vec![
                ContentEntry::file(b"A.sol".to_vec()),
                ContentEntry::dir(b"lib".to_vec()),
            ],
        ),
        (
            b"lib".as_slice(),
            vec![
                ContentEntry::file(b"B.sol".to_vec()),
                ContentEntry::file(b"B.t.sol".to_vec()),
            ],
        ),
    ];
    let extractions: Vec<(&[u8], Result<Vec<u8>, ExtractionError>)> = vec![
        (b"A.sol".as_slice(), Ok(b"0x01".to_vec())),
        (b"B.sol".as_slice(), Ok(b"0x02".to_vec())),
    ];
    let result =
        run_happy_session(b"https://github.com/owner/nested", &listings, &extractions).unwrap();
    let mut names: Vec<Vec<u8>> = result.sources.iter().map(|s| s.file_name.clone()).collect();
    names.sort();
    assert_eq!(names, vec![b"A.sol".to_vec(), b"B.sol".to_vec()]);
    assert_eq!(result.sources.len(), 2);
}

#[test]
fn successful_extraction_returns_stdout_verbatim() {
    let raw = b"  0xABCDEF \n".to_vec();
    let r = interpret_extraction(true, 0, raw.clone(), Vec::new());
    assert_eq!(r.unwrap(), raw);

    let e = interpret_extraction(false, 2, b"ignored".to_vec(), b"boom".to_vec());
    let err = e.unwrap_err();
    assert_eq!(err.exit_status, 2);
    assert_eq!(err.stderr, b"boom".to_vec());
}

#[test]
fn inaccessible_repository_contributes_nothing_and_run_continues() {
    let mut all: Vec<RepositoryResult> = Vec::new();

    let target = parse_repository_url(&b"https://github.com/owner/gone".to_vec()).unwrap();
    let mut s = RepoSession::new(target);
    assert!(matches!(s.current_action(), Some(Action::CheckAccess { .. })));
    s.on_event(Event::AccessChecked { status: 404 });
    assert_eq!(s.phase, Phase::Skipped);
    assert!(s.current_action().is_none());
    record_repository(&mut all, s.take_result());
    assert!(all.is_empty());

    // The run goes on: the next repository still yields its result.
    let listings: Vec<(&[u8], Vec<ContentEntry>)> =
        vec![(b"".as_slice(), vec![ContentEntry::file(b"Ok.sol".to_vec())])];
    let extractions: Vec<(&[u8], Result<Vec<u8>, ExtractionError>)> =
        vec![(b"Ok.sol".as_slice(), Ok(b"0x00".to_vec()))];
    let next = run_happy_session(b"https://github.com/owner/alive", &listings, &extractions);
    record_repository(&mut all, next);
    assert_eq!(all.len(), 1);
    assert_eq!(all[0].repository_name, b"alive".to_vec());
}

#[test]
fn repository_without_eligible_files_contributes_nothing() {
    let listings: Vec<(&[u8], Vec<ContentEntry>)> = vec![(
        b"".as_slice(),
        vec![
            ContentEntry::file(b"README.md".to_vec()),
            ContentEntry::file(b"Token.t.sol".to_vec()),
        ],
    )];
    let extractions: Vec<(&[u8], Result<Vec<u8>, ExtractionError>)> = Vec::new();
    let result = run_happy_session(b"https://github.com/owner/empty", &listings, &extractions);
    assert!(result.is_none());
}

#[test]
fn listing_failure_aborts_the_walk_but_cleans_up() {
    let target = parse_repository_url(&b"https://github.com/owner/flaky".to_vec()).unwrap();
    let mut s = RepoSession::new(target);
    s.on_event(Event::AccessChecked { status: 200 });
    s.on_event(Event::WorkspaceCleaned { ok: true });
    s.on_event(Event::CloneFinished { ok: true });
    s.on_event(Event::CompileFinished { outcome: CompileOutcome::Success });
    assert_eq!(s.phase, Phase::Walking);
    s.on_event(Event::ListingFetched { result: Err(ListingError::Network) });
    assert_eq!(s.phase, Phase::CleaningAfter);
    s.on_event(Event::WorkspaceCleaned { ok: true });
    assert_eq!(s.phase, Phase::Done);
    assert!(s.take_result().is_none());
}

#[test]
fn compile_failure_is_not_fatal() {
    let target = parse_repository_url(&b"https://github.com/owner/warns".to_vec()).unwrap();
    let mut s = RepoSession::new(target);
    s.on_event(Event::AccessChecked { status: 200 });
    s.on_event(Event::WorkspaceCleaned { ok: true });
    s.on_event(Event::CloneFinished { ok: true });
    s.on_event(Event::CompileFinished {
        outcome: CompileOutcome::Failure { exit_status: 1, stderr: b"bad pragma".to_vec() },
    });
    assert_eq!(s.phase, Phase::Walking);
}

#[test]
fn clone_failure_ends_the_session() {
    let target = parse_repository_url(&b"https://github.com/owner/locked".to_vec()).unwrap();
    let mut s = RepoSession::new(target);
    s.on_event(Event::AccessChecked { status: 200 });
    s.on_event(Event::WorkspaceCleaned { ok: true });
    s.on_event(Event::CloneFinished { ok: false });
    assert_eq!(s.phase, Phase::CloneFailed);
    assert!(s.current_action().is_none());
    assert!(s.take_result().is_none());
}

#[test]
fn end_to_end_aggregate_reports_only_the_yielding_repository() {
    let urls: Vec<&[u8]> = vec![
        b"https://github.com/ownerA/repoA".as_slice(),
        b"https://github.com/ownerB/repoB".as_slice(),
    ];
    let mut all: Vec<RepositoryResult> = Vec::new();
    for url in urls {
        let target = parse_repository_url(&url.to_vec()).unwrap();
        let mut s = RepoSession::new(target);
        loop {
            let action = match s.current_action() {
                Some(a) => a,
                None => break,
            };
            let event = match action {
                Action::CheckAccess { name, .. } => {
                    if name == b"repoB".to_vec() {
                        Event::AccessChecked { status: 403 }
                    } else {
                        Event::AccessChecked { status: 200 }
                    }
                }
                Action::DeleteWorkspace { .. } => Event::WorkspaceCleaned { ok: true },
                Action::CloneRepository { .. } => Event::CloneFinished { ok: true },
                Action::RunCompile { .. } => Event::CompileFinished {
                    outcome: CompileOutcome::Success,
                },
                Action::FetchListing { .. } => Event::ListingFetched {
                    result: Ok(vec![ContentEntry::file(b"File.sol".to_vec())]),
                },
                Action::RunExtraction { .. } => Event::ExtractionFinished {
                    result: Ok(b"<bytecode>".to_vec()),
                },
            };
            s.on_event(event);
        }
        record_repository(&mut all, s.take_result());
    }
    assert_eq!(all.len(), 1);
    assert_eq!(all[0].repository_name, b"repoA".to_vec());
    assert_eq!(all[0].sources.len(), 1);
    assert_eq!(all[0].sources[0].file_name, b"File.sol".to_vec());
    assert_eq!(all[0].sources[0].bytecode, b"<bytecode>".to_vec());
}
