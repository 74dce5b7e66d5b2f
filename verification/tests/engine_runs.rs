use wlankeys::doc::Element;
use wlankeys::engine::{
    Action, AdapterRecord, DocumentOutcome, Engine, FatalError, Phase, ProfileRecord, SkipReason,
};
use wlankeys::run::{run_script, AdapterScript, Script};

fn w(s: &str) -> Vec<u16> {
    s.encode_utf16().collect()
}

/// A fixed-capacity, null-terminated buffer holding `s`.
fn buf(s: &str, cap: usize) -> Vec<u16> {
    let mut v = w(s);
    v.push(0);
    while v.len() < cap {
        v.push(0);
    }
    v
}

/// A buffer with no null terminator anywhere in its capacity.
fn badbuf(cap: usize) -> Vec<u16> {
    vec![65u16; cap]
}

fn credential_path() -> Vec<Vec<u16>> {
    vec![w("MSM"), w("security"), w("sharedKey"), w("keyMaterial")]
}

fn el(name: &str, text: &str, children: Vec<Element>) -> Element {
    Element {
        name: w(name),
        text: w(text),
        children,
    }
}

/// A profile document whose credential path resolves to `secret`.
fn doc_with_secret(secret: &str) -> Element {
    el(
        "WLANProfile",
        "",
        vec![el(
            "MSM",
            "",
            vec![el(
                "security",
                "",
                vec![el(
                    "sharedKey",
                    "",
                    vec![el("keyMaterial", secret, vec![])],
                )],
            )],
        )],
    )
}

/// A profile document with no credential path (an open network).
fn doc_without_secret() -> Element {
    el(
        "WLANProfile",
        "",
        vec![el("MSM", "", vec![el("security", "", vec![])])],
    )
}

/// A scripted platform service, counting its acquisitions and releases.
struct Mock {
    open: Result<(), FatalError>,
    adapters: Result<Vec<(u128, Vec<u16>)>, u32>,
    profiles: Vec<Result<Vec<Vec<u16>>, u32>>,
    docs: Vec<Vec<Option<DocumentOutcome>>>,
    acquired: usize,
    released: usize,
    closes: usize,
}

impl Mock {
    fn new(
        open: Result<(), FatalError>,
        adapters: Result<Vec<(u128, Vec<u16>)>, u32>,
        profiles: Vec<Result<Vec<Vec<u16>>, u32>>,
        docs: Vec<Vec<Option<DocumentOutcome>>>,
    ) -> Mock {
        Mock {
            open,
            adapters,
            profiles,
            docs,
            acquired: 0,
            released: 0,
            closes: 0,
        }
    }
}

/// Drives the engine against the scripted service until it finishes,
/// returning the exit code it requested.
fn drive(mock: &mut Mock, eng: &mut Engine) -> i32 {
    let mut action = eng.start();
    loop {
        action = match action {
            Action::OpenSession => eng.session_opened(mock.open),
            Action::ListAdapters => {
                let outcome = match &mock.adapters {
                    Ok(list) => {
                        mock.acquired += 1;
                        Ok(list
                            .iter()
                            .map(|(id, description)| AdapterRecord {
                                id: *id,
                                description: description.clone(),
                            })
                            .collect())
                    }
                    Err(code) => Err(*code),
                };
                eng.adapters_listed(outcome)
            }
            Action::ListProfiles { adapter_id: _ } => {
                let idx = eng.adapter_index;
                let outcome = match &mock.profiles[idx] {
                    Ok(names) => {
                        mock.acquired += 1;
                        Ok(names
                            .iter()
                            .map(|name| ProfileRecord {
                                name: name.clone(),
                                flags: 0,
                            })
                            .collect())
                    }
                    Err(code) => Err(*code),
                };
                eng.profiles_listed(outcome)
            }
            Action::FetchDocument { .. } => {
                let a = eng.adapter_index;
                let p = eng.profile_index;
                let outcome = mock.docs[a][p].take().unwrap();
                if matches!(
                    outcome,
                    DocumentOutcome::Parsed(_) | DocumentOutcome::ParseFailed
                ) {
                    mock.acquired += 1;
                }
                eng.document_fetched(outcome)
            }
            Action::ReleaseDocument | Action::ReleaseProfileList | Action::ReleaseAdapterList => {
                mock.released += 1;
                eng.released()
            }
            Action::CloseSession => {
                mock.closes += 1;
                eng.released()
            }
            Action::Finish { exit_code } => return exit_code,
        };
    }
}

#[test]
fn empty_adapter_list_completes_without_profiles() {
    let mut mock = Mock::new(Ok(()), Ok(vec![]), vec![], vec![]);
    let mut eng = Engine::new(credential_path());
    let exit = drive(&mut mock, &mut eng);
    assert_eq!(exit, 0);
    assert_eq!(eng.phase, Phase::Finished);
    assert!(eng.visited.is_empty());
    assert!(eng.findings.is_empty());
    assert!(eng.skips.is_empty());
    assert_eq!(mock.acquired, 1);
    assert_eq!(mock.released, 1);
    assert_eq!(mock.closes, 1);
}

#[test]
fn adapters_visited_in_returned_order() {
    let mut mock = Mock::new(
        Ok(()),
        Ok(vec![
            (11, buf("one", 8)),
            (22, buf("two", 8)),
            (33, buf("three", 8)),
        ]),
        vec![Ok(vec![]), Ok(vec![]), Ok(vec![])],
        vec![vec![], vec![], vec![]],
    );
    let mut eng = Engine::new(credential_path());
    let exit = drive(&mut mock, &mut eng);
    assert_eq!(exit, 0);
    assert_eq!(eng.visited, vec![11, 22, 33]);
    assert_eq!(mock.acquired, mock.released);
}

#[test]
fn malformed_adapter_name_skips_only_that_adapter() {
    let mut mock = Mock::new(
        Ok(()),
        Ok(vec![(1, badbuf(8)), (2, buf("good", 8))]),
        vec![Ok(vec![]), Ok(vec![])],
        vec![vec![], vec![]],
    );
    let mut eng = Engine::new(credential_path());
    let exit = drive(&mut mock, &mut eng);
    assert_eq!(exit, 0);
    assert_eq!(eng.visited, vec![1, 2]);
    assert_eq!(eng.skips.len(), 1);
    assert_eq!(eng.skips[0].adapter_index, 0);
    assert_eq!(eng.skips[0].profile_index, None);
    assert_eq!(eng.skips[0].reason, SkipReason::MalformedAdapterName);
    assert_eq!(mock.acquired, mock.released);
}

#[test]
fn malformed_profile_name_skips_only_that_profile() {
    let mut mock = Mock::new(
        Ok(()),
        Ok(vec![(1, buf("adapter", 12))]),
        vec![Ok(vec![badbuf(6), buf("Home", 8)])],
        vec![vec![
            None,
            Some(DocumentOutcome::Parsed(doc_with_secret("pw"))),
        ]],
    );
    let mut eng = Engine::new(credential_path());
    let exit = drive(&mut mock, &mut eng);
    assert_eq!(exit, 0);
    assert_eq!(eng.skips.len(), 1);
    assert_eq!(eng.skips[0].adapter_index, 0);
    assert_eq!(eng.skips[0].profile_index, Some(0));
    assert_eq!(eng.skips[0].context, w("adapter"));
    assert_eq!(eng.skips[0].reason, SkipReason::MalformedProfileName);
    assert_eq!(eng.findings.len(), 1);
    assert_eq!(eng.findings[0].profile, w("Home"));
    assert_eq!(eng.findings[0].credential, Some(w("pw")));
    assert_eq!(mock.acquired, mock.released);
}

#[test]
fn acquisitions_match_releases_across_mixed_outcomes() {
    let mut mock = Mock::new(
        Ok(()),
        Ok(vec![(1, buf("first", 8)), (2, buf("second", 8))]),
        vec![
            Ok(vec![buf("Home", 8), buf("Flaky", 8), buf("Odd", 8)]),
            Err(9),
        ],
        vec![
            vec![
                Some(DocumentOutcome::Parsed(doc_with_secret("pw"))),
                Some(DocumentOutcome::QueryFailed(13)),
                Some(DocumentOutcome::ParseFailed),
            ],
            vec![],
        ],
    );
    let mut eng = Engine::new(credential_path());
    let exit = drive(&mut mock, &mut eng);
    assert_eq!(exit, 0);
    // adapter list + one profile list + two acquired documents
    assert_eq!(mock.acquired, 4);
    assert_eq!(mock.acquired, mock.released);
    assert_eq!(mock.closes, 1);
    assert_eq!(eng.phase, Phase::Finished);
}

#[test]
fn profile_list_failure_is_scoped_to_one_adapter() {
    let mut mock = Mock::new(
        Ok(()),
        Ok(vec![(1, buf("Wi-Fi 1", 16)), (2, buf("Wi-Fi 2", 16))]),
        vec![
            Ok(vec![buf("Home", 8), buf("Office", 8)]),
            Err(5),
        ],
        vec![
            vec![
                Some(DocumentOutcome::Parsed(doc_with_secret("homepass"))),
                Some(DocumentOutcome::Parsed(doc_without_secret())),
            ],
            vec![],
        ],
    );
    let mut eng = Engine::new(credential_path());
    let exit = drive(&mut mock, &mut eng);
    assert_eq!(exit, 0);
    assert_eq!(eng.findings.len(), 2);
    assert_eq!(eng.findings[0].adapter, w("Wi-Fi 1"));
    assert_eq!(eng.findings[0].profile, w("Home"));
    assert_eq!(eng.findings[0].credential, Some(w("homepass")));
    assert_eq!(eng.findings[1].adapter, w("Wi-Fi 1"));
    assert_eq!(eng.findings[1].profile, w("Office"));
    assert_eq!(eng.findings[1].credential, None);
    assert_eq!(eng.skips.len(), 1);
    assert_eq!(eng.skips[0].adapter_index, 1);
    assert_eq!(eng.skips[0].context, w("Wi-Fi 2"));
    assert_eq!(eng.skips[0].reason, SkipReason::ProfileListQueryFailed(5));
    assert_eq!(mock.acquired, mock.released);
}

#[test]
fn unparsable_document_is_skipped_and_still_released() {
    let mut mock = Mock::new(
        Ok(()),
        Ok(vec![(1, buf("adapter", 12))]),
        vec![Ok(vec![buf("Home", 8)])],
        vec![vec![Some(DocumentOutcome::ParseFailed)]],
    );
    let mut eng = Engine::new(credential_path());
    let exit = drive(&mut mock, &mut eng);
    assert_eq!(exit, 0);
    assert!(eng.findings.is_empty());
    assert_eq!(eng.skips.len(), 1);
    assert_eq!(eng.skips[0].profile_index, Some(0));
    assert_eq!(eng.skips[0].context, w("Home"));
    assert_eq!(eng.skips[0].reason, SkipReason::MalformedDocument);
    assert_eq!(mock.acquired, 3);
    assert_eq!(mock.acquired, mock.released);
}

#[test]
fn document_query_failure_moves_to_next_profile() {
    let mut mock = Mock::new(
        Ok(()),
        Ok(vec![(1, buf("adapter", 12))]),
        vec![Ok(vec![buf("First", 8), buf("Second", 8)])],
        vec![vec![
            Some(DocumentOutcome::QueryFailed(77)),
            Some(DocumentOutcome::Parsed(doc_with_secret("pw2"))),
        ]],
    );
    let mut eng = Engine::new(credential_path());
    let exit = drive(&mut mock, &mut eng);
    assert_eq!(exit, 0);
    assert_eq!(eng.skips.len(), 1);
    assert_eq!(eng.skips[0].context, w("First"));
    assert_eq!(eng.skips[0].reason, SkipReason::DocumentQueryFailed(77));
    assert_eq!(eng.findings.len(), 1);
    assert_eq!(eng.findings[0].profile, w("Second"));
    assert_eq!(eng.findings[0].credential, Some(w("pw2")));
    assert_eq!(mock.acquired, mock.released);
}

#[test]
fn session_open_failure_is_fatal_with_nonzero_exit() {
    let mut mock = Mock::new(Err(FatalError::VersionMismatch), Ok(vec![]), vec![], vec![]);
    let mut eng = Engine::new(credential_path());
    let exit = drive(&mut mock, &mut eng);
    assert_eq!(exit, 1);
    assert_eq!(eng.fatal, Some(FatalError::VersionMismatch));
    assert_eq!(mock.acquired, 0);
    assert_eq!(mock.released, 0);
    assert_eq!(mock.closes, 0);
}

#[test]
fn adapter_enumeration_failure_still_closes_the_session() {
    let mut mock = Mock::new(Ok(()), Err(7), vec![], vec![]);
    let mut eng = Engine::new(credential_path());
    let exit = drive(&mut mock, &mut eng);
    assert_eq!(exit, 0);
    assert_eq!(eng.list_failure, Some(7));
    assert!(eng.findings.is_empty());
    assert_eq!(mock.acquired, 0);
    assert_eq!(mock.released, 0);
    assert_eq!(mock.closes, 1);
}

#[test]
fn scripted_run_completes_and_reports() {
    let script = Script {
        open_outcome: Ok(()),
        adapters: Ok(vec![
            AdapterScript {
                record: AdapterRecord {
                    id: 1,
                    description: buf("alpha", 8),
                },
                profiles: Ok(vec![ProfileRecord {
                    name: buf("Home", 8),
                    flags: 0,
                }]),
                documents: vec![DocumentOutcome::Parsed(doc_with_secret("pw"))],
            },
            AdapterScript {
                record: AdapterRecord {
                    id: 2,
                    description: badbuf(4),
                },
                profiles: Ok(vec![]),
                documents: vec![],
            },
        ]),
    };
    let eng = run_script(credential_path(), script);
    assert_eq!(eng.phase, Phase::Finished);
    assert_eq!(eng.visited, vec![1, 2]);
    assert_eq!(eng.findings.len(), 1);
    assert_eq!(eng.findings[0].profile, w("Home"));
    assert_eq!(eng.findings[0].credential, Some(w("pw")));
    assert_eq!(eng.skips.len(), 1);
    assert_eq!(eng.skips[0].adapter_index, 1);
    assert_eq!(eng.skips[0].reason, SkipReason::MalformedAdapterName);
}
