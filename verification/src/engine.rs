use vstd::prelude::*;
use vstd::seq_lib::*;
use crate::doc::{spec_extract, extract_field, Element};
use crate::wide::{decode_name, decoded_name, wide_copy};

verus! {

/// Session-level failures. They are the one fatal tier: the run aborts with
/// a nonzero exit code before any downstream query is made.
#[derive(Clone, Copy, PartialEq, Eq, Structural, Debug)]
pub enum FatalError {
    ServiceUnavailable,
    VersionMismatch,
}

/// Why a single adapter or a single profile was skipped while the
/// enumeration carried on with the remaining entries.
#[derive(Clone, Copy, PartialEq, Eq, Structural, Debug)]
pub enum SkipReason {
    MalformedAdapterName,
    ProfileListQueryFailed(u32),
    MalformedProfileName,
    DocumentQueryFailed(u32),
    MalformedDocument,
}

/// One wireless adapter as the enumeration returned it: a 128-bit
/// identifier and a description held in a fixed-capacity, null-terminated
/// wide-character buffer.
#[derive(Debug)]
pub struct AdapterRecord {
    pub id: u128,
    pub description: Vec<u16>,
}

/// One saved profile of an adapter: a name held in a fixed-capacity,
/// null-terminated wide-character buffer, and flags that extraction
/// does not use.
#[derive(Debug)]
pub struct ProfileRecord {
    pub name: Vec<u16>,
    pub flags: u32,
}

/// One processed profile: the adapter's decoded description, the profile's
/// decoded name, and the credential when the document held its path.
/// An absent credential is a normal result, not an error.
#[derive(Debug)]
pub struct Finding {
    pub adapter: Vec<u16>,
    pub profile: Vec<u16>,
    pub credential: Option<Vec<u16>>,
}

/// One skipped unit, identified by its position in the returned lists and
/// by whatever decoded name was available as context.
#[derive(Debug)]
pub struct Skip {
    pub adapter_index: usize,
    pub profile_index: Option<usize>,
    pub context: Vec<u16>,
    pub reason: SkipReason,
}

/// What the driver must do next on the engine's behalf. Every service
/// call, release and the final exit is requested here; the driver hands
/// the outcome back through the engine's step methods.
#[derive(Debug)]
pub enum Action {
    OpenSession,
    ListAdapters,
    ListProfiles { adapter_id: u128 },
    FetchDocument { adapter_id: u128, profile_name: Vec<u16> },
    ReleaseDocument,
    ReleaseProfileList,
    ReleaseAdapterList,
    CloseSession,
    Finish { exit_code: i32 },
}

/// What fetching one profile's configuration document came to. A document
/// that the platform could not parse as structured markup was still
/// acquired and must still be released; a failed query acquired nothing.
#[derive(Debug)]
pub enum DocumentOutcome {
    Parsed(Element),
    ParseFailed,
    QueryFailed(u32),
}

/// Where the run stands; each waiting phase names the action whose outcome
/// the engine expects next.
#[derive(Clone, Copy, PartialEq, Eq, Structural, Debug)]
pub enum Phase {
    Start,
    Opening,
    ListingAdapters,
    ListingProfiles,
    FetchingDocument,
    ReleasingDocument,
    ReleasingProfileList,
    ReleasingAdapterList,
    Closing,
    Finished,
}

/// How many service-owned allocations are live in a phase: the adapter
/// list from its arrival to its release, the profile list within it, and
/// the document within that.
pub open spec fn held(phase: Phase) -> nat {
    match phase {
        Phase::ListingProfiles => 1,
        Phase::FetchingDocument => 2,
        Phase::ReleasingDocument => 3,
        Phase::ReleasingProfileList => 2,
        Phase::ReleasingAdapterList => 1,
        _ => 0,
    }
}

/// The adapter identifiers of a list, in returned order.
pub open spec fn ids(adapters: Seq<AdapterRecord>) -> Seq<u128> {
    adapters.map_values(|a: AdapterRecord| a.id)
}

/// A skip recording that the adapter at position `k` had no null
/// terminator within its description buffer.
pub open spec fn malformed_adapter_skip(s: Skip, k: int) -> bool {
    &&& s.adapter_index == k
    &&& s.profile_index is None
    &&& s.context@ == Seq::<u16>::empty()
    &&& s.reason == SkipReason::MalformedAdapterName
}

/// A skip recording that the profile at position `k` of the adapter at
/// `a_idx` had no null terminator within its name buffer.
pub open spec fn malformed_profile_skip(s: Skip, a_idx: int, k: int, adapter_name: Seq<u16>) -> bool {
    &&& s.adapter_index == a_idx
    &&& s.profile_index == Some(k as usize)
    &&& s.context@ == adapter_name
    &&& s.reason == SkipReason::MalformedProfileName
}

/// The engine after the adapter loop moved forward from position `from`:
/// every adapter before the new position was undecodable and got exactly
/// one skip entry, and either a decodable adapter became current with its
/// profiles requested, or the list was exhausted and its release requested.
pub open spec fn adapter_advance(
    adapters: Seq<AdapterRecord>,
    skips0: Seq<Skip>,
    post: Engine,
    a: Action,
    from: int,
) -> bool {
    &&& post.adapters@ == adapters
    &&& from <= post.adapter_index <= adapters.len()
    &&& forall|k: int| from <= k < post.adapter_index ==> decoded_name(#[trigger] adapters[k].description@) is None
    &&& post.skips@.len() == skips0.len() + post.adapter_index - from
    &&& post.skips@.subrange(0, skips0.len() as int) == skips0
    &&& forall|k: int|
        from <= k < post.adapter_index ==> malformed_adapter_skip(
            #[trigger] post.skips@[skips0.len() + k - from],
            k,
        )
    &&& if post.adapter_index < adapters.len() {
        &&& post.phase is ListingProfiles
        &&& decoded_name(adapters[post.adapter_index as int].description@) == Some(
            post.adapter_name@,
        )
        &&& post.visited@ == ids(adapters).take(post.adapter_index + 1)
        &&& a == (Action::ListProfiles { adapter_id: adapters[post.adapter_index as int].id })
    } else {
        &&& post.phase is ReleasingAdapterList
        &&& post.visited@ == ids(adapters)
        &&& a is ReleaseAdapterList
    }
}

/// The engine after the profile loop of the current adapter moved forward
/// from position `from`: every profile before the new position was
/// undecodable and got exactly one skip entry, and either a decodable
/// profile became current with its document requested, or the list was
/// exhausted and its release requested.
pub open spec fn profile_advance(
    adapters: Seq<AdapterRecord>,
    a_idx: int,
    adapter_name: Seq<u16>,
    profiles: Seq<ProfileRecord>,
    skips0: Seq<Skip>,
    post: Engine,
    a: Action,
    from: int,
) -> bool {
    &&& post.profiles@ == profiles
    &&& from <= post.profile_index <= profiles.len()
    &&& forall|k: int| from <= k < post.profile_index ==> decoded_name(#[trigger] profiles[k].name@) is None
    &&& post.skips@.len() == skips0.len() + post.profile_index - from
    &&& post.skips@.subrange(0, skips0.len() as int) == skips0
    &&& forall|k: int|
        from <= k < post.profile_index ==> malformed_profile_skip(
            #[trigger] post.skips@[skips0.len() + k - from],
            a_idx,
            k,
            adapter_name,
        )
    &&& if post.profile_index < profiles.len() {
        &&& post.phase is FetchingDocument
        &&& decoded_name(profiles[post.profile_index as int].name@) == Some(post.profile_name@)
        &&& (a matches Action::FetchDocument { adapter_id, profile_name } && adapter_id
            == adapters[a_idx].id && profile_name@ == post.profile_name@)
    } else {
        &&& post.phase is ReleasingProfileList
        &&& a is ReleaseProfileList
    }
}

/// The orchestration of one run. The engine never performs a service call
/// itself: each step method takes the outcome of the action it last
/// requested, decides, and requests the next action, so that every
/// decision — skipping, releasing, aborting — is made here.
pub struct Engine {
    pub phase: Phase,
    /// The element path of the credential within a profile document.
    pub path: Vec<Vec<u16>>,
    pub adapters: Vec<AdapterRecord>,
    pub adapter_index: usize,
    /// Decoded description of the adapter now being processed.
    pub adapter_name: Vec<u16>,
    pub profiles: Vec<ProfileRecord>,
    pub profile_index: usize,
    /// Decoded name of the profile now being processed.
    pub profile_name: Vec<u16>,
    /// Identifiers of the adapters the loop has reached, in returned order.
    pub visited: Vec<u128>,
    pub findings: Vec<Finding>,
    pub skips: Vec<Skip>,
    /// Status of a failed adapter enumeration, when the run ended early.
    pub list_failure: Option<u32>,
    pub fatal: Option<FatalError>,
    /// How many lists and documents were acquired from the service.
    pub acquired: Ghost<nat>,
    /// How many of them were released again.
    pub released: Ghost<nat>,
}

impl Engine {
    /// The engine's invariant: what was acquired and not yet released is
    /// exactly what the phase still holds, and the loop bookkeeping
    /// matches the lists being walked.
    pub open spec fn wf(self) -> bool {
        &&& self.acquired@ == self.released@ + held(self.phase)
        &&& match self.phase {
            Phase::ListingProfiles | Phase::FetchingDocument | Phase::ReleasingDocument
                | Phase::ReleasingProfileList => {
                &&& self.adapter_index < self.adapters@.len()
                &&& self.visited@ == ids(self.adapters@).take(self.adapter_index + 1)
                &&& decoded_name(self.adapters@[self.adapter_index as int].description@)
                    == Some(self.adapter_name@)
                &&& match self.phase {
                    Phase::FetchingDocument | Phase::ReleasingDocument => {
                        &&& self.profile_index < self.profiles@.len()
                        &&& decoded_name(self.profiles@[self.profile_index as int].name@)
                            == Some(self.profile_name@)
                    },
                    Phase::ReleasingProfileList => self.profile_index == self.profiles@.len(),
                    _ => true,
                }
            },
            Phase::ReleasingAdapterList => {
                &&& self.adapter_index == self.adapters@.len()
                &&& self.visited@ == ids(self.adapters@)
            },
            _ => true,
        }
    }

    /// A fresh engine for one run, extracting the credential at `path`
    /// from each profile document.
    pub fn new(path: Vec<Vec<u16>>) -> (e: Engine)
        ensures
            e.wf(),
            e.phase is Start,
            e.path == path,
            e.findings@.len() == 0,
            e.skips@.len() == 0,
            e.visited@.len() == 0,
            e.fatal is None,
            e.list_failure is None,
            e.acquired@ == 0,
            e.released@ == 0,
    {
        Engine {
            phase: Phase::Start,
            path,
            adapters: Vec::new(),
            adapter_index: 0,
            adapter_name: Vec::new(),
            profiles: Vec::new(),
            profile_index: 0,
            profile_name: Vec::new(),
            visited: Vec::new(),
            findings: Vec::new(),
            skips: Vec::new(),
            list_failure: None,
            fatal: None,
            acquired: Ghost(0),
            released: Ghost(0),
        }
    }

    /// Begins the run: nothing may happen before a session is open, so the
    /// first action is to open one.
    pub fn start(&mut self) -> (a: Action)
        requires
            old(self).wf(),
            old(self).phase is Start,
        ensures
            final(self).wf(),
            final(self).phase is Opening,
            a is OpenSession,
            *final(self) == (Engine { phase: Phase::Opening, ..*old(self) }),
    {
        self.phase = Phase::Opening;
        Action::OpenSession
    }

    /// Takes the outcome of opening the session. Failure here is fatal:
    /// the run finishes at once with a nonzero exit code, and there is
    /// nothing to release.
    pub fn session_opened(&mut self, outcome: Result<(), FatalError>) -> (a: Action)
        requires
            old(self).wf(),
            old(self).phase is Opening,
        ensures
            final(self).wf(),
            final(self).findings == old(self).findings,
            final(self).skips == old(self).skips,
            final(self).path == old(self).path,
            final(self).acquired == old(self).acquired,
            final(self).released == old(self).released,
            final(self).list_failure == old(self).list_failure,
            final(self).adapters == old(self).adapters,
            final(self).visited == old(self).visited,
            match outcome {
                Ok(()) => {
                    &&& final(self).phase is ListingAdapters
                    &&& final(self).fatal == old(self).fatal
                    &&& a is ListAdapters
                },
                Err(e) => {
                    &&& final(self).phase is Finished
                    &&& final(self).fatal == Some(e)
                    &&& a == (Action::Finish { exit_code: 1 })
                },
            },
    {
        match outcome {
            Ok(()) => {
                self.phase = Phase::ListingAdapters;
                Action::ListAdapters
            },
            Err(e) => {
                self.fatal = Some(e);
                self.phase = Phase::Finished;
                Action::Finish { exit_code: 1 }
            },
        }
    }

    /// Takes the outcome of enumerating the adapters. An empty list is a
    /// valid result and leads straight to its release; a service failure
    /// here leaves nothing to iterate, is recorded, and the session is
    /// still closed, with the exit code staying zero.
    pub fn adapters_listed(&mut self, outcome: Result<Vec<AdapterRecord>, u32>) -> (a: Action)
        requires
            old(self).wf(),
            old(self).phase is ListingAdapters,
        ensures
            final(self).wf(),
            final(self).findings == old(self).findings,
            final(self).path == old(self).path,
            final(self).fatal == old(self).fatal,
            match outcome {
                Ok(list) => {
                    &&& final(self).acquired@ == old(self).acquired@ + 1
                    &&& final(self).released == old(self).released
                    &&& final(self).list_failure == old(self).list_failure
                    &&& adapter_advance(list@, old(self).skips@, *final(self), a, 0)
                    &&& list@.len() == 0 ==> a is ReleaseAdapterList
                },
                Err(code) => {
                    &&& final(self).acquired == old(self).acquired
                    &&& final(self).released == old(self).released
                    &&& final(self).skips == old(self).skips
                    &&& final(self).phase is Closing
                    &&& final(self).list_failure == Some(code)
                    &&& a is CloseSession
                },
            },
    {
        match outcome {
            Ok(list) => {
                self.adapters = list;
                self.adapter_index = 0;
                self.visited = Vec::new();
                proof {
                    self.acquired@ = self.acquired@ + 1;
                    assert(ids(self.adapters@).take(0) =~= self.visited@);
                }
                self.advance_adapter()
            },
            Err(code) => {
                self.list_failure = Some(code);
                self.phase = Phase::Closing;
                Action::CloseSession
            },
        }
    }

    /// Takes the outcome of listing the current adapter's profiles. A
    /// failure is scoped to this one adapter: it is recorded as a skip
    /// with the adapter's description as context, and enumeration moves
    /// on to the next adapter.
    pub fn profiles_listed(&mut self, outcome: Result<Vec<ProfileRecord>, u32>) -> (a: Action)
        requires
            old(self).wf(),
            old(self).phase is ListingProfiles,
        ensures
            final(self).wf(),
            final(self).findings == old(self).findings,
            final(self).path == old(self).path,
            final(self).fatal == old(self).fatal,
            final(self).list_failure == old(self).list_failure,
            final(self).adapters == old(self).adapters,
            final(self).released == old(self).released,
            match outcome {
                Ok(list) => {
                    &&& final(self).acquired@ == old(self).acquired@ + 1
                    &&& final(self).adapter_index == old(self).adapter_index
                    &&& final(self).adapter_name == old(self).adapter_name
                    &&& final(self).visited == old(self).visited
                    &&& profile_advance(
                        old(self).adapters@,
                        old(self).adapter_index as int,
                        old(self).adapter_name@,
                        list@,
                        old(self).skips@,
                        *final(self),
                        a,
                        0,
                    )
                },
                Err(code) => {
                    &&& final(self).acquired == old(self).acquired
                    &&& final(self).skips@.len() > old(self).skips@.len()
                    &&& final(self).skips@.subrange(0, old(self).skips@.len() as int)
                        == old(self).skips@
                    &&& final(self).skips@[old(self).skips@.len() as int].adapter_index
                        == old(self).adapter_index
                    &&& final(self).skips@[old(self).skips@.len() as int].profile_index is None
                    &&& final(self).skips@[old(self).skips@.len() as int].context@
                        == old(self).adapter_name@
                    &&& final(self).skips@[old(self).skips@.len() as int].reason
                        == SkipReason::ProfileListQueryFailed(code)
                    &&& adapter_advance(
                        old(self).adapters@,
                        final(self).skips@.subrange(0, old(self).skips@.len() as int + 1),
                        *final(self),
                        a,
                        old(self).adapter_index + 1,
                    )
                },
            },
    {
        match outcome {
            Ok(list) => {
                self.profiles = list;
                self.profile_index = 0;
                proof {
                    self.acquired@ = self.acquired@ + 1;
                }
                self.advance_profile()
            },
            Err(code) => {
                let context = wide_copy(&self.adapter_name);
                self.skips.push(Skip {
                    adapter_index: self.adapter_index,
                    profile_index: None,
                    context,
                    reason: SkipReason::ProfileListQueryFailed(code),
                });
                let _bound: usize = self.adapters.len();
                self.adapter_index = self.adapter_index + 1;
                proof {
                    assert(self.skips@.subrange(0, old(self).skips@.len() as int)
                        =~= old(self).skips@);
                    assert(self.skips@.subrange(0, self.skips@.len() as int) =~= self.skips@);
                    assert(ids(self.adapters@).take(old(self).adapter_index + 1)
                        =~= ids(self.adapters@).take(self.adapter_index as int));
                }
                let a = self.advance_adapter();
                proof {
                    let n0 = old(self).skips@.len() as int;
                    assert(self.skips@.subrange(0, n0 + 1)[n0] == self.skips@[n0]);
                }
                a
            },
        }
    }

    /// Takes the outcome of fetching the current profile's configuration
    /// document. A parsed document is walked for the credential and then
    /// released; an unparsable one was still acquired, is recorded as a
    /// skip, and is released all the same; a failed query acquired
    /// nothing, is recorded, and the run moves to the next profile.
    pub fn document_fetched(&mut self, outcome: DocumentOutcome) -> (a: Action)
        requires
            old(self).wf(),
            old(self).phase is FetchingDocument,
        ensures
            final(self).wf(),
            final(self).path == old(self).path,
            final(self).fatal == old(self).fatal,
            final(self).list_failure == old(self).list_failure,
            final(self).adapters == old(self).adapters,
            final(self).adapter_index == old(self).adapter_index,
            final(self).adapter_name == old(self).adapter_name,
            final(self).visited == old(self).visited,
            final(self).profiles == old(self).profiles,
            final(self).released == old(self).released,
            match outcome {
                DocumentOutcome::Parsed(d) => {
                    &&& final(self).acquired@ == old(self).acquired@ + 1
                    &&& final(self).phase is ReleasingDocument
                    &&& final(self).profile_index == old(self).profile_index
                    &&& final(self).profile_name == old(self).profile_name
                    &&& final(self).skips == old(self).skips
                    &&& final(self).findings@.len() == old(self).findings@.len() + 1
                    &&& final(self).findings@.subrange(0, old(self).findings@.len() as int)
                        == old(self).findings@
                    &&& final(self).findings@.last().adapter@ == old(self).adapter_name@
                    &&& final(self).findings@.last().profile@ == old(self).profile_name@
                    &&& match final(self).findings@.last().credential {
                        Some(c) => spec_extract(d, old(self).path.deep_view()) == Some(c@),
                        None => spec_extract(d, old(self).path.deep_view()) is None,
                    }
                    &&& a is ReleaseDocument
                },
                DocumentOutcome::ParseFailed => {
                    &&& final(self).acquired@ == old(self).acquired@ + 1
                    &&& final(self).phase is ReleasingDocument
                    &&& final(self).profile_index == old(self).profile_index
                    &&& final(self).profile_name == old(self).profile_name
                    &&& final(self).findings == old(self).findings
                    &&& final(self).skips@.len() == old(self).skips@.len() + 1
                    &&& final(self).skips@.subrange(0, old(self).skips@.len() as int)
                        == old(self).skips@
                    &&& final(self).skips@.last().adapter_index == old(self).adapter_index
                    &&& final(self).skips@.last().profile_index
                        == Some(old(self).profile_index)
                    &&& final(self).skips@.last().context@ == old(self).profile_name@
                    &&& final(self).skips@.last().reason == SkipReason::MalformedDocument
                    &&& a is ReleaseDocument
                },
                DocumentOutcome::QueryFailed(code) => {
                    &&& final(self).acquired == old(self).acquired
                    &&& final(self).findings == old(self).findings
                    &&& final(self).skips@.len() > old(self).skips@.len()
                    &&& final(self).skips@.subrange(0, old(self).skips@.len() as int)
                        == old(self).skips@
                    &&& final(self).skips@[old(self).skips@.len() as int].adapter_index
                        == old(self).adapter_index
                    &&& final(self).skips@[old(self).skips@.len() as int].profile_index
                        == Some(old(self).profile_index)
                    &&& final(self).skips@[old(self).skips@.len() as int].context@
                        == old(self).profile_name@
                    &&& final(self).skips@[old(self).skips@.len() as int].reason
                        == SkipReason::DocumentQueryFailed(code)
                    &&& profile_advance(
                        old(self).adapters@,
                        old(self).adapter_index as int,
                        old(self).adapter_name@,
                        old(self).profiles@,
                        final(self).skips@.subrange(0, old(self).skips@.len() as int + 1),
                        *final(self),
                        a,
                        old(self).profile_index + 1,
                    )
                },
            },
    {
        match outcome {
            DocumentOutcome::Parsed(d) => {
                let credential = extract_field(&d, &self.path);
                let adapter = wide_copy(&self.adapter_name);
                let profile = wide_copy(&self.profile_name);
                self.findings.push(Finding { adapter, profile, credential });
                self.phase = Phase::ReleasingDocument;
                proof {
                    self.acquired@ = self.acquired@ + 1;
                    assert(self.findings@.subrange(0, old(self).findings@.len() as int)
                        =~= old(self).findings@);
                }
                Action::ReleaseDocument
            },
            DocumentOutcome::ParseFailed => {
                let context = wide_copy(&self.profile_name);
                self.skips.push(Skip {
                    adapter_index: self.adapter_index,
                    profile_index: Some(self.profile_index),
                    context,
                    reason: SkipReason::MalformedDocument,
                });
                self.phase = Phase::ReleasingDocument;
                proof {
                    self.acquired@ = self.acquired@ + 1;
                    assert(self.skips@.subrange(0, old(self).skips@.len() as int)
                        =~= old(self).skips@);
                }
                Action::ReleaseDocument
            },
            DocumentOutcome::QueryFailed(code) => {
                let context = wide_copy(&self.profile_name);
                self.skips.push(Skip {
                    adapter_index: self.adapter_index,
                    profile_index: Some(self.profile_index),
                    context,
                    reason: SkipReason::DocumentQueryFailed(code),
                });
                let _bound: usize = self.profiles.len();
                self.profile_index = self.profile_index + 1;
                proof {
                    assert(self.skips@.subrange(0, old(self).skips@.len() as int)
                        =~= old(self).skips@);
                    assert(self.skips@.subrange(0, self.skips@.len() as int) =~= self.skips@);
                }
                let a = self.advance_profile();
                proof {
                    let n0 = old(self).skips@.len() as int;
                    assert(self.skips@.subrange(0, n0 + 1)[n0] == self.skips@[n0]);
                }
                a
            },
        }
    }

    /// Acknowledges the release or close the driver just performed, and
    /// moves on: past the released document to the next profile, past the
    /// released profile list to the next adapter, past the released
    /// adapter list to closing the session, and past the closed session
    /// to the finish, where the exit code is zero — skipped units do not
    /// change it.
    pub fn released(&mut self) -> (a: Action)
        requires
            old(self).wf(),
            old(self).phase is ReleasingDocument || old(self).phase is ReleasingProfileList
                || old(self).phase is ReleasingAdapterList || old(self).phase is Closing,
        ensures
            final(self).wf(),
            final(self).findings == old(self).findings,
            final(self).path == old(self).path,
            final(self).fatal == old(self).fatal,
            final(self).list_failure == old(self).list_failure,
            final(self).adapters == old(self).adapters,
            final(self).acquired == old(self).acquired,
            match old(self).phase {
                Phase::ReleasingDocument => {
                    &&& final(self).released@ == old(self).released@ + 1
                    &&& final(self).adapter_index == old(self).adapter_index
                    &&& final(self).adapter_name == old(self).adapter_name
                    &&& final(self).visited == old(self).visited
                    &&& profile_advance(
                        old(self).adapters@,
                        old(self).adapter_index as int,
                        old(self).adapter_name@,
                        old(self).profiles@,
                        old(self).skips@,
                        *final(self),
                        a,
                        old(self).profile_index + 1,
                    )
                },
                Phase::ReleasingProfileList => {
                    &&& final(self).released@ == old(self).released@ + 1
                    &&& adapter_advance(
                        old(self).adapters@,
                        old(self).skips@,
                        *final(self),
                        a,
                        old(self).adapter_index + 1,
                    )
                },
                Phase::ReleasingAdapterList => {
                    &&& final(self).released@ == old(self).released@ + 1
                    &&& final(self).skips == old(self).skips
                    &&& final(self).findings == old(self).findings
                    &&& final(self).visited == old(self).visited
                    &&& final(self).adapter_index == old(self).adapter_index
                    &&& final(self).phase is Closing
                    &&& a is CloseSession
                },
                Phase::Closing => {
                    &&& final(self).released == old(self).released
                    &&& final(self).skips == old(self).skips
                    &&& final(self).findings == old(self).findings
                    &&& final(self).visited == old(self).visited
                    &&& final(self).adapter_index == old(self).adapter_index
                    &&& final(self).phase is Finished
                    &&& a == (Action::Finish { exit_code: 0 })
                },
                _ => false,
            },
    {
        match self.phase {
            Phase::ReleasingDocument => {
                proof {
                    self.released@ = self.released@ + 1;
                }
                let _bound: usize = self.profiles.len();
                self.profile_index = self.profile_index + 1;
                self.advance_profile()
            },
            Phase::ReleasingProfileList => {
                proof {
                    self.released@ = self.released@ + 1;
                }
                let _bound: usize = self.adapters.len();
                self.adapter_index = self.adapter_index + 1;
                proof {
                    assert(ids(self.adapters@).take(old(self).adapter_index + 1)
                        =~= ids(self.adapters@).take(self.adapter_index as int));
                }
                self.advance_adapter()
            },
            Phase::ReleasingAdapterList => {
                proof {
                    self.released@ = self.released@ + 1;
                }
                self.phase = Phase::Closing;
                Action::CloseSession
            },
            _ => {
                self.phase = Phase::Finished;
                Action::Finish { exit_code: 0 }
            },
        }
    }

    /// The adapter loop's forward move, from the current position: record
    /// a skip for every adapter whose description buffer has no null
    /// terminator, make the first decodable adapter current, or release
    /// the exhausted list.
    fn advance_adapter(&mut self) -> (a: Action)
        requires
            old(self).acquired@ == old(self).released@ + 1,
            old(self).adapter_index <= old(self).adapters@.len(),
            old(self).visited@ == ids(old(self).adapters@).take(old(self).adapter_index as int),
        ensures
            final(self).wf(),
            adapter_advance(
                old(self).adapters@,
                old(self).skips@,
                *final(self),
                a,
                old(self).adapter_index as int,
            ),
            final(self).adapters == old(self).adapters,
            final(self).findings == old(self).findings,
            final(self).path == old(self).path,
            final(self).fatal == old(self).fatal,
            final(self).list_failure == old(self).list_failure,
            final(self).acquired == old(self).acquired,
            final(self).released == old(self).released,
    {
        let ghost from: int = self.adapter_index as int;
        let ghost skips0 = self.skips@;
        while self.adapter_index < self.adapters.len()
            invariant
                from == old(self).adapter_index as int,
                skips0 == old(self).skips@,
                self.acquired@ == self.released@ + 1,
                from <= self.adapter_index <= self.adapters@.len(),
                self.visited@ == ids(self.adapters@).take(self.adapter_index as int),
                forall|k: int|
                    from <= k < self.adapter_index ==> decoded_name(
                        #[trigger] self.adapters@[k].description@,
                    ) is None,
                self.skips@.len() == skips0.len() + self.adapter_index - from,
                self.skips@.subrange(0, skips0.len() as int) == skips0,
                forall|k: int|
                    from <= k < self.adapter_index ==> malformed_adapter_skip(
                        #[trigger] self.skips@[skips0.len() + k - from],
                        k,
                    ),
                self.adapters == old(self).adapters,
                self.findings == old(self).findings,
                self.path == old(self).path,
                self.fatal == old(self).fatal,
                self.list_failure == old(self).list_failure,
                self.acquired == old(self).acquired,
                self.released == old(self).released,
            decreases self.adapters@.len() - self.adapter_index,
        {
            let idx: usize = self.adapter_index;
            let id: u128 = self.adapters[idx].id;
            self.visited.push(id);
            proof {
                assert(ids(self.adapters@).take(idx as int).push(id)
                    =~= ids(self.adapters@).take(idx + 1));
            }
            match decode_name(&self.adapters[idx].description) {
                Some(name) => {
                    self.adapter_name = name;
                    self.phase = Phase::ListingProfiles;
                    return Action::ListProfiles { adapter_id: id };
                },
                None => {
                    self.skips.push(Skip {
                        adapter_index: idx,
                        profile_index: None,
                        context: Vec::new(),
                        reason: SkipReason::MalformedAdapterName,
                    });
                    self.adapter_index = idx + 1;
                    proof {
                        assert(self.skips@.subrange(0, skips0.len() as int) =~= skips0);
                    }
                },
            }
        }
        self.phase = Phase::ReleasingAdapterList;
        proof {
            assert(ids(self.adapters@).take(self.adapter_index as int) =~= ids(self.adapters@));
        }
        Action::ReleaseAdapterList
    }

    /// The profile loop's forward move within the current adapter: record
    /// a skip for every profile whose name buffer has no null terminator,
    /// make the first decodable profile current, or release the exhausted
    /// list.
    fn advance_profile(&mut self) -> (a: Action)
        requires
            old(self).acquired@ == old(self).released@ + 2,
            old(self).profile_index <= old(self).profiles@.len(),
            old(self).adapter_index < old(self).adapters@.len(),
            old(self).visited@ == ids(old(self).adapters@).take(old(self).adapter_index + 1),
            decoded_name(old(self).adapters@[old(self).adapter_index as int].description@)
                == Some(old(self).adapter_name@),
        ensures
            final(self).wf(),
            profile_advance(
                old(self).adapters@,
                old(self).adapter_index as int,
                old(self).adapter_name@,
                old(self).profiles@,
                old(self).skips@,
                *final(self),
                a,
                old(self).profile_index as int,
            ),
            final(self).adapters == old(self).adapters,
            final(self).adapter_index == old(self).adapter_index,
            final(self).adapter_name == old(self).adapter_name,
            final(self).visited == old(self).visited,
            final(self).profiles == old(self).profiles,
            final(self).findings == old(self).findings,
            final(self).path == old(self).path,
            final(self).fatal == old(self).fatal,
            final(self).list_failure == old(self).list_failure,
            final(self).acquired == old(self).acquired,
            final(self).released == old(self).released,
    {
        let ghost from: int = self.profile_index as int;
        let ghost skips0 = self.skips@;
        while self.profile_index < self.profiles.len()
            invariant
                from == old(self).profile_index as int,
                skips0 == old(self).skips@,
                self.acquired@ == self.released@ + 2,
                from <= self.profile_index <= self.profiles@.len(),
                self.adapter_index < self.adapters@.len(),
                self.visited@ == ids(self.adapters@).take(self.adapter_index + 1),
                decoded_name(self.adapters@[self.adapter_index as int].description@)
                    == Some(self.adapter_name@),
                forall|k: int|
                    from <= k < self.profile_index ==> decoded_name(
                        #[trigger] self.profiles@[k].name@,
                    ) is None,
                self.skips@.len() == skips0.len() + self.profile_index - from,
                self.skips@.subrange(0, skips0.len() as int) == skips0,
                forall|k: int|
                    from <= k < self.profile_index ==> malformed_profile_skip(
                        #[trigger] self.skips@[skips0.len() + k - from],
                        self.adapter_index as int,
                        k,
                        self.adapter_name@,
                    ),
                self.adapters == old(self).adapters,
                self.adapter_index == old(self).adapter_index,
                self.adapter_name == old(self).adapter_name,
                self.visited == old(self).visited,
                self.profiles == old(self).profiles,
                self.findings == old(self).findings,
                self.path == old(self).path,
                self.fatal == old(self).fatal,
                self.list_failure == old(self).list_failure,
                self.acquired == old(self).acquired,
                self.released == old(self).released,
            decreases self.profiles@.len() - self.profile_index,
        {
            let idx: usize = self.profile_index;
            match decode_name(&self.profiles[idx].name) {
                Some(name) => {
                    self.profile_name = name;
                    self.phase = Phase::FetchingDocument;
                    let profile_name = wide_copy(&self.profile_name);
                    let adapter_id = self.adapters[self.adapter_index].id;
                    return Action::FetchDocument { adapter_id, profile_name };
                },
                None => {
                    let context = wide_copy(&self.adapter_name);
                    self.skips.push(Skip {
                        adapter_index: self.adapter_index,
                        profile_index: Some(idx),
                        context,
                        reason: SkipReason::MalformedProfileName,
                    });
                    self.profile_index = idx + 1;
                    proof {
                        assert(self.skips@.subrange(0, skips0.len() as int) =~= skips0);
                    }
                },
            }
        }
        self.phase = Phase::ReleasingProfileList;
        Action::ReleaseProfileList
    }
}

/// Every successful list or document acquisition has been paired with
/// exactly one release by the time a run finishes.
pub proof fn lemma_releases_balanced(e: Engine)
    requires
        e.wf(),
        e.phase is Finished,
    ensures
        e.acquired@ == e.released@,
{
}

/// When the adapter loop has run to the release of its list, every adapter
/// of the returned list was visited, in returned order — and none more.
pub proof fn lemma_all_adapters_visited(e: Engine)
    requires
        e.wf(),
        e.phase is ReleasingAdapterList,
    ensures
        e.visited@ == ids(e.adapters@),
        e.visited@.len() == e.adapters@.len(),
        forall|k: int| 0 <= k < e.adapters@.len() ==> e.visited@[k] == e.adapters@[k].id,
{
}

} // verus!
