use vstd::prelude::*;
use vstd::seq_lib::*;
use crate::engine::{
    Action, AdapterRecord, DocumentOutcome, Engine, FatalError, Phase, ProfileRecord, ids,
};
use crate::wide::wide_copy;

verus! {

broadcast use vstd::seq::group_seq_axioms;

/// One adapter's recorded service behaviour: its enumeration record, the
/// outcome of listing its profiles, and the document-fetch outcomes for
/// that adapter, consumed from the front one fetch at a time.
pub struct AdapterScript {
    pub record: AdapterRecord,
    pub profiles: Result<Vec<ProfileRecord>, u32>,
    pub documents: Vec<DocumentOutcome>,
}

/// A whole run's recorded service behaviour.
pub struct Script {
    pub open_outcome: Result<(), FatalError>,
    pub adapters: Result<Vec<AdapterScript>, u32>,
}

/// The rank of a phase in the run's overall progress: later phases rank
/// lower, and the three loop levels are refined by the remaining-adapter,
/// remaining-profile and within-profile measures beside it.
pub open spec fn phase_major(p: Phase) -> int {
    match p {
        Phase::Start => 6,
        Phase::Opening => 5,
        Phase::ListingAdapters => 4,
        Phase::ListingProfiles => 3,
        Phase::FetchingDocument => 3,
        Phase::ReleasingDocument => 3,
        Phase::ReleasingProfileList => 3,
        Phase::ReleasingAdapterList => 2,
        Phase::Closing => 1,
        Phase::Finished => 0,
    }
}

/// How far the current adapter's processing has progressed, within one
/// position of the adapter loop.
pub open spec fn phase_minor(p: Phase) -> int {
    match p {
        Phase::ListingProfiles => 2,
        Phase::FetchingDocument => 1,
        Phase::ReleasingDocument => 1,
        Phase::ReleasingProfileList => 0,
        _ => 0,
    }
}

/// How far the current profile's processing has progressed, within one
/// position of the profile loop.
pub open spec fn phase_micro(p: Phase) -> int {
    match p {
        Phase::FetchingDocument => 2,
        Phase::ReleasingDocument => 1,
        _ => 0,
    }
}

/// The adapters the loop has still to pass.
pub open spec fn adapters_left(e: Engine) -> int {
    e.adapters@.len() - e.adapter_index
}

/// The adapter identifiers a script announces, in returned order.
pub open spec fn script_ids(list: Seq<AdapterScript>) -> Seq<u128> {
    list.map_values(|a: AdapterScript| a.record.id)
}

/// The profiles of the current adapter the loop has still to pass.
pub open spec fn profiles_left(e: Engine) -> int {
    e.profiles@.len() - e.profile_index
}

/// The action the engine hands out always names the phase it is waiting
/// in; the driver's dispatch relies on that correspondence.
pub open spec fn action_matches_phase(a: Action, e: Engine) -> bool {
    match a {
        Action::OpenSession => e.phase is Opening,
        Action::ListAdapters => e.phase is ListingAdapters,
        Action::ListProfiles { .. } => e.phase is ListingProfiles,
        Action::FetchDocument { .. } => e.phase is FetchingDocument,
        Action::ReleaseDocument => e.phase is ReleasingDocument,
        Action::ReleaseProfileList => e.phase is ReleasingProfileList,
        Action::ReleaseAdapterList => e.phase is ReleasingAdapterList,
        Action::CloseSession => e.phase is Closing,
        Action::Finish { .. } => e.phase is Finished,
    }
}

/// Drives the engine through one whole run against the recorded outcomes,
/// performing no service call itself: every run, whatever the script holds
/// and however the lists are shaped, comes to the finished phase with every
/// acquisition released, a failed session open recorded as the one fatal
/// outcome, a failed adapter enumeration recorded as the run's list
/// failure, and otherwise every announced adapter visited in returned
/// order. A script that runs short of recorded outcomes is answered with a
/// failed query, which the engine absorbs like any other.
pub fn run_script(path: Vec<Vec<u16>>, script: Script) -> (e: Engine)
    ensures
        e.wf(),
        e.phase is Finished,
        e.acquired@ == e.released@,
        script.open_outcome matches Err(f) ==> e.fatal == Some(f),
        script.open_outcome is Ok ==> (script.adapters matches Err(code) ==> e.list_failure
            == Some(code)),
        script.open_outcome is Ok ==> (script.adapters matches Ok(list) ==> {
            &&& e.fatal is None
            &&& e.list_failure is None
            &&& e.visited@ == script_ids(list@)
        }),
{
    let Script { open_outcome, adapters } = script;
    let mut pending: Vec<AdapterScript> = Vec::new();
    let mut adapters_outcome: Result<Vec<AdapterRecord>, u32> = Err(0);
    match adapters {
        Ok(list) => {
            pending = list;
            let mut records: Vec<AdapterRecord> = Vec::new();
            let mut i: usize = 0;
            while i < pending.len()
                invariant
                    i <= pending.len(),
                    records@.len() == i,
                    forall|k: int| 0 <= k < i ==> #[trigger] records@[k].id == pending@[k].record.id,
                decreases pending.len() - i,
            {
                records.push(AdapterRecord {
                    id: pending[i].record.id,
                    description: wide_copy(&pending[i].record.description),
                });
                i += 1;
            }
            proof {
                assert(ids(records@) =~= script_ids(pending@));
            }
            adapters_outcome = Ok(records);
        },
        Err(code) => {
            adapters_outcome = Err(code);
        },
    }
    let mut served: usize = 0;
    let mut documents: Vec<DocumentOutcome> = Vec::new();

    let mut engine = Engine::new(path);
    let mut action = engine.start();
    loop
        invariant
            engine.wf(),
            action_matches_phase(action, engine),
            open_outcome == script.open_outcome,
            script.open_outcome is Ok ==> engine.fatal is None,
            script.open_outcome matches Err(f) ==> engine.phase is Opening || (engine.phase
                is Finished && engine.fatal == Some(f)),
            (engine.phase is Opening || engine.phase is ListingAdapters) ==> match (
                script.adapters,
                adapters_outcome,
            ) {
                (Ok(list), Ok(records)) => ids(records@) == script_ids(list@),
                (Err(code), Err(code2)) => code2 == code,
                _ => false,
            },
            script.open_outcome is Ok ==> match script.adapters {
                Ok(list) => engine.list_failure is None && (engine.phase is Opening || engine.phase
                    is ListingAdapters || ids(engine.adapters@) == script_ids(list@)),
                Err(code) => engine.phase is Opening || engine.phase is ListingAdapters || ((
                engine.phase is Closing || engine.phase is Finished) && engine.list_failure == Some(
                    code,
                )),
            },
            (engine.phase is Closing || engine.phase is Finished) && engine.list_failure is None
                && engine.fatal is None ==> engine.visited@ == ids(engine.adapters@),
        decreases
            phase_major(engine.phase),
            adapters_left(engine),
            phase_minor(engine.phase),
            profiles_left(engine),
            phase_micro(engine.phase),
    {
        match action {
            Action::OpenSession => {
                action = engine.session_opened(open_outcome);
            },
            Action::ListAdapters => {
                let outcome = adapters_outcome;
                adapters_outcome = Err(0);
                action = engine.adapters_listed(outcome);
            },
            Action::ListProfiles { adapter_id: _ } => {
                let _bound: usize = engine.adapters.len();
                let target: usize = engine.adapter_index + 1;
                let mut outcome: Result<Vec<ProfileRecord>, u32> = Err(0);
                while served < target && pending.len() > 0
                    decreases pending.len(),
                {
                    let entry = pending.remove(0);
                    served = served + 1;
                    if served == target {
                        let AdapterScript { record: _, profiles, documents: docs } = entry;
                        outcome = profiles;
                        documents = docs;
                    }
                }
                action = engine.profiles_listed(outcome);
            },
            Action::FetchDocument { .. } => {
                let outcome = if documents.len() > 0 {
                    documents.remove(0)
                } else {
                    DocumentOutcome::QueryFailed(0)
                };
                action = engine.document_fetched(outcome);
            },
            Action::ReleaseDocument => {
                action = engine.released();
            },
            Action::ReleaseProfileList => {
                action = engine.released();
            },
            Action::ReleaseAdapterList => {
                action = engine.released();
            },
            Action::CloseSession => {
                action = engine.released();
            },
            Action::Finish { exit_code: _ } => {
                return engine;
            },
        }
    }
}

} // verus!
