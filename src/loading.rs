//! Loading a build page in the browser, one stage at a time: the caller runs
//! each stage and reports how it went; this module decides what comes next.
//! The "no data" marker is looked for before anything that assumes the page
//! has data.
use vstd::prelude::*;
use vstd::string::*;
use crate::champion_build::{check_build_page, no_data_text, opt_view};

verus! {

/// The stages of loading a build page, in order.
#[derive(Clone, Copy, Debug, PartialEq, Eq, Structural)]
pub enum LoadStage {
    /// Go to the page's address.
    Navigate,
    /// Look for the "no data" marker.
    ProbeNoData,
    /// Wait for the build panel.
    WaitForPanel,
    /// Wait for the active role filter.
    WaitForRole,
    /// Take the page's content.
    ReadContent,
}

/// What follows a stage.
pub enum LoadStep {
    /// Run this stage next.
    Run(LoadStage),
    /// Stop: the page is loaded, or loading failed with this message.
    Stop(Result<(), String>),
}

/// The view of an outcome that a stage reports: for the probe, whether the
/// marker was found; for the others, `Ok` or the failure's message.
pub open spec fn outcome_view(o: Result<bool, String>) -> Result<bool, Seq<char>> {
    match o {
        Ok(b) => Ok(b),
        Err(m) => Err(m@),
    }
}

/// What follows `stage` given its outcome: `Ok(stage)` to run next, or
/// `Err(result)` to stop with.
pub open spec fn next_stage(
    stage: LoadStage,
    outcome: Result<bool, Seq<char>>,
    champion1: Seq<char>,
    champion2: Option<Seq<char>>,
) -> Result<LoadStage, Result<(), Seq<char>>> {
    match stage {
        LoadStage::ProbeNoData => match outcome {
            Ok(true) => Err(Err(no_data_text(champion1, champion2))),
            _ => Ok(LoadStage::WaitForPanel),
        },
        _ => match outcome {
            Err(m) => Err(Err(m)),
            Ok(_) => match stage {
                LoadStage::Navigate => Ok(LoadStage::ProbeNoData),
                LoadStage::WaitForPanel => Ok(LoadStage::WaitForRole),
                LoadStage::WaitForRole => Ok(LoadStage::ReadContent),
                _ => Err(Ok(())),
            },
        },
    }
}

/// Decides what follows a stage of loading the build page of `champion1`
/// (against `champion2`): a failed stage stops the load with its message; a
/// probe that finds the "no data" marker stops it with a message that names
/// both champions; otherwise the next stage runs, and after the content is
/// read the page is loaded.
pub fn next_load_step(
    stage: LoadStage,
    outcome: Result<bool, String>,
    champion1: &str,
    champion2: Option<&str>,
) -> (r: LoadStep)
    ensures
        match next_stage(stage, outcome_view(outcome), champion1@, opt_view(champion2)) {
            Ok(s) => r == LoadStep::Run(s),
            Err(Ok(())) => r is Stop && r->Stop_0 is Ok,
            Err(Err(m)) => r is Stop && r->Stop_0 is Err && r->Stop_0->Err_0@ == m,
        },
{
    match stage {
        LoadStage::ProbeNoData => {
            let marker = match outcome {
                Ok(found) => found,
                Err(_) => false,
            };
            match check_build_page(champion1, champion2, marker) {
                Ok(()) => LoadStep::Run(LoadStage::WaitForPanel),
                Err(m) => LoadStep::Stop(Err(m)),
            }
        },
        _ => match outcome {
            Err(m) => LoadStep::Stop(Err(m)),
            Ok(_) => match stage {
                LoadStage::Navigate => LoadStep::Run(LoadStage::ProbeNoData),
                LoadStage::WaitForPanel => LoadStep::Run(LoadStage::WaitForRole),
                LoadStage::WaitForRole => LoadStep::Run(LoadStage::ReadContent),
                _ => LoadStep::Stop(Ok(())),
            },
        },
    }
}

/// The stages that a load starting at `stage` runs when they report the
/// given outcomes in turn, and what it stops with (`None` where the
/// outcomes run out first).
pub open spec fn load_run(
    stage: LoadStage,
    outcomes: Seq<Result<bool, Seq<char>>>,
    champion1: Seq<char>,
    champion2: Option<Seq<char>>,
) -> (Seq<LoadStage>, Option<Result<(), Seq<char>>>)
    decreases outcomes.len(),
{
    if outcomes.len() == 0 {
        (Seq::empty(), None)
    } else {
        match next_stage(stage, outcomes[0], champion1, champion2) {
            Err(result) => (seq![stage], Some(result)),
            Ok(next) => {
                let (rest, result) = load_run(next, outcomes.drop_first(), champion1, champion2);
                (seq![stage] + rest, result)
            },
        }
    }
}

/// A page that shows the "no data" marker stops the load right after the
/// probe, with the message that names both champions: no stage that
/// assumes data runs.
pub proof fn lemma_no_data_stops_before_extraction(
    outcomes: Seq<Result<bool, Seq<char>>>,
    champion1: Seq<char>,
    champion2: Option<Seq<char>>,
)
    requires
        outcomes.len() >= 2,
        outcomes[0] is Ok,
        outcomes[1] == Ok::<bool, Seq<char>>(true),
    ensures
        load_run(LoadStage::Navigate, outcomes, champion1, champion2) == (
            seq![LoadStage::Navigate, LoadStage::ProbeNoData],
            Some(Err::<(), Seq<char>>(no_data_text(champion1, champion2))),
        ),
{
    let rest = outcomes.drop_first();
    assert(rest[0] == outcomes[1]);
    assert(rest.len() > 0);
    assert(next_stage(LoadStage::Navigate, outcomes[0], champion1, champion2) == Ok::<
        LoadStage,
        Result<(), Seq<char>>,
    >(LoadStage::ProbeNoData));
    assert(load_run(LoadStage::ProbeNoData, rest, champion1, champion2) == (
        seq![LoadStage::ProbeNoData],
        Some(Err::<(), Seq<char>>(no_data_text(champion1, champion2))),
    ));
    assert(seq![LoadStage::Navigate] + seq![LoadStage::ProbeNoData] =~= seq![
        LoadStage::Navigate,
        LoadStage::ProbeNoData,
    ]);
}

/// The stages from `stage` to the end, in order.
pub open spec fn stages_from(stage: LoadStage) -> Seq<LoadStage> {
    match stage {
        LoadStage::Navigate => seq![
            LoadStage::Navigate,
            LoadStage::ProbeNoData,
            LoadStage::WaitForPanel,
            LoadStage::WaitForRole,
            LoadStage::ReadContent,
        ],
        LoadStage::ProbeNoData => seq![
            LoadStage::ProbeNoData,
            LoadStage::WaitForPanel,
            LoadStage::WaitForRole,
            LoadStage::ReadContent,
        ],
        LoadStage::WaitForPanel => seq![
            LoadStage::WaitForPanel,
            LoadStage::WaitForRole,
            LoadStage::ReadContent,
        ],
        LoadStage::WaitForRole => seq![LoadStage::WaitForRole, LoadStage::ReadContent],
        LoadStage::ReadContent => seq![LoadStage::ReadContent],
    }
}

proof fn lemma_success_runs_the_rest(
    stage: LoadStage,
    outcomes: Seq<Result<bool, Seq<char>>>,
    champion1: Seq<char>,
    champion2: Option<Seq<char>>,
)
    requires
        load_run(stage, outcomes, champion1, champion2).1 == Some(Ok::<(), Seq<char>>(())),
    ensures
        outcomes.len() >= stages_from(stage).len(),
        load_run(stage, outcomes, champion1, champion2).0 == stages_from(stage),
        stage == LoadStage::ProbeNoData ==> outcomes[0] != Ok::<bool, Seq<char>>(true),
        stage == LoadStage::Navigate ==> outcomes[1] != Ok::<bool, Seq<char>>(true),
    decreases outcomes.len(),
{
    assert(outcomes.len() > 0);
    match next_stage(stage, outcomes[0], champion1, champion2) {
        Err(_) => {
            assert(seq![stage] =~= stages_from(stage));
        },
        Ok(next) => {
            let rest = outcomes.drop_first();
            lemma_success_runs_the_rest(next, rest, champion1, champion2);
            assert(seq![stage] + stages_from(next) =~= stages_from(stage));
            if stage == LoadStage::Navigate {
                assert(rest[0] == outcomes[1]);
            }
        },
    }
}

/// A load that succeeds has run every stage once, in order, and its probe
/// did not find the "no data" marker.
pub proof fn lemma_loaded_page_passed_probe(
    outcomes: Seq<Result<bool, Seq<char>>>,
    champion1: Seq<char>,
    champion2: Option<Seq<char>>,
)
    requires
        load_run(LoadStage::Navigate, outcomes, champion1, champion2).1 == Some(
            Ok::<(), Seq<char>>(()),
        ),
    ensures
        outcomes.len() >= 5,
        outcomes[1] != Ok::<bool, Seq<char>>(true),
        load_run(LoadStage::Navigate, outcomes, champion1, champion2).0 == stages_from(
            LoadStage::Navigate,
        ),
{
    lemma_success_runs_the_rest(LoadStage::Navigate, outcomes, champion1, champion2);
}

} // verus!
