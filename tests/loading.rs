use lol_bot::champion_build::build_error_output;
use lol_bot::loading::{next_load_step, LoadStage, LoadStep};
use lol_bot::output::Accent;

fn run(outcomes: Vec<Result<bool, String>>, champion1: &str, champion2: Option<&str>) -> (Vec<LoadStage>, Option<Result<(), String>>) {
    let mut stage = LoadStage::Navigate;
    let mut ran = Vec::new();
    for outcome in outcomes {
        ran.push(stage);
        match next_load_step(stage, outcome, champion1, champion2) {
            LoadStep::Run(next) => stage = next,
            LoadStep::Stop(result) => return (ran, Some(result)),
        }
    }
    (ran, None)
}

#[test]
fn no_data_marker_stops_before_extraction() {
    let (ran, result) = run(vec![Ok(true), Ok(true), Ok(true), Ok(true), Ok(true)], "Aatrox", Some("Camille"));
    assert_eq!(ran, vec![LoadStage::Navigate, LoadStage::ProbeNoData]);
    let message = result.unwrap().unwrap_err();
    assert_eq!(message, "No data found for Aatrox vs. Camille");
    let out = build_error_output("Aatrox", &message);
    assert_eq!(out.title, "Error fetching build for Aatrox");
    assert_eq!(out.color, Accent::DarkRed);
}

#[test]
fn page_with_data_runs_every_stage() {
    let (ran, result) = run(vec![Ok(true), Ok(false), Ok(true), Ok(true), Ok(true)], "Aatrox", None);
    assert_eq!(ran, vec![
        LoadStage::Navigate,
        LoadStage::ProbeNoData,
        LoadStage::WaitForPanel,
        LoadStage::WaitForRole,
        LoadStage::ReadContent,
    ]);
    assert_eq!(result, Some(Ok(())));
}

#[test]
fn probe_that_times_out_counts_as_no_marker() {
    let (ran, _) = run(vec![Ok(true), Err("timeout".to_string()), Ok(true)], "Aatrox", None);
    assert_eq!(ran, vec![LoadStage::Navigate, LoadStage::ProbeNoData, LoadStage::WaitForPanel]);
}

#[test]
fn missing_panel_stops_with_its_failure() {
    let (ran, result) = run(vec![Ok(true), Ok(false), Err("element not found".to_string())], "Aatrox", None);
    assert_eq!(ran.len(), 3);
    assert_eq!(result, Some(Err("element not found".to_string())));
}

#[test]
fn failed_navigation_stops_at_once() {
    let (ran, result) = run(vec![Err("net".to_string())], "Aatrox", None);
    assert_eq!(ran, vec![LoadStage::Navigate]);
    assert_eq!(result, Some(Err("net".to_string())));
}
