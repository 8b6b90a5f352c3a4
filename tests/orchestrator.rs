use spatialshot_installer::orchestrator::{components, next_stage, temp_archive_name, Installer, Stage};

#[test]
fn successful_run_visits_stages_in_order() {
    let mut inst = Installer::new(vec!["kernel".to_string(), "engine".to_string(), "app".to_string()]);
    let mut seen = vec![inst.stage];
    while inst.stage != Stage::Complete {
        inst.advance(true);
        seen.push(inst.stage);
    }
    assert_eq!(
        seen,
        vec![
            Stage::ResolvePath,
            Stage::Nuke,
            Stage::Download(0),
            Stage::Extract(0),
            Stage::Download(1),
            Stage::Extract(1),
            Stage::Download(2),
            Stage::Extract(2),
            Stage::Finalize,
            Stage::Complete,
        ]
    );
    assert_eq!(seen.iter().filter(|s| **s == Stage::Finalize).count(), 1);
}

#[test]
fn failure_ends_the_run() {
    assert_eq!(next_stage(Stage::Nuke, false, 3), Stage::Failed);
    assert_eq!(next_stage(Stage::Download(1), false, 3), Stage::Failed);
    assert_eq!(next_stage(Stage::Failed, true, 3), Stage::Failed);
    assert_eq!(next_stage(Stage::Complete, false, 3), Stage::Complete);
    let mut inst = Installer::new(vec!["kernel".to_string()]);
    inst.advance(true);
    inst.advance(true);
    inst.advance(false);
    assert_eq!(inst.stage, Stage::Failed);
    inst.advance(true);
    assert_eq!(inst.stage, Stage::Failed);
}

#[test]
fn no_components_goes_straight_to_finalize() {
    assert_eq!(next_stage(Stage::Nuke, true, 0), Stage::Finalize);
    assert_eq!(next_stage(Stage::Extract(0), true, 1), Stage::Finalize);
    assert_eq!(next_stage(Stage::Finalize, true, 1), Stage::Complete);
}

#[test]
fn component_list_and_temp_names() {
    assert_eq!(components(), vec!["kernel", "engine", "spatialshot"]);
    assert_eq!(temp_archive_name("engine"), "spatialshot-engine.zip");
}
