use lcmods::resolver::{get_lc_paths, select_target};
use lcmods::ui::{report_lines, DeployOutcome};

#[test]
fn three_candidates_per_volume_in_priority_order() {
    let paths = get_lc_paths(&vec!['C', 'D']);
    assert_eq!(
        paths,
        vec![
            "C:/Program Files (x86)/Steam/steamapps/common/Lethal Company".to_string(),
            "C:/Program Files/Steam/steamapps/common/Lethal Company".to_string(),
            "C:/SteamLibrary/steamapps/common/Lethal Company".to_string(),
            "D:/Program Files (x86)/Steam/steamapps/common/Lethal Company".to_string(),
            "D:/Program Files/Steam/steamapps/common/Lethal Company".to_string(),
            "D:/SteamLibrary/steamapps/common/Lethal Company".to_string(),
        ]
    );
}

#[test]
fn scenario_only_library_root_exists() {
    let paths = get_lc_paths(&vec!['C']);
    assert_eq!(paths.len(), 3);
    let exists = vec![false, false, true];
    let found = select_target(&paths, &exists);
    assert_eq!(found, Some(2));
    assert_eq!(paths[2], "C:/SteamLibrary/steamapps/common/Lethal Company");
}

#[test]
fn scenario_no_volumes() {
    let paths = get_lc_paths(&vec![]);
    assert!(paths.is_empty());
    let found = select_target(&paths, &vec![]);
    assert_eq!(found, None);
    let lines = report_lines(&DeployOutcome::NoTargetFound(paths));
    assert_eq!(
        lines,
        vec!["Unable to find Lethal Company installation. Paths attempted:".to_string()]
    );
}

#[test]
fn first_existing_candidate_wins() {
    let paths = get_lc_paths(&vec!['C', 'D']);
    let exists = vec![false, true, true, false, true, false];
    assert_eq!(select_target(&paths, &exists), Some(1));
}
