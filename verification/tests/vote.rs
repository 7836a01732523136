use omics_export::vote::{cell_fov_vote, BACKGROUND_CELL, UNASSIGNED_FOV};

#[test]
fn majority_wins_and_missing_cell_gets_sentinel() {
    let cells = vec![0u32, 0, 1];
    let fovs = vec![5u32, 5, 7];
    let r = cell_fov_vote(3, 8, &cells, &fovs);
    assert_eq!(r, vec![5, 7, UNASSIGNED_FOV]);
}

#[test]
fn tie_breaks_to_lower_fov_index() {
    let cells = vec![0u32, 0, 0, 0, 0, 0];
    let fovs = vec![2u32, 2, 2, 1, 1, 1];
    let r = cell_fov_vote(1, 3, &cells, &fovs);
    assert_eq!(r, vec![1]);
}

#[test]
fn background_assignments_cast_no_votes() {
    let cells = vec![BACKGROUND_CELL, BACKGROUND_CELL, 0];
    let fovs = vec![1u32, 1, 0];
    let r = cell_fov_vote(1, 2, &cells, &fovs);
    assert_eq!(r, vec![0]);
}

#[test]
fn no_transcripts_at_all() {
    let r = cell_fov_vote(2, 4, &vec![], &vec![]);
    assert_eq!(r, vec![UNASSIGNED_FOV, UNASSIGNED_FOV]);
}
