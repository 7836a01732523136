use omics_export::assemble::{
    cell_metadata_table, component_params_table, counts_table, expected_counts_table,
    gene_metadata_table, rates_table, transcript_metadata_table, voxels_table, TranscriptState,
    Voxel,
};
use omics_export::codec::encode_table;
use omics_export::format::OutputFormat;
use omics_export::vote::UNASSIGNED_FOV;

fn csv_text(t: omics_export::table::Table) -> String {
    let bytes = encode_table("t.csv", OutputFormat::Csv, t).unwrap();
    String::from_utf8(bytes).unwrap()
}

#[test]
fn counts_columns_are_named_by_gene() {
    let names = vec!["g1".to_string(), "g2".to_string()];
    let rows = vec![vec![1u32, 2, 3], vec![4u32, 5, 6]];
    let t = counts_table(&names, &rows);
    assert_eq!(csv_text(t), "g1,g2\n1,4\n2,5\n3,6\n");
}

#[test]
fn expected_counts_and_rates_render_floats() {
    let names = vec!["g1".to_string()];
    let rows = vec![vec![1.5f32.to_bits(), 0.25f32.to_bits()]];
    let t = expected_counts_table(&names, &rows);
    assert_eq!(csv_text(t), "g1\n1.5\n0.25\n");
    let t = rates_table(&names, &rows);
    assert_eq!(csv_text(t), "g1\n1.5\n0.25\n");
}

#[test]
fn component_params_layout() {
    let names = vec!["g1".to_string(), "g2".to_string()];
    let alpha = vec![vec![1.0f32.to_bits(), 2.0f32.to_bits()], vec![3.0f32.to_bits(), 4.0f32.to_bits()]];
    let beta = vec![vec![0.5f32.to_bits(), 0.5f32.to_bits()], vec![0.25f32.to_bits(), 8.0f32.to_bits()]];
    let t = component_params_table(&names, &alpha, &beta);
    assert_eq!(
        csv_text(t),
        "gene,\u{3b1}_0,\u{3b2}_0,\u{3b1}_1,\u{3b2}_1\ng1,1.0,0.5,3.0,0.25\ng2,2.0,0.5,4.0,8.0\n"
    );
}

#[test]
fn cell_metadata_layout_and_null_fov() {
    let x = vec![1.0f32.to_bits(), 2.0f32.to_bits()];
    let y = vec![3.0f32.to_bits(), 4.0f32.to_bits()];
    let z = vec![5.0f32.to_bits(), 6.0f32.to_bits()];
    // Two transcripts, both assigned to cell 0 in fov 1; cell 1 votes nothing.
    let assignments = vec![0u32, 0];
    let fovs = vec![1u32, 1];
    let fov_names = vec!["A".to_string(), "B".to_string()];
    let clusters = vec![7u16, 8];
    let volume = vec![0.5f32.to_bits(), 1.5f32.to_bits()];
    let populations = vec![10u64, 20];
    let (t, votes) = cell_metadata_table(
        &x, &y, &z, &assignments, &fovs, &fov_names, &clusters, &volume, &populations,
    );
    assert_eq!(votes, vec![1, UNASSIGNED_FOV]);
    assert_eq!(
        csv_text(t),
        "cell,centroid_x,centroid_y,centroid_z,fov,cluster,volume,population\n\
         0,1.0,3.0,5.0,B,7,0.5,10\n\
         1,2.0,4.0,6.0,,8,1.5,20\n"
    );
}

#[test]
fn transcript_metadata_layout() {
    let ids = vec![100u64];
    let b = |v: f32| vec![v.to_bits()];
    let t = transcript_metadata_table(
        &ids,
        &b(1.0),
        &b(2.0),
        &b(3.0),
        &b(4.0),
        &b(5.0),
        &b(6.0),
        &vec![0u32],
        &vec!["geneA".to_string()],
        &vec![0u32],
        &vec!["fov0".to_string()],
        &vec![9u32],
        &b(0.75),
        &vec![TranscriptState::Background],
    );
    assert_eq!(
        csv_text(t),
        "transcript_id,x,y,z,observed_x,observed_y,observed_z,gene,fov,assignment,probability,background,confusion\n\
         100,1.0,2.0,3.0,4.0,5.0,6.0,geneA,fov0,9,0.75,1,0\n"
    );
}

#[test]
fn gene_metadata_layout_and_totals() {
    let names = vec!["g1".to_string(), "g2".to_string()];
    let totals = vec![vec![1u32, 2, 3], vec![0u32, 0, 7]];
    let expected = vec![1.5f32.to_bits(), 2.5f32.to_bits()];
    let disp = vec![vec![1.0f32.to_bits(), 2.0f32.to_bits()]];
    let rates = vec![vec![3.0f32.to_bits(), 4.0f32.to_bits()]];
    let bg = vec![vec![5.0f32.to_bits(), 6.0f32.to_bits()]];
    let t = gene_metadata_table(&names, &totals, &expected, &disp, &rates, &bg);
    assert_eq!(
        csv_text(t),
        "gene,total_count,expected_assigned_count,dispersion_0,\u{3bb}_0,\u{3bb}_bg_0\n\
         g1,6,1.5,1.0,3.0,5.0\n\
         g2,7,2.5,2.0,4.0,6.0\n"
    );
}

#[test]
fn voxel_layout() {
    let voxels = vec![Voxel {
        cell: 3,
        x0: 0.0f32.to_bits(),
        y0: 1.0f32.to_bits(),
        z0: 2.0f32.to_bits(),
        x1: 3.0f32.to_bits(),
        y1: 4.0f32.to_bits(),
        z1: 5.0f32.to_bits(),
    }];
    let t = voxels_table(&voxels);
    assert_eq!(
        csv_text(t),
        "cell,x0,y0,z0,x1,y1,z1\n3,0.0,1.0,2.0,3.0,4.0,5.0\n"
    );
}
