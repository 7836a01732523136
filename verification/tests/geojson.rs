use std::io::Read;

use omics_export::geojson::{
    cell_polygons_json, encode_cell_layered_multipolygons, encode_cell_multipolygons, Coord,
    LayerGeometry,
};

fn c(x: &str, y: &str) -> Coord {
    Coord { x: x.to_string(), y: y.to_string() }
}

fn gunzip(bytes: &[u8]) -> String {
    let mut decoder = flate2::read::GzDecoder::new(bytes);
    let mut out = String::new();
    decoder.read_to_string(&mut out).unwrap();
    out
}

#[test]
fn empty_collection() {
    let s = cell_polygons_json(&vec![]);
    assert_eq!(s, "{\"type\":\"FeatureCollection\",\"features\":[]}");
    let v: serde_json::Value = serde_json::from_str(&s).unwrap();
    assert_eq!(v["features"].as_array().unwrap().len(), 0);
}

#[test]
fn single_feature_has_no_separators_at_ends() {
    let polys = vec![vec![vec![c("0", "0"), c("1.5", "0"), c("1.5", "2.25"), c("0", "0")]]];
    let s = cell_polygons_json(&polys);
    assert_eq!(
        s,
        "{\"type\":\"FeatureCollection\",\"features\":[\
         {\"type\":\"Feature\",\"properties\":{\"cell\":0},\
         \"geometry\":{\"type\":\"MultiPolygon\",\"coordinates\":\
         [[[[0,0],[1.5,0],[1.5,2.25],[0,0]]]]}}]}"
    );
}

#[test]
fn three_entities_mixed_polygon_counts_exact_separators() {
    // Entity 0: one polygon; entity 1: two polygons; entity 2: none.
    let polys = vec![
        vec![vec![c("1", "2"), c("3", "4")]],
        vec![vec![c("5", "6")], vec![c("7", "8"), c("9", "10")]],
        vec![],
    ];
    let s = cell_polygons_json(&polys);
    let expected = "{\"type\":\"FeatureCollection\",\"features\":[\
        {\"type\":\"Feature\",\"properties\":{\"cell\":0},\
        \"geometry\":{\"type\":\"MultiPolygon\",\"coordinates\":[[[[1,2],[3,4]]]]}},\
        {\"type\":\"Feature\",\"properties\":{\"cell\":1},\
        \"geometry\":{\"type\":\"MultiPolygon\",\"coordinates\":[[[[5,6]]],[[[7,8],[9,10]]]]}},\
        {\"type\":\"Feature\",\"properties\":{\"cell\":2},\
        \"geometry\":{\"type\":\"MultiPolygon\",\"coordinates\":[]}}\
        ]}";
    assert_eq!(s, expected);
    assert!(!s.contains(",]"));
    assert!(!s.contains(",}"));
    assert!(!s.contains("[,"));
    assert!(!s.contains("],]"));
    let v: serde_json::Value = serde_json::from_str(&s).unwrap();
    let features = v["features"].as_array().unwrap();
    assert_eq!(features.len(), 3);
    for (i, f) in features.iter().enumerate() {
        assert_eq!(f["properties"]["cell"].as_u64().unwrap(), i as u64);
    }
    // Coordinate values round-trip exactly.
    assert_eq!(
        features[1]["geometry"]["coordinates"][1][0][1],
        serde_json::from_str::<serde_json::Value>("[9,10]").unwrap()
    );
}

#[test]
fn compressed_document_matches_plain_document() {
    let polys = vec![
        vec![vec![c("0.125", "7"), c("2", "3")]],
        vec![],
        vec![vec![c("4", "5")]],
    ];
    let plain = cell_polygons_json(&polys);
    let gz = encode_cell_multipolygons(&polys);
    assert_eq!(gunzip(&gz), plain);
}

#[test]
fn layered_features_flatten_cell_layer_pairs() {
    let cells = vec![
        vec![
            LayerGeometry { layer: -1, polygons: vec![vec![c("1", "2")]] },
            LayerGeometry { layer: 3, polygons: vec![vec![c("4", "5"), c("6", "7")]] },
        ],
        vec![],
        vec![LayerGeometry { layer: 0, polygons: vec![] }],
    ];
    let gz = encode_cell_layered_multipolygons(&cells);
    let s = gunzip(&gz);
    let v: serde_json::Value = serde_json::from_str(&s).unwrap();
    let features = v["features"].as_array().unwrap();
    assert_eq!(features.len(), 3);
    assert_eq!(features[0]["properties"]["cell"].as_u64().unwrap(), 0);
    assert_eq!(features[0]["properties"]["layer"].as_i64().unwrap(), -1);
    assert_eq!(features[1]["properties"]["cell"].as_u64().unwrap(), 0);
    assert_eq!(features[1]["properties"]["layer"].as_i64().unwrap(), 3);
    assert_eq!(features[2]["properties"]["cell"].as_u64().unwrap(), 2);
    assert_eq!(features[2]["properties"]["layer"].as_i64().unwrap(), 0);
    assert_eq!(
        features[0]["geometry"]["coordinates"][0][0][0][0].as_i64().unwrap(),
        1
    );
    assert!(!s.contains(",]"));
    assert!(!s.contains(",}"));
}

#[test]
fn layered_empty_collection() {
    let gz = encode_cell_layered_multipolygons(&vec![]);
    let s = gunzip(&gz);
    assert_eq!(s, "{\"type\":\"FeatureCollection\",\"features\":[]}");
}

#[test]
fn many_entities_parse_and_round_trip() {
    let mut polys = Vec::new();
    for i in 0..50usize {
        let x = format!("{}", i as f32 * 0.5);
        polys.push(vec![vec![c(&x, "1"), c("2", &x)]]);
    }
    let s = cell_polygons_json(&polys);
    let v: serde_json::Value = serde_json::from_str(&s).unwrap();
    let features = v["features"].as_array().unwrap();
    assert_eq!(features.len(), 50);
    for (i, f) in features.iter().enumerate() {
        assert_eq!(f["properties"]["cell"].as_u64().unwrap(), i as u64);
        let x = f["geometry"]["coordinates"][0][0][0][0].as_f64().unwrap();
        assert_eq!(x as f32, i as f32 * 0.5);
    }
}
