//! Streaming GeoJSON encoding of per-cell multi-polygon geometry: a single
//! `FeatureCollection` document, emitted feature by feature through the
//! compressing sink, with a separator between consecutive siblings at every
//! nesting level and never after the last.
//!
//! Ordinates arrive as their decimal renderings, so the encoder performs no
//! floating-point arithmetic and round-trips coordinate text exactly.

use vstd::prelude::*;

use vstd::assert_seqs_equal;

use crate::codec::{gz_fed, gzip_of, GzSink};
use crate::num::{dec_chars, int_dec_chars, i32_dec_string, u64_dec_string};

verus! {

/// One 2-D vertex; each ordinate is carried as its decimal rendering.
pub struct Coord {
    pub x: String,
    pub y: String,
}

impl View for Coord {
    type V = (Seq<char>, Seq<char>);

    open spec fn view(&self) -> (Seq<char>, Seq<char>) {
        (self.x@, self.y@)
    }
}

impl DeepView for Coord {
    type V = (Seq<char>, Seq<char>);

    open spec fn deep_view(&self) -> (Seq<char>, Seq<char>) {
        (self.x@, self.y@)
    }
}

/// One layer of a cell's geometry: the layer id and the multi-polygon the
/// cell has on that layer.
pub struct LayerGeometry {
    pub layer: i32,
    pub polygons: Vec<Vec<Coord>>,
}

impl DeepView for LayerGeometry {
    type V = (int, Seq<Seq<(Seq<char>, Seq<char>)>>);

    open spec fn deep_view(&self) -> (int, Seq<Seq<(Seq<char>, Seq<char>)>>) {
        (self.layer as int, self.polygons.deep_view())
    }
}

/// `parts` joined with `sep` between consecutive elements and never at the
/// ends.
pub open spec fn join(sep: Seq<char>, parts: Seq<Seq<char>>) -> Seq<char>
    decreases parts.len(),
{
    if parts.len() == 0 {
        Seq::empty()
    } else if parts.len() == 1 {
        parts[0]
    } else {
        parts[0] + sep + join(sep, parts.drop_first())
    }
}

/// Joining one more part appends a separator first, except to nothing.
pub proof fn lemma_join_push(sep: Seq<char>, parts: Seq<Seq<char>>, last: Seq<char>)
    ensures
        join(sep, parts.push(last)) == if parts.len() == 0 {
            last
        } else {
            join(sep, parts) + sep + last
        },
    decreases parts.len(),
{
    if parts.len() == 0 {
        assert(parts.push(last)[0] == last);
        assert(join(sep, parts.push(last)) == last);
    } else {
        lemma_join_push(sep, parts.drop_first(), last);
        assert(parts.push(last).drop_first() =~= parts.drop_first().push(last));
        if parts.len() == 1 {
            assert(join(sep, parts.push(last)) == parts[0] + sep + join(
                sep,
                parts.drop_first().push(last),
            ));
            assert(join(sep, parts.drop_first().push(last)) == last);
        } else {
            assert(join(sep, parts) + sep + last =~= parts[0] + sep + (join(
                sep,
                parts.drop_first(),
            ) + sep + last));
        }
    }
}

/// The text of one coordinate pair: `[x,y]`.
pub open spec fn coord_text(c: (Seq<char>, Seq<char>)) -> Seq<char> {
    "["@ + c.0 + ","@ + c.1 + "]"@
}

/// The text of one exterior ring: its coordinates, joined.
pub open spec fn ring_text(ring: Seq<(Seq<char>, Seq<char>)>) -> Seq<char> {
    "["@ + join(","@, ring.map_values(|c: (Seq<char>, Seq<char>)| coord_text(c))) + "]"@
}

/// The text of one polygon: a single exterior ring, holes not encoded.
pub open spec fn polygon_text(ring: Seq<(Seq<char>, Seq<char>)>) -> Seq<char> {
    "["@ + ring_text(ring) + "]"@
}

/// The text of a multi-polygon's `coordinates` member.
pub open spec fn multipolygon_text(m: Seq<Seq<(Seq<char>, Seq<char>)>>) -> Seq<char> {
    "["@ + join(","@, m.map_values(|p: Seq<(Seq<char>, Seq<char>)>| polygon_text(p))) + "]"@
}

/// The text of one cell's feature.
pub open spec fn feature_text(cell: nat, m: Seq<Seq<(Seq<char>, Seq<char>)>>) -> Seq<char> {
    "{\"type\":\"Feature\",\"properties\":{\"cell\":"@ + dec_chars(cell)
        + "},\"geometry\":{\"type\":\"MultiPolygon\",\"coordinates\":"@ + multipolygon_text(m)
        + "}}"@
}

/// The text of one (cell, layer) feature of the layered variant.
pub open spec fn layered_feature_text(
    cell: nat,
    layer: int,
    m: Seq<Seq<(Seq<char>, Seq<char>)>>,
) -> Seq<char> {
    "{\"type\":\"Feature\",\"properties\":{\"cell\":"@ + dec_chars(cell) + ",\"layer\":"@
        + int_dec_chars(layer)
        + "},\"geometry\":{\"type\":\"MultiPolygon\",\"coordinates\":"@ + multipolygon_text(m)
        + "}}"@
}

/// The whole document for one multi-polygon per cell, cells in input order.
pub open spec fn geojson_text(features: Seq<Seq<Seq<(Seq<char>, Seq<char>)>>>) -> Seq<char> {
    "{\"type\":\"FeatureCollection\",\"features\":["@ + join(
        ","@,
        Seq::new(features.len(), |i: int| feature_text(i as nat, features[i])),
    ) + "]}"@
}

fn ring_string(ring: &Vec<Coord>) -> (s: String)
    ensures
        s@ == ring_text(ring.deep_view()),
{
    let ghost texts = ring.deep_view().map_values(|c: (Seq<char>, Seq<char>)| coord_text(c));
    let mut s = String::from_str("[");
    let mut i: usize = 0;
    while i < ring.len()
        invariant
            i <= ring@.len(),
            texts == ring.deep_view().map_values(|c: (Seq<char>, Seq<char>)| coord_text(c)),
            texts.len() == ring@.len(),
            s@ == "["@ + join(","@, texts.take(i as int)),
        decreases ring@.len() - i,
    {
        if i > 0 {
            s.append(",");
        }
        s.append("[");
        s.append(ring[i].x.as_str());
        s.append(",");
        s.append(ring[i].y.as_str());
        s.append("]");
        proof {
            lemma_join_push(","@, texts.take(i as int), texts[i as int]);
            assert(texts.take(i + 1) =~= texts.take(i as int).push(texts[i as int]));
            assert(texts[i as int] == coord_text(ring.deep_view()[i as int]));
            assert(s@ =~= "["@ + join(","@, texts.take(i + 1)));
        }
        i += 1;
    }
    s.append("]");
    proof {
        assert(texts.take(ring@.len() as int) =~= texts);
        assert(s@ =~= ring_text(ring.deep_view()));
    }
    s
}

fn multipolygon_string(m: &Vec<Vec<Coord>>) -> (s: String)
    ensures
        s@ == multipolygon_text(m.deep_view()),
{
    let ghost texts = m.deep_view().map_values(
        |p: Seq<(Seq<char>, Seq<char>)>| polygon_text(p),
    );
    let mut s = String::from_str("[");
    let mut i: usize = 0;
    while i < m.len()
        invariant
            i <= m@.len(),
            texts == m.deep_view().map_values(|p: Seq<(Seq<char>, Seq<char>)>| polygon_text(p)),
            texts.len() == m@.len(),
            s@ == "["@ + join(","@, texts.take(i as int)),
        decreases m@.len() - i,
    {
        if i > 0 {
            s.append(",");
        }
        s.append("[");
        let ring = ring_string(&m[i]);
        s.append(ring.as_str());
        s.append("]");
        proof {
            lemma_join_push(","@, texts.take(i as int), texts[i as int]);
            assert(texts.take(i + 1) =~= texts.take(i as int).push(texts[i as int]));
            assert(m.deep_view()[i as int] == m@[i as int].deep_view());
            assert(texts[i as int] == polygon_text(m.deep_view()[i as int]));
            assert(s@ =~= "["@ + join(","@, texts.take(i + 1)));
        }
        i += 1;
    }
    s.append("]");
    proof {
        assert(texts.take(m@.len() as int) =~= texts);
        assert(s@ =~= multipolygon_text(m.deep_view()));
    }
    s
}

fn feature_string(cell: u64, m: &Vec<Vec<Coord>>) -> (s: String)
    ensures
        s@ == feature_text(cell as nat, m.deep_view()),
{
    let mut s = String::from_str("{\"type\":\"Feature\",\"properties\":{\"cell\":");
    let id = u64_dec_string(cell);
    s.append(id.as_str());
    s.append("},\"geometry\":{\"type\":\"MultiPolygon\",\"coordinates\":");
    let coords = multipolygon_string(m);
    s.append(coords.as_str());
    s.append("}}");
    assert(s@ =~= feature_text(cell as nat, m.deep_view()));
    s
}

fn layered_feature_string(cell: u64, layer: i32, m: &Vec<Vec<Coord>>) -> (s: String)
    ensures
        s@ == layered_feature_text(cell as nat, layer as int, m.deep_view()),
{
    let mut s = String::from_str("{\"type\":\"Feature\",\"properties\":{\"cell\":");
    let id = u64_dec_string(cell);
    s.append(id.as_str());
    s.append(",\"layer\":");
    let lay = i32_dec_string(layer);
    s.append(lay.as_str());
    s.append("},\"geometry\":{\"type\":\"MultiPolygon\",\"coordinates\":");
    let coords = multipolygon_string(m);
    s.append(coords.as_str());
    s.append("}}");
    assert(s@ =~= layered_feature_text(cell as nat, layer as int, m.deep_view()));
    s
}

} // verus!

verus! {

/// The document text of the empty collection: an empty `features` array, no
/// separators at all.
pub proof fn lemma_geojson_empty()
    ensures
        geojson_text(Seq::empty()) == "{\"type\":\"FeatureCollection\",\"features\":["@ + "]}"@,
{
    assert(Seq::new(0, |i: int| feature_text(i as nat, Seq::empty()[i]))
        =~= Seq::<Seq<char>>::empty());
}

/// The document text of a single feature: no separators around it.
pub proof fn lemma_geojson_single(m: Seq<Seq<(Seq<char>, Seq<char>)>>)
    ensures
        geojson_text(seq![m]) == "{\"type\":\"FeatureCollection\",\"features\":["@ + feature_text(
            0,
            m,
        ) + "]}"@,
{
    let texts = Seq::new(seq![m].len(), |i: int| feature_text(i as nat, seq![m][i]));
    assert(texts.len() == 1);
    assert(join(","@, texts) == texts[0]);
    assert(texts[0] == feature_text(0, m));
}

/// Encodes one feature per cell as a `FeatureCollection` document, cells in
/// input order, each feature carrying its cell's index and its multi-polygon.
pub fn cell_polygons_json(polygons: &Vec<Vec<Vec<Coord>>>) -> (r: String)
    ensures
        r@ == geojson_text(polygons.deep_view()),
{
    let ghost texts = Seq::new(
        polygons.deep_view().len(),
        |i: int| feature_text(i as nat, polygons.deep_view()[i]),
    );
    let mut s = String::from_str("{\"type\":\"FeatureCollection\",\"features\":[");
    let mut i: usize = 0;
    while i < polygons.len()
        invariant
            i <= polygons@.len(),
            polygons.deep_view().len() == polygons@.len(),
            texts == Seq::new(
                polygons.deep_view().len(),
                |j: int| feature_text(j as nat, polygons.deep_view()[j]),
            ),
            s@ == "{\"type\":\"FeatureCollection\",\"features\":["@ + join(
                ","@,
                texts.take(i as int),
            ),
        decreases polygons@.len() - i,
    {
        if i > 0 {
            s.append(",");
        }
        let f = feature_string(i as u64, &polygons[i]);
        s.append(f.as_str());
        proof {
            lemma_join_push(","@, texts.take(i as int), texts[i as int]);
            assert(texts.take(i + 1) =~= texts.take(i as int).push(texts[i as int]));
            assert(polygons.deep_view()[i as int] == polygons@[i as int].deep_view());
            assert(s@ =~= "{\"type\":\"FeatureCollection\",\"features\":["@ + join(
                ","@,
                texts.take(i + 1),
            ));
        }
        i += 1;
    }
    s.append("]}");
    proof {
        assert(texts.take(polygons@.len() as int) =~= texts);
        assert(s@ =~= geojson_text(polygons.deep_view()));
    }
    s
}

/// Streams the `FeatureCollection` document for one multi-polygon per cell
/// through the compressing sink, one feature at a time; the result is the
/// gzip stream of exactly the document text's UTF-8 bytes.
pub fn encode_cell_multipolygons(polygons: &Vec<Vec<Vec<Coord>>>) -> (r: Vec<u8>)
    ensures
        r@ == gzip_of(vstd::utf8::encode_utf8(geojson_text(polygons.deep_view()))),
{
    let ghost texts = Seq::new(
        polygons.deep_view().len(),
        |i: int| feature_text(i as nat, polygons.deep_view()[i]),
    );
    let mut sink = GzSink::new();
    sink.push_str("{\"type\":\"FeatureCollection\",\"features\":[");
    let mut i: usize = 0;
    while i < polygons.len()
        invariant
            i <= polygons@.len(),
            polygons.deep_view().len() == polygons@.len(),
            texts == Seq::new(
                polygons.deep_view().len(),
                |j: int| feature_text(j as nat, polygons.deep_view()[j]),
            ),
            gz_fed(sink) == "{\"type\":\"FeatureCollection\",\"features\":["@ + join(
                ","@,
                texts.take(i as int),
            ),
        decreases polygons@.len() - i,
    {
        if i > 0 {
            sink.push_str(",");
        }
        let f = feature_string(i as u64, &polygons[i]);
        sink.push_str(f.as_str());
        proof {
            lemma_join_push(","@, texts.take(i as int), texts[i as int]);
            assert(texts.take(i + 1) =~= texts.take(i as int).push(texts[i as int]));
            assert(polygons.deep_view()[i as int] == polygons@[i as int].deep_view());
            assert(gz_fed(sink) =~= "{\"type\":\"FeatureCollection\",\"features\":["@ + join(
                ","@,
                texts.take(i + 1),
            ));
        }
        i += 1;
    }
    sink.push_str("]}");
    proof {
        assert(texts.take(polygons@.len() as int) =~= texts);
        assert(gz_fed(sink) =~= geojson_text(polygons.deep_view()));
    }
    sink.finish()
}

/// The (cell index, layer, multi-polygon) triples of a layered input, in
/// cell-then-layer order: the features of the layered document.
pub open spec fn flat_pairs(
    cells: Seq<Seq<(int, Seq<Seq<(Seq<char>, Seq<char>)>>)>>,
) -> Seq<(int, int, Seq<Seq<(Seq<char>, Seq<char>)>>)>
    decreases cells.len(),
{
    if cells.len() == 0 {
        Seq::empty()
    } else {
        flat_pairs(cells.drop_last()) + cells.last().map_values(
            |p: (int, Seq<Seq<(Seq<char>, Seq<char>)>>)|
                ((cells.len() - 1) as int, p.0, p.1),
        )
    }
}

/// The text of one flattened (cell, layer, multi-polygon) feature.
pub open spec fn flat_feature_text(t: (int, int, Seq<Seq<(Seq<char>, Seq<char>)>>)) -> Seq<char> {
    layered_feature_text(t.0 as nat, t.1, t.2)
}

/// The whole document of the layered variant: one feature per (cell, layer)
/// pair, cells in input order, a cell's layers in their given order.
pub open spec fn layered_geojson_text(
    cells: Seq<Seq<(int, Seq<Seq<(Seq<char>, Seq<char>)>>)>>,
) -> Seq<char> {
    "{\"type\":\"FeatureCollection\",\"features\":["@ + join(
        ","@,
        flat_pairs(cells).map_values(
            |t: (int, int, Seq<Seq<(Seq<char>, Seq<char>)>>)| flat_feature_text(t),
        ),
    ) + "]}"@
}

/// Streams the layered `FeatureCollection` through the compressing sink, one
/// (cell, layer) feature at a time; the result is the gzip stream of exactly
/// the document text's UTF-8 bytes.
pub fn encode_cell_layered_multipolygons(cells: &Vec<Vec<LayerGeometry>>) -> (r: Vec<u8>)
    ensures
        r@ == gzip_of(vstd::utf8::encode_utf8(layered_geojson_text(cells.deep_view()))),
{
    let mut sink = GzSink::new();
    sink.push_str("{\"type\":\"FeatureCollection\",\"features\":[");
    let mut first: bool = true;
    let mut c: usize = 0;
    while c < cells.len()
        invariant
            c <= cells@.len(),
            cells.deep_view().len() == cells@.len(),
            first <==> flat_pairs(cells.deep_view().take(c as int)).len() == 0,
            gz_fed(sink) == "{\"type\":\"FeatureCollection\",\"features\":["@ + join(
                ","@,
                flat_pairs(cells.deep_view().take(c as int)).map_values(
                    |t: (int, int, Seq<Seq<(Seq<char>, Seq<char>)>>)| flat_feature_text(t),
                ),
            ),
        decreases cells@.len() - c,
    {
        let ghost done = flat_pairs(cells.deep_view().take(c as int));
        let layers = &cells[c];
        let mut j: usize = 0;
        while j < layers.len()
            invariant
                j <= layers@.len(),
                c < cells@.len(),
                cells.deep_view().len() == cells@.len(),
                layers == &cells[c as int],
                layers.deep_view().len() == layers@.len(),
                done == flat_pairs(cells.deep_view().take(c as int)),
                cells.deep_view()[c as int] == layers.deep_view(),
                first <==> (done + layers.deep_view().take(j as int).map_values(
                    |p: (int, Seq<Seq<(Seq<char>, Seq<char>)>>)| (c as int, p.0, p.1),
                )).len() == 0,
                gz_fed(sink) == "{\"type\":\"FeatureCollection\",\"features\":["@ + join(
                    ","@,
                    (done + layers.deep_view().take(j as int).map_values(
                        |p: (int, Seq<Seq<(Seq<char>, Seq<char>)>>)| (c as int, p.0, p.1),
                    )).map_values(
                        |t: (int, int, Seq<Seq<(Seq<char>, Seq<char>)>>)| flat_feature_text(t),
                    ),
                ),
            decreases layers@.len() - j,
        {
            let ghost emitted = (done + layers.deep_view().take(j as int).map_values(
                |p: (int, Seq<Seq<(Seq<char>, Seq<char>)>>)| (c as int, p.0, p.1),
            )).map_values(
                |t: (int, int, Seq<Seq<(Seq<char>, Seq<char>)>>)| flat_feature_text(t),
            );
            if first {
                first = false;
            } else {
                sink.push_str(",");
            }
            let f = layered_feature_string(c as u64, layers[j].layer, &layers[j].polygons);
            sink.push_str(f.as_str());
            proof {
                let pair = (c as int, layers.deep_view()[j as int].0, layers.deep_view()[j as int].1);
                lemma_join_push(","@, emitted, flat_feature_text(pair));
                assert(layers.deep_view()[j as int] == layers@[j as int].deep_view());
                assert(layers.deep_view().take(j + 1) =~= layers.deep_view().take(j as int).push(
                    layers.deep_view()[j as int],
                ));
                assert((done + layers.deep_view().take(j + 1).map_values(
                    |p: (int, Seq<Seq<(Seq<char>, Seq<char>)>>)| (c as int, p.0, p.1),
                )) =~= (done + layers.deep_view().take(j as int).map_values(
                    |p: (int, Seq<Seq<(Seq<char>, Seq<char>)>>)| (c as int, p.0, p.1),
                )).push(pair));
                assert((done + layers.deep_view().take(j + 1).map_values(
                    |p: (int, Seq<Seq<(Seq<char>, Seq<char>)>>)| (c as int, p.0, p.1),
                )).map_values(
                    |t: (int, int, Seq<Seq<(Seq<char>, Seq<char>)>>)| flat_feature_text(t),
                ) =~= emitted.push(flat_feature_text(pair)));
                assert(f@ == flat_feature_text(pair));
                assert(gz_fed(sink) =~= "{\"type\":\"FeatureCollection\",\"features\":["@ + join(
                    ","@,
                    emitted.push(flat_feature_text(pair)),
                ));
            }
            j += 1;
        }
        proof {
            let taken = cells.deep_view().take(c + 1);
            assert(taken.drop_last() =~= cells.deep_view().take(c as int));
            assert(taken.last() == cells.deep_view()[c as int]);
            assert(flat_pairs(taken) == flat_pairs(cells.deep_view().take(c as int))
                + taken.last().map_values(
                |p: (int, Seq<Seq<(Seq<char>, Seq<char>)>>)| ((taken.len() - 1) as int, p.0, p.1),
            ));
            assert(taken.last().map_values(
                |p: (int, Seq<Seq<(Seq<char>, Seq<char>)>>)| ((taken.len() - 1) as int, p.0, p.1),
            ) =~= layers.deep_view().take(layers@.len() as int).map_values(
                |p: (int, Seq<Seq<(Seq<char>, Seq<char>)>>)| (c as int, p.0, p.1),
            ));
        }
        c += 1;
    }
    sink.push_str("]}");
    proof {
        assert(cells.deep_view().take(cells@.len() as int) =~= cells.deep_view());
    }
    sink.finish()
}

} // verus!

verus! {

/// The JSON value of one coordinate pair.
pub open spec fn coord_json(c: (Seq<char>, Seq<char>)) -> crate::json::JsonVal {
    crate::json::JsonVal::Arr(
        seq![crate::json::JsonVal::Num(c.0), crate::json::JsonVal::Num(c.1)],
    )
}

/// The JSON value of one exterior ring.
pub open spec fn ring_json(ring: Seq<(Seq<char>, Seq<char>)>) -> crate::json::JsonVal {
    crate::json::JsonVal::Arr(ring.map_values(|c: (Seq<char>, Seq<char>)| coord_json(c)))
}

/// The JSON value of one polygon: its exterior ring alone.
pub open spec fn polygon_json(ring: Seq<(Seq<char>, Seq<char>)>) -> crate::json::JsonVal {
    crate::json::JsonVal::Arr(seq![ring_json(ring)])
}

/// The JSON value of a multi-polygon's `coordinates` member.
pub open spec fn multipolygon_json(m: Seq<Seq<(Seq<char>, Seq<char>)>>) -> crate::json::JsonVal {
    crate::json::JsonVal::Arr(m.map_values(|p: Seq<(Seq<char>, Seq<char>)>| polygon_json(p)))
}

/// The JSON value of one cell's feature.
pub open spec fn feature_json(cell: nat, m: Seq<Seq<(Seq<char>, Seq<char>)>>) -> crate::json::JsonVal {
    crate::json::JsonVal::Obj(
        seq![
            ("type"@, crate::json::JsonVal::Str("Feature"@)),
            (
                "properties"@,
                crate::json::JsonVal::Obj(
                    seq![("cell"@, crate::json::JsonVal::Num(crate::num::dec_chars(cell)))],
                ),
            ),
            (
                "geometry"@,
                crate::json::JsonVal::Obj(
                    seq![
                        ("type"@, crate::json::JsonVal::Str("MultiPolygon"@)),
                        ("coordinates"@, multipolygon_json(m)),
                    ],
                ),
            ),
        ],
    )
}

/// The JSON value of the whole document.
pub open spec fn geojson_doc(features: Seq<Seq<Seq<(Seq<char>, Seq<char>)>>>) -> crate::json::JsonVal {
    crate::json::JsonVal::Obj(
        seq![
            ("type"@, crate::json::JsonVal::Str("FeatureCollection"@)),
            (
                "features"@,
                crate::json::JsonVal::Arr(
                    Seq::new(features.len(), |i: int| feature_json(i as nat, features[i])),
                ),
            ),
        ],
    )
}

proof fn lemma_render_items_join(items: Seq<crate::json::JsonVal>)
    ensures
        crate::json::render_items(items) == join(
            ","@,
            items.map_values(|v: crate::json::JsonVal| crate::json::render_json(v)),
        ),
    decreases items.len(),
{
    let parts = items.map_values(|v: crate::json::JsonVal| crate::json::render_json(v));
    if items.len() == 0 {
        assert(parts =~= Seq::<Seq<char>>::empty());
    } else if items.len() == 1 {
        assert(join(","@, parts) == parts[0]);
    } else {
        lemma_render_items_join(items.drop_first());
        assert(parts.drop_first() =~= items.drop_first().map_values(
            |v: crate::json::JsonVal| crate::json::render_json(v),
        ));
        assert(join(","@, parts) == parts[0] + ","@ + join(","@, parts.drop_first()));
    }
}

proof fn lemma_render_coord(c: (Seq<char>, Seq<char>))
    ensures
        crate::json::render_json(coord_json(c)) == coord_text(c),
{
    let items = seq![crate::json::JsonVal::Num(c.0), crate::json::JsonVal::Num(c.1)];
    let rest = items.drop_first();
    assert(rest =~= seq![crate::json::JsonVal::Num(c.1)]);
    assert(rest.len() == 1);
    assert(crate::json::render_items(rest) == crate::json::render_json(rest[0]));
    assert(crate::json::render_items(items) == crate::json::render_json(items[0]) + ","@
        + crate::json::render_items(rest));
    assert(crate::json::render_json(coord_json(c)) =~= coord_text(c));
}

proof fn lemma_render_ring(ring: Seq<(Seq<char>, Seq<char>)>)
    ensures
        crate::json::render_json(ring_json(ring)) == ring_text(ring),
{
    let items = ring.map_values(|c: (Seq<char>, Seq<char>)| coord_json(c));
    lemma_render_items_join(items);
    let mapped = items.map_values(|v: crate::json::JsonVal| crate::json::render_json(v));
    let target = ring.map_values(|c: (Seq<char>, Seq<char>)| coord_text(c));
    assert_seqs_equal!(mapped == target, i => {
        lemma_render_coord(ring[i]);
    });
}

proof fn lemma_render_polygon(ring: Seq<(Seq<char>, Seq<char>)>)
    ensures
        crate::json::render_json(polygon_json(ring)) == polygon_text(ring),
{
    lemma_render_ring(ring);
    let items = seq![ring_json(ring)];
    assert(crate::json::render_items(items) == crate::json::render_json(ring_json(ring)));
}

proof fn lemma_render_multipolygon(m: Seq<Seq<(Seq<char>, Seq<char>)>>)
    ensures
        crate::json::render_json(multipolygon_json(m)) == multipolygon_text(m),
{
    let items = m.map_values(|p: Seq<(Seq<char>, Seq<char>)>| polygon_json(p));
    lemma_render_items_join(items);
    let mapped = items.map_values(|v: crate::json::JsonVal| crate::json::render_json(v));
    let target = m.map_values(|p: Seq<(Seq<char>, Seq<char>)>| polygon_text(p));
    assert_seqs_equal!(mapped == target, i => {
        lemma_render_polygon(m[i]);
    });
}

proof fn lemma_render_feature(cell: nat, m: Seq<Seq<(Seq<char>, Seq<char>)>>)
    ensures
        crate::json::render_json(feature_json(cell, m)) == feature_text(cell, m),
{
    lemma_render_multipolygon(m);
    reveal_strlit("{\"type\":\"Feature\",\"properties\":{\"cell\":");
    reveal_strlit("},\"geometry\":{\"type\":\"MultiPolygon\",\"coordinates\":");
    reveal_strlit("}}");
    reveal_strlit("\"");
    reveal_strlit("\":");
    reveal_strlit(",");
    reveal_strlit("{");
    reveal_strlit("}");
    reveal_strlit("[");
    reveal_strlit("]");
    reveal_strlit("type");
    reveal_strlit("Feature");
    reveal_strlit("properties");
    reveal_strlit("cell");
    reveal_strlit("geometry");
    reveal_strlit("MultiPolygon");
    reveal_strlit("coordinates");
    let fields = match feature_json(cell, m) {
        crate::json::JsonVal::Obj(fs) => fs,
        _ => Seq::empty(),
    };
    assert(fields.len() == 3);
    let rest1 = fields.drop_first();
    let rest2 = rest1.drop_first();
    assert(rest2 =~= seq![fields[2]]);
    assert(rest1.len() == 2 && rest2.len() == 1);
    assert(rest1[0] == fields[1] && rest2[0] == fields[2]);
    assert(crate::json::render_fields(rest2) == crate::json::render_field(fields[2]));
    assert(crate::json::render_fields(rest1) == crate::json::render_field(fields[1]) + ","@
        + crate::json::render_fields(rest2));
    assert(crate::json::render_fields(fields) == crate::json::render_field(fields[0]) + ","@
        + crate::json::render_fields(rest1));
    let props = seq![("cell"@, crate::json::JsonVal::Num(crate::num::dec_chars(cell)))];
    assert(crate::json::render_fields(props) == crate::json::render_field(props[0]));
    let geo = seq![
        ("type"@, crate::json::JsonVal::Str("MultiPolygon"@)),
        ("coordinates"@, multipolygon_json(m)),
    ];
    let grest = geo.drop_first();
    assert(grest =~= seq![geo[1]]);
    assert(grest.len() == 1 && grest[0] == geo[1]);
    assert(crate::json::render_fields(grest) == crate::json::render_field(geo[1]));
    assert(crate::json::render_fields(geo) == crate::json::render_field(geo[0]) + ","@
        + crate::json::render_fields(grest));
    assert(crate::json::render_json(feature_json(cell, m)) =~= feature_text(cell, m));
}

/// GeoJSON validity: the document text is exactly the rendering of a JSON
/// value — an object whose `features` array holds, in input order, one
/// feature per cell carrying that cell's index and its coordinate text.
pub proof fn lemma_geojson_is_rendered_json(features: Seq<Seq<Seq<(Seq<char>, Seq<char>)>>>)
    ensures
        geojson_text(features) == crate::json::render_json(geojson_doc(features)),
{
    reveal_strlit("{\"type\":\"FeatureCollection\",\"features\":[");
    reveal_strlit("]}");
    reveal_strlit("\"");
    reveal_strlit("\":");
    reveal_strlit(",");
    reveal_strlit("{");
    reveal_strlit("}");
    reveal_strlit("[");
    reveal_strlit("]");
    reveal_strlit("type");
    reveal_strlit("FeatureCollection");
    reveal_strlit("features");
    let feats = Seq::new(features.len(), |i: int| feature_json(i as nat, features[i]));
    lemma_render_items_join(feats);
    let texts = Seq::new(features.len(), |i: int| feature_text(i as nat, features[i]));
    let mapped = feats.map_values(|v: crate::json::JsonVal| crate::json::render_json(v));
    assert_seqs_equal!(mapped == texts, i => {
        lemma_render_feature(i as nat, features[i]);
    });
    let fields = match geojson_doc(features) {
        crate::json::JsonVal::Obj(fs) => fs,
        _ => Seq::empty(),
    };
    let drest = fields.drop_first();
    assert(drest =~= seq![fields[1]]);
    assert(drest.len() == 1 && drest[0] == fields[1]);
    assert(crate::json::render_fields(drest) == crate::json::render_field(fields[1]));
    assert(crate::json::render_fields(fields) == crate::json::render_field(fields[0]) + ","@
        + crate::json::render_fields(drest));
    assert(crate::json::render_json(geojson_doc(features)) =~= geojson_text(features));
}

} // verus!

verus! {

/// The coordinate pair a coordinate JSON value denotes.
pub open spec fn coord_of_json(j: crate::json::JsonVal) -> (Seq<char>, Seq<char>) {
    match j {
        crate::json::JsonVal::Arr(items) => match (items[0], items[1]) {
            (crate::json::JsonVal::Num(x), crate::json::JsonVal::Num(y)) => (x, y),
            _ => (Seq::empty(), Seq::empty()),
        },
        _ => (Seq::empty(), Seq::empty()),
    }
}

/// The ring a ring JSON value denotes.
pub open spec fn ring_of_json(j: crate::json::JsonVal) -> Seq<(Seq<char>, Seq<char>)> {
    match j {
        crate::json::JsonVal::Arr(items) => items.map_values(
            |c: crate::json::JsonVal| coord_of_json(c),
        ),
        _ => Seq::empty(),
    }
}

/// The exterior ring a polygon JSON value denotes.
pub open spec fn polygon_of_json(j: crate::json::JsonVal) -> Seq<(Seq<char>, Seq<char>)> {
    match j {
        crate::json::JsonVal::Arr(items) => ring_of_json(items[0]),
        _ => Seq::empty(),
    }
}

/// The multi-polygon a `coordinates` JSON value denotes.
pub open spec fn multipolygon_of_json(j: crate::json::JsonVal) -> Seq<
    Seq<(Seq<char>, Seq<char>)>,
> {
    match j {
        crate::json::JsonVal::Arr(items) => items.map_values(
            |p: crate::json::JsonVal| polygon_of_json(p),
        ),
        _ => Seq::empty(),
    }
}

/// The cell id a feature JSON value carries, read back out of its digits.
pub open spec fn feature_cell_of_json(j: crate::json::JsonVal) -> int {
    match j {
        crate::json::JsonVal::Obj(fields) => match fields[1].1 {
            crate::json::JsonVal::Obj(props) => match props[0].1 {
                crate::json::JsonVal::Num(t) => crate::num::dec_value(t),
                _ => -1,
            },
            _ => -1,
        },
        _ => -1,
    }
}

/// The multi-polygon a feature JSON value carries.
pub open spec fn feature_multipolygon_of_json(j: crate::json::JsonVal) -> Seq<
    Seq<(Seq<char>, Seq<char>)>,
> {
    match j {
        crate::json::JsonVal::Obj(fields) => match fields[2].1 {
            crate::json::JsonVal::Obj(geo) => multipolygon_of_json(geo[1].1),
            _ => Seq::empty(),
        },
        _ => Seq::empty(),
    }
}

/// The feature list of a document JSON value.
pub open spec fn doc_features_of_json(j: crate::json::JsonVal) -> Seq<crate::json::JsonVal> {
    match j {
        crate::json::JsonVal::Obj(fields) => match fields[1].1 {
            crate::json::JsonVal::Arr(items) => items,
            _ => Seq::empty(),
        },
        _ => Seq::empty(),
    }
}

proof fn lemma_multipolygon_round_trip(m: Seq<Seq<(Seq<char>, Seq<char>)>>)
    ensures
        multipolygon_of_json(multipolygon_json(m)) == m,
{
    let back = multipolygon_of_json(multipolygon_json(m));
    assert_seqs_equal!(back == m, i => {
        let ring = m[i];
        let ring_back = ring_of_json(ring_json(ring));
        assert_seqs_equal!(ring_back == ring);
        assert(polygon_of_json(polygon_json(ring)) == ring_back);
    });
}

/// Round trip: reading the document's JSON value back yields, for every cell
/// in order, exactly its index and exactly its coordinate text — nothing is
/// normalized, scaled or reordered on the way to the file.
pub proof fn lemma_geojson_round_trip(features: Seq<Seq<Seq<(Seq<char>, Seq<char>)>>>)
    ensures
        doc_features_of_json(geojson_doc(features)).len() == features.len(),
        forall|i: int|
            0 <= i < features.len() ==> #[trigger] feature_cell_of_json(
                doc_features_of_json(geojson_doc(features))[i],
            ) == i,
        forall|i: int|
            0 <= i < features.len() ==> #[trigger] feature_multipolygon_of_json(
                doc_features_of_json(geojson_doc(features))[i],
            ) == features[i],
{
    assert(doc_features_of_json(geojson_doc(features)) =~= Seq::new(
        features.len(),
        |i: int| feature_json(i as nat, features[i]),
    ));
    assert forall|i: int| 0 <= i < features.len() implies #[trigger] feature_cell_of_json(
        doc_features_of_json(geojson_doc(features))[i],
    ) == i by {
        assert(doc_features_of_json(geojson_doc(features))[i] == feature_json(
            i as nat,
            features[i],
        ));
        crate::num::lemma_dec_chars_value(i as nat);
    }
    assert forall|i: int| 0 <= i < features.len() implies #[trigger] feature_multipolygon_of_json(
        doc_features_of_json(geojson_doc(features))[i],
    ) == features[i] by {
        assert(doc_features_of_json(geojson_doc(features))[i] == feature_json(
            i as nat,
            features[i],
        ));
        lemma_multipolygon_round_trip(features[i]);
    }
}

} // verus!

verus! {

/// The JSON value of one (cell, layer) feature of the layered variant.
pub open spec fn layered_feature_json(
    cell: nat,
    layer: int,
    m: Seq<Seq<(Seq<char>, Seq<char>)>>,
) -> crate::json::JsonVal {
    crate::json::JsonVal::Obj(
        seq![
            ("type"@, crate::json::JsonVal::Str("Feature"@)),
            (
                "properties"@,
                crate::json::JsonVal::Obj(
                    seq![
                        ("cell"@, crate::json::JsonVal::Num(crate::num::dec_chars(cell))),
                        ("layer"@, crate::json::JsonVal::Num(crate::num::int_dec_chars(layer))),
                    ],
                ),
            ),
            (
                "geometry"@,
                crate::json::JsonVal::Obj(
                    seq![
                        ("type"@, crate::json::JsonVal::Str("MultiPolygon"@)),
                        ("coordinates"@, multipolygon_json(m)),
                    ],
                ),
            ),
        ],
    )
}

proof fn lemma_render_layered_feature(cell: nat, layer: int, m: Seq<Seq<(Seq<char>, Seq<char>)>>)
    ensures
        crate::json::render_json(layered_feature_json(cell, layer, m)) == layered_feature_text(
            cell,
            layer,
            m,
        ),
{
    lemma_render_multipolygon(m);
    reveal_strlit("{\"type\":\"Feature\",\"properties\":{\"cell\":");
    reveal_strlit(",\"layer\":");
    reveal_strlit("},\"geometry\":{\"type\":\"MultiPolygon\",\"coordinates\":");
    reveal_strlit("}}");
    reveal_strlit("\"");
    reveal_strlit("\":");
    reveal_strlit(",");
    reveal_strlit("{");
    reveal_strlit("}");
    reveal_strlit("[");
    reveal_strlit("]");
    reveal_strlit("type");
    reveal_strlit("Feature");
    reveal_strlit("properties");
    reveal_strlit("cell");
    reveal_strlit("layer");
    reveal_strlit("geometry");
    reveal_strlit("MultiPolygon");
    reveal_strlit("coordinates");
    let fields = match layered_feature_json(cell, layer, m) {
        crate::json::JsonVal::Obj(fs) => fs,
        _ => Seq::empty(),
    };
    assert(fields.len() == 3);
    let rest1 = fields.drop_first();
    let rest2 = rest1.drop_first();
    assert(rest2 =~= seq![fields[2]]);
    assert(rest1.len() == 2 && rest2.len() == 1);
    assert(rest1[0] == fields[1] && rest2[0] == fields[2]);
    assert(crate::json::render_fields(rest2) == crate::json::render_field(fields[2]));
    assert(crate::json::render_fields(rest1) == crate::json::render_field(fields[1]) + ","@
        + crate::json::render_fields(rest2));
    assert(crate::json::render_fields(fields) == crate::json::render_field(fields[0]) + ","@
        + crate::json::render_fields(rest1));
    let props = seq![
        ("cell"@, crate::json::JsonVal::Num(crate::num::dec_chars(cell))),
        ("layer"@, crate::json::JsonVal::Num(crate::num::int_dec_chars(layer))),
    ];
    let prest = props.drop_first();
    assert(prest =~= seq![props[1]]);
    assert(prest.len() == 1 && prest[0] == props[1]);
    assert(crate::json::render_fields(prest) == crate::json::render_field(props[1]));
    assert(crate::json::render_fields(props) == crate::json::render_field(props[0]) + ","@
        + crate::json::render_fields(prest));
    let geo = seq![
        ("type"@, crate::json::JsonVal::Str("MultiPolygon"@)),
        ("coordinates"@, multipolygon_json(m)),
    ];
    let grest = geo.drop_first();
    assert(grest =~= seq![geo[1]]);
    assert(grest.len() == 1 && grest[0] == geo[1]);
    assert(crate::json::render_fields(grest) == crate::json::render_field(geo[1]));
    assert(crate::json::render_fields(geo) == crate::json::render_field(geo[0]) + ","@
        + crate::json::render_fields(grest));
    assert(crate::json::render_json(layered_feature_json(cell, layer, m)) =~= layered_feature_text(
        cell,
        layer,
        m,
    ));
}

/// The JSON value of the whole layered document: one feature per flattened
/// (cell, layer) pair, in cell-then-layer order.
pub open spec fn layered_geojson_doc(
    cells: Seq<Seq<(int, Seq<Seq<(Seq<char>, Seq<char>)>>)>>,
) -> crate::json::JsonVal {
    crate::json::JsonVal::Obj(
        seq![
            ("type"@, crate::json::JsonVal::Str("FeatureCollection"@)),
            (
                "features"@,
                crate::json::JsonVal::Arr(
                    flat_pairs(cells).map_values(
                        |t: (int, int, Seq<Seq<(Seq<char>, Seq<char>)>>)|
                            layered_feature_json(t.0 as nat, t.1, t.2),
                    ),
                ),
            ),
        ],
    )
}

/// Validity of the layered variant: its document text is exactly the
/// rendering of a JSON value with one feature per (cell, layer) pair.
pub proof fn lemma_layered_geojson_is_rendered_json(
    cells: Seq<Seq<(int, Seq<Seq<(Seq<char>, Seq<char>)>>)>>,
)
    ensures
        layered_geojson_text(cells) == crate::json::render_json(layered_geojson_doc(cells)),
{
    reveal_strlit("{\"type\":\"FeatureCollection\",\"features\":[");
    reveal_strlit("]}");
    reveal_strlit("\"");
    reveal_strlit("\":");
    reveal_strlit(",");
    reveal_strlit("{");
    reveal_strlit("}");
    reveal_strlit("[");
    reveal_strlit("]");
    reveal_strlit("type");
    reveal_strlit("FeatureCollection");
    reveal_strlit("features");
    let feats = flat_pairs(cells).map_values(
        |t: (int, int, Seq<Seq<(Seq<char>, Seq<char>)>>)|
            layered_feature_json(t.0 as nat, t.1, t.2),
    );
    lemma_render_items_join(feats);
    let texts = flat_pairs(cells).map_values(
        |t: (int, int, Seq<Seq<(Seq<char>, Seq<char>)>>)| flat_feature_text(t),
    );
    let mapped = feats.map_values(|v: crate::json::JsonVal| crate::json::render_json(v));
    assert_seqs_equal!(mapped == texts, i => {
        let t = flat_pairs(cells)[i];
        lemma_render_layered_feature(t.0 as nat, t.1, t.2);
    });
    let fields = match layered_geojson_doc(cells) {
        crate::json::JsonVal::Obj(fs) => fs,
        _ => Seq::empty(),
    };
    let drest = fields.drop_first();
    assert(drest =~= seq![fields[1]]);
    assert(drest.len() == 1 && drest[0] == fields[1]);
    assert(crate::json::render_fields(drest) == crate::json::render_field(fields[1]));
    assert(crate::json::render_fields(fields) == crate::json::render_field(fields[0]) + ","@
        + crate::json::render_fields(drest));
    assert(crate::json::render_json(layered_geojson_doc(cells)) =~= layered_geojson_text(cells));
}

/// The layer id a layered feature JSON value carries, sign included.
pub open spec fn feature_layer_of_json(j: crate::json::JsonVal) -> int {
    match j {
        crate::json::JsonVal::Obj(fields) => match fields[1].1 {
            crate::json::JsonVal::Obj(props) => match props[1].1 {
                crate::json::JsonVal::Num(t) => crate::num::int_dec_value(t),
                _ => 0,
            },
            _ => 0,
        },
        _ => 0,
    }
}

/// Round trip of one layered feature: its cell index, its layer id (sign
/// included) and its coordinate text are read back exactly.
pub proof fn lemma_layered_feature_round_trip(
    cell: nat,
    layer: int,
    m: Seq<Seq<(Seq<char>, Seq<char>)>>,
)
    ensures
        feature_cell_of_json(layered_feature_json(cell, layer, m)) == cell,
        feature_layer_of_json(layered_feature_json(cell, layer, m)) == layer,
        feature_multipolygon_of_json(layered_feature_json(cell, layer, m)) == m,
{
    crate::num::lemma_dec_chars_value(cell);
    crate::num::lemma_int_dec_chars_value(layer);
    lemma_multipolygon_round_trip(m);
}

} // verus!

verus! {

proof fn lemma_flat_pairs_cells(cells: Seq<Seq<(int, Seq<Seq<(Seq<char>, Seq<char>)>>)>>)
    ensures
        forall|k: int|
            0 <= k < flat_pairs(cells).len() ==> 0 <= (#[trigger] flat_pairs(cells)[k]).0
                < cells.len(),
    decreases cells.len(),
{
    if cells.len() > 0 {
        lemma_flat_pairs_cells(cells.drop_last());
        assert forall|k: int| 0 <= k < flat_pairs(cells).len() implies 0 <= (
        #[trigger] flat_pairs(cells)[k]).0 < cells.len() by {
            let prev = flat_pairs(cells.drop_last());
            if k < prev.len() {
                assert(flat_pairs(cells)[k] == prev[k]);
            }
        }
    }
}

/// Round trip of the whole layered document: its feature list has one entry
/// per flattened (cell, layer) pair, and reading any entry back yields
/// exactly that pair's cell index, layer id and coordinate text.
pub proof fn lemma_layered_geojson_round_trip(
    cells: Seq<Seq<(int, Seq<Seq<(Seq<char>, Seq<char>)>>)>>,
)
    ensures
        doc_features_of_json(layered_geojson_doc(cells)).len() == flat_pairs(cells).len(),
        forall|k: int|
            0 <= k < flat_pairs(cells).len() ==> #[trigger] feature_cell_of_json(
                doc_features_of_json(layered_geojson_doc(cells))[k],
            ) == flat_pairs(cells)[k].0,
        forall|k: int|
            0 <= k < flat_pairs(cells).len() ==> #[trigger] feature_layer_of_json(
                doc_features_of_json(layered_geojson_doc(cells))[k],
            ) == flat_pairs(cells)[k].1,
        forall|k: int|
            0 <= k < flat_pairs(cells).len() ==> #[trigger] feature_multipolygon_of_json(
                doc_features_of_json(layered_geojson_doc(cells))[k],
            ) == flat_pairs(cells)[k].2,
{
    lemma_flat_pairs_cells(cells);
    let feats = doc_features_of_json(layered_geojson_doc(cells));
    assert(feats =~= flat_pairs(cells).map_values(
        |t: (int, int, Seq<Seq<(Seq<char>, Seq<char>)>>)|
            layered_feature_json(t.0 as nat, t.1, t.2),
    ));
    assert forall|k: int| 0 <= k < flat_pairs(cells).len() implies #[trigger] feature_cell_of_json(
        doc_features_of_json(layered_geojson_doc(cells))[k],
    ) == flat_pairs(cells)[k].0 by {
        let t = flat_pairs(cells)[k];
        lemma_layered_feature_round_trip(t.0 as nat, t.1, t.2);
    }
    assert forall|k: int| 0 <= k < flat_pairs(cells).len() implies #[trigger] feature_layer_of_json(
        doc_features_of_json(layered_geojson_doc(cells))[k],
    ) == flat_pairs(cells)[k].1 by {
        let t = flat_pairs(cells)[k];
        lemma_layered_feature_round_trip(t.0 as nat, t.1, t.2);
    }
    assert forall|k: int|
        0 <= k < flat_pairs(cells).len() implies #[trigger] feature_multipolygon_of_json(
        doc_features_of_json(layered_geojson_doc(cells))[k],
    ) == flat_pairs(cells)[k].2 by {
        let t = flat_pairs(cells)[k];
        lemma_layered_feature_round_trip(t.0 as nat, t.1, t.2);
    }
}

} // verus!
