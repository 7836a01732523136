//! A minimal JSON value model and its compact rendering. The GeoJSON
//! encoder's document text is proved equal to the rendering of such a value,
//! so the emitted text is JSON by construction, not by inspection.

use vstd::prelude::*;

verus! {

/// A JSON value: a number (carried as its already-rendered text), a string,
/// an array, or an object with ordered fields.
pub enum JsonVal {
    Num(Seq<char>),
    Str(Seq<char>),
    Arr(Seq<JsonVal>),
    Obj(Seq<(Seq<char>, JsonVal)>),
}

/// The compact rendering of a JSON value: no whitespace, a comma between
/// consecutive siblings and never at the ends.
pub open spec fn render_json(v: JsonVal) -> Seq<char>
    decreases v,
{
    match v {
        JsonVal::Num(t) => t,
        JsonVal::Str(t) => "\""@ + t + "\""@,
        JsonVal::Arr(items) => "["@ + render_items(items) + "]"@,
        JsonVal::Obj(fields) => "{"@ + render_fields(fields) + "}"@,
    }
}

/// The joined renderings of an array's items.
pub open spec fn render_items(items: Seq<JsonVal>) -> Seq<char>
    decreases items,
{
    if items.len() == 0 {
        Seq::empty()
    } else if items.len() == 1 {
        render_json(items[0])
    } else {
        render_json(items[0]) + ","@ + render_items(items.drop_first())
    }
}

/// The joined renderings of an object's fields, each `"name":value`.
pub open spec fn render_fields(fields: Seq<(Seq<char>, JsonVal)>) -> Seq<char>
    decreases fields,
{
    if fields.len() == 0 {
        Seq::empty()
    } else if fields.len() == 1 {
        render_field(fields[0])
    } else {
        render_field(fields[0]) + ","@ + render_fields(fields.drop_first())
    }
}

/// One object field: the quoted name, a colon, the value.
pub open spec fn render_field(f: (Seq<char>, JsonVal)) -> Seq<char>
    decreases f,
{
    "\""@ + f.0 + "\":"@ + render_json(f.1)
}

} // verus!
