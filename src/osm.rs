//! Points of interest: the raw records a map provider returns, their
//! normalization into `Element`s, and the directional filter over them.
use vstd::prelude::*;
use crate::geo::{in_cone, is_within_cone, CONE_WIDTH};

verus! {

/// A position in micro-degrees: `latitude` in `[-90, 90]` degrees,
/// `longitude` in `[-180, 180]` degrees.
#[derive(Debug, Clone, Copy, PartialEq, Eq, Structural)]
pub struct Location {
    pub latitude: i64,
    pub longitude: i64,
}

/// The names of a point of interest. An alias equal to `name` is never kept.
#[derive(Debug, Clone)]
pub struct Names {
    pub name: String,
    pub alt_name: Option<String>,
    pub old_name: Option<String>,
}

/// A normalized point of interest.
#[derive(Debug, Clone)]
pub struct Element {
    /// Kind of the source record (point, way or area); carried through.
    pub elem_type: String,
    /// Provider identifier, unique within one provider response.
    pub id: i64,
    pub location: Location,
    pub names: Names,
    /// Provider metadata as key/value pairs; a lookup takes the first pair
    /// with the key.
    pub tags: Vec<(String, String)>,
}

/// Where a raw record keeps its coordinates: directly, or as the centroid of
/// an area.
#[derive(Debug, Clone, Copy, PartialEq, Eq, Structural)]
pub enum LocationData {
    Direct(Location),
    Nested(Location),
}

/// A record as the provider returns it; any part of it may be missing.
#[derive(Debug, Clone)]
pub struct RawElement {
    pub elem_type: String,
    pub id: i64,
    pub tags: Option<Vec<(String, String)>>,
    pub location_data: Option<LocationData>,
}

/// The value of the first tag whose key is `key`.
pub open spec fn tag_lookup(tags: Seq<(String, String)>, key: Seq<char>) -> Option<String>
    decreases tags.len(),
{
    if tags.len() == 0 {
        None
    } else if tags[0].0@ == key {
        Some(tags[0].1)
    } else {
        tag_lookup(tags.drop_first(), key)
    }
}

/// An alias, unless it repeats the name.
pub open spec fn distinct_alias(alias: Option<String>, name: String) -> Option<String> {
    if alias is Some && alias->0@ == name@ {
        None
    } else {
        alias
    }
}

/// The coordinates a record resolves to, whichever shape it has.
pub open spec fn resolved(d: LocationData) -> Location {
    match d {
        LocationData::Direct(l) => l,
        LocationData::Nested(l) => l,
    }
}

/// The element a raw record becomes, or `None` when it lacks coordinates,
/// tags, or a non-empty `name` tag.
pub open spec fn normalized(raw: RawElement) -> Option<Element> {
    if raw.location_data is None || raw.tags is None {
        None
    } else {
        let tags = raw.tags->0;
        let name = tag_lookup(tags@, "name"@);
        if name is None || name->0@.len() == 0 {
            None
        } else {
            Some(
                Element {
                    elem_type: raw.elem_type,
                    id: raw.id,
                    location: resolved(raw.location_data->0),
                    names: Names {
                        name: name->0,
                        alt_name: distinct_alias(tag_lookup(tags@, "alt_name"@), name->0),
                        old_name: distinct_alias(tag_lookup(tags@, "old_name"@), name->0),
                    },
                    tags: tags,
                },
            )
        }
    }
}

/// The elements of a sequence of raw records, in order, incomplete records
/// left out.
pub open spec fn normalized_all(raws: Seq<RawElement>) -> Seq<Element>
    decreases raws.len(),
{
    if raws.len() == 0 {
        Seq::empty()
    } else {
        let n = raws.len() - 1;
        let rest = normalized_all(raws.take(n));
        match normalized(raws[n]) {
            Some(e) => rest.push(e),
            None => rest,
        }
    }
}

/// The elements whose bearing (paired by position in `bearings`) lies in the
/// cone around `target`, in order.
pub open spec fn in_direction(elements: Seq<Element>, bearings: Seq<i64>, target: int) -> Seq<Element>
    decreases elements.len(),
{
    if elements.len() == 0 {
        Seq::empty()
    } else {
        let n = elements.len() - 1;
        let rest = in_direction(elements.take(n), bearings.take(n), target);
        if in_cone(bearings[n] as int, target, CONE_WIDTH as int) {
            rest.push(elements[n])
        } else {
            rest
        }
    }
}

/// What normalization guarantees of each record: one without a `name` tag
/// gives no element; an element has a non-empty name and no alias equal to
/// it; a record with only a centroid takes the centroid's coordinates.
pub proof fn lemma_normalization_rules(raw: RawElement)
    ensures
        raw.tags is Some && tag_lookup(raw.tags->0@, "name"@) is None ==> normalized(raw) is None,
        raw.tags is None || raw.location_data is None ==> normalized(raw) is None,
        normalized(raw) matches Some(e) ==> {
            &&& e.names.name@.len() > 0
            &&& e.names.alt_name matches Some(a) ==> a@ != e.names.name@
            &&& e.names.old_name matches Some(o) ==> o@ != e.names.name@
            &&& e.id == raw.id
        },
        raw.location_data is Some && raw.location_data->0 is Nested && normalized(raw) is Some
            ==> normalized(raw)->0.location == raw.location_data->0->Nested_0,
{
}

/// The value of the first tag whose key is `key`.
pub fn find_tag(tags: &Vec<(String, String)>, key: &String) -> (r: Option<String>)
    ensures
        r == tag_lookup(tags@, key@),
{
    let mut i: usize = 0;
    assert(tags@.subrange(0, tags@.len() as int) =~= tags@);
    while i < tags.len()
        invariant
            i <= tags@.len(),
            tag_lookup(tags@, key@) == tag_lookup(tags@.subrange(i as int, tags@.len() as int), key@),
        decreases tags.len() - i,
    {
        let ghost rest = tags@.subrange(i as int, tags@.len() as int);
        assert(rest.drop_first() =~= tags@.subrange(i + 1, tags@.len() as int));
        if tags[i].0 == *key {
            return Some(tags[i].1.clone());
        }
        i = i + 1;
    }
    None
}

/// Drops an alias that repeats the name.
fn without_repeat(alias: Option<String>, name: &String) -> (r: Option<String>)
    ensures
        r == distinct_alias(alias, *name),
{
    match alias {
        Some(a) => {
            if a == *name {
                None
            } else {
                Some(a)
            }
        },
        None => None,
    }
}

/// The coordinates a record resolves to.
pub fn resolve_location(d: LocationData) -> (r: Location)
    ensures
        r == resolved(d),
{
    match d {
        LocationData::Direct(l) => l,
        LocationData::Nested(l) => l,
    }
}

/// Turns one raw record into an element; `None` when it lacks coordinates,
/// tags, or a non-empty `name` tag.
pub fn normalize_element(raw: RawElement) -> (r: Option<Element>)
    ensures
        r == normalized(raw),
{
    let ghost orig = raw;
    let RawElement { elem_type, id, tags, location_data } = raw;
    let data = match location_data {
        Some(d) => d,
        None => return None,
    };
    let tags = match tags {
        Some(t) => t,
        None => return None,
    };
    let name_key = "name".to_string();
    let alt_key = "alt_name".to_string();
    let old_key = "old_name".to_string();
    proof {
        reveal_strlit("name");
        reveal_strlit("alt_name");
        reveal_strlit("old_name");
    }
    let name = match find_tag(&tags, &name_key) {
        Some(n) => n,
        None => return None,
    };
    if name.as_str().is_empty() {
        return None;
    }
    let alt_name = without_repeat(find_tag(&tags, &alt_key), &name);
    let old_name = without_repeat(find_tag(&tags, &old_key), &name);
    Some(
        Element {
            elem_type,
            id,
            location: resolve_location(data),
            names: Names { name, alt_name, old_name },
            tags,
        },
    )
}

/// Normalizes a provider response: each complete record becomes an element,
/// in provider order; incomplete records are left out.
pub fn normalize_elements(raws: Vec<RawElement>) -> (r: Vec<Element>)
    ensures
        r@ == normalized_all(raws@),
{
    let ghost all = raws@;
    let mut out: Vec<Element> = Vec::new();
    for raw in it: raws.into_iter()
        invariant
            it.seq() == all,
            out@ == normalized_all(all.take(it.index() as int)),
    {
        let ghost k = it.index() as int;
        assert(all.take(k + 1).take(k) =~= all.take(k));
        match normalize_element(raw) {
            Some(e) => out.push(e),
            None => {},
        }
    }
    assert(all.take(all.len() as int) =~= all);
    out
}

/// Keeps the elements whose bearing from the search centre, given for each
/// element at the same position in `bearings`, lies within the cone of width
/// `CONE_WIDTH` around `bearing`; order is kept.
pub fn filter_by_bearing(elements: Vec<Element>, bearings: &Vec<i64>, bearing: i64) -> (r: Vec<Element>)
    requires
        bearings@.len() == elements@.len(),
    ensures
        r@ == in_direction(elements@, bearings@, bearing as int),
{
    let ghost all = elements@;
    let mut out: Vec<Element> = Vec::new();
    let mut i: usize = 0;
    assert(all.len() == bearings.len());
    for e in it: elements.into_iter()
        invariant
            it.seq() == all,
            i == it.index(),
            i <= all.len(),
            all.len() <= usize::MAX,
            bearings@.len() == all.len(),
            out@ == in_direction(all.take(it.index() as int), bearings@.take(it.index() as int), bearing as int),
    {
        let ghost k = it.index() as int;
        assert(all.take(k + 1).take(k) =~= all.take(k));
        assert(bearings@.take(k + 1).take(k) =~= bearings@.take(k));
        if is_within_cone(bearings[i], bearing, CONE_WIDTH) {
            out.push(e);
        }
        i = i + 1;
    }
    assert(all.take(all.len() as int) =~= all);
    assert(bearings@.take(all.len() as int) =~= bearings@);
    out
}

} // verus!
