//! Request parameters and their validation, random selection of one pub or of
//! a crawl of distinct pubs, and the errors reported to a caller.
use vstd::prelude::*;
use vstd::string::StringExecFns;
use rand::seq::SliceRandom;
use crate::geo::MICRO_DEGREES;
use crate::osm::Element;

verus! {

/// Largest search radius, in metres.
pub const MAX_RADIUS: i16 = 1000;

/// Largest number of stops in a crawl.
pub const MAX_CRAWL_STOPS: i16 = 4;

/// Largest bearing a caller may give: 359 degrees, in micro-degrees.
pub const MAX_BEARING: i64 = 359_000_000;

/// HTTP status for a request the caller got wrong.
pub const STATUS_BAD_REQUEST: u16 = 400;

/// HTTP status for a search that found too little.
pub const STATUS_NOT_FOUND: u16 = 404;

/// HTTP status for a failure on the service's side.
pub const STATUS_INTERNAL_ERROR: u16 = 500;

/// Parameters of a request for one pub. Positions and bearing are in
/// micro-degrees, the radius in metres.
#[derive(Debug, Clone, Copy, PartialEq, Eq, Structural)]
pub struct GetPubParams {
    pub latitude: i64,
    pub longitude: i64,
    pub radius: i16,
    pub bearing: Option<i64>,
}

/// Parameters of a request for a crawl of `num_pubs` distinct pubs.
#[derive(Debug, Clone, Copy, PartialEq, Eq, Structural)]
pub struct GetCrawlParams {
    pub latitude: i64,
    pub longitude: i64,
    pub radius: i16,
    pub bearing: Option<i64>,
    pub num_pubs: i16,
}

/// What a caller receives for one pub.
#[derive(Debug, Clone)]
pub struct PubResponse {
    pub name: String,
    pub latitude: i64,
    pub longitude: i64,
}

/// Failures of the service.
#[derive(Debug, Clone)]
pub enum AppError {
    /// A parameter is out of range; holds the parameter's name.
    Validation(String),
    /// The request could not be decoded; holds the decoder's message.
    ParseError(String),
    /// No usable pub was found.
    NoPubsFound,
    /// The map provider failed; holds its message, never shown to callers.
    OsmError(String),
    /// Fewer distinct pubs were found than a crawl asked for.
    NotEnoughPubsFound { requested: i16, found: usize },
}

/// A latitude within [-90, 90] degrees.
pub open spec fn valid_latitude(v: int) -> bool {
    -90 * MICRO_DEGREES <= v <= 90 * MICRO_DEGREES
}

/// A longitude within [-180, 180] degrees.
pub open spec fn valid_longitude(v: int) -> bool {
    -180 * MICRO_DEGREES <= v <= 180 * MICRO_DEGREES
}

/// A radius within [1, `MAX_RADIUS`] metres.
pub open spec fn valid_radius(v: int) -> bool {
    1 <= v <= MAX_RADIUS
}

/// No bearing, or one within [0, 359] degrees.
pub open spec fn valid_bearing(b: Option<i64>) -> bool {
    b is None || 0 <= b->0 <= MAX_BEARING
}

/// A crawl length within [0, `MAX_CRAWL_STOPS`].
pub open spec fn valid_stops(v: int) -> bool {
    0 <= v <= MAX_CRAWL_STOPS
}

/// The name of the first out-of-range field among the position, the radius
/// and the bearing, if any.
pub open spec fn search_field_error(lat: int, lon: int, radius: int, bearing: Option<i64>) -> Option<Seq<char>> {
    if !valid_latitude(lat) {
        Some("latitude"@)
    } else if !valid_longitude(lon) {
        Some("longitude"@)
    } else if !valid_radius(radius) {
        Some("radius"@)
    } else if !valid_bearing(bearing) {
        Some("bearing"@)
    } else {
        None
    }
}

/// The error a failed check on the field named `field` gives.
pub open spec fn is_validation_error(r: Result<(), AppError>, field: Seq<char>) -> bool {
    r is Err && r->Err_0 is Validation && r->Err_0->Validation_0@ == field
}

/// Checks a position, radius and bearing against their ranges, in that order.
fn check_search(lat: i64, lon: i64, radius: i16, bearing: Option<i64>) -> (r: Result<(), AppError>)
    ensures
        search_field_error(lat as int, lon as int, radius as int, bearing) is None ==> r is Ok,
        search_field_error(lat as int, lon as int, radius as int, bearing) is Some
            ==> is_validation_error(r, search_field_error(lat as int, lon as int, radius as int, bearing)->0),
{
    proof {
        reveal_strlit("latitude");
        reveal_strlit("longitude");
        reveal_strlit("radius");
        reveal_strlit("bearing");
    }
    if lat < -90 * MICRO_DEGREES || lat > 90 * MICRO_DEGREES {
        return Err(AppError::Validation("latitude".to_string()));
    }
    if lon < -180 * MICRO_DEGREES || lon > 180 * MICRO_DEGREES {
        return Err(AppError::Validation("longitude".to_string()));
    }
    if radius < 1 || radius > MAX_RADIUS {
        return Err(AppError::Validation("radius".to_string()));
    }
    match bearing {
        Some(b) => {
            if b < 0 || b > MAX_BEARING {
                return Err(AppError::Validation("bearing".to_string()));
            }
        },
        None => {},
    }
    Ok(())
}

impl GetPubParams {
    /// Checks every field against its range; on failure names the first field
    /// out of range, in declaration order.
    pub fn validate(&self) -> (r: Result<(), AppError>)
        ensures
            search_field_error(self.latitude as int, self.longitude as int, self.radius as int, self.bearing) is None
                ==> r is Ok,
            search_field_error(self.latitude as int, self.longitude as int, self.radius as int, self.bearing) is Some
                ==> is_validation_error(r, search_field_error(self.latitude as int, self.longitude as int, self.radius as int, self.bearing)->0),
    {
        check_search(self.latitude, self.longitude, self.radius, self.bearing)
    }
}

impl GetCrawlParams {
    /// Checks every field against its range; on failure names the first field
    /// out of range, in declaration order.
    pub fn validate(&self) -> (r: Result<(), AppError>)
        ensures
            search_field_error(self.latitude as int, self.longitude as int, self.radius as int, self.bearing) is Some
                ==> is_validation_error(r, search_field_error(self.latitude as int, self.longitude as int, self.radius as int, self.bearing)->0),
            search_field_error(self.latitude as int, self.longitude as int, self.radius as int, self.bearing) is None
                && !valid_stops(self.num_pubs as int) ==> is_validation_error(r, "num_pubs"@),
            search_field_error(self.latitude as int, self.longitude as int, self.radius as int, self.bearing) is None
                && valid_stops(self.num_pubs as int) ==> r is Ok,
    {
        proof {
            reveal_strlit("num_pubs");
        }
        check_search(self.latitude, self.longitude, self.radius, self.bearing)?;
        if self.num_pubs < 0 || self.num_pubs > MAX_CRAWL_STOPS {
            return Err(AppError::Validation("num_pubs".to_string()));
        }
        Ok(())
    }
}

/// The response for one element: its name and position.
pub open spec fn response_of(e: Element) -> PubResponse {
    PubResponse { name: e.names.name, latitude: e.location.latitude, longitude: e.location.longitude }
}

/// The responses for a sequence of elements, in order.
pub open spec fn responses_of(s: Seq<Element>) -> Seq<PubResponse> {
    s.map_values(|e: Element| response_of(e))
}

/// `s` holds the same elements as `t`, each as often, in some order.
pub open spec fn is_arrangement(s: Seq<Element>, t: Seq<Element>) -> bool {
    s.to_multiset() == t.to_multiset()
}

/// `r` is the first `n` elements of some arrangement of `from`.
pub open spec fn drawn_from(r: Seq<Element>, from: Seq<Element>, n: int) -> bool {
    exists|s: Seq<Element>| is_arrangement(s, from) && r == #[trigger] s.take(n)
}

/// No two elements of `s` share an identifier.
pub open spec fn distinct_ids(s: Seq<Element>) -> bool {
    forall|i: int, j: int| 0 <= i < s.len() && 0 <= j < s.len() && i != j ==> s[i].id != s[j].id
}

/// Projects an element onto what a caller receives.
pub fn to_pub_response(e: &Element) -> (r: PubResponse)
    ensures
        r == response_of(*e),
{
    PubResponse { name: e.names.name.clone(), latitude: e.location.latitude, longitude: e.location.longitude }
}

/// Projects each element onto what a caller receives, in order.
pub fn to_pub_responses(elements: &Vec<Element>) -> (r: Vec<PubResponse>)
    ensures
        r@ == responses_of(elements@),
{
    let mut out: Vec<PubResponse> = Vec::new();
    let mut i: usize = 0;
    while i < elements.len()
        invariant
            i <= elements@.len(),
            out@ == responses_of(elements@.take(i as int)),
        decreases elements.len() - i,
    {
        assert(elements@.take(i + 1) =~= elements@.take(i as int).push(elements@[i as int]));
        out.push(to_pub_response(&elements[i]));
        i = i + 1;
        assert(out@ =~= responses_of(elements@.take(i as int)));
    }
    assert(elements@.take(i as int) =~= elements@);
    out
}

/// Relies on rand's `SliceRandom::choose`: `None` exactly for an empty slice,
/// otherwise a reference to one of its items, drawn with the thread-local
/// generator.
#[verifier::external_body]
fn choose_element(elements: &Vec<Element>) -> (r: Option<&Element>)
    ensures
        r is None <==> elements@.len() == 0,
        r is Some ==> elements@.contains(*r->0),
{
    elements.choose(&mut rand::thread_rng())
}

/// Relies on rand's `SliceRandom::shuffle`, which permutes the slice in place
/// with the thread-local generator.
#[verifier::external_body]
fn shuffle_elements(elements: &mut Vec<Element>)
    ensures
        final(elements)@.to_multiset() == old(elements)@.to_multiset(),
{
    elements.shuffle(&mut rand::thread_rng())
}

/// Picks one element at random; `NoPubsFound` when there is none.
pub fn pick_one(elements: &Vec<Element>) -> (r: Result<&Element, AppError>)
    ensures
        elements@.len() == 0 <==> (r is Err && r->Err_0 is NoPubsFound),
        elements@.len() > 0 ==> r is Ok,
        r is Ok ==> elements@.contains(*r->Ok_0),
{
    match choose_element(elements) {
        Some(e) => Ok(e),
        None => Err(AppError::NoPubsFound),
    }
}

/// Draws `n` distinct elements at random, in random order: the first `n` of a
/// random arrangement of all of them. `NoPubsFound` when there are none,
/// `NotEnoughPubsFound` when there are fewer than `n`.
pub fn pick_n_distinct(elements: Vec<Element>, n: i16) -> (r: Result<Vec<Element>, AppError>)
    requires
        n >= 0,
    ensures
        elements@.len() == 0 <==> (r is Err && r->Err_0 is NoPubsFound),
        0 < elements@.len() < n <==> (r is Err && r->Err_0 == (AppError::NotEnoughPubsFound {
            requested: n,
            found: elements@.len() as usize,
        })),
        0 < elements@.len() && n <= elements@.len() ==> r is Ok,
        r is Ok ==> r->Ok_0@.len() == n && drawn_from(r->Ok_0@, elements@, n as int),
{
    let found = elements.len();
    if found == 0 {
        return Err(AppError::NoPubsFound);
    }
    let wanted = n as usize;
    if found < wanted {
        return Err(AppError::NotEnoughPubsFound { requested: n, found });
    }
    let ghost before = elements@;
    let mut all = elements;
    shuffle_elements(&mut all);
    proof {
        vstd::seq_lib::to_multiset_len(all@);
        vstd::seq_lib::to_multiset_len(before);
    }
    let ghost shuffled = all@;
    all.truncate(wanted);
    assert(all@ == shuffled.take(wanted as int));
    assert(is_arrangement(shuffled, before));
    Ok(all)
}

/// Picks one pub at random; `NoPubsFound` when there is none.
pub fn get_random_pub(elements: &Vec<Element>) -> (r: Result<PubResponse, AppError>)
    ensures
        elements@.len() == 0 <==> (r is Err && r->Err_0 is NoPubsFound),
        elements@.len() > 0 ==> r is Ok,
        r is Ok ==> responses_of(elements@).contains(r->Ok_0),
{
    let e = pick_one(elements)?;
    let r = to_pub_response(e);
    proof {
        let i = choose|i: int| 0 <= i < elements@.len() && elements@[i] == *e;
        assert(responses_of(elements@)[i] == r);
    }
    Ok(r)
}

/// Draws a crawl of `num_pubs` distinct pubs at random, in random order.
/// `NoPubsFound` when there are none, `NotEnoughPubsFound` when there are
/// fewer than `num_pubs`.
pub fn get_random_crawl(elements: Vec<Element>, num_pubs: i16) -> (r: Result<Vec<PubResponse>, AppError>)
    requires
        num_pubs >= 0,
    ensures
        elements@.len() == 0 <==> (r is Err && r->Err_0 is NoPubsFound),
        0 < elements@.len() < num_pubs <==> (r is Err && r->Err_0 == (AppError::NotEnoughPubsFound {
            requested: num_pubs,
            found: elements@.len() as usize,
        })),
        0 < elements@.len() && num_pubs <= elements@.len() ==> r is Ok,
        r is Ok ==> exists|d: Seq<Element>|
            drawn_from(d, elements@, num_pubs as int) && r->Ok_0@ == #[trigger] responses_of(d),
{
    let chosen = pick_n_distinct(elements, num_pubs)?;
    let r = to_pub_responses(&chosen);
    assert(drawn_from(chosen@, elements@, num_pubs as int) && r@ == responses_of(chosen@));
    Ok(r)
}

/// Drawing a crawl from pubs with distinct identifiers gives exactly the
/// number asked for, and no identifier twice.
pub proof fn lemma_drawn_ids_distinct(r: Seq<Element>, from: Seq<Element>, n: int)
    requires
        distinct_ids(from),
        0 <= n <= from.len(),
        drawn_from(r, from, n),
    ensures
        r.len() == n,
        distinct_ids(r),
{
    let s = choose|s: Seq<Element>| is_arrangement(s, from) && r == #[trigger] s.take(n);
    vstd::seq_lib::to_multiset_len(s);
    vstd::seq_lib::to_multiset_len(from);
    assert(from.no_duplicates());
    from.lemma_multiset_has_no_duplicates();
    assert forall|x: Element| s.to_multiset().contains(x) implies s.to_multiset().count(x) == 1 by {
        assert(from.to_multiset().contains(x));
    }
    s.lemma_multiset_has_no_duplicates_conv();
    assert forall|i: int, j: int| 0 <= i < r.len() && 0 <= j < r.len() && i != j implies r[i].id != r[j].id by {
        assert(r[i] == s[i] && r[j] == s[j]);
        vstd::seq_lib::to_multiset_contains(s, s[i]);
        vstd::seq_lib::to_multiset_contains(s, s[j]);
        vstd::seq_lib::to_multiset_contains(from, s[i]);
        vstd::seq_lib::to_multiset_contains(from, s[j]);
        assert(s.contains(s[i]));
        assert(s.contains(s[j]));
        let a = choose|a: int| 0 <= a < from.len() && from[a] == s[i];
        let b = choose|b: int| 0 <= b < from.len() && from[b] == s[j];
        assert(a != b);
    }
}

/// The character of a decimal digit.
pub open spec fn digit_char(d: int) -> char {
    seq!['0', '1', '2', '3', '4', '5', '6', '7', '8', '9'][d]
}

/// The decimal digits of a natural number, most significant first.
pub open spec fn decimal(n: nat) -> Seq<char>
    decreases n,
{
    if n < 10 {
        seq![digit_char(n as int)]
    } else {
        decimal(n / 10).push(digit_char((n % 10) as int))
    }
}

/// An integer written in decimal, with a leading `-` when negative.
pub open spec fn signed_decimal(n: int) -> Seq<char> {
    if n < 0 {
        seq!['-'] + decimal((-n) as nat)
    } else {
        decimal(n as nat)
    }
}

/// Relies on `ToString::to_string` for `i128`, which writes the number in
/// decimal through its `Display` impl.
#[verifier::external_body]
fn decimal_text(n: i128) -> (r: String)
    ensures
        r@ == signed_decimal(n as int),
{
    n.to_string()
}

/// The message shown to a caller for an error.
pub open spec fn error_message(e: AppError) -> Seq<char> {
    match e {
        AppError::Validation(field) => "Input validation failed: "@ + field@,
        AppError::ParseError(_) => "Could not parse the request parameters."@,
        AppError::NoPubsFound => "No pubs found within the specified radius."@,
        AppError::OsmError(_) => "An internal service error occurred."@,
        AppError::NotEnoughPubsFound { requested, found } => "Not enough pubs found. Request "@
            + signed_decimal(requested as int) + ", but only "@ + signed_decimal(found as int)
            + " found."@,
    }
}

/// The HTTP status reported for an error.
pub open spec fn error_status(e: AppError) -> u16 {
    match e {
        AppError::Validation(_) => STATUS_BAD_REQUEST,
        AppError::ParseError(_) => STATUS_BAD_REQUEST,
        AppError::NoPubsFound => STATUS_NOT_FOUND,
        AppError::NotEnoughPubsFound { .. } => STATUS_NOT_FOUND,
        AppError::OsmError(_) => STATUS_INTERNAL_ERROR,
    }
}

impl AppError {
    /// The HTTP status and the message a caller sees. A provider failure is
    /// reported without its detail.
    pub fn to_response(&self) -> (r: (u16, String))
        ensures
            r.0 == error_status(*self),
            r.1@ == error_message(*self),
    {
        match self {
            AppError::Validation(field) => {
                let mut m = "Input validation failed: ".to_string();
                m.append(field.as_str());
                (STATUS_BAD_REQUEST, m)
            },
            AppError::ParseError(_) => (STATUS_BAD_REQUEST, "Could not parse the request parameters.".to_string()),
            AppError::NoPubsFound => (STATUS_NOT_FOUND, "No pubs found within the specified radius.".to_string()),
            AppError::OsmError(_) => (STATUS_INTERNAL_ERROR, "An internal service error occurred.".to_string()),
            AppError::NotEnoughPubsFound { requested, found } => {
                let mut m = "Not enough pubs found. Request ".to_string();
                m.append(decimal_text(*requested as i128).as_str());
                m.append(", but only ");
                m.append(decimal_text(*found as i128).as_str());
                m.append(" found.");
                (STATUS_NOT_FOUND, m)
            },
        }
    }
}

} // verus!
