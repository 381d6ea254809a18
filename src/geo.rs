//! Locations: coordinates, typed location queries and geocoding candidates.

use crate::text::{decimal, decimal_text, zero_padded, zero_padded_text};
use crate::weather::{format_url, pairs_view, url_text};
use vstd::prelude::*;

verus! {

/// The base URL of the geocoding service.
pub const API_URL: &'static str = "http://api.openweathermap.org/geo/1.0/direct?";

/// The largest number of candidates asked of the geocoding service.
pub const LIMIT: &'static str = "5";

/// Geographic coordinates in millionths of a degree.
#[derive(Clone, Copy, Debug, PartialEq, Eq, Structural)]
pub struct Location {
    /// Latitude, north positive.
    pub lat: i32,
    /// Longitude, east positive.
    pub lon: i32,
}

/// A coordinate in millionths of a degree, written in degrees with six
/// decimals (`-56.328700`).
pub open spec fn coordinate_text(micro: int) -> Seq<char> {
    let m = if micro < 0 { -micro } else { micro };
    let sign = if micro < 0 { seq!['-'] } else { Seq::empty() };
    sign + decimal((m / 1000000) as nat) + seq!['.'] + zero_padded((m % 1000000) as nat, 6)
}

impl Location {
    /// Latitude within [-90, 90] and longitude within [-180, 180] degrees.
    pub open spec fn wf(&self) -> bool {
        &&& -90000000 <= self.lat <= 90000000
        &&& -180000000 <= self.lon <= 180000000
    }

    /// Whether the coordinates lie within their ranges.
    pub fn is_valid(&self) -> (r: bool)
        ensures
            r == self.wf(),
    {
        -90000000 <= self.lat && self.lat <= 90000000 && -180000000 <= self.lon && self.lon <= 180000000
    }

    /// The coordinates of a geocoding candidate.
    pub fn from_geo(geo: &LocationInfo) -> (r: Location)
        ensures
            r.lat == geo.lat,
            r.lon == geo.lon,
    {
        Location { lat: geo.lat, lon: geo.lon }
    }

    /// `lat,lon` in degrees.
    pub fn to_string(&self) -> (r: String)
        ensures
            r@ == coordinate_text(self.lat as int) + seq![','] + coordinate_text(self.lon as int),
    {
        proof {
            reveal_strlit(",");
        }
        let mut r = degrees_text(self.lat);
        r.append(",");
        let lon = degrees_text(self.lon);
        r.append(lon.as_str());
        r
    }
}

/// Writes a coordinate given in millionths of a degree in degrees.
pub fn degrees_text(micro: i32) -> (r: String)
    ensures
        r@ == coordinate_text(micro as int),
{
    proof {
        reveal_strlit("-");
        reveal_strlit(".");
    }
    let m: u64 = if micro < 0 {
        (-(micro as i64)) as u64
    } else {
        micro as u64
    };
    let mut r = if micro < 0 {
        String::from_str("-")
    } else {
        String::new()
    };
    let whole = decimal_text(m / 1000000);
    r.append(whole.as_str());
    r.append(".");
    let fraction = zero_padded_text(m % 1000000, 6);
    r.append(fraction.as_str());
    assert(r@ =~= coordinate_text(micro as int));
    r
}

/// The pieces of `s` between commas, in order: a text with `k` commas has
/// `k + 1` pieces, some of which may be empty.
pub open spec fn split_commas(s: Seq<char>) -> Seq<Seq<char>>
    decreases s.len(),
{
    if s.len() == 0 {
        seq![Seq::empty()]
    } else {
        let prev = split_commas(s.drop_last());
        if s.last() == ',' {
            prev.push(Seq::empty())
        } else {
            prev.update(prev.len() - 1, prev.last().push(s.last()))
        }
    }
}

/// A location query in view: city, then state and country where given.
pub type NameView = (Seq<char>, Option<Seq<char>>, Option<Seq<char>>);

/// What a typed location query means: one to three comma-separated pieces
/// read as city, state and country. More than three pieces, or an empty
/// piece anywhere (`"Dzerzhinsk,,Russia"`), make the query malformed.
pub open spec fn parse_location(s: Seq<char>) -> Option<NameView> {
    let parts = split_commas(s);
    if parts.len() > 3 || exists|j: int| 0 <= j < parts.len() && #[trigger] parts[j].len() == 0 {
        None
    } else {
        Some(
            (
                parts[0],
                if parts.len() >= 2 { Some(parts[1]) } else { None },
                if parts.len() >= 3 { Some(parts[2]) } else { None },
            ),
        )
    }
}

/// The text of a location query: its pieces joined by commas.
pub open spec fn name_text(v: NameView) -> Seq<char> {
    v.0 + match v.1 {
        Some(s) => seq![','] + s,
        None => Seq::empty(),
    } + match v.2 {
        Some(c) => seq![','] + c,
        None => Seq::empty(),
    }
}

/// A piece that can stand in a query: not empty and free of commas.
pub open spec fn plain_piece(s: Seq<char>) -> bool {
    s.len() > 0 && !s.contains(',')
}

proof fn lemma_split_nonempty(s: Seq<char>)
    ensures
        split_commas(s).len() >= 1,
    decreases s.len(),
{
    if s.len() > 0 {
        lemma_split_nonempty(s.drop_last());
    }
}

/// Text without commas only lengthens the last piece.
proof fn lemma_split_plain_suffix(p: Seq<char>, q: Seq<char>)
    requires
        !q.contains(','),
    ensures
        split_commas(p + q) == split_commas(p).update(
            split_commas(p).len() - 1,
            split_commas(p).last() + q,
        ),
    decreases q.len(),
{
    lemma_split_nonempty(p);
    let parts = split_commas(p);
    if q.len() == 0 {
        assert(p + q =~= p);
        assert(parts.last() + q =~= parts.last());
        assert(parts.update(parts.len() - 1, parts.last()) =~= parts);
    } else {
        let q0 = q.drop_last();
        let c = q.last();
        if q0.contains(',') {
            let k = choose|k: int| 0 <= k < q0.len() && q0[k] == ',';
            assert(q[k] == ',');
        }
        if c == ',' {
            assert(q[q.len() - 1] == ',');
        }
        lemma_split_plain_suffix(p, q0);
        assert((p + q).drop_last() =~= p + q0);
        assert((p + q).last() == c);
        let mid = split_commas(p + q0);
        assert(mid.last() == parts.last() + q0);
        assert(mid.len() == parts.len());
        assert(mid.last().push(c) =~= parts.last() + q);
        assert(mid.update(mid.len() - 1, mid.last().push(c)) =~= parts.update(
            parts.len() - 1,
            parts.last() + q,
        ));
    }
}

/// A comma opens a new, empty piece.
proof fn lemma_split_comma(p: Seq<char>)
    ensures
        split_commas(p + seq![',']) == split_commas(p).push(Seq::empty()),
{
    assert((p + seq![',']).drop_last() =~= p);
}

/// A plain piece after a comma becomes a piece of its own.
proof fn lemma_split_then_piece(p: Seq<char>, q: Seq<char>)
    requires
        !q.contains(','),
    ensures
        split_commas(p + seq![','] + q) == split_commas(p).push(q),
{
    lemma_split_comma(p);
    lemma_split_plain_suffix(p + seq![','], q);
    let parts = split_commas(p).push(Seq::<char>::empty());
    assert(Seq::<char>::empty() + q =~= q);
    assert(parts.update(parts.len() - 1, q) =~= split_commas(p).push(q));
}

/// A location query written out and read back gives the same city, state
/// and country, provided every piece is non-empty and free of commas and a
/// country comes only with a state.
pub proof fn location_query_round_trip(v: NameView)
    requires
        plain_piece(v.0),
        v.1 matches Some(s) ==> plain_piece(s),
        v.2 matches Some(c) ==> plain_piece(c),
        v.2 is Some ==> v.1 is Some,
    ensures
        parse_location(name_text(v)) == Some(v),
{
    let e = Seq::<char>::empty();
    lemma_split_plain_suffix(e, v.0);
    assert(e + v.0 =~= v.0);
    assert(seq![e].update(0, e + v.0) =~= seq![v.0]);
    let text = name_text(v);
    let parts = split_commas(text);
    match v.1 {
        None => {
            assert(text =~= v.0);
            assert(parts =~= seq![v.0]);
        },
        Some(st) => {
            lemma_split_then_piece(v.0, st);
            match v.2 {
                None => {
                    assert(text =~= v.0 + seq![','] + st);
                    assert(parts =~= seq![v.0, st]);
                },
                Some(co) => {
                    lemma_split_then_piece(v.0 + seq![','] + st, co);
                    assert(text =~= v.0 + seq![','] + st + seq![','] + co);
                    assert(parts =~= seq![v.0, st, co]);
                },
            }
        },
    }
}

/// The view of an optional string.
pub open spec fn opt_view(o: Option<String>) -> Option<Seq<char>> {
    match o {
        Some(s) => Some(s@),
        None => None,
    }
}

/// A location typed by the user: a city, optionally with state and country.
#[derive(Clone, Debug)]
pub struct LocationName {
    city: String,
    state: Option<String>,
    country: Option<String>,
}

impl View for LocationName {
    type V = NameView;

    closed spec fn view(&self) -> NameView {
        (self.city@, opt_view(self.state), opt_view(self.country))
    }
}

fn copy_str(s: &str) -> (r: String)
    ensures
        r@ == s@,
{
    String::from_str(s)
}

impl LocationName {
    /// A query for a city alone.
    pub fn new(city: &str) -> (r: LocationName)
        ensures
            r@ == (city@, None::<Seq<char>>, None::<Seq<char>>),
    {
        LocationName { city: copy_str(city), state: None, country: None }
    }

    pub fn set_state(self, state: &str) -> (r: LocationName)
        ensures
            r@ == (self@.0, Some(state@), self@.2),
    {
        LocationName { city: self.city, state: Some(copy_str(state)), country: self.country }
    }

    pub fn set_country(self, country: &str) -> (r: LocationName)
        ensures
            r@ == (self@.0, self@.1, Some(country@)),
    {
        LocationName { city: self.city, state: self.state, country: Some(copy_str(country)) }
    }

    /// Reads `city`, `city,state` or `city,state,country`; `None` for more
    /// than three pieces or for an empty piece.
    pub fn from_str(name: &str) -> (r: Option<LocationName>)
        ensures
            r matches Some(n) ==> parse_location(name@) == Some(n@),
            r is None <==> parse_location(name@) is None,
    {
        let n = name.unicode_len();
        let mut pieces: Vec<String> = Vec::new();
        let mut start: usize = 0;
        let mut i: usize = 0;
        assert(name@.subrange(0, 0) =~= Seq::<char>::empty());
        assert(pieces@.map_values(|p: String| p@) =~= Seq::<Seq<char>>::empty());
        assert(pieces@.map_values(|p: String| p@).push(name@.subrange(0, 0)) =~= seq![Seq::<char>::empty()]);
        while i < n
            invariant
                n == name@.len(),
                start <= i <= n,
                pieces@.map_values(|p: String| p@).push(name@.subrange(start as int, i as int))
                    == split_commas(name@.subrange(0, i as int)),
            decreases n - i,
        {
            let c = name.get_char(i);
            let ghost done = pieces@.map_values(|p: String| p@);
            proof {
                let s = name@.subrange(0, i as int + 1);
                assert(s.drop_last() =~= name@.subrange(0, i as int));
                assert(s.last() == c);
            }
            let ghost s = name@.subrange(0, i as int + 1);
            let ghost piece = name@.subrange(start as int, i as int);
            if c == ',' {
                let part = String::from_str(name.substring_char(start, i));
                pieces.push(part);
                start = i + 1;
                proof {
                    assert(pieces@.map_values(|p: String| p@) =~= done.push(piece));
                    assert(split_commas(s) == split_commas(s.drop_last()).push(Seq::empty()));
                    assert(name@.subrange(start as int, i as int + 1) =~= Seq::<char>::empty());
                }
            } else {
                proof {
                    let prev = done.push(piece);
                    assert(split_commas(s) == prev.update(prev.len() - 1, prev.last().push(c)));
                    assert(piece.push(c) =~= name@.subrange(start as int, i as int + 1));
                    assert(prev.update(prev.len() - 1, piece.push(c)) =~= done.push(piece.push(c)));
                }
            }
            i = i + 1;
        }
        pieces.push(String::from_str(name.substring_char(start, n)));
        assert(name@.subrange(0, n as int) =~= name@);
        let ghost parts = pieces@.map_values(|p: String| p@);
        assert(parts =~= split_commas(name@));
        let count = pieces.len();
        if count > 3 {
            return None;
        }
        let mut j: usize = 0;
        while j < count
            invariant
                count == pieces@.len(),
                count <= 3,
                j <= count,
                parts == pieces@.map_values(|p: String| p@),
                parts == split_commas(name@),
                forall|k: int| 0 <= k < j ==> #[trigger] parts[k].len() > 0,
            decreases count - j,
        {
            assert(parts[j as int] == pieces@[j as int]@);
            if pieces[j].as_str().unicode_len() == 0 {
                assert(parts[j as int].len() == 0);
                return None;
            }
            j = j + 1;
        }
        let country = if count == 3 {
            pieces.pop()
        } else {
            None
        };
        let state = if count >= 2 {
            pieces.pop()
        } else {
            None
        };
        let city = pieces.pop().unwrap();
        Some(LocationName { city, state, country })
    }

    pub fn city(&self) -> (r: &String)
        ensures
            r@ == self@.0,
    {
        &self.city
    }

    pub fn state(&self) -> (r: Option<String>)
        ensures
            opt_view(r) == self@.1,
    {
        match &self.state {
            Some(s) => Some(s.clone()),
            None => None,
        }
    }

    pub fn country(&self) -> (r: Option<String>)
        ensures
            opt_view(r) == self@.2,
    {
        match &self.country {
            Some(c) => Some(c.clone()),
            None => None,
        }
    }

    /// The query as text: its pieces joined by commas.
    pub fn to_string(&self) -> (r: String)
        ensures
            r@ == name_text(self@),
    {
        proof {
            reveal_strlit(",");
        }
        let mut r = self.city.clone();
        match &self.state {
            Some(s) => {
                r.append(",");
                r.append(s.as_str());
            },
            None => {},
        }
        match &self.country {
            Some(c) => {
                r.append(",");
                r.append(c.as_str());
            },
            None => {},
        }
        assert(r@ =~= name_text(self@));
        r
    }

    /// The geocoding request for this query: the query text, the candidate
    /// limit and the API key.
    pub fn request_url(&self, api_key: &str) -> (r: String)
        ensures
            r@ == url_text(
                API_URL@,
                seq![("q"@, name_text(self@)), ("limit"@, LIMIT@), ("appid"@, api_key@)],
            ),
    {
        let q = self.to_string();
        let items = vec![("q", q.as_str()), ("limit", LIMIT), ("appid", api_key)];
        let r = format_url(API_URL, items);
        assert(pairs_view(items@) =~= seq![("q"@, name_text(self@)), ("limit"@, LIMIT@), ("appid"@, api_key@)]);
        r
    }
}

/// Names of a place in a few languages.
#[derive(Clone, Debug)]
pub struct LocalNames {
    pub bg: Option<String>,
    pub de: Option<String>,
    pub en: Option<String>,
    pub ru: Option<String>,
}

/// A place found by the geocoding service. Two candidates are the same place
/// when name, country and state agree; the coordinates play no part.
#[derive(Clone, Debug)]
pub struct LocationInfo {
    pub name: String,
    pub local_names: Option<LocalNames>,
    /// Latitude in millionths of a degree.
    pub lat: i32,
    /// Longitude in millionths of a degree.
    pub lon: i32,
    pub country: String,
    pub state: Option<String>,
}

/// What tells one candidate from another: name, country and state.
pub open spec fn identity(c: LocationInfo) -> (Seq<char>, Seq<char>, Option<Seq<char>>) {
    (c.name@, c.country@, opt_view(c.state))
}

fn same_text(a: &Option<String>, b: &Option<String>) -> (r: bool)
    ensures
        r == (opt_view(*a) == opt_view(*b)),
{
    match (a, b) {
        (Some(x), Some(y)) => x.eq(y),
        (None, None) => true,
        _ => false,
    }
}

impl PartialEq for LocationInfo {
    fn eq(&self, other: &LocationInfo) -> (r: bool)
        ensures
            r == (identity(*self) == identity(*other)),
    {
        self.name == other.name && self.country == other.country && same_text(&self.state, &other.state)
    }
}

impl vstd::std_specs::cmp::PartialEqSpecImpl for LocationInfo {
    open spec fn obeys_eq_spec() -> bool {
        true
    }

    open spec fn eq_spec(&self, other: &LocationInfo) -> bool {
        identity(*self) == identity(*other)
    }
}

impl Eq for LocationInfo {}

/// `name (state, country)`, or `name (country)` without a state.
pub open spec fn candidate_text(c: LocationInfo) -> Seq<char> {
    c.name@ + seq![' ', '('] + match c.state {
        Some(s) => s@ + seq![',', ' '],
        None => Seq::empty(),
    } + c.country@ + seq![')']
}

impl LocationInfo {
    /// The candidate as offered to the user.
    pub fn to_string(&self) -> (r: String)
        ensures
            r@ == candidate_text(*self),
    {
        proof {
            reveal_strlit(" (");
            reveal_strlit(", ");
            reveal_strlit(")");
        }
        let mut r = self.name.clone();
        r.append(" (");
        match &self.state {
            Some(s) => {
                r.append(s.as_str());
                r.append(", ");
            },
            None => {},
        }
        r.append(self.country.as_str());
        r.append(")");
        assert(r@ =~= candidate_text(*self));
        r
    }
}

/// The candidates in order, each kept only where no earlier one is the same place.
pub open spec fn dedup_places(s: Seq<LocationInfo>) -> Seq<LocationInfo>
    decreases s.len(),
{
    if s.len() == 0 {
        Seq::empty()
    } else {
        let kept = dedup_places(s.drop_last());
        if exists|j: int| 0 <= j < kept.len() && identity(#[trigger] kept[j]) == identity(s.last()) {
            kept
        } else {
            kept.push(s.last())
        }
    }
}

/// A deduplicated candidate list never holds the same place twice.
pub proof fn dedup_has_no_repeats(s: Seq<LocationInfo>)
    ensures
        forall|i: int, j: int|
            0 <= i < j < dedup_places(s).len() ==> identity(#[trigger] dedup_places(s)[i]) != identity(
                #[trigger] dedup_places(s)[j],
            ),
    decreases s.len(),
{
    if s.len() > 0 {
        dedup_has_no_repeats(s.drop_last());
        let kept = dedup_places(s.drop_last());
        if !(exists|j: int| 0 <= j < kept.len() && identity(#[trigger] kept[j]) == identity(s.last())) {
            let r = kept.push(s.last());
            assert forall|i: int, j: int| 0 <= i < j < r.len() implies identity(#[trigger] r[i]) != identity(
                #[trigger] r[j],
            ) by {
                if j == kept.len() {
                    assert(r[i] == kept[i]);
                } else {
                    assert(r[i] == kept[i] && r[j] == kept[j]);
                }
            }
        }
    }
}

/// Removes from a candidate list every entry that repeats an earlier place,
/// keeping the order of the rest.
pub fn dedup_candidates(list: Vec<LocationInfo>) -> (r: Vec<LocationInfo>)
    ensures
        r@ == dedup_places(list@),
{
    let mut rest = list;
    let mut kept: Vec<LocationInfo> = Vec::new();
    let ghost all = rest@;
    let total = rest.len();
    let mut k: usize = 0;
    while rest.len() > 0
        invariant
            k + rest@.len() == total,
            total == all.len(),
            rest@ == all.subrange(k as int, all.len() as int),
            kept@ == dedup_places(all.subrange(0, k as int)),
        decreases rest@.len(),
    {
        let item = rest.remove(0);
        proof {
            let s = all.subrange(0, k as int + 1);
            assert(s.drop_last() =~= all.subrange(0, k as int));
            assert(s.last() == item);
        }
        let mut seen = false;
        let mut j: usize = 0;
        while j < kept.len()
            invariant
                j <= kept@.len(),
                seen <==> exists|m: int| 0 <= m < j && identity(#[trigger] kept@[m]) == identity(item),
            decreases kept@.len() - j,
        {
            if kept[j] == item {
                seen = true;
            }
            j = j + 1;
        }
        if !seen {
            kept.push(item);
        }
        k = k + 1;
        assert(rest@ =~= all.subrange(k as int, all.len() as int));
    }
    assert(all.subrange(0, k as int) =~= all);
    kept
}

} // verus!
