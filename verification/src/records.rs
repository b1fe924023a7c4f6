//! Server records: the raw attributes a listing page carries, the
//! normalized record the roulette works on, and the fixed country
//! allow-list post-filter.

use vstd::prelude::*;

verus! {

broadcast use vstd::string::to_string_from_display_ensures_for_str;

/// A server record as one page of the remote listing delivers it:
/// optional attributes are still absent here.
pub struct RawRecord {
    pub name: String,
    pub players: u32,
    pub max_players: u32,
    pub map: Option<String>,
    pub mode: Option<String>,
    pub country: Option<String>,
}

/// Mathematical image of a raw record.
pub struct RawRecordView {
    pub name: Seq<char>,
    pub players: int,
    pub max_players: int,
    pub map: Option<Seq<char>>,
    pub mode: Option<Seq<char>>,
    pub country: Option<Seq<char>>,
}

impl View for RawRecord {
    type V = RawRecordView;

    open spec fn view(&self) -> RawRecordView {
        RawRecordView {
            name: self.name@,
            players: self.players as int,
            max_players: self.max_players as int,
            map: match self.map {
                Some(ref m) => Some(m@),
                None => None,
            },
            mode: match self.mode {
                Some(ref m) => Some(m@),
                None => None,
            },
            country: match self.country {
                Some(ref c) => Some(c@),
                None => None,
            },
        }
    }
}

/// A normalized server record of the listing: every optional attribute
/// has been given its default.
pub struct ServerItem {
    pub name: String,
    pub players: u32,
    pub max_players: u32,
    pub map: String,
    pub mode: String,
    pub country: String,
}

/// Mathematical image of a listing record.
pub struct ServerItemView {
    pub name: Seq<char>,
    pub players: int,
    pub max_players: int,
    pub map: Seq<char>,
    pub mode: Seq<char>,
    pub country: Seq<char>,
}

impl View for ServerItem {
    type V = ServerItemView;

    open spec fn view(&self) -> ServerItemView {
        ServerItemView {
            name: self.name@,
            players: self.players as int,
            max_players: self.max_players as int,
            map: self.map@,
            mode: self.mode@,
            country: self.country@,
        }
    }
}

impl Clone for ServerItem {
    fn clone(&self) -> (r: Self)
        ensures
            r == *self,
    {
        ServerItem {
            name: self.name.clone(),
            players: self.players,
            max_players: self.max_players,
            map: self.map.clone(),
            mode: self.mode.clone(),
            country: self.country.clone(),
        }
    }
}

/// The fixed allow-list: the two-letter codes a record's country may
/// carry to stay in the listing.
pub open spec fn eu_allowed(c: Seq<char>) -> bool {
    ||| c == "DE"@
    ||| c == "FR"@
    ||| c == "PL"@
    ||| c == "GB"@
    ||| c == "UA"@
    ||| c == "NL"@
    ||| c == "CZ"@
    ||| c == "SK"@
    ||| c == "IT"@
    ||| c == "ES"@
    ||| c == "AT"@
    ||| c == "BE"@
    ||| c == "DK"@
    ||| c == "SE"@
    ||| c == "NO"@
    ||| c == "FI"@
    ||| c == "IE"@
    ||| c == "TR"@
}

/// Whether a country code is on the fixed allow-list.
pub fn is_eu_country(c: &String) -> (b: bool)
    ensures
        b == eu_allowed(c@),
{
    ||| *c == "DE".to_string()
    ||| *c == "FR".to_string()
    ||| *c == "PL".to_string()
    ||| *c == "GB".to_string()
    ||| *c == "UA".to_string()
    ||| *c == "NL".to_string()
    ||| *c == "CZ".to_string()
    ||| *c == "SK".to_string()
    ||| *c == "IT".to_string()
    ||| *c == "ES".to_string()
    ||| *c == "AT".to_string()
    ||| *c == "BE".to_string()
    ||| *c == "DK".to_string()
    ||| *c == "SE".to_string()
    ||| *c == "NO".to_string()
    ||| *c == "FI".to_string()
    ||| *c == "IE".to_string()
    ||| *c == "TR".to_string()
}

/// The country of a raw record, after the `??` default.
pub open spec fn country_view(r: RawRecordView) -> Seq<char> {
    match r.country {
        Some(c) => c,
        None => "??"@,
    }
}

/// A raw record with every optional attribute given its default.
pub open spec fn normalized_view(r: RawRecordView) -> ServerItemView {
    ServerItemView {
        name: r.name,
        players: r.players,
        max_players: r.max_players,
        map: match r.map {
            Some(m) => m,
            None => "Unknown"@,
        },
        mode: match r.mode {
            Some(m) => m,
            None => "Unknown"@,
        },
        country: country_view(r),
    }
}

/// The records of a page that survive the country filter, normalized,
/// in their page order.
pub open spec fn eligible_of(rs: Seq<RawRecordView>) -> Seq<ServerItemView>
    decreases rs.len(),
{
    if rs.len() == 0 {
        Seq::empty()
    } else {
        let rest = eligible_of(rs.drop_last());
        if eu_allowed(country_view(rs.last())) {
            rest.push(normalized_view(rs.last()))
        } else {
            rest
        }
    }
}

/// The image of a sequence of listing records.
pub open spec fn items_view(s: Seq<ServerItem>) -> Seq<ServerItemView> {
    s.map_values(|x: ServerItem| x@)
}

/// The image of a sequence of raw records.
pub open spec fn raws_view(s: Seq<RawRecord>) -> Seq<RawRecordView> {
    s.map_values(|x: RawRecord| x@)
}

/// Every record the filter lets through carries an allow-listed country.
pub proof fn lemma_eligible_of_eu(rs: Seq<RawRecordView>)
    ensures
        forall|i: int|
            0 <= i < eligible_of(rs).len() ==> eu_allowed(#[trigger] eligible_of(rs)[i].country),
    decreases rs.len(),
{
    if rs.len() > 0 {
        lemma_eligible_of_eu(rs.drop_last());
        let rest = eligible_of(rs.drop_last());
        if eu_allowed(country_view(rs.last())) {
            let full = rest.push(normalized_view(rs.last()));
            assert(forall|i: int|
                0 <= i < full.len() ==> #[trigger] full[i] == (if i < rest.len() {
                    rest[i]
                } else {
                    normalized_view(rs.last())
                }));
        }
    }
}

/// Drops every record whose country is off the allow-list and applies
/// the attribute defaults to the rest.
pub fn filter_eligible(records: &Vec<RawRecord>) -> (out: Vec<ServerItem>)
    ensures
        items_view(out@) == eligible_of(raws_view(records@)),
{
    let ghost rv = raws_view(records@);
    let mut out: Vec<ServerItem> = Vec::new();
    assert(items_view(out@) =~= eligible_of(rv.take(0)));
    let n = records.len();
    for i in 0..n
        invariant
            n == records.len(),
            rv == raws_view(records@),
            items_view(out@) == eligible_of(rv.take(i as int)),
    {
        let r = &records[i];
        let country: String = match &r.country {
            Some(c) => c.clone(),
            None => "??".to_string(),
        };
        assert(country@ == country_view(rv[i as int]));
        if is_eu_country(&country) {
            let item = ServerItem {
                name: r.name.clone(),
                players: r.players,
                max_players: r.max_players,
                map: match &r.map {
                    Some(m) => m.clone(),
                    None => "Unknown".to_string(),
                },
                mode: match &r.mode {
                    Some(m) => m.clone(),
                    None => "Unknown".to_string(),
                },
                country,
            };
            assert(item@ == normalized_view(rv[i as int]));
            let ghost before = out@;
            out.push(item);
            assert(items_view(out@) =~= items_view(before).push(item@));
        }
        proof {
            assert(rv.take(i + 1).drop_last() =~= rv.take(i as int));
            assert(rv.take(i + 1).last() == rv[i as int]);
        }
    }
    proof {
        assert(rv.take(n as int) =~= rv);
    }
    out
}

} // verus!
