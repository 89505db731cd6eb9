//! Places of a GeoIP city record and the city summary made of them.
use vstd::prelude::*;

use crate::text::str_eq;

verus! {

/// A place of a GeoIP record: its names by locale, in ascending locale order.
#[derive(Clone, Debug, PartialEq)]
pub struct GeoPlace {
    pub names: Option<Vec<(String, String)>>,
}

/// The country of a GeoIP record.
#[derive(Clone, Debug, PartialEq)]
pub struct GeoCountry {
    pub iso_code: Option<String>,
}

/// The parts of a GeoIP city record that the summary reads.
#[derive(Clone, Debug, PartialEq)]
pub struct GeoCityRecord {
    pub city: Option<GeoPlace>,
    pub country: Option<GeoCountry>,
    /// From largest to smallest.
    pub subdivisions: Option<Vec<GeoPlace>>,
}

/// Summary of where an address is: country code, city name and subdivision names.
#[derive(Clone, Debug, PartialEq)]
pub struct City {
    pub country_code: Option<String>,
    pub name: Option<String>,
    pub subdivisions: Option<Vec<String>>,
}

pub open spec fn names_view(ns: Seq<(String, String)>) -> Seq<(Seq<char>, Seq<char>)> {
    ns.map_values(|e: (String, String)| (e.0@, e.1@))
}

/// Index of the entry for `locale`, or the number of entries.
pub open spec fn locale_index(ns: Seq<(Seq<char>, Seq<char>)>, locale: Seq<char>) -> int
    decreases ns.len(),
{
    if ns.len() == 0 {
        0
    } else if ns[0].0 == locale {
        0
    } else {
        1 + locale_index(ns.drop_first(), locale)
    }
}

/// The name a place is shown by: its English name, else the name of its first locale.
pub open spec fn place_name(names: Option<Seq<(Seq<char>, Seq<char>)>>) -> Option<Seq<char>> {
    match names {
        None => None,
        Some(ns) => {
            let i = locale_index(ns, "en"@);
            if i < ns.len() {
                Some(ns[i].1)
            } else if ns.len() > 0 {
                Some(ns[0].1)
            } else {
                None
            }
        },
    }
}

pub open spec fn place_names_view(p: GeoPlace) -> Option<Seq<(Seq<char>, Seq<char>)>> {
    match p.names {
        Some(ns) => Some(names_view(ns@)),
        None => None,
    }
}

proof fn lemma_locale_index(ns: Seq<(Seq<char>, Seq<char>)>, locale: Seq<char>, i: int)
    requires
        0 <= i <= ns.len(),
        forall|j: int| 0 <= j < i ==> (#[trigger] ns[j]).0 != locale,
        i == ns.len() || ns[i].0 == locale,
    ensures
        locale_index(ns, locale) == i,
    decreases i,
{
    if i > 0 {
        assert forall|j: int| 0 <= j < i - 1 implies (#[trigger] ns.drop_first()[j]).0 != locale by {
            assert(ns.drop_first()[j] == ns[j + 1]);
        }
        lemma_locale_index(ns.drop_first(), locale, i - 1);
    }
}

/// The name a place is shown by.
fn name_of_place(p: &GeoPlace) -> (r: Option<String>)
    ensures
        match r {
            Some(s) => place_name(place_names_view(*p)) == Some(s@),
            None => place_name(place_names_view(*p)) is None,
        },
{
    let ns = match &p.names {
        Some(ns) => ns,
        None => {
            return None;
        },
    };
    let ghost nv = names_view(ns@);
    let mut i: usize = 0;
    while i < ns.len() && !str_eq(ns[i].0.as_str(), "en")
        invariant
            nv == names_view(ns@),
            i <= ns.len(),
            forall|j: int| 0 <= j < i ==> (#[trigger] nv[j]).0 != "en"@,
        decreases ns.len() - i,
    {
        i += 1;
    }
    proof {
        lemma_locale_index(nv, "en"@, i as int);
    }
    if i < ns.len() {
        Some(ns[i].1.clone())
    } else if ns.len() > 0 {
        Some(ns[0].1.clone())
    } else {
        None
    }
}

/// The city's name, if the record has a named city.
pub fn extract_city_name(city: &GeoCityRecord) -> (r: Option<String>)
    ensures
        match city.city {
            None => r is None,
            Some(p) => match r {
                Some(s) => place_name(place_names_view(p)) == Some(s@),
                None => place_name(place_names_view(p)) is None,
            },
        },
{
    match &city.city {
        Some(p) => name_of_place(p),
        None => None,
    }
}

/// The names of the subdivisions that have one, in order.
pub open spec fn subdivision_names(ps: Seq<GeoPlace>) -> Seq<Seq<char>>
    decreases ps.len(),
{
    if ps.len() == 0 {
        seq![]
    } else {
        let init = subdivision_names(ps.drop_last());
        match place_name(place_names_view(ps.last())) {
            Some(n) => init.push(n),
            None => init,
        }
    }
}

/// The names of the record's subdivisions, if it lists subdivisions.
pub fn extract_subdivision_names(city: &GeoCityRecord) -> (r: Option<Vec<String>>)
    ensures
        match city.subdivisions {
            None => r is None,
            Some(ps) => r matches Some(v) && crate::text::views(v@) == subdivision_names(ps@),
        },
{
    match &city.subdivisions {
        None => None,
        Some(ps) => {
            let mut out: Vec<String> = Vec::new();
            let mut i: usize = 0;
            proof {
                assert(ps@.take(0) =~= Seq::<GeoPlace>::empty());
                assert(crate::text::views(out@) =~= Seq::<Seq<char>>::empty());
            }
            while i < ps.len()
                invariant
                    i <= ps.len(),
                    crate::text::views(out@) == subdivision_names(ps@.take(i as int)),
                decreases ps.len() - i,
            {
                proof {
                    assert(ps@.take(i + 1).drop_last() =~= ps@.take(i as int));
                    assert(ps@.take(i + 1).last() == ps@[i as int]);
                }
                match name_of_place(&ps[i]) {
                    Some(n) => {
                        proof {
                            crate::text::lemma_views_push(out@, n);
                        }
                        out.push(n);
                    },
                    None => {},
                }
                i += 1;
            }
            proof {
                assert(ps@.take(i as int) =~= ps@);
            }
            Some(out)
        },
    }
}

impl City {
    /// The summary of a city record.
    pub fn from(city: &GeoCityRecord) -> (r: City)
        ensures
            match city.city {
                None => r.name is None,
                Some(p) => match r.name {
                    Some(s) => place_name(place_names_view(p)) == Some(s@),
                    None => place_name(place_names_view(p)) is None,
                },
            },
            match city.country {
                Some(c) => match c.iso_code {
                    Some(code) => r.country_code matches Some(x) && x@ == code@,
                    None => r.country_code is None,
                },
                None => r.country_code is None,
            },
            match city.subdivisions {
                None => r.subdivisions is None,
                Some(ps) => r.subdivisions matches Some(v) && crate::text::views(v@)
                    == subdivision_names(ps@),
            },
    {
        let name = extract_city_name(city);
        let country_code = match &city.country {
            Some(c) => match &c.iso_code {
                Some(code) => Some(code.clone()),
                None => None,
            },
            None => None,
        };
        City { country_code, name, subdivisions: extract_subdivision_names(city) }
    }
}

} // verus!
