use trailbase::geoip::{
    extract_city_name, extract_subdivision_names, City, GeoCityRecord, GeoCountry, GeoPlace,
};

fn place(names: &[(&str, &str)]) -> GeoPlace {
    GeoPlace {
        names: Some(
            names
                .iter()
                .map(|(l, n)| (l.to_string(), n.to_string()))
                .collect(),
        ),
    }
}

#[test]
fn city_summary() {
    let record = GeoCityRecord {
        city: Some(place(&[("de", "Linköping"), ("en", "Linkoping")])),
        country: Some(GeoCountry {
            iso_code: Some("SE".to_string()),
        }),
        subdivisions: Some(vec![
            place(&[("en", "Östergötland County"), ("fr", "Comté d'Östergötland")]),
            place(&[("de", "Nur Deutsch")]),
            GeoPlace { names: None },
        ]),
    };
    assert_eq!(extract_city_name(&record), Some("Linkoping".to_string()));
    assert_eq!(
        extract_subdivision_names(&record),
        Some(vec![
            "Östergötland County".to_string(),
            "Nur Deutsch".to_string()
        ])
    );
    let city = City::from(&record);
    assert_eq!(city.country_code, Some("SE".to_string()));
    assert_eq!(city.name, Some("Linkoping".to_string()));

    let empty = GeoCityRecord {
        city: None,
        country: Some(GeoCountry { iso_code: None }),
        subdivisions: None,
    };
    assert_eq!(
        City::from(&empty),
        City {
            country_code: None,
            name: None,
            subdivisions: None
        }
    );
    // Without an English name the first locale's name is taken.
    let record = GeoCityRecord {
        city: Some(place(&[("es", "Linkoping-es"), ("ja", "リンシェーピング")])),
        country: None,
        subdivisions: Some(vec![]),
    };
    assert_eq!(extract_city_name(&record), Some("Linkoping-es".to_string()));
    assert_eq!(extract_subdivision_names(&record), Some(vec![]));
}
