use trailbase::util::{b64_to_id, generate_random_string, id_to_b64, IdError};

#[test]
fn test_generate_random_string() {
    let n = 20;
    let first = generate_random_string(20);
    assert_eq!(n, first.len());
    let second = generate_random_string(20);
    assert_eq!(n, second.len());
    assert_ne!(first, second);
}

#[test]
fn id_round_trip() {
    let id: [u8; 16] = [9; 16];
    assert_eq!(b64_to_id(&id_to_b64(&id)), Ok(id));
    assert_eq!(b64_to_id("AQI="), Err(IdError::InvalidLength(2)));
    assert_eq!(b64_to_id("!"), Err(IdError::Decode));
}

#[test]
fn url_encoding_and_uuid_ids() {
    use_urlencode_cases();
    let bytes = [3u8; 16];
    let text = trailbase::util::uuid_to_b64(&bytes);
    assert_eq!(trailbase::util::b64_to_uuid(&text).unwrap(), bytes);
    assert!(trailbase::util::b64_to_uuid("AAAA").is_err());
}

fn use_urlencode_cases() {
    assert_eq!(trailbase::util::urlencode("a b&c=d/é*-._~"), "a+b%26c%3Dd%2F%C3%A9*-._%7E");
    assert_eq!(trailbase::util::urlencode(""), "");
}
