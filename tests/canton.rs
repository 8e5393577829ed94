use farms::canton::{Canton, CantonError};

#[test]
fn valid_canton_uppercase() {
    assert!(Canton::parse("ZH".to_string()).is_ok());
}

#[test]
fn valid_canton_lowercase() {
    let canton = Canton::parse("ag".to_string());
    assert!(canton.is_ok());
    assert_eq!(canton.unwrap().as_str(), "AG");
}

#[test]
fn invalid_canton_rejected() {
    assert!(Canton::parse("DE".to_string()).is_err());
}

#[test]
fn invalid_canton_empty_string() {
    assert!(Canton::parse("".to_string()).is_err());
}

#[test]
fn canton_is_trimmed_and_upper_cased() {
    let canton = Canton::parse("  vs \t".to_string()).unwrap();
    assert_eq!(canton.as_str(), "VS");
}

#[test]
fn blank_canton_gives_empty_canton_error() {
    assert!(matches!(Canton::parse("   ".to_string()), Err(CantonError::EmptyCanton)));
}

#[test]
fn unknown_canton_error_keeps_the_input() {
    match Canton::parse(" de ".to_string()) {
        Err(CantonError::InvalidCanton(s)) => assert_eq!(s, " de "),
        other => panic!("unexpected: {:?}", other),
    }
}

#[test]
fn all_twenty_six_cantons_are_accepted() {
    let codes = [
        "AG", "AI", "AR", "BE", "BL", "BS", "FR", "GE", "GL", "GR", "JU", "LU", "NE", "NW", "OW",
        "SG", "SH", "SO", "SZ", "TG", "TI", "UR", "VD", "VS", "ZG", "ZH",
    ];
    for code in codes {
        assert_eq!(Canton::parse(code.to_lowercase()).unwrap().as_str(), code);
    }
}
