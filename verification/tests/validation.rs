use std::str::FromStr;

use nhi::{char_code, is_nhi, NHI};

const VALID_OLD: [&str; 15] = [
    "JBX3656", "ZZZ0016", "ZZZ0024", "ZAA0067", "ZAA0075", "ZAA0083", "ZAA0091", "ZAA0105",
    "ZAA0113", "ZAA0121", "ZAA0130", "ZAA0148", "ZAA0156", "ZAC5361", "ABC1235",
];
const VALID_NEW: [&str; 11] = [
    "ZBN77VL", "ZZZ00AC", "ZDR69YX", "ZSC21TN", "ZZB30NH", "ZYZ81ZV", "ZVB97XQ", "ZRA29VA",
    "ZYX61YS", "ABC12AY", "XYZ12AN",
];
const INVALID_OLD: [&str; 3] = ["ZZZ0044", "ZZZ0017", "DAB8233"];
const INVALID_NEW: [&str; 4] = ["ZZZ00AA", "ZZZ00AY", "ZVU27KY", "ZVU27KA"];
const RANDOM_STRINGS: [&str; 7] =
    ["not an NHI", "!@#$%&*", "AAANNNC", "AAANNAC", "ZVU27K", "JBX365", ""];

#[test]
fn is_nhi_recognises_valid_old_format_nhi_numbers() {
    for nhi in VALID_OLD {
        assert!(is_nhi(nhi));
    }
}

#[test]
fn is_nhi_rejects_invalid_old_format_nhi_numbers() {
    for nhi in INVALID_OLD {
        assert!(!is_nhi(nhi));
    }
    // Needs a check digit of 6
    for i in 0..10 {
        if i != 6 {
            assert!(!is_nhi(&format!("JBX365{i}")));
        }
    }
}

#[test]
fn no_digit_can_be_added_to_an_old_format_nhi_with_a_checksum_of_0_to_make_it_valid() {
    for i in 0..10 {
        assert!(!is_nhi(&format!("ZZZ004{i}")));
    }
}

#[test]
fn is_nhi_recognises_valid_new_format_nhi_numbers() {
    for nhi in VALID_NEW {
        assert!(is_nhi(nhi));
    }
}

#[test]
fn is_nhi_rejects_invalid_new_format_nhi_numbers() {
    for nhi in INVALID_NEW {
        assert!(!is_nhi(nhi));
    }
    // Needs a check character of V
    for c in "ABCDEFGHJKLMNPQRSTUWXYZ".chars() {
        assert!(!is_nhi(&format!("ZHW58C{c}")))
    }
}

#[test]
fn is_nhi_rejects_random_strings() {
    for nhi in RANDOM_STRINGS {
        assert!(!is_nhi(nhi));
    }
}

#[test]
fn is_nhi_is_case_insensitive() {
    for nhi in VALID_OLD.iter().chain(VALID_NEW.iter()) {
        assert!(is_nhi(&nhi.to_lowercase()))
    }
    for nhi in INVALID_OLD.iter().chain(INVALID_NEW.iter()).chain(RANDOM_STRINGS.iter()) {
        assert!(!is_nhi(&nhi.to_lowercase()))
    }
}

#[test]
fn nhi_numbers_can_be_parsed_from_strings_to_results() {
    for nhi_str in VALID_OLD.iter().chain(VALID_NEW.iter()) {
        assert!(NHI::from_str(nhi_str).is_ok());
    }
    for nhi_str in INVALID_OLD.iter().chain(INVALID_NEW.iter()).chain(RANDOM_STRINGS.iter()) {
        assert!(NHI::from_str(nhi_str).is_err());
    }
}

#[test]
fn nhi_numbers_can_be_converted_to_strings() {
    for nhi_str in VALID_OLD.iter().chain(VALID_NEW.iter()) {
        let nhi = NHI::from_str(&nhi_str.to_lowercase()).unwrap();
        assert_eq!(nhi.as_str(), nhi_str.to_uppercase());
        assert_eq!(nhi.into_string(), nhi_str.to_uppercase());
    }
}

#[test]
fn nhi_numbers_identify_values_reserved_for_testing() {
    let reserved = vec!["ZAA0105", "ZAA0113", "ZBN77VL", "ZZZ00AC"];
    let unreserved = vec!["JBX3656", "ABC1235", "ABC12AY", "XYZ12AN"];
    for nhi in reserved {
        let nhi: NHI = nhi.parse().unwrap();
        assert!(nhi.is_test());
        assert!(!nhi.is_not_test());
    }
    for nhi in unreserved {
        let nhi: NHI = nhi.parse().unwrap();
        assert!(!nhi.is_test());
        assert!(nhi.is_not_test());
    }
}

#[test]
fn nhi_numbers_can_be_formatted() {
    for nhi_str in VALID_OLD.iter().chain(VALID_NEW.iter()) {
        let nhi = NHI::from_str(&nhi_str.to_lowercase()).unwrap();
        assert_eq!(nhi.to_string(), nhi_str.to_uppercase());
    }
}

#[test]
fn char_codes() {
    for (i, c) in ('A'..'I').enumerate() {
        assert_eq!(char_code(c), i as u32 + 1);
    }
    for (i, c) in ('J'..'O').enumerate() {
        assert_eq!(char_code(c), i as u32 + 9);
    }
    for (i, c) in ('P'..='Z').enumerate() {
        assert_eq!(char_code(c), i as u32 + 14);
    }
}
