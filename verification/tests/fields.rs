use cyrano::enums::ApparatusState;
use cyrano::enums::Command;
use cyrano::enums::PCard;
use cyrano::enums::Weapon;
use cyrano::error::ParseError;
use cyrano::parser::get_field;
use cyrano::parser::get_owned_field;
use cyrano::parser::get_required_field;
use cyrano::parser::parse_optional_bool;
use cyrano::parser::parse_optional_enum;
use cyrano::parser::parse_optional_u8;

#[test]
fn get_field_unifies_empty_and_missing() {
    let fields = vec!["a", "", "c"];
    assert_eq!(get_field(&fields, 0), Some("a"));
    assert_eq!(get_field(&fields, 1), None);
    assert_eq!(get_field(&fields, 2), Some("c"));
    assert_eq!(get_field(&fields, 3), None);
    assert_eq!(get_field(&fields, usize::MAX), None);
    assert_eq!(get_field(&[], 0), None);
}

#[test]
fn get_field_keeps_whitespace() {
    let fields = vec![" ", "B. Panini"];
    assert_eq!(get_field(&fields, 0), Some(" "));
    assert_eq!(get_field(&fields, 1), Some("B. Panini"));
}

#[test]
fn get_owned_field_copies_the_field() {
    let fields = vec!["a", ""];
    assert_eq!(get_owned_field(&fields, 0), Some("a".to_string()));
    assert_eq!(get_owned_field(&fields, 1), None);
    assert_eq!(get_owned_field(&fields, 2), None);
}

#[test]
fn get_required_field_names_what_is_missing() {
    let fields = vec!["EFP1", ""];
    assert_eq!(get_required_field(&fields, 0, "protocol").unwrap(), "EFP1");
    assert!(matches!(
        get_required_field(&fields, 1, "command"),
        Err(ParseError::MissingField("command"))
    ));
    assert!(matches!(
        get_required_field(&fields, 2, "piste"),
        Err(ParseError::MissingField("piste"))
    ));
}

#[test]
fn parse_optional_u8_degrades_to_none() {
    let fields = vec!["12", "", "abc", "256", "255", "+3", "-1", " 4"];
    assert_eq!(parse_optional_u8(&fields, 0), Some(12));
    assert_eq!(parse_optional_u8(&fields, 1), None);
    assert_eq!(parse_optional_u8(&fields, 2), None);
    assert_eq!(parse_optional_u8(&fields, 3), None);
    assert_eq!(parse_optional_u8(&fields, 4), Some(255));
    assert_eq!(parse_optional_u8(&fields, 5), Some(3));
    assert_eq!(parse_optional_u8(&fields, 6), None);
    assert_eq!(parse_optional_u8(&fields, 7), None);
    assert_eq!(parse_optional_u8(&fields, 8), None);
}

#[test]
fn parse_optional_bool_is_true_for_one_only() {
    let fields = vec!["1", "0", "", "yes", "01", "true"];
    assert_eq!(parse_optional_bool(&fields, 0), Some(true));
    assert_eq!(parse_optional_bool(&fields, 1), Some(false));
    assert_eq!(parse_optional_bool(&fields, 2), None);
    assert_eq!(parse_optional_bool(&fields, 3), Some(false));
    assert_eq!(parse_optional_bool(&fields, 4), Some(false));
    assert_eq!(parse_optional_bool(&fields, 5), Some(false));
    assert_eq!(parse_optional_bool(&fields, 6), None);
}

#[test]
fn parse_optional_enum_degrades_to_none() {
    let fields = vec!["S", "", "X", "s", "W", "5", "hello"];
    assert_eq!(parse_optional_enum::<Weapon>(&fields, 0), Some(Weapon::Sabre));
    assert_eq!(parse_optional_enum::<Weapon>(&fields, 1), None);
    assert_eq!(parse_optional_enum::<Weapon>(&fields, 2), None);
    assert_eq!(parse_optional_enum::<Weapon>(&fields, 3), None);
    assert_eq!(parse_optional_enum::<Weapon>(&fields, 4), None);
    assert_eq!(parse_optional_enum::<ApparatusState>(&fields, 4), Some(ApparatusState::Waiting));
    assert_eq!(parse_optional_enum::<PCard>(&fields, 5), Some(PCard::TwoBlack));
    assert_eq!(parse_optional_enum::<Command>(&fields, 6), Some(Command::Hello));
    assert_eq!(parse_optional_enum::<Weapon>(&fields, 7), None);
}
