use bsp::vbsp::property::{EntityParseError, EntityProp};

#[test]
fn integer_properties_parse_with_from_str() {
    assert_eq!(<u8 as EntityProp>::parse("255").unwrap(), 255);
    assert_eq!(<u16 as EntityProp>::parse("1000").unwrap(), 1000);
    assert_eq!(<u32 as EntityProp>::parse("70000").unwrap(), 70000);
    assert_eq!(<i32 as EntityProp>::parse("-12").unwrap(), -12);
    assert!(matches!(<u8 as EntityProp>::parse("256"), Err(EntityParseError::Int(_))));
    assert!(matches!(<u32 as EntityProp>::parse("1 2"), Err(EntityParseError::Int(_))));
}

#[test]
fn flag_properties_are_set_unless_zero_or_no() {
    assert!(!<bool as EntityProp>::parse("0").unwrap());
    assert!(!<bool as EntityProp>::parse("no").unwrap());
    assert!(<bool as EntityProp>::parse("1").unwrap());
    assert!(<bool as EntityProp>::parse("yes").unwrap());
    assert!(<bool as EntityProp>::parse("").unwrap());
}

#[test]
fn text_and_optional_properties() {
    assert_eq!(<&str as EntityProp>::parse("sky_day01_01").unwrap(), "sky_day01_01");
    assert_eq!(<Option<u8> as EntityProp>::parse("7").unwrap(), Some(7));
    assert!(<Option<u8> as EntityProp>::parse("x").is_err());
}
