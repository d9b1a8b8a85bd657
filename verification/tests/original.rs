use nwrfc::protocol::{
    ConnectionParameters, Date, FunctionDescription, ParameterDescription, ParameterDirection,
    RfcDate, RfcResult, RfcTime, Time, Type, TypeDescription, UCStr,
};

#[test]
fn display_type() {
    let t = Type::Char(1);
    let t_str = t.to_string();
    assert_eq!(t_str, "Char(1)");

    let type_desc = TypeDescription::new("TEST").expect("Could not create new type");
    let t = Type::Structure(&type_desc);
    let t_str = t.to_string();
    assert_eq!(t_str, "Structure(TEST)")
}

#[test]
fn add_parameter() {
    let mut func_desc = FunctionDescription::new("TEST").expect("Unable to create function");
    let param = ParameterDescription::new("TEST_PARAM", ParameterDirection::Import, Type::Char(1))
        .expect("Unable to create parameter");
    func_desc
        .add_parameter(&param)
        .expect("Error adding the parameter to the function");
}

#[test]
fn get_parameter_by_name() -> RfcResult<()> {
    let mut desc = FunctionDescription::new("TEST")?;
    let param = ParameterDescription::new("TEST", ParameterDirection::Import, Type::Char(1))?;
    desc.add_parameter(&param)?;

    desc.get_parameter_by_name("TEST").expect("Parameter not found!");
    assert!(desc.get_parameter_by_name("NOT_EXISTING").is_none());
    assert!(desc
        .get_parameter_by_name("PARAMETER_NAME_WHICH_IS_TOO_LONG")
        .is_none());

    Ok(())
}

#[test]
fn test_from_strings() {
    let params = [
        ("ASHOST", "fuubar.example.com"),
        ("SYSNR", "37"),
        ("CLIENT", "000"),
        ("USER", "test"),
    ];
    let cparams = ConnectionParameters::from_pairs(params.as_slice());
    let mut it = cparams.iter();
    for check in params {
        let param = it.next().expect("Parameter missing");
        assert_eq!(check.0, param.0);
        assert_eq!(check.1, param.1);
    }
}

#[test]
fn test_date_from_rfc_date() {
    let mut rfc_date: RfcDate = [0; 8];
    UCStr::write_slice_without_nul(&mut rfc_date, "20230524")
        .expect("Could not write the string to RFC_DATE");
    let date = Date::from_rfc_date(rfc_date).expect("Could not parse the RFC_DATE");
    assert_eq!(date.day(), 24);
    assert_eq!(date.month(), 5);
    assert_eq!(date.year(), 2023);
}

#[test]
fn test_date_from_leap_day() {
    let mut rfc_date: RfcDate = [0; 8];
    UCStr::write_slice_without_nul(&mut rfc_date, "20200229")
        .expect("Could not write the string to RFC_DATE");
    let date = Date::from_rfc_date(rfc_date).expect("Could not parse the RFC_DATE");
    assert_eq!(date.day(), 29);
    assert_eq!(date.month(), 2);
    assert_eq!(date.year(), 2020);
}

#[test]
fn test_date_from_invalid_rfc_date() {
    let mut invalid_rfc_date: RfcDate = [0; 8];
    // Write invalid day
    UCStr::write_slice_without_nul(&mut invalid_rfc_date, "13371237")
        .expect("Could not write the string to RFC_DATE");
    Date::from_rfc_date(invalid_rfc_date).expect_err("Could construct from invalid date!");
    // Write invalid month
    UCStr::write_slice_without_nul(&mut invalid_rfc_date, "13371301")
        .expect("Could not write the string to RFC_DATE");
    Date::from_rfc_date(invalid_rfc_date).expect_err("Could construct from invalid date!");
    // Write invalid leap day
    UCStr::write_slice_without_nul(&mut invalid_rfc_date, "21000229")
        .expect("Could not write the string to RFC_DATE");
    Date::from_rfc_date(invalid_rfc_date).expect_err("Could construct from invalid date!");
    // Write garbage data
    UCStr::write_slice_without_nul(&mut invalid_rfc_date, "INVALID!")
        .expect("Could not wirte the stirng to RFC_DATE");
    Date::from_rfc_date(invalid_rfc_date).expect_err("Could construct from invalid date!");
}

#[test]
fn test_time_from_rfc_time() {
    let mut rfc_time: RfcTime = [0; 6];
    UCStr::write_slice_without_nul(&mut rfc_time, "133742").expect("Could not write to RFC_TIME");
    let time = Time::from_rfc_time(rfc_time).expect("Could not parse RFC_TIME");
    assert_eq!(time.hour(), 13);
    assert_eq!(time.minute(), 37);
    assert_eq!(time.second(), 42);
}

#[test]
fn test_time_from_invalid_rfc_time() {
    let mut rfc_time: RfcTime = [0; 6];
    // Write invalid hour
    UCStr::write_slice_without_nul(&mut rfc_time, "250000").expect("Could not write to RFC_TIME");
    Time::from_rfc_time(rfc_time).expect_err("Could parse from invalid hour");
    // Write invalid minute
    UCStr::write_slice_without_nul(&mut rfc_time, "006100").expect("Could not write to RFC_TIME");
    Time::from_rfc_time(rfc_time).expect_err("Could parse from invalid minute");
    // Write invalid second
    UCStr::write_slice_without_nul(&mut rfc_time, "000073").expect("Could not write to RFC_TIME");
    Time::from_rfc_time(rfc_time).expect_err("Could parse from invalid second");
    // Write garbage data
    UCStr::write_slice_without_nul(&mut rfc_time, "invali").expect("Could not write to RFC_TIME");
    Time::from_rfc_time(rfc_time).expect_err("Could parse from garbage data");
}

#[test]
fn test_multiple_fields() -> RfcResult<()> {
    let type1 = TypeDescription::new("TYPE1")?;
    let mut type2 = TypeDescription::new("TYPE2")?;
    type2.add_field("FIELD1", Type::Structure(&type1))?;
    type2.add_field("FIELD2", Type::Structure(&type1))?;

    type2.get("FIELD1").expect("FIELD1 not found!");
    type2.get("FIELD2").expect("FIELD2 not found!");
    Ok(())
}

#[test]
fn test_name() -> RfcResult<()> {
    let name = "TEST";
    let param_desc = ParameterDescription::new(name, ParameterDirection::Import, Type::Char(1))?;
    assert_eq!(param_desc.name(), name);
    Ok(())
}

#[test]
fn test_iter() -> RfcResult<()> {
    let mut type_desc = TypeDescription::new("TEST")?;
    type_desc.add_field("TEST", Type::Char(1))?;

    let mut fields = type_desc.iter();
    while let Some(field) = fields.next() {
        assert_eq!(field.name(), "TEST");
    }
    Ok(())
}

#[test]
fn test_from_slice() {
    let a = [
        'H' as u16, 'e' as u16, 'l' as u16, 'l' as u16, 'o' as u16,
    ];
    let uc_str = UCStr::from_slice(&a);
    assert_eq!(uc_str.to_string_lossy(), "Hello");
}

#[test]
fn test_write() {
    let mut a = [0u16; 12];
    UCStr::write_slice(&mut a, "Hello World").expect("Unable to write the string");
    assert_eq!(UCStr::from_slice(&a).to_string_lossy(), "Hello World");
}

#[test]
fn test_write_without_nul() {
    let mut a = [0u16; 11];
    UCStr::write_slice_without_nul(&mut a, "Hello World").expect("Unable to write the string");
    assert_eq!(a[10], 'd' as u16);
}
