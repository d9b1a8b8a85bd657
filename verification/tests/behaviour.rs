use nwrfc::protocol::utils::check_rc;
use nwrfc::protocol::{
    Connection, ConnectionAttributes, ConnectionParameters, Date, ErrorGroup, ExceptionDescription,
    Function, FunctionDescription, InvalidDateTypes, InvalidTimeTypes, ParameterDescription,
    ParameterDirection, ReturnCode, RfcAttributes, RfcError, RfcErrorInfo, RfcExceptionDesc,
    RfcType, RfcUnitIdentifier, Time, TraceLevel, TransactionID, Type, TypeDescription, UCStr,
    UCString, UnitIdentifier,
};

fn units(s: &str) -> Vec<u16> {
    s.encode_utf16().collect()
}

fn buffer<const N: usize>(s: &str) -> [u16; N] {
    let mut b = [0u16; N];
    UCStr::write_slice(&mut b, s).expect("text does not fit");
    b
}

#[test]
fn uc_string_is_nul_terminated_utf16() {
    let s = UCString::from_str("a\u{1F600}b");
    assert_eq!(s.as_slice(), &[0x61, 0xD83D, 0xDE00, 0x62, 0][..]);
    assert_eq!(s.to_string_lossy(), "a\u{1F600}b");
    assert_eq!(UCString::new().as_slice().len(), 0);
}

#[test]
fn to_string_lossy_stops_at_nul_and_replaces_lone_surrogates() {
    let a = [0x41u16, 0xD800, 0x42, 0, 0x43];
    assert_eq!(UCStr::from_slice(&a).to_string_lossy(), "A\u{FFFD}B");
    let b = [0xDC00u16, 0xD83D, 0xDE00];
    assert_eq!(UCStr::slice_to_string_lossy(&b), "\u{FFFD}\u{1F600}");
}

#[test]
fn write_fails_on_small_buffer_and_leaves_it_unchanged() {
    let mut a = [7u16; 11];
    let e = UCStr::write_slice(&mut a, "Hello World").unwrap_err();
    assert_eq!(e.code, ReturnCode::BufferTooSmall);
    assert_eq!(e.group, ErrorGroup::ExternalRuntimeFailure);
    assert_eq!(e.key, "RFC_BUFFER_TOO_SMALL");
    assert_eq!(a, [7u16; 11]);
    let mut b = [7u16; 10];
    assert!(UCStr::write_slice_without_nul(&mut b, "Hello World").is_err());
    assert_eq!(b, [7u16; 10]);
}

#[test]
fn write_keeps_units_behind_the_nul() {
    let mut a = [9u16; 6];
    assert_eq!(UCStr::write_slice(&mut a, "ab").unwrap(), 2);
    assert_eq!(a, [0x61, 0x62, 0, 9, 9, 9]);
    let mut b = [9u16; 6];
    assert_eq!(UCStr::write_slice_without_nul(&mut b, "ab").unwrap(), 2);
    assert_eq!(b, [0x61, 0x62, 0, 0, 0, 0]);
    let mut s = UCStr::from_slice(&[5u16; 4]);
    assert_eq!(s.write("\u{1F600}").unwrap(), 2);
    assert_eq!(s.as_slice(), &[0xD83D, 0xDE00, 0, 5][..]);
    assert_eq!(s.write_without_nul("xyz").unwrap(), 3);
    assert_eq!(s.as_slice(), &[0x78, 0x79, 0x7A, 0][..]);
    assert_eq!(s.len(), 4);
}

#[test]
fn write_then_read_gives_the_text_back() {
    for text in ["", "Hello", "Grüße", "\u{10FFFF}x"] {
        let mut a = [0u16; 16];
        UCStr::write_slice(&mut a, text).unwrap();
        assert_eq!(UCStr::slice_to_string_lossy(&a), text);
        assert_eq!(&a[..units(text).len()], &units(text)[..]);
    }
}

#[test]
fn date_new_checks_the_calendar() {
    let d = Date::new(2023, 6, 16).unwrap();
    assert_eq!((d.year(), d.month(), d.day()), (2023, 6, 16));
    assert_eq!(d.to_string(), "2023-06-16");
    assert!(Date::new(2023, 8, 31).is_ok());
    assert!(Date::new(2024, 2, 29).is_ok());
    assert!(Date::new(2000, 2, 29).is_ok());

    let e = Date::new(2023, 13, 1).unwrap_err();
    assert_eq!(e.error_type, InvalidDateTypes::MonthOutOfRange);
    assert_eq!(e.value, "13");
    assert_eq!(e.max_value, 12);
    assert_eq!(e.to_string(), "Invalid Date: Month (13) out of range (1-12)");

    let e = Date::new(2023, 2, 30).unwrap_err();
    assert_eq!(e.error_type, InvalidDateTypes::DayOutOfRange);
    assert_eq!(e.value, "30");
    assert_eq!(e.max_value, 28);

    let e = Date::new(2023, 9, 31).unwrap_err();
    assert_eq!(e.max_value, 30);
    assert_eq!(e.to_string(), "Invalid Date: Day (31) out of range (1-30)");

    let e = Date::new(1900, 2, 29).unwrap_err();
    assert_eq!(e.max_value, 28);
    let e = Date::new(2023, 1, 0).unwrap_err();
    assert_eq!(e.error_type, InvalidDateTypes::DayOutOfRange);
    assert_eq!(e.value, "0");
    assert_eq!(e.max_value, 31);
}

#[test]
fn date_rfc_roundtrip_and_parse_errors() {
    let d = Date::new(7, 3, 4).unwrap();
    let raw = d.to_rfc_date();
    assert_eq!(UCStr::slice_to_string_lossy(&raw), "00070304");
    assert_eq!(Date::from_rfc_date(raw).unwrap(), d);

    let mut raw = [0u16; 8];
    UCStr::write_slice_without_nul(&mut raw, "+0230524").unwrap();
    assert_eq!(Date::from_rfc_date(raw).unwrap().year(), 23);

    UCStr::write_slice_without_nul(&mut raw, "2023ab24").unwrap();
    let e = Date::from_rfc_date(raw).unwrap_err();
    assert_eq!(e.error_type, InvalidDateTypes::InvalidMonth);
    assert_eq!(e.value, "ab");
    assert_eq!(e.max_value, 0);
    assert_eq!(e.to_string(), "Invalid Date: Invalid Month (ab)");

    UCStr::write_slice_without_nul(&mut raw, "INVALID!").unwrap();
    let e = Date::from_rfc_date(raw).unwrap_err();
    assert_eq!(e.error_type, InvalidDateTypes::InvalidYear);
    assert_eq!(e.value, "INVA");
}

#[test]
fn time_new_and_rfc_roundtrip() {
    let t = Time::new(23, 59, 0).unwrap();
    assert_eq!(t.to_string(), "23:59:00");
    let raw = t.to_rfc_time();
    assert_eq!(UCStr::slice_to_string_lossy(&raw), "235900");
    assert_eq!(Time::from_rfc_time(raw).unwrap(), t);

    let e = Time::new(24, 0, 0).unwrap_err();
    assert_eq!(e.error_type, InvalidTimeTypes::HourOutOfRange);
    assert_eq!(e.value, "24");
    assert_eq!(e.to_string(), "Invalid Time: Hour (24) out of range (0-23)");
    assert_eq!(Time::new(0, 60, 0).unwrap_err().error_type, InvalidTimeTypes::MinuteOutOfRange);
    assert_eq!(Time::new(0, 0, 60).unwrap_err().error_type, InvalidTimeTypes::SecondOutOfRange);

    let mut raw = [0u16; 6];
    UCStr::write_slice_without_nul(&mut raw, "12x456").unwrap();
    let e = Time::from_rfc_time(raw).unwrap_err();
    assert_eq!(e.error_type, InvalidTimeTypes::InvlidMinute);
    assert_eq!(e.value, "x4");
    assert_eq!(e.to_string(), "Invalid Time: Invalid minute value (x4)");
}

#[test]
fn trace_level_digits() {
    assert_eq!(TraceLevel::try_from_str("0").unwrap(), TraceLevel::Off);
    assert_eq!(TraceLevel::try_from_str("3").unwrap(), TraceLevel::Full);
    assert!(TraceLevel::try_from_str("4").is_err());
    assert!(TraceLevel::try_from_str("01").is_err());
    assert_eq!(TraceLevel::Verbose.as_str(), "2");
    assert_eq!(TraceLevel::Brief.to_string(), "1");
    assert_eq!(TraceLevel::try_from_str("").unwrap_err().to_string(), "Invalid trace level!");
}

#[test]
fn enum_names() {
    assert_eq!(ReturnCode::OK.to_string(), "Ok");
    assert_eq!(ReturnCode::BufferTooSmall.to_string(), "BufferTooSmall");
    assert_eq!(ErrorGroup::LogonFailure.to_string(), "LogonFailure");
    assert_eq!(ParameterDirection::Tables.to_string(), "Tables");
    assert_eq!(ReturnCode::default(), ReturnCode::OK);
}

#[test]
fn error_info_roundtrip_and_check_rc() {
    let mut e = RfcError::default();
    e.code = ReturnCode::LogonFailure;
    e.group = ErrorGroup::LogonFailure;
    e.key = "RFC_LOGON_FAILURE".to_string();
    e.message = "Name or password is incorrect".to_string();
    e.abap_msg_type = "E".to_string();
    let info = RfcErrorInfo::try_from_error(&e).unwrap();
    let back = RfcError::from_info(&info);
    assert_eq!(back.code, ReturnCode::LogonFailure);
    assert_eq!(back.key, "RFC_LOGON_FAILURE");
    assert_eq!(back.message, "Name or password is incorrect");
    assert_eq!(back.abap_msg_type, "E");
    assert_eq!(back.abap_msg_v4, "");

    let checked = check_rc(&info).unwrap_err();
    assert_eq!(checked.message, "Name or password is incorrect");
    assert!(check_rc(&RfcErrorInfo::default()).is_ok());

    e.abap_msg_type = "EE".to_string();
    let err = RfcErrorInfo::try_from_error(&e).unwrap_err();
    assert_eq!(err.code, ReturnCode::BufferTooSmall);
}

#[test]
fn error_display() {
    let mut e = RfcError::default();
    e.key = "K".to_string();
    assert_eq!(
        e.to_string(),
        "RFC-Error:\n\tcode: Ok\n\tgroup: Ok\n\tkey: K\n\tmessage: \n\tabapMsgClass: \n\t\
         abapMsgType: \n\tabapMsgNumber: \n\tabapMsgV1: \n\tabapMsgV2: \n\tabapMsgV3: \n\t\
         abapMsgV4: \n"
    );
    let e = RfcError::invalid_parameter("bad");
    assert_eq!(e.code, ReturnCode::InvalidParameter);
    assert_eq!(e.message, "bad");
}

#[test]
fn type_lengths() {
    assert_eq!(Type::Char(10).len(), (10, 20));
    assert_eq!(Type::Date.len(), (8, 16));
    assert_eq!(Type::Time.len(), (6, 12));
    assert_eq!(Type::BCD(7, 2).len(), (7, 14));
    assert_eq!(Type::BCD(7, 2).decimals(), 2);
    assert_eq!(Type::Int.decimals(), 0);
    assert_eq!(Type::String.len(), (8, 8));
    assert_eq!(Type::Null.len(), (0, 0));
    assert_eq!(Type::Byte(3).len(), (3, 3));
    assert_eq!(Type::BCD(7, 2).to_string(), "BCD(7, 2)");
    assert_eq!(Type::UTCLong.to_string(), "UTC Timestamp");
    assert_eq!(Type::Int8.rfc_type(), RfcType::Int8);
    assert!(Type::Int.type_description().is_none());
}

#[test]
fn structure_lengths_follow_its_fields() {
    let mut inner = TypeDescription::new("INNER").unwrap();
    inner.add_field("A", Type::Char(1)).unwrap();
    inner.add_field("B", Type::Int).unwrap();
    assert_eq!((inner.nuc_length(), inner.uc_length()), (8, 8));
    let f = inner.get("B").unwrap();
    assert_eq!(f.length(), 4);
    assert_eq!(f.field_type(), Type::Int);
    assert_eq!(Type::Structure(&inner).len(), (8, 8));
    assert_eq!(Type::Table(&inner).to_string(), "Table(INNER)");

    let mut with_string = TypeDescription::new("S").unwrap();
    with_string.add_field("T", Type::Char(5)).unwrap();
    with_string.add_field("S", Type::String).unwrap();
    assert_eq!((with_string.nuc_length(), with_string.uc_length()), (16, 24));
    assert_eq!(Type::Structure(&with_string).len(), (8, 8));

    let mut outer = TypeDescription::new("OUTER").unwrap();
    outer.add_field("X", Type::Structure(&with_string)).unwrap();
    assert_eq!(Type::Structure(&outer).len(), (8, 8));
    assert_eq!(outer.len(), 1);
    assert!(outer.get_by_index(1).is_none());
    match outer.get_by_index(0).unwrap().field_type() {
        Type::Structure(t) => assert_eq!(t.name(), "S"),
        _ => panic!("field type is not a structure"),
    }
}

#[test]
fn add_field_rejects_long_names_and_keeps_the_type() {
    let mut t = TypeDescription::new("T").unwrap();
    let e = t
        .add_field("A_FIELD_NAME_LONGER_THAN_THIRTY_CHARACTERS", Type::Int)
        .unwrap_err();
    assert_eq!(e.code, ReturnCode::BufferTooSmall);
    assert_eq!(t.len(), 0);
    assert!(TypeDescription::new("A_TYPE_NAME_LONGER_THAN_THIRTY_CHARS").is_err());
    assert!(t.get("A").is_none());
}

#[test]
fn parameters_by_direction_and_exceptions() {
    let mut f = FunctionDescription::new("BAPI_TEST").unwrap();
    let p1 = ParameterDescription::new("IN1", ParameterDirection::Import, Type::Int).unwrap();
    let p2 = ParameterDescription::new("OUT1", ParameterDirection::Export, Type::Int).unwrap();
    let p3 = ParameterDescription::new("IN2", ParameterDirection::Import, Type::Char(4)).unwrap();
    f.add_parameter(&p1).unwrap();
    f.add_parameter(&p2).unwrap();
    f.add_parameter(&p3).unwrap();
    assert_eq!(f.name(), "BAPI_TEST");
    assert_eq!(f.parameter_count(), 3);

    let mut it = f.parameters(ParameterDirection::Import);
    assert_eq!(it.next().unwrap().name(), "IN1");
    assert_eq!(it.next().unwrap().name(), "IN2");
    assert!(it.next().is_none());
    assert!(it.next().is_none());

    assert_eq!(f.get_parameter_by_index(1).unwrap().name(), "OUT1");
    assert!(f.get_parameter_by_index(3).is_none());
    assert_eq!(f.get_parameter_by_name("IN2").unwrap().parameter_type(), Type::Char(4));

    let mut key = [0u16; 128];
    UCStr::write_slice(&mut key, "NOT_FOUND").unwrap();
    let mut message = [0u16; 512];
    UCStr::write_slice(&mut message, "Nothing found").unwrap();
    f.add_exception(ExceptionDescription::from_desc(RfcExceptionDesc { key, message })).unwrap();
    assert_eq!(f.exception_count(), 1);
    assert_eq!(f.get_exception_by_name("NOT_FOUND").unwrap().message(), "Nothing found");
    assert!(f.get_exception_by_name("OTHER").is_none());
    assert!(f.get_exception_by_index(1).is_none());
    let mut ex = f.exceptions();
    assert_eq!(ex.next().unwrap().key(), "NOT_FOUND");
    assert!(ex.next().is_none());
    assert_eq!(ExceptionDescription::default().key(), "");
}

#[test]
fn parameter_description_settings() {
    let mut p = ParameterDescription::new("P", ParameterDirection::Changing, Type::BCD(8, 3)).unwrap();
    assert_eq!(p.direction(), ParameterDirection::Changing);
    assert_eq!((p.len(), p.decimals()), (8, 3));
    assert!(!p.optional());
    p.set_optional(true);
    assert!(p.optional());
    assert_eq!(p.default_value(), "");
    p.set_default_value("42").unwrap();
    assert_eq!(p.default_value(), "42");
    assert!(p.set_default_value("A_DEFAULT_VALUE_LONGER_THAN_THIRTY_CHARS").is_err());
    assert_eq!(p.default_value(), "42");
    assert_eq!(p.description(), "");
    assert!(ParameterDescription::new("P_NAME_LONGER_THAN_THIRTY_CHARACTERS", ParameterDirection::Import, Type::Int).is_err());
}

#[test]
fn function_parameter_activation() {
    let mut f = FunctionDescription::new("F").unwrap();
    let p = ParameterDescription::new("A", ParameterDirection::Import, Type::Int).unwrap();
    f.add_parameter(&p).unwrap();
    let mut func = Function::from_desc(&f).unwrap();
    assert!(func.set_parameter_active("A", false).is_ok());
    let e = func.set_parameter_active("B", true).unwrap_err();
    assert_eq!(e.code, ReturnCode::InvalidParameter);
}

#[test]
fn connection_parameters_push_and_get() {
    let mut params = ConnectionParameters::with_capacity(2);
    params.push("USER", "Jürgen");
    params.push("TRACE", TraceLevel::Full.as_str());
    assert_eq!(params.len(), 2);
    assert_eq!(params.get(0), Some(("USER".to_string(), "Jürgen".to_string())));
    assert_eq!(params.get(1), Some(("TRACE".to_string(), "3".to_string())));
    assert_eq!(params.get(2), None);
    assert_eq!(params.as_slice()[0].name().as_slice(), &[0x55, 0x53, 0x45, 0x52, 0][..]);
    assert_eq!(ConnectionParameters::default().len(), 0);
}

#[test]
fn connection_state() {
    let mut ok = RfcErrorInfo::default();
    ok.code = ReturnCode::OK;
    let mut failed = RfcErrorInfo::default();
    failed.code = ReturnCode::CommunicationFailure;
    failed.group = ErrorGroup::CommunicationFailure;

    let params = ConnectionParameters::from_pairs(&[("ASHOST", "host")]);
    let err = Connection::open(params, 0, &failed).unwrap_err();
    assert_eq!(err.code, ReturnCode::CommunicationFailure);

    let params = ConnectionParameters::from_pairs(&[("ASHOST", "host")]);
    let mut c = Connection::open(params, 17, &ok).unwrap();
    assert!(c.is_alive());
    assert_eq!(c.handle(), 17);
    assert_eq!(c.params().len(), 1);
    assert!(c.close(&failed).is_err());
    assert!(c.is_alive());
    c.reopen(&ok, 23, &ok).unwrap();
    assert_eq!(c.handle(), 23);
    c.cancel(&ok).unwrap();
    assert!(!c.is_alive());
    assert!(c.close(&failed).is_ok());
}

#[test]
fn connection_attribute_texts() {
    let mut attrs = RfcAttributes::default();
    attrs.dest = buffer("DEV");
    attrs.sys_id = buffer("DEV");
    attrs.client = buffer("001");
    attrs.trace = buffer("2");
    attrs.partner_bytes_per_char = buffer("2");
    attrs.partner_ip = buffer("10.0.0.1");
    let a = ConnectionAttributes::from_attrs(attrs);
    assert_eq!(a.dest(), "DEV");
    assert_eq!(a.client(), "001");
    assert_eq!(a.user(), "");
    assert_eq!(a.trace(), TraceLevel::Verbose);
    assert_eq!(a.partner_bytes_per_char(), 2);
    assert_eq!(UCStr::slice_to_string_lossy(&a.attrs().partner_ip), "10.0.0.1");
}

#[test]
fn unit_identifiers() {
    let id: [u16; 33] = buffer("0123456789ABCDEF0123456789ABCDEF");
    let u = UnitIdentifier::from_raw(RfcUnitIdentifier { unit_type: 'Q' as u16, unit_id: id });
    assert_eq!(u.unit_type(), 'Q');
    assert_eq!(u.unit_id().to_string(), "0123456789ABCDEF0123456789ABCDEF");
    let t = TransactionID::from_raw(buffer("TID"));
    assert_eq!(t.to_string(), "TID");
}

#[test]
fn connection_lookups_take_the_outcome_of_the_call() {
    let mut ok = RfcErrorInfo::default();
    ok.code = ReturnCode::OK;
    let mut failed = RfcErrorInfo::default();
    failed.code = ReturnCode::NotFound;
    failed.group = ErrorGroup::ABAPApplicationFailure;
    failed.message = buffer("no such object");

    let params = ConnectionParameters::from_pairs(&[("ASHOST", "host")]);
    let c = Connection::open(params, 5, &ok).unwrap();

    // A ping is decided by its return code, not by the code in the information block.
    assert!(c.ping(ReturnCode::OK, &failed).is_ok());
    let e = c.ping(ReturnCode::CommunicationFailure, &failed).unwrap_err();
    assert_eq!(e.code, ReturnCode::NotFound);
    assert_eq!(e.message, "no such object");

    let mut attrs = RfcAttributes::default();
    attrs.sys_id = buffer("QAS");
    assert_eq!(c.attributes(attrs, &ok).unwrap().sys_id(), "QAS");
    assert_eq!(c.attributes(attrs, &failed).unwrap_err().code, ReturnCode::NotFound);

    let t = c.describe_type(TypeDescription::new("BAPIRET2").unwrap(), &ok).unwrap();
    assert_eq!(t.name(), "BAPIRET2");
    let e = c.describe_type(TypeDescription::new("BAPIRET2").unwrap(), &failed).unwrap_err();
    assert_eq!(e.message, "no such object");

    let f = c.describe_function(FunctionDescription::new("RFC_PING").unwrap(), &ok).unwrap();
    assert_eq!(f.name(), "RFC_PING");
    assert!(c.describe_function(FunctionDescription::new("RFC_PING").unwrap(), &failed).is_err());
}

#[test]
fn zero_length_fields_go_to_the_end_of_the_offsets() {
    let mut empty = TypeDescription::new("E").unwrap();
    empty.add_field("N", Type::Null).unwrap();
    assert_eq!((empty.nuc_length(), empty.uc_length()), (0, 0));

    let mut t = TypeDescription::new("T").unwrap();
    t.add_field("A", Type::Char(1)).unwrap();
    t.add_field("N", Type::Null).unwrap();
    assert_eq!((t.nuc_length(), t.uc_length()), (u32::MAX, u32::MAX));
    assert_eq!(t.len(), 2);
    assert!(t.add_field("B", Type::Int).is_err());
}

#[test]
fn iterators_return_each_item_once_then_none() {
    let mut f = FunctionDescription::new("F").unwrap();
    let a = ParameterDescription::new("A", ParameterDirection::Export, Type::Int).unwrap();
    let b = ParameterDescription::new("B", ParameterDirection::Import, Type::Int).unwrap();
    let c = ParameterDescription::new("C", ParameterDirection::Export, Type::Int).unwrap();
    f.add_parameter(&a).unwrap();
    f.add_parameter(&b).unwrap();
    f.add_parameter(&c).unwrap();
    let mut it = f.parameters(ParameterDirection::Export);
    let mut names = Vec::new();
    while let Some(p) = it.next() {
        names.push(p.name());
    }
    assert_eq!(names, vec!["A".to_string(), "C".to_string()]);
    assert!(it.next().is_none());
    let mut key = [0u16; 128];
    UCStr::write_slice(&mut key, "X1").unwrap();
    f.add_exception(ExceptionDescription::from_desc(RfcExceptionDesc { key, message: [0u16; 512] })).unwrap();
    UCStr::write_slice(&mut key, "X2").unwrap();
    f.add_exception(ExceptionDescription::from_desc(RfcExceptionDesc { key, message: [0u16; 512] })).unwrap();
    let mut xs = f.exceptions();
    assert_eq!(xs.next().unwrap().key(), "X1");
    assert_eq!(xs.next().unwrap().key(), "X2");
    assert!(xs.next().is_none());
    assert!(xs.next().is_none());
}
