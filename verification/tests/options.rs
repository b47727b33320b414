use dhcp_parser::parser::{
    convert_generic_option, parse_generic_option, parse_option, parse_options, parse_padding,
};
use dhcp_parser::reader::{read_be_u16, read_be_u32, read_u8, take_bytes};
use dhcp_parser::addr::parse_addr_v4;
use dhcp_parser::{
    DHCPGenericOption, DHCPMessageType, DHCPOption, DHCPParameterRequest, Ipv4Address, ParseError,
};

fn record<'a>(t: u8, v: &'a [u8]) -> DHCPGenericOption<'a> {
    DHCPGenericOption { t, l: v.len() as u8, v }
}

#[test]
fn read_u8_takes_one_byte() {
    assert_eq!(read_u8(&[7, 8, 9]), Ok((&[8u8, 9][..], 7)));
    assert_eq!(read_u8(&[7]), Ok((&[][..], 7)));
    assert_eq!(read_u8(&[]), Err(ParseError::Truncated));
}

#[test]
fn read_be_u16_is_big_endian() {
    assert_eq!(read_be_u16(&[0x12, 0x34, 0x56]), Ok((&[0x56u8][..], 0x1234)));
    assert_eq!(read_be_u16(&[0xff, 0xff]), Ok((&[][..], 0xffff)));
    assert_eq!(read_be_u16(&[0x12]), Err(ParseError::Truncated));
}

#[test]
fn read_be_u32_is_big_endian() {
    assert_eq!(
        read_be_u32(&[0x12, 0x34, 0x56, 0x78, 0x9a]),
        Ok((&[0x9au8][..], 0x1234_5678))
    );
    assert_eq!(read_be_u32(&[0xff, 0xff, 0xff, 0xff]), Ok((&[][..], 0xffff_ffff)));
    assert_eq!(read_be_u32(&[1, 2, 3]), Err(ParseError::Truncated));
}

#[test]
fn take_bytes_splits_the_buffer() {
    assert_eq!(take_bytes(&[1, 2, 3, 4], 3), Ok((&[4u8][..], &[1u8, 2, 3][..])));
    assert_eq!(take_bytes(&[1, 2, 3, 4], 0), Ok((&[1u8, 2, 3, 4][..], &[][..])));
    assert_eq!(take_bytes(&[1, 2, 3, 4], 4), Ok((&[][..], &[1u8, 2, 3, 4][..])));
    assert_eq!(take_bytes(&[1, 2, 3, 4], 5), Err(ParseError::Truncated));
}

#[test]
fn parse_addr_v4_reads_network_order() {
    assert_eq!(
        parse_addr_v4(&[192, 168, 0, 1, 9]),
        Ok((&[9u8][..], Ipv4Address::new(192, 168, 0, 1)))
    );
    assert_eq!(Ipv4Address::new(192, 168, 0, 1).octets(), [192, 168, 0, 1]);
    assert_eq!(parse_addr_v4(&[192, 168, 0]), Err(ParseError::Truncated));
}

#[test]
fn parse_padding_drops_leading_zeros() {
    assert_eq!(parse_padding(&[0, 0, 0, 5, 0]), Ok((&[5u8, 0][..], ())));
    assert_eq!(parse_padding(&[0, 0]), Ok((&[][..], ())));
    assert_eq!(parse_padding(&[]), Ok((&[][..], ())));
    assert_eq!(parse_padding(&[1, 0]), Ok((&[1u8, 0][..], ())));
}

#[test]
fn generic_record_is_tag_length_value() {
    let (rest, g) = parse_generic_option(&[99, 2, 5, 6, 7]).expect("record");
    assert_eq!(rest, &[7]);
    assert_eq!(g, DHCPGenericOption { t: 99, l: 2, v: &[5, 6] });
    assert_eq!(parse_generic_option(&[99, 2, 5]), Err(ParseError::Truncated));
    assert_eq!(parse_generic_option(&[99]), Err(ParseError::Truncated));
    assert_eq!(parse_generic_option(&[]), Err(ParseError::Truncated));
}

#[test]
fn pad_and_end_are_one_byte() {
    assert_eq!(parse_option(&[0, 9, 9]), Ok((&[9u8, 9][..], DHCPOption::Pad)));
    assert_eq!(parse_option(&[255, 9, 9]), Ok((&[9u8, 9][..], DHCPOption::End)));
    assert_eq!(parse_option(&[255]), Ok((&[][..], DHCPOption::End)));
    assert_eq!(parse_option(&[]), Err(ParseError::Truncated));
}

#[test]
fn every_known_tag_decodes() {
    let cases: Vec<(Vec<u8>, DHCPOption)> = vec![
        (vec![1, 4, 255, 255, 255, 0], DHCPOption::SubnetMask(Ipv4Address::new(255, 255, 255, 0))),
        (vec![50, 4, 10, 0, 0, 7], DHCPOption::RequestedIPAddress(Ipv4Address::new(10, 0, 0, 7))),
        (vec![51, 4, 0, 1, 0x51, 0x80], DHCPOption::AddressLeaseTime(86400)),
        (vec![52, 1, 3], DHCPOption::OptionOverload(3)),
        (vec![53, 1, 5], DHCPOption::MessageType(DHCPMessageType(5))),
        (vec![53, 1, 42], DHCPOption::MessageType(DHCPMessageType(42))),
        (vec![54, 4, 10, 0, 0, 1], DHCPOption::ServerIdentifier(Ipv4Address::new(10, 0, 0, 1))),
        (vec![55, 3, 1, 3, 6], DHCPOption::ParameterRequestList(DHCPParameterRequest(&[1, 3, 6]))),
        (vec![56, 2, b'n', b'o'], DHCPOption::Message(b"no")),
        (vec![57, 2, 0x05, 0xdc], DHCPOption::MaximumSize(1500)),
        (vec![58, 4, 0, 0, 0xa8, 0xc0], DHCPOption::Renewal(43200)),
        (vec![59, 4, 0, 1, 0x27, 0x50], DHCPOption::Rebinding(75600)),
        (vec![60, 4, b'M', b'S', b'F', b'T'], DHCPOption::ClassIdentifier(b"MSFT")),
        (vec![60, 0], DHCPOption::ClassIdentifier(&[])),
        (vec![61, 2, 1, 9], DHCPOption::ClientIdentifier(&[1, 9])),
    ];
    for (bytes, expected) in cases.iter() {
        let mut buf = bytes.clone();
        buf.push(0xee);
        let (rest, opt) = parse_option(&buf).expect("option");
        assert_eq!(rest, &[0xee]);
        assert_eq!(&opt, expected);
        assert_eq!(opt.tag(), bytes[0]);
    }
}

#[test]
fn address_options_need_four_bytes() {
    for &t in [1u8, 50, 54].iter() {
        for l in 0..=255u8 {
            if l == 4 {
                continue;
            }
            let v = vec![0u8; l as usize];
            assert_eq!(
                convert_generic_option(record(t, &v)),
                Err(ParseError::InvalidOptionLength { tag: t, expected: 4, actual: l })
            );
        }
    }
}

#[test]
fn number_options_need_their_width() {
    for &(t, width) in [(51u8, 4u8), (58, 4), (59, 4), (57, 2), (52, 1), (53, 1)].iter() {
        for l in 0..=255u8 {
            let v = vec![0u8; l as usize];
            let r = convert_generic_option(record(t, &v));
            if l == width {
                assert!(r.is_ok());
            } else {
                assert_eq!(
                    r,
                    Err(ParseError::InvalidOptionLength { tag: t, expected: width, actual: l })
                );
            }
        }
    }
}

#[test]
fn byte_options_need_their_least_length() {
    assert_eq!(
        convert_generic_option(record(55, &[])),
        Err(ParseError::InvalidOptionLength { tag: 55, expected: 1, actual: 0 })
    );
    assert_eq!(
        convert_generic_option(record(56, &[])),
        Err(ParseError::InvalidOptionLength { tag: 56, expected: 1, actual: 0 })
    );
    assert_eq!(
        convert_generic_option(record(61, &[1])),
        Err(ParseError::InvalidOptionLength { tag: 61, expected: 2, actual: 1 })
    );
    assert_eq!(
        convert_generic_option(record(61, &[])),
        Err(ParseError::InvalidOptionLength { tag: 61, expected: 2, actual: 0 })
    );
    assert_eq!(
        convert_generic_option(record(60, &[])),
        Ok(DHCPOption::ClassIdentifier(&[]))
    );
}

#[test]
fn pad_and_end_records_have_no_value() {
    assert_eq!(convert_generic_option(record(0, &[])), Ok(DHCPOption::Pad));
    assert_eq!(convert_generic_option(record(255, &[])), Ok(DHCPOption::End));
    assert_eq!(
        convert_generic_option(record(255, &[1])),
        Err(ParseError::InvalidOptionLength { tag: 255, expected: 0, actual: 1 })
    );
    assert_eq!(
        convert_generic_option(record(0, &[1, 2])),
        Err(ParseError::InvalidOptionLength { tag: 0, expected: 0, actual: 2 })
    );
}

#[test]
fn unknown_tags_are_generic_whatever_the_length() {
    for t in 0..=255u8 {
        let known = t == 0 || t == 1 || (50..=61).contains(&t) || t == 255;
        if known {
            continue;
        }
        for &l in [0usize, 1, 4, 255].iter() {
            let v = vec![t; l];
            assert_eq!(
                convert_generic_option(record(t, &v)),
                Ok(DHCPOption::Generic(DHCPGenericOption { t, l: l as u8, v: &v }))
            );
        }
    }
    assert_eq!(
        parse_option(&[99, 2, 7, 8]),
        Ok((&[][..], DHCPOption::Generic(DHCPGenericOption { t: 99, l: 2, v: &[7, 8] })))
    );
}

#[test]
fn record_whose_value_is_shorter_than_declared() {
    assert_eq!(
        convert_generic_option(DHCPGenericOption { t: 53, l: 1, v: &[] }),
        Err(ParseError::InvalidMessageType)
    );
    assert_eq!(
        convert_generic_option(DHCPGenericOption { t: 52, l: 1, v: &[] }),
        Err(ParseError::Truncated)
    );
    assert_eq!(
        convert_generic_option(DHCPGenericOption { t: 1, l: 4, v: &[1, 2, 3] }),
        Err(ParseError::Truncated)
    );
    assert_eq!(
        convert_generic_option(DHCPGenericOption { t: 57, l: 2, v: &[1] }),
        Err(ParseError::Truncated)
    );
}

#[test]
fn options_stop_at_the_first_end() {
    let (rest, options) = parse_options(&[53, 1, 1, 255, 0, 53, 1, 2, 255]).expect("options");
    assert_eq!(rest, &[0, 53, 1, 2, 255]);
    assert_eq!(
        options,
        vec![DHCPOption::MessageType(DHCPMessageType(1)), DHCPOption::End]
    );
}

#[test]
fn options_need_an_end() {
    assert_eq!(parse_options(&[]), Err(ParseError::MissingEndOption));
    assert_eq!(parse_options(&[0, 0, 0]), Err(ParseError::MissingEndOption));
    assert_eq!(parse_options(&[53, 1, 1]), Err(ParseError::MissingEndOption));
    assert_eq!(parse_options(&[53, 1, 1, 60, 0]), Err(ParseError::MissingEndOption));
    assert_eq!(parse_options(&[53, 1]), Err(ParseError::Truncated));
    assert_eq!(
        parse_options(&[53, 2, 1, 1, 255]),
        Err(ParseError::InvalidOptionLength { tag: 53, expected: 1, actual: 2 })
    );
}

#[test]
fn end_byte_inside_a_value_does_not_end_the_options() {
    let (rest, options) = parse_options(&[61, 3, 255, 255, 255, 255]).expect("options");
    assert!(rest.is_empty());
    assert_eq!(
        options,
        vec![DHCPOption::ClientIdentifier(&[255, 255, 255]), DHCPOption::End]
    );
}

#[test]
fn message_type_names() {
    assert_eq!(DHCPMessageType(1).name(), Some("DHCPDISCOVER"));
    assert_eq!(DHCPMessageType(2).name(), Some("DHCPOFFER"));
    assert_eq!(DHCPMessageType(3).name(), Some("DHCPREQUEST"));
    assert_eq!(DHCPMessageType(4).name(), Some("DHCPDECLINE"));
    assert_eq!(DHCPMessageType(5).name(), Some("DHCPACK"));
    assert_eq!(DHCPMessageType(6).name(), Some("DHCPNAK"));
    assert_eq!(DHCPMessageType(7).name(), Some("DHCPRELEASE"));
    assert_eq!(DHCPMessageType(0).name(), None);
    assert_eq!(DHCPMessageType(8).name(), None);
    assert!(DHCPMessageType(0).is_unknown());
    assert!(DHCPMessageType(8).is_unknown());
    assert!(!DHCPMessageType(1).is_unknown());
    assert!(!DHCPMessageType(7).is_unknown());
    assert_eq!(DHCPMessageType::DHCPDISCOVER, 1);
    assert_eq!(DHCPMessageType::DHCPOFFER, 2);
    assert_eq!(DHCPMessageType::DHCPREQUEST, 3);
    assert_eq!(DHCPMessageType::DHCPDECLINE, 4);
    assert_eq!(DHCPMessageType::DHCPACK, 5);
    assert_eq!(DHCPMessageType::DHCPNAK, 6);
    assert_eq!(DHCPMessageType::DHCPRELEASE, 7);
}

#[test]
fn tag_of_each_variant() {
    let a = Ipv4Address::new(1, 2, 3, 4);
    let cases = vec![
        (DHCPOption::Pad, 0u8),
        (DHCPOption::SubnetMask(a), 1),
        (DHCPOption::RequestedIPAddress(a), 50),
        (DHCPOption::AddressLeaseTime(1), 51),
        (DHCPOption::OptionOverload(1), 52),
        (DHCPOption::MessageType(DHCPMessageType(1)), 53),
        (DHCPOption::ServerIdentifier(a), 54),
        (DHCPOption::ParameterRequestList(DHCPParameterRequest(&[1])), 55),
        (DHCPOption::Message(&[1]), 56),
        (DHCPOption::MaximumSize(1), 57),
        (DHCPOption::Renewal(1), 58),
        (DHCPOption::Rebinding(1), 59),
        (DHCPOption::ClassIdentifier(&[1]), 60),
        (DHCPOption::ClientIdentifier(&[1, 2]), 61),
        (DHCPOption::Generic(DHCPGenericOption { t: 77, l: 0, v: &[] }), 77),
        (DHCPOption::End, 255),
    ];
    for (opt, tag) in cases.iter() {
        assert_eq!(opt.tag(), *tag);
    }
}
