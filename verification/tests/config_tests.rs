use dabmux_rc::config::{section_entries, Config, Section, Service};
use dabmux_rc::error::RcError;
use dabmux_rc::json::{parse_json, JsonValue};
use dabmux_rc::text::{decimal, hex_upper, signed_decimal};
use dabmux_rc::page::ActivePage;
use dabmux_rc::text::text_is;

fn service(sid: u32, ecc: u8) -> Service {
    Service {
        unique_id: "id".to_string(),
        sid,
        ecc,
        label: "label".to_string(),
        shortlabel: "lab".to_string(),
        input_port: 9000,
        bitrate: 96,
        protection: 3,
    }
}

#[test]
fn sid_is_four_hex_digits() {
    assert_eq!(service(0x4DAA, 0).sid_hex(), "4DAA");
    assert_eq!(service(0, 0).sid_hex(), "0000");
    assert_eq!(service(0xAB, 0).sid_hex(), "00AB");
}

#[test]
fn a_long_sid_keeps_all_digits() {
    assert_eq!(service(0x12345, 0).sid_hex(), "12345");
    assert_eq!(service(u32::MAX, 0).sid_hex(), "FFFFFFFF");
}

#[test]
fn ecc_is_two_hex_digits() {
    assert_eq!(service(0, 0xE1).ecc_hex(), "E1");
    assert_eq!(service(0, 5).ecc_hex(), "05");
    assert_eq!(service(0, 0).ecc_hex(), "00");
    assert_eq!(service(0, 255).ecc_hex(), "FF");
}

#[test]
fn hex_agrees_with_the_formatter() {
    for n in [0u32, 1, 9, 10, 15, 16, 255, 256, 4095, 4096, 65535, 65536, 0xDEADBEEF] {
        assert_eq!(hex_upper(n, 4), format!("{:04X}", n));
        assert_eq!(hex_upper(n, 2), format!("{:02X}", n));
        assert_eq!(hex_upper(n, 0), format!("{:X}", n));
        assert_eq!(hex_upper(n, 1), format!("{:01X}", n));
        assert_eq!(hex_upper(n, 10), format!("{:010X}", n));
    }
}

#[test]
fn default_config_is_the_placeholder_ensemble() {
    let c = Config::default();
    assert_eq!(c.instance_name, "CHANGEME");
    assert!(c.tist);
    assert_eq!(c.tist_offset, 0);
    assert_eq!(c.ensemble_id, 0x4FFF);
    assert_eq!(c.ensemble_ecc, 0xE1);
    assert_eq!(c.ensemble_label, "OpenDigitalRadio");
    assert_eq!(c.ensemble_shortlabel, "ODR");
    assert_eq!(c.output_edi_port, 8951);
    assert_eq!(c.services.len(), 1);
    let s = &c.services[0];
    assert_eq!(s.unique_id, "nothing");
    assert_eq!(s.sid, 0x4DAA);
    assert_eq!(s.ecc, 0xE1);
    assert_eq!(s.label, "nothing");
    assert_eq!(s.shortlabel, "no");
    assert_eq!(s.input_port, 9001);
    assert_eq!(s.bitrate, 128);
    assert_eq!(s.protection, 2);
    assert_eq!(c.ensemble_id_hex(), "4FFF");
    assert_eq!(c.ensemble_ecc_hex(), "E1");
}

#[test]
fn pages_load_their_own_script_first() {
    assert_eq!(ActivePage::Dashboard.styles(), vec!["dashboard.js", "main.js"]);
    assert_eq!(ActivePage::Settings.styles(), vec!["settings.js", "main.js"]);
}

#[test]
fn text_is_compares_whole_strings() {
    assert!(text_is(&"ok".to_string(), "ok"));
    assert!(!text_is(&"ok ".to_string(), "ok"));
    assert!(!text_is(&"".to_string(), "ok"));
}

#[test]
fn failures_describe_themselves() {
    assert_eq!(RcError::Timeout.message(), "timeout waiting for a reply");
    assert_eq!(
        RcError::MalformedResponse("values".to_string()).message(),
        "malformed response: values"
    );
    assert_eq!(RcError::UnexpectedFraming.message(), "unexpected multipart answer");
    assert_eq!(
        RcError::UnsupportedValueShape("m".to_string(), "p".to_string()).message(),
        "unsupported value in m.p"
    );
    assert_eq!(
        RcError::WrongService("OtherThing".to_string()).message(),
        "wrong service in stats: OtherThing"
    );
    assert_eq!(RcError::MissingField("service".to_string()).message(), "missing field: service");
    assert_eq!(RcError::SetRejected("busy".to_string()).message(), "failed to set RC: busy");
}

#[test]
fn numbers_are_written_in_decimal() {
    assert_eq!(decimal(0), "0");
    assert_eq!(decimal(9), "9");
    assert_eq!(decimal(10), "10");
    assert_eq!(decimal(9001), "9001");
    assert_eq!(decimal(u64::MAX), "18446744073709551615");
    assert_eq!(signed_decimal(0), "0");
    assert_eq!(signed_decimal(-1), "-1");
    assert_eq!(signed_decimal(i64::MIN), "-9223372036854775808");
    assert_eq!(signed_decimal(i64::MAX), "9223372036854775807");
}

#[test]
fn a_service_is_dumped_with_id_and_labels() {
    let c = Config::default();
    assert_eq!(
        c.services[0].dump_to_service_json(),
        parse_json(r#"{"id":19882,"ecc":225,"label":"nothing","shortlabel":"no"}"#).unwrap()
    );
}

#[test]
fn a_subchannel_is_dumped_with_its_input() {
    let c = Config::default();
    assert_eq!(
        c.services[0].dump_to_subchannel_json(7),
        parse_json(
            r#"{"type":"dabplus","bitrate":128,"id":7,"protection":2,"inputproto":"edi","inputuri":"tcp://127.0.0.1:9001","buffer-management":"prebuffering","buffer":40,"prebuffering":20}"#
        )
        .unwrap()
    );
}

#[test]
fn the_default_config_is_dumped_whole() {
    let mut c = Config::default();
    c.tist_offset = -3;
    let expected = r#"{
        "_comment": "Generated at 2024-01-01T00:00:00+00:00 by odr-dabmux-gui",
        "general": {"dabmode":1,"nbframes":0,"syslog":false,"tist":true,"tist_offset":-3,"managementport":12720},
        "remotecontrol": {"telnetport":12721,"zmqendpoint":"tcp://lo:12722"},
        "ensemble": {"id":20479,"ecc":225,"local-time-offset":"auto","reconfig-counter":"hash","label":"OpenDigitalRadio","shortlabel":"ODR"},
        "services": {"srv-nothing":{"id":19882,"ecc":225,"label":"nothing","shortlabel":"no"}},
        "subchannels": {"sub-nothing":{"type":"dabplus","bitrate":128,"id":1,"protection":2,"inputproto":"edi","inputuri":"tcp://127.0.0.1:9001","buffer-management":"prebuffering","buffer":40,"prebuffering":20}},
        "components": {"comp-nothing":{"service":"srv-nothing","subchannel":"sub-nothing","user-applications":{"userapp":"slideshow"}}},
        "outputs": {"throttle":"simul://","edi":{"destinations":{"example_tcp":{"protocol":"tcp","listenport":8951}}}}
    }"#;
    assert_eq!(c.dump_to_json("2024-01-01T00:00:00+00:00"), parse_json(expected).unwrap());
}

#[test]
fn services_with_one_id_are_dumped_once() {
    let mut first = service(1, 1);
    first.unique_id = "a".to_string();
    let mut second = service(2, 2);
    second.unique_id = "b".to_string();
    let mut third = service(3, 3);
    third.unique_id = "a".to_string();
    let services = vec![first, second.clone(), third.clone()];
    let listed = section_entries(&services, Section::Services);
    assert_eq!(
        listed,
        vec![
            ("srv-b".to_string(), second.dump_to_service_json()),
            ("srv-a".to_string(), third.dump_to_service_json()),
        ]
    );
    let subchannels = section_entries(&services, Section::Subchannels);
    assert_eq!(
        subchannels,
        vec![
            ("sub-b".to_string(), second.dump_to_subchannel_json(2)),
            ("sub-a".to_string(), third.dump_to_subchannel_json(3)),
        ]
    );
    let components = section_entries(&services, Section::Components);
    assert_eq!(components.len(), 2);
    assert_eq!(components[0].0, "comp-b");
    assert_eq!(
        components[0].1.get("service"),
        Some(&JsonValue::Text("srv-b".to_string()))
    );
    assert_eq!(section_entries(&Vec::new(), Section::Services), vec![]);
}
