use hyprconnect_core::numeral::Number;
use hyprconnect_core::plugins::battery::{
    option_bool_from_int, option_bool_to_int, Battery, BatteryRequestBody, FlagError,
};
use hyprconnect_core::plugins::connectivity_report::{
    ConnectivityReport, NetworkType, Signal, SignalStrength,
};
use hyprconnect_core::plugins::contacts::{ContactsResponseUidsTimestamps, ContactsResponseVcards};
use hyprconnect_core::plugins::lock::LockRequest;
use hyprconnect_core::plugins::mpris::{LoopType, MprisAction, MprisRequest};
use hyprconnect_core::plugins::notification::Notification;
use hyprconnect_core::plugins::ping::Ping;
use hyprconnect_core::plugins::telephony::{TelephonyBody, TelephonyEvent};
use hyprconnect_core::plugins::volume::{Stream, SystemVolume};
use hyprconnect_core::protocol::identity::Identity;
use hyprconnect_core::shape::{read_word, Shape, Word};
use hyprconnect_core::value::Json;
use hyprconnect_core::wire::{read_text, write_text};

fn value(text: &str) -> Json {
    read_text(text.as_bytes()).unwrap()
}

fn text_of(j: &Json) -> String {
    String::from_utf8(write_text(j).unwrap()).unwrap()
}

fn number(text: &str) -> Number {
    Number { text: text.to_string() }
}

#[test]
fn threshold_event_is_exactly_zero_or_one() {
    let battery = |flag: &str| {
        Battery::from_json(&value(&format!(
            "{{\"currentCharge\":80,\"isCharging\":true,\"thresholdEvent\":{}}}",
            flag
        )))
    };
    assert_eq!(battery("0").unwrap().threshold_event, Some(false));
    assert_eq!(battery("1").unwrap().threshold_event, Some(true));
    assert_eq!(battery("null").unwrap().threshold_event, None);
    for other in ["2", "-1", "1.0", "true", "\"1\"", "255"] {
        assert_eq!(battery(other), Err("thresholdEvent".to_string()), "{}", other);
    }
    assert_eq!(
        Battery::from_json(&value("{\"currentCharge\":80,\"isCharging\":true}")),
        Err("thresholdEvent".to_string())
    );
}

#[test]
fn threshold_event_is_written_as_a_number() {
    let battery = Battery {
        current_charge: number("80.5"),
        is_charging: false,
        threshold_event: Some(true),
    };
    assert_eq!(
        text_of(&battery.to_json()),
        "{\"currentCharge\":80.5,\"isCharging\":false,\"thresholdEvent\":1}"
    );
    let battery = Battery { current_charge: number("3"), is_charging: true, threshold_event: None };
    assert_eq!(
        text_of(&battery.to_json()),
        "{\"currentCharge\":3,\"isCharging\":true,\"thresholdEvent\":null}"
    );
}

#[test]
fn a_flag_is_not_read_from_a_number() {
    assert_eq!(
        LockRequest::from_json(&value("{\"requestLocked\":1}")),
        Err("requestLocked".to_string())
    );
    assert_eq!(
        LockRequest::from_json(&value("{\"setLocked\":\"true\"}")),
        Err("setLocked".to_string())
    );
}

#[test]
fn an_optional_field_may_be_absent_or_null() {
    let none = LockRequest { request_locked: None, set_locked: None };
    assert_eq!(LockRequest::from_json(&value("{}")), Ok(LockRequest { ..none }));
    assert_eq!(
        LockRequest::from_json(&value("{\"requestLocked\":null,\"setLocked\":false}")),
        Ok(LockRequest { request_locked: None, set_locked: Some(false) })
    );
    assert_eq!(
        text_of(&LockRequest { request_locked: Some(true), set_locked: None }.to_json()),
        "{\"requestLocked\":true,\"setLocked\":null}"
    );
}

#[test]
fn a_body_must_be_an_object() {
    for other in ["null", "true", "3", "\"x\"", "[]", "[{\"message\":\"x\"}]"] {
        assert_eq!(Ping::from_json(&value(other)), Err(String::new()), "{}", other);
    }
}

#[test]
fn the_first_field_that_fails_is_named() {
    let j = value("{\"id\":\"n1\",\"appName\":7,\"ticker\":8,\"title\":\"t\",\"text\":\"x\"}");
    assert_eq!(Notification::from_json(&j), Err("appName".to_string()));
    let j = value("{\"id\":\"n1\",\"isCancel\":\"no\",\"appName\":7}");
    assert_eq!(Notification::from_json(&j), Err("isCancel".to_string()));
    let j = value("{\"id\":\"n1\",\"appName\":\"a\",\"ticker\":\"k\",\"title\":\"t\",\"text\":\"x\",\"actions\":[\"a\",1]}");
    assert_eq!(Notification::from_json(&j), Err("actions".to_string()));
}

#[test]
fn the_request_flag_of_a_battery_request_is_written_only_where_set() {
    assert_eq!(text_of(&BatteryRequestBody { request: None }.to_json()), "{}");
    assert_eq!(
        text_of(&BatteryRequestBody { request: Some(true) }.to_json()),
        "{\"request\":true}"
    );
    assert_eq!(
        BatteryRequestBody::from_json(&value("{}")),
        Ok(BatteryRequestBody { request: None })
    );
    assert_eq!(BatteryRequestBody::from_json(&value("{\"request\":0}")), Err("request".to_string()));
}

#[test]
fn names_of_enumerated_values() {
    assert_eq!(LoopType::NoLoop.as_str(), "none");
    assert_eq!(LoopType::TrackList.as_str(), "trackList");
    assert_eq!(LoopType::PlayList.as_str(), "playList");
    assert_eq!(LoopType::from_str("trackList"), Some(LoopType::TrackList));
    assert_eq!(LoopType::from_str("Track"), None);
    assert_eq!(MprisAction::PlayPause.as_str(), "playPause");
    assert_eq!(MprisAction::from_str("previous"), Some(MprisAction::Previous));
    assert_eq!(MprisAction::from_str("rewind"), None);
    assert_eq!(TelephonyEvent::MissedCall.as_str(), "missedCall");
    assert_eq!(TelephonyEvent::from_str("sms"), Some(TelephonyEvent::Sms));
    assert_eq!(SignalStrength::Three.as_str(), "3");
    assert_eq!(SignalStrength::from_str("4"), Some(SignalStrength::Four));
    assert_eq!(SignalStrength::from_str("5"), None);
    assert_eq!(read_word::<SignalStrength>(&value("3")), None);
    assert_eq!(read_word::<SignalStrength>(&value("\"3\"")), Some(SignalStrength::Three));
}

#[test]
fn a_network_type_that_is_not_listed_is_unknown() {
    assert_eq!(NetworkType::from_str("LTE"), Some(NetworkType::LTE));
    assert_eq!(NetworkType::from_str("iDEN"), Some(NetworkType::IDEN));
    assert_eq!(NetworkType::from_str("5G"), Some(NetworkType::FiveG));
    assert_eq!(NetworkType::from_str("6G"), Some(NetworkType::Unknown));
    assert_eq!(NetworkType::from_str(""), Some(NetworkType::Unknown));
    assert_eq!(NetworkType::Unknown.as_str(), "Unknown");
    assert_eq!(read_word::<NetworkType>(&value("7")), None);
}

#[test]
fn an_action_is_required_of_a_player_request() {
    assert_eq!(MprisRequest::from_json(&value("{\"player\":\"p\"}")), Err("action".to_string()));
    assert_eq!(
        MprisRequest::from_json(&value("{\"action\":\"shout\"}")),
        Err("action".to_string())
    );
    let request = MprisRequest::from_json(&value("{\"action\":\"next\",\"Seek\":-5}")).unwrap();
    assert_eq!(request.action, MprisAction::Next);
    assert_eq!(request.seek, Some(number("-5")));
    assert_eq!(request.set_loop_status, None);
}

#[test]
fn telephony_fields_go_by_their_wire_names() {
    let body = TelephonyBody::from_json(&value(
        "{\"event\":\"ringing\",\"contactName\":\"Ann\",\"phoneNumber\":\"123\",\"isCancel\":false}",
    ))
    .unwrap();
    assert_eq!(body.event, TelephonyEvent::Ringing);
    assert_eq!(body.contact_name, Some("Ann".to_string()));
    assert_eq!(body.phone_number, Some("123".to_string()));
    assert_eq!(body.message_body, None);
    assert!(!body.is_cancel);
}

#[test]
fn signal_strengths_are_read_by_subscription() {
    let j = value(
        "{\"signalStrengths\":{\"6\":{\"networkType\":\"4G\",\"signalStrenght\":\"3\"},\
         \"17\":{\"networkType\":\"HSPA\",\"signalStrenght\":\"0\"}}}",
    );
    assert_eq!(
        ConnectivityReport::from_json(&j),
        Ok(ConnectivityReport {
            signal_strengths: vec![
                (
                    "6".to_string(),
                    Signal {
                        network_type: NetworkType::Unknown,
                        signal_strength: SignalStrength::Three
                    }
                ),
                (
                    "17".to_string(),
                    Signal {
                        network_type: NetworkType::HSPA,
                        signal_strength: SignalStrength::Zero
                    }
                ),
            ]
        })
    );
    let j = value("{\"signalStrengths\":{\"6\":{\"networkType\":\"LTE\"}}}");
    assert_eq!(ConnectivityReport::from_json(&j), Err("signalStrengths".to_string()));
    let j = value("{\"signalStrengths\":[]}");
    assert_eq!(ConnectivityReport::from_json(&j), Err("signalStrengths".to_string()));
}

#[test]
fn sinks_are_read_as_a_list() {
    let j = value(
        "{\"sinkList\":[{\"name\":\"s\",\"description\":\"Speakers\",\"muted\":false,\
         \"maxVolume\":65536,\"volume\":1000}],\"volume\":5}",
    );
    let volume = SystemVolume::from_json(&j).unwrap();
    assert_eq!(
        volume.sink_list,
        Some(vec![Stream {
            name: "s".to_string(),
            description: "Speakers".to_string(),
            enabled: None,
            muted: false,
            max_volume: Some(number("65536")),
            volume: number("1000"),
        }])
    );
    let j = value("{\"sinkList\":[{\"name\":\"s\"}],\"volume\":5}");
    assert_eq!(SystemVolume::from_json(&j), Err("sinkList".to_string()));
    let j = value("{\"sinkList\":{},\"volume\":5}");
    assert_eq!(SystemVolume::from_json(&j), Err("sinkList".to_string()));
}

#[test]
fn identity_takes_every_other_member_as_an_extra() {
    let j = value(
        "{\"a\":1,\"deviceId\":\"i\",\"b\":null,\"deviceName\":\"n\",\"deviceType\":\"phone\",\
         \"incomingCapabilities\":[],\"outgoingCapabilities\":[\"x\"],\"protocolVersion\":7,\"c\":[]}",
    );
    let identity = Identity::from_json(&j).unwrap();
    assert_eq!(
        identity.extras,
        vec![
            ("a".to_string(), Json::from_u128(1)),
            ("b".to_string(), Json::Null),
            ("c".to_string(), Json::Array(vec![])),
        ]
    );
    assert_eq!(identity.protocol_version, 7);
}

#[test]
fn protocol_version_fits_eight_bits() {
    let identity = |version: &str| {
        Identity::from_json(&value(&format!(
            "{{\"deviceId\":\"i\",\"deviceName\":\"n\",\"deviceType\":\"phone\",\
             \"incomingCapabilities\":[],\"outgoingCapabilities\":[],\"protocolVersion\":{}}}",
            version
        )))
    };
    assert_eq!(identity("255").unwrap().protocol_version, 255);
    assert_eq!(identity("0").unwrap().protocol_version, 0);
    for other in ["256", "-1", "7.0", "\"7\"", "null"] {
        assert_eq!(identity(other), Err("protocolVersion".to_string()), "{}", other);
    }
}

#[test]
fn timestamps_stand_beside_the_identifiers() {
    let j = value("{\"uids\":[\"a\",\"b\"],\"a\":1700000000000,\"b\":5}");
    let body = ContactsResponseUidsTimestamps::from_json(&j).unwrap();
    assert_eq!(body.uids, vec!["a".to_string(), "b".to_string()]);
    assert_eq!(body.extras, vec![("a".to_string(), 1700000000000), ("b".to_string(), 5)]);
    assert_eq!(text_of(&body.to_json()), "{\"uids\":[\"a\",\"b\"],\"a\":1700000000000,\"b\":5}");
    assert_eq!(
        body.into_uid_timestamps(),
        Ok(vec![("a".to_string(), 1700000000000), ("b".to_string(), 5)])
    );
}

#[test]
fn a_timestamp_fits_sixty_four_bits() {
    let j = value("{\"uids\":[],\"a\":18446744073709551615}");
    assert_eq!(
        ContactsResponseUidsTimestamps::from_json(&j).unwrap().extras,
        vec![("a".to_string(), u64::MAX)]
    );
    let j = value("{\"uids\":[],\"ok\":1,\"a\":18446744073709551616,\"b\":\"x\"}");
    assert_eq!(ContactsResponseUidsTimestamps::from_json(&j), Err("a".to_string()));
    let j = value("{\"uids\":[],\"a\":\"soon\"}");
    assert_eq!(ContactsResponseUidsTimestamps::from_json(&j), Err("a".to_string()));
    let j = value("{\"a\":1}");
    assert_eq!(ContactsResponseUidsTimestamps::from_json(&j), Err("uids".to_string()));
}

#[test]
fn timestamps_are_given_in_the_order_of_the_list() {
    let body = ContactsResponseUidsTimestamps {
        uids: vec!["b".to_string(), "a".to_string()],
        extras: vec![("a".to_string(), 1), ("b".to_string(), 2), ("c".to_string(), 3)],
    };
    assert_eq!(body.into_uid_timestamps(), Ok(vec![("b".to_string(), 2), ("a".to_string(), 1)]));
}

#[test]
fn a_repeated_identifier_has_one_timestamp() {
    let body = ContactsResponseUidsTimestamps {
        uids: vec!["b".to_string(), "a".to_string(), "b".to_string(), "a".to_string()],
        extras: vec![("a".to_string(), 1), ("b".to_string(), 2), ("c".to_string(), 3)],
    };
    assert_eq!(body.into_uid_timestamps(), Ok(vec![("b".to_string(), 2), ("a".to_string(), 1)]));
}

#[test]
fn a_repeated_identifier_has_one_card() {
    let body = ContactsResponseVcards {
        uids: vec!["a".to_string(), "a".to_string()],
        extras: vec![("a".to_string(), "BEGIN:VCARD".to_string())],
    };
    assert_eq!(body.into_uid_vcard(), Ok(vec![("a".to_string(), "BEGIN:VCARD".to_string())]));
}

#[test]
fn a_repeated_identifier_without_an_entry_is_still_missing() {
    let body = ContactsResponseVcards {
        uids: vec!["a".to_string(), "x".to_string(), "x".to_string()],
        extras: vec![("a".to_string(), "card".to_string())],
    };
    assert_eq!(body.into_uid_vcard(), Err("x".to_string()));
}

#[test]
fn a_missing_timestamp_is_named() {
    let body = ContactsResponseUidsTimestamps {
        uids: vec!["a".to_string(), "x".to_string(), "y".to_string()],
        extras: vec![("a".to_string(), 1)],
    };
    assert_eq!(body.into_uid_timestamps(), Err("x".to_string()));
    let body = ContactsResponseUidsTimestamps { uids: vec![], extras: vec![] };
    assert_eq!(body.into_uid_timestamps(), Ok(vec![]));
}

#[test]
fn cards_are_given_in_the_order_of_the_list() {
    let j = value("{\"uids\":[\"u2\",\"u1\"],\"u1\":\"card one\",\"u2\":\"card two\"}");
    let body = ContactsResponseVcards::from_json(&j).unwrap();
    assert_eq!(
        body.into_uid_vcard(),
        Ok(vec![("u2".to_string(), "card two".to_string()), ("u1".to_string(), "card one".to_string())])
    );
    let body = ContactsResponseVcards {
        uids: vec!["u1".to_string(), "u9".to_string()],
        extras: vec![("u1".to_string(), "card".to_string())],
    };
    assert_eq!(body.into_uid_vcard(), Err("u9".to_string()));
    let j = value("{\"uids\":[],\"u1\":7}");
    assert_eq!(ContactsResponseVcards::from_json(&j), Err("u1".to_string()));
}

#[test]
fn the_last_entry_under_an_identifier_counts() {
    let extras = vec![("a".to_string(), 1), ("b".to_string(), 2), ("a".to_string(), 3)];
    assert_eq!(ContactsResponseUidsTimestamps::find_entry(&extras, "a"), Some(3));
    assert_eq!(ContactsResponseUidsTimestamps::find_entry(&extras, "b"), Some(2));
    assert_eq!(ContactsResponseUidsTimestamps::find_entry(&extras, "c"), None);
}

#[test]
fn two_networks_under_one_name_cannot_be_written() {
    let signal = || Signal { network_type: NetworkType::LTE, signal_strength: SignalStrength::Two };
    let report = ConnectivityReport {
        signal_strengths: vec![("1".to_string(), signal()), ("1".to_string(), signal())],
    };
    assert!(write_text(&report.to_json()).is_none());
    let report = ConnectivityReport {
        signal_strengths: vec![("1".to_string(), signal()), ("2".to_string(), signal())],
    };
    assert_eq!(
        text_of(&report.to_json()),
        "{\"signalStrengths\":{\"1\":{\"networkType\":\"LTE\",\"signalStrenght\":\"2\"},\
         \"2\":{\"networkType\":\"LTE\",\"signalStrenght\":\"2\"}}}"
    );
}

#[test]
fn an_entry_under_the_key_of_the_list_cannot_be_written() {
    let body = ContactsResponseUidsTimestamps {
        uids: vec![],
        extras: vec![("uids".to_string(), 1)],
    };
    assert!(write_text(&body.to_json()).is_none());
    let body = ContactsResponseVcards {
        uids: vec![],
        extras: vec![("a".to_string(), "x".to_string()), ("a".to_string(), "y".to_string())],
    };
    assert!(write_text(&body.to_json()).is_none());
}

#[test]
fn the_threshold_event_is_read_from_a_value() {
    assert_eq!(option_bool_from_int(&value("0")), Ok(Some(false)));
    assert_eq!(option_bool_from_int(&value("1")), Ok(Some(true)));
    assert_eq!(option_bool_from_int(&value("null")), Ok(None));
    assert_eq!(option_bool_from_int(&value("2")), Err(FlagError::NotZeroOrOne));
    assert_eq!(option_bool_from_int(&value("false")), Err(FlagError::NotZeroOrOne));
    assert_eq!(option_bool_to_int(&Some(true)), Json::from_u128(1));
    assert_eq!(option_bool_to_int(&Some(false)), Json::from_u128(0));
    assert_eq!(option_bool_to_int(&None), Json::Null);
}

#[test]
fn a_part_of_a_body_refuses_what_it_does_not_declare() {
    let j = value(
        "{\"sinkList\":[{\"name\":\"s\",\"description\":\"d\",\"muted\":false,\"volume\":1,\
         \"balance\":0}],\"volume\":5}",
    );
    assert_eq!(SystemVolume::from_json(&j), Err("sinkList".to_string()));
    let j = value("{\"request\":true,\"again\":true}");
    assert_eq!(BatteryRequestBody::from_json(&j), Err("again".to_string()));
}
