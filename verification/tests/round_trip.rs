use hyprconnect_core::numeral::Number;
use hyprconnect_core::plugins::battery::{Battery, BatteryRequestBody};
use hyprconnect_core::plugins::clipboard::{Clipboard, ClipboardConnect};
use hyprconnect_core::plugins::connectivity_report::{
    ConnectivityReport, ConnectivityReportRequest, NetworkType, Signal, SignalStrength,
};
use hyprconnect_core::plugins::contacts::{
    ContactsRequestAllUuidTimestamps, ContactsRequestVcardsByUuid, ContactsResponseUidsTimestamps,
    ContactsResponseVcards,
};
use hyprconnect_core::plugins::find_my_phone::FindMyPhoneRequest;
use hyprconnect_core::plugins::lock::{Lock, LockRequest};
use hyprconnect_core::plugins::mousepad::{MousepadEcho, MousepadKeyboardState, MousepadRequest};
use hyprconnect_core::plugins::mpris::{LoopType, Mpris, MprisAction, MprisRequest};
use hyprconnect_core::plugins::notification::{
    Notification, NotificationAction, NotificationReply, NotificationRequest,
};
use hyprconnect_core::plugins::ping::Ping;
use hyprconnect_core::plugins::presenter::Presenter;
use hyprconnect_core::plugins::run_command::{RunCommand, RunCommandRequest};
use hyprconnect_core::plugins::sftp::{Sftp, SftpRequest};
use hyprconnect_core::plugins::share::{ShareRequest, ShareRequestUpdate};
use hyprconnect_core::plugins::sms::{
    SmsAddress, SmsAttachmentFile, SmsMessage, SmsMessages, SmsRequest, SmsRequestAttachment,
    SmsRequestConversation, SmsRequestConversations,
};
use hyprconnect_core::plugins::telephony::{TelephonyBody, TelephonyEvent, TelephonyRequestMute};
use hyprconnect_core::plugins::volume::{Stream, SystemVolume, SystemVolumeRequest};
use hyprconnect_core::protocol::identity::{Identity, Pair};
use hyprconnect_core::protocol::body::{PacketBody, PacketKind};
use hyprconnect_core::protocol::packet::Packet;
use hyprconnect_core::value::Json;
use hyprconnect_core::wire::{read_text, write_text};

fn number(text: &str) -> Number {
    Number { text: text.to_string() }
}

/// Writes a body into a packet and the packet into text, reads the text
/// back, and holds what comes out against what went in.
fn there_and_back(kind: PacketKind, tag: &str, make: fn() -> PacketBody) {
    let body = make();
    assert_eq!(body.kind(), kind);
    assert_eq!(kind.as_str(), tag);
    assert_eq!(PacketKind::of_tag(tag), Some(kind));

    let value = body.to_json();
    assert_eq!(PacketBody::from_json(kind, &value), Ok(make()));
    let body_text = write_text(&value).unwrap();
    assert_eq!(read_text(&body_text), Some(body.to_json()));

    let packet = Packet::generate_packet(body, None).unwrap();
    assert_eq!(packet.packet_type, tag);
    assert_eq!(packet.body, make());
    assert_eq!(packet.payload_size, Some(body_text.len()));
    assert_eq!(packet.payload_transfer_info, None);

    let text = packet.serialize().unwrap();
    assert_eq!(Packet::deserialize(&text), Ok(packet));
}

#[test]
fn round_trip_identity() {
    there_and_back(PacketKind::Identity, "kdeconnect.identity", || {
        PacketBody::Identity(
            Identity {
                device_id: "a1b2".to_string(),
                device_name: "desk".to_string(),
                device_type: "desktop".to_string(),
                incoming_capabilities: vec!["kdeconnect.ping".to_string()],
                outgoing_capabilities: vec![],
                protocol_version: 8,
                extras: vec![
                    ("tcpPort".to_string(), Json::from_u128(1716)),
                    ("later".to_string(), Json::Array(vec![Json::Null, Json::Bool(true)])),
                ],
            },
        )
    });
}

#[test]
fn round_trip_identity_at_its_least() {
    there_and_back(PacketKind::Identity, "kdeconnect.identity", || {
        PacketBody::Identity(
            Identity {
                device_id: String::new(),
                device_name: String::new(),
                device_type: String::new(),
                incoming_capabilities: vec![],
                outgoing_capabilities: vec![],
                protocol_version: 0,
                extras: vec![],
            },
        )
    });
}

#[test]
fn round_trip_pair() {
    there_and_back(PacketKind::Pair, "kdeconnect.pair", || {
        PacketBody::Pair(Pair { pair: true })
    });
}

#[test]
fn round_trip_pair_at_its_least() {
    there_and_back(PacketKind::Pair, "kdeconnect.pair", || {
        PacketBody::Pair(Pair { pair: false })
    });
}

#[test]
fn round_trip_battery() {
    there_and_back(PacketKind::Battery, "kdeconnect.battery", || {
        PacketBody::Battery(
            Battery {
                current_charge: number("1.5"),
                is_charging: true,
                threshold_event: Some(true),
            },
        )
    });
}

#[test]
fn round_trip_battery_at_its_least() {
    there_and_back(PacketKind::Battery, "kdeconnect.battery", || {
        PacketBody::Battery(
            Battery { current_charge: number("-0"), is_charging: false, threshold_event: None },
        )
    });
}

#[test]
fn round_trip_battery_request() {
    there_and_back(PacketKind::BatteryRequest, "kdeconnect.battery.request", || {
        PacketBody::BatteryRequest(BatteryRequestBody { request: Some(true) })
    });
}

#[test]
fn round_trip_battery_request_at_its_least() {
    there_and_back(PacketKind::BatteryRequest, "kdeconnect.battery.request", || {
        PacketBody::BatteryRequest(BatteryRequestBody { request: None })
    });
}

#[test]
fn round_trip_clipboard() {
    there_and_back(PacketKind::Clipboard, "kdeconnect.clipboard", || {
        PacketBody::Clipboard(Clipboard { content: "content 1".to_string() })
    });
}

#[test]
fn round_trip_clipboard_at_its_least() {
    there_and_back(PacketKind::Clipboard, "kdeconnect.clipboard", || {
        PacketBody::Clipboard(Clipboard { content: String::new() })
    });
}

#[test]
fn round_trip_clipboard_connect() {
    there_and_back(PacketKind::ClipboardConnect, "kdeconnect.clipboard.connect", || {
        PacketBody::ClipboardConnect(
            ClipboardConnect { content: "content 1".to_string(), timestamp: number("2.5") },
        )
    });
}

#[test]
fn round_trip_clipboard_connect_at_its_least() {
    there_and_back(PacketKind::ClipboardConnect, "kdeconnect.clipboard.connect", || {
        PacketBody::ClipboardConnect(
            ClipboardConnect { content: String::new(), timestamp: number("-0") },
        )
    });
}

#[test]
fn round_trip_conectivity_report() {
    there_and_back(PacketKind::ConectivityReport, "kdeconnect.conectivity_report", || {
        PacketBody::ConectivityReport(
            ConnectivityReport {
                signal_strengths: vec![
                    (
                        "sim 1".to_string(),
                        Signal {
                            network_type: NetworkType::IDEN,
                            signal_strength: SignalStrength::Three,
                        },
                    ),
                    (
                        "other".to_string(),
                        Signal {
                            network_type: NetworkType::Unknown,
                            signal_strength: SignalStrength::Four,
                        },
                    ),
                ],
            },
        )
    });
}

#[test]
fn round_trip_conectivity_report_at_its_least() {
    there_and_back(PacketKind::ConectivityReport, "kdeconnect.conectivity_report", || {
        PacketBody::ConectivityReport(ConnectivityReport { signal_strengths: vec![] })
    });
}

#[test]
fn round_trip_conectivity_report_request() {
    there_and_back(PacketKind::ConectivityReportRequest, "kdeconnect.conectivity_report.request", || {
        PacketBody::ConectivityReportRequest(ConnectivityReportRequest {})
    });
}

#[test]
fn round_trip_contacts_request_all_uuid_timestamps() {
    there_and_back(PacketKind::ContactsRequestAllUuidTimestamps, "kdeconnect.contacts.request_all_uids_timestamps", || {
        PacketBody::ContactsRequestAllUuidTimestamps(ContactsRequestAllUuidTimestamps {})
    });
}

#[test]
fn round_trip_contacts_request_vcards_by_uuid() {
    there_and_back(PacketKind::ContactsRequestVcardsByUuid, "kdeconnect.contacts.request_vcards_by_uid", || {
        PacketBody::ContactsRequestVcardsByUuid(
            ContactsRequestVcardsByUuid { uids: vec!["a1".to_string(), "b".to_string()] },
        )
    });
}

#[test]
fn round_trip_contacts_request_vcards_by_uuid_at_its_least() {
    there_and_back(PacketKind::ContactsRequestVcardsByUuid, "kdeconnect.contacts.request_vcards_by_uid", || {
        PacketBody::ContactsRequestVcardsByUuid(ContactsRequestVcardsByUuid { uids: vec![] })
    });
}

#[test]
fn round_trip_contacts_response_vcards() {
    there_and_back(PacketKind::ContactsResponseVcards, "kdeconnect.contacts.response_all_uids_vcards", || {
        PacketBody::ContactsResponseVcards(
            ContactsResponseVcards {
                uids: vec!["u1".to_string()],
                extras: vec![("u1".to_string(), "BEGIN:VCARD\nEND:VCARD".to_string())],
            },
        )
    });
}

#[test]
fn round_trip_contacts_response_vcards_at_its_least() {
    there_and_back(PacketKind::ContactsResponseVcards, "kdeconnect.contacts.response_all_uids_vcards", || {
        PacketBody::ContactsResponseVcards(ContactsResponseVcards { uids: vec![], extras: vec![] })
    });
}

#[test]
fn round_trip_contacts_response_uids_timestamps() {
    there_and_back(PacketKind::ContactsResponseUidsTimestamps, "kdeconnect.contacts.response_all_uids_timestamps", || {
        PacketBody::ContactsResponseUidsTimestamps(
            ContactsResponseUidsTimestamps {
                uids: vec!["u1".to_string(), "u2".to_string()],
                extras: vec![("u1".to_string(), 1700000000000), ("u2".to_string(), u64::MAX)],
            },
        )
    });
}

#[test]
fn round_trip_contacts_response_uids_timestamps_at_its_least() {
    there_and_back(PacketKind::ContactsResponseUidsTimestamps, "kdeconnect.contacts.response_all_uids_timestamps", || {
        PacketBody::ContactsResponseUidsTimestamps(
            ContactsResponseUidsTimestamps { uids: vec![], extras: vec![] },
        )
    });
}

#[test]
fn round_trip_find_my_phone_request() {
    there_and_back(PacketKind::FindMyPhoneRequest, "kdeconnect.findmyphone.request", || {
        PacketBody::FindMyPhoneRequest(FindMyPhoneRequest {})
    });
}

#[test]
fn round_trip_lock() {
    there_and_back(PacketKind::Lock, "kdeconnect.lock", || {
        PacketBody::Lock(Lock { is_locked: true })
    });
}

#[test]
fn round_trip_lock_at_its_least() {
    there_and_back(PacketKind::Lock, "kdeconnect.lock", || {
        PacketBody::Lock(Lock { is_locked: false })
    });
}

#[test]
fn round_trip_lock_request() {
    there_and_back(PacketKind::LockRequest, "kdeconnect.lock.request", || {
        PacketBody::LockRequest(LockRequest { request_locked: Some(false), set_locked: Some(true) })
    });
}

#[test]
fn round_trip_lock_request_at_its_least() {
    there_and_back(PacketKind::LockRequest, "kdeconnect.lock.request", || {
        PacketBody::LockRequest(LockRequest { request_locked: None, set_locked: None })
    });
}

#[test]
fn round_trip_mousepad_echo() {
    there_and_back(PacketKind::MousepadEcho, "kdeconnect.mousepad.echo", || {
        PacketBody::MousepadEcho(
            MousepadEcho {
                key: Some("key \u{e9} 1".to_string()),
                special_key: Some(number("2")),
                alt: Some(false),
                ctrl: Some(true),
                shift: Some(false),
                super_key: Some(true),
                singleclick: Some(false),
                doubleclick: Some(true),
                middleclick: Some(false),
                rightclick: Some(true),
                singlehold: Some(false),
                singlerelease: Some(true),
                dx: Some(number("13")),
                dy: Some(number("14")),
                scroll: Some(false),
                is_ack: true,
            },
        )
    });
}

#[test]
fn round_trip_mousepad_echo_at_its_least() {
    there_and_back(PacketKind::MousepadEcho, "kdeconnect.mousepad.echo", || {
        PacketBody::MousepadEcho(
            MousepadEcho {
                key: None,
                special_key: None,
                alt: None,
                ctrl: None,
                shift: None,
                super_key: None,
                singleclick: None,
                doubleclick: None,
                middleclick: None,
                rightclick: None,
                singlehold: None,
                singlerelease: None,
                dx: None,
                dy: None,
                scroll: None,
                is_ack: false,
            },
        )
    });
}

#[test]
fn round_trip_mousepad_keyboard_state() {
    there_and_back(PacketKind::MousepadKeyboardState, "kdeconnect.mousepad.keyboardstate", || {
        PacketBody::MousepadKeyboardState(MousepadKeyboardState { state: true })
    });
}

#[test]
fn round_trip_mousepad_keyboard_state_at_its_least() {
    there_and_back(PacketKind::MousepadKeyboardState, "kdeconnect.mousepad.keyboardstate", || {
        PacketBody::MousepadKeyboardState(MousepadKeyboardState { state: false })
    });
}

#[test]
fn round_trip_mousepad_request() {
    there_and_back(PacketKind::MousepadRequest, "kdeconnect.mousepad.request", || {
        PacketBody::MousepadRequest(
            MousepadRequest {
                key: Some("key \u{e9} 1".to_string()),
                special_key: Some(number("2")),
                alt: Some(false),
                ctrl: Some(true),
                shift: Some(false),
                super_key: Some(true),
                singleclick: Some(false),
                doubleclick: Some(true),
                middleclick: Some(false),
                rightclick: Some(true),
                singlehold: Some(false),
                singlerelease: Some(true),
                dx: Some(number("13")),
                dy: Some(number("14")),
                scroll: Some(false),
                send_ack: Some(true),
            },
        )
    });
}

#[test]
fn round_trip_mousepad_request_at_its_least() {
    there_and_back(PacketKind::MousepadRequest, "kdeconnect.mousepad.request", || {
        PacketBody::MousepadRequest(
            MousepadRequest {
                key: None,
                special_key: None,
                alt: None,
                ctrl: None,
                shift: None,
                super_key: None,
                singleclick: None,
                doubleclick: None,
                middleclick: None,
                rightclick: None,
                singlehold: None,
                singlerelease: None,
                dx: None,
                dy: None,
                scroll: None,
                send_ack: None,
            },
        )
    });
}

#[test]
fn round_trip_mpris() {
    there_and_back(PacketKind::Mpris, "kdeconnect.mpris", || {
        PacketBody::Mpris(
            Mpris {
                player_list: Some(vec!["a1".to_string()]),
                player: Some("player \u{e9} 2".to_string()),
                can_pause: Some(false),
                can_play: Some(true),
                can_go_next: Some(false),
                can_go_previous: Some(true),
                can_seek: Some(false),
                loop_status: Some(LoopType::PlayList),
                shuffle: Some(false),
                pos: Some(number("10")),
                album_art_url: Some("albumArtUrl \u{e9} 11".to_string()),
                now_playing: Some("nowPlaying \u{e9} 12".to_string()),
                artist: Some("artist \u{e9} 13".to_string()),
                title: Some("title \u{e9} 14".to_string()),
                album: Some("album \u{e9} 15".to_string()),
                length: Some(number("16")),
                volume: Some(number("17")),
                support_album_art_payload: Some(true),
                transferring_album_art: Some(false),
            },
        )
    });
}

#[test]
fn round_trip_mpris_at_its_least() {
    there_and_back(PacketKind::Mpris, "kdeconnect.mpris", || {
        PacketBody::Mpris(
            Mpris {
                player_list: None,
                player: None,
                can_pause: None,
                can_play: None,
                can_go_next: None,
                can_go_previous: None,
                can_seek: None,
                loop_status: None,
                shuffle: None,
                pos: None,
                album_art_url: None,
                now_playing: None,
                artist: None,
                title: None,
                album: None,
                length: None,
                volume: None,
                support_album_art_payload: None,
                transferring_album_art: None,
            },
        )
    });
}

#[test]
fn round_trip_mpris_request() {
    there_and_back(PacketKind::MprisRequest, "kdeconnect.mpris.request", || {
        PacketBody::MprisRequest(
            MprisRequest {
                player: Some("player \u{e9} 1".to_string()),
                request_now_playing: Some(true),
                request_player_list: Some(false),
                request_volume: Some(true),
                seek: Some(number("5")),
                set_loop_status: Some(LoopType::NoLoop),
                set_position: Some(number("7")),
                set_shuffle: Some(true),
                set_volume: Some(false),
                action: MprisAction::Next,
            },
        )
    });
}

#[test]
fn round_trip_mpris_request_at_its_least() {
    there_and_back(PacketKind::MprisRequest, "kdeconnect.mpris.request", || {
        PacketBody::MprisRequest(
            MprisRequest {
                player: None,
                request_now_playing: None,
                request_player_list: None,
                request_volume: None,
                seek: None,
                set_loop_status: None,
                set_position: None,
                set_shuffle: None,
                set_volume: None,
                action: MprisAction::Previous,
            },
        )
    });
}

#[test]
fn round_trip_notification() {
    there_and_back(PacketKind::Notification, "kdeconnect.notification", || {
        PacketBody::Notification(
            Notification {
                id: "id 1".to_string(),
                is_cancel: Some(true),
                is_clearable: Some(false),
                only_once: Some(true),
                silent: Some(false),
                time: Some("time \u{e9} 6".to_string()),
                app_name: "appName 7".to_string(),
                ticker: "ticker 8".to_string(),
                title: "title 9".to_string(),
                text: "text 10".to_string(),
                payload_hash: Some("payloadHash \u{e9} 11".to_string()),
                actions: Some(vec!["a12".to_string()]),
                request_reply_id: Some("requestReplyId \u{e9} 13".to_string()),
            },
        )
    });
}

#[test]
fn round_trip_notification_at_its_least() {
    there_and_back(PacketKind::Notification, "kdeconnect.notification", || {
        PacketBody::Notification(
            Notification {
                id: String::new(),
                is_cancel: None,
                is_clearable: None,
                only_once: None,
                silent: None,
                time: None,
                app_name: String::new(),
                ticker: String::new(),
                title: String::new(),
                text: String::new(),
                payload_hash: None,
                actions: None,
                request_reply_id: None,
            },
        )
    });
}

#[test]
fn round_trip_notification_action() {
    there_and_back(PacketKind::NotificationAction, "kdeconnect.notification.action", || {
        PacketBody::NotificationAction(
            NotificationAction { key: "key 1".to_string(), action: "action 2".to_string() },
        )
    });
}

#[test]
fn round_trip_notification_action_at_its_least() {
    there_and_back(PacketKind::NotificationAction, "kdeconnect.notification.action", || {
        PacketBody::NotificationAction(
            NotificationAction { key: String::new(), action: String::new() },
        )
    });
}

#[test]
fn round_trip_notification_reply() {
    there_and_back(PacketKind::NotificationReply, "kdeconnect.notification.reply", || {
        PacketBody::NotificationReply(
            NotificationReply {
                message: "message 1".to_string(),
                request_reply_id: "requestReplyId 2".to_string(),
            },
        )
    });
}

#[test]
fn round_trip_notification_reply_at_its_least() {
    there_and_back(PacketKind::NotificationReply, "kdeconnect.notification.reply", || {
        PacketBody::NotificationReply(
            NotificationReply { message: String::new(), request_reply_id: String::new() },
        )
    });
}

#[test]
fn round_trip_notification_request() {
    there_and_back(PacketKind::NotificationRequest, "kdeconnect.notification.request", || {
        PacketBody::NotificationRequest(
            NotificationRequest { cancel: Some("cancel \u{e9} 1".to_string()), request: Some(true) },
        )
    });
}

#[test]
fn round_trip_notification_request_at_its_least() {
    there_and_back(PacketKind::NotificationRequest, "kdeconnect.notification.request", || {
        PacketBody::NotificationRequest(NotificationRequest { cancel: None, request: None })
    });
}

#[test]
fn round_trip_ping() {
    there_and_back(PacketKind::Ping, "kdeconnect.ping", || {
        PacketBody::Ping(Ping { message: Some("message \u{e9} 1".to_string()) })
    });
}

#[test]
fn round_trip_ping_at_its_least() {
    there_and_back(PacketKind::Ping, "kdeconnect.ping", || {
        PacketBody::Ping(Ping { message: None })
    });
}

#[test]
fn round_trip_presenter() {
    there_and_back(PacketKind::Presenter, "kdeconnect.presenter", || {
        PacketBody::Presenter(
            Presenter { dx: Some(number("1")), dy: Some(number("2")), stop: Some(false) },
        )
    });
}

#[test]
fn round_trip_presenter_at_its_least() {
    there_and_back(PacketKind::Presenter, "kdeconnect.presenter", || {
        PacketBody::Presenter(Presenter { dx: None, dy: None, stop: None })
    });
}

#[test]
fn round_trip_run_command() {
    there_and_back(PacketKind::RunCommand, "kdeconnect.runcommand", || {
        PacketBody::RunCommand(RunCommand { command_list: "commandList 1".to_string() })
    });
}

#[test]
fn round_trip_run_command_at_its_least() {
    there_and_back(PacketKind::RunCommand, "kdeconnect.runcommand", || {
        PacketBody::RunCommand(RunCommand { command_list: String::new() })
    });
}

#[test]
fn round_trip_run_command_request() {
    there_and_back(PacketKind::RunCommandRequest, "kdeconnect.runcommand.request", || {
        PacketBody::RunCommandRequest(
            RunCommandRequest {
                key: Some("key \u{e9} 1".to_string()),
                request_command_list: Some("requestCommandList \u{e9} 2".to_string()),
            },
        )
    });
}

#[test]
fn round_trip_run_command_request_at_its_least() {
    there_and_back(PacketKind::RunCommandRequest, "kdeconnect.runcommand.request", || {
        PacketBody::RunCommandRequest(RunCommandRequest { key: None, request_command_list: None })
    });
}

#[test]
fn round_trip_sftp() {
    there_and_back(PacketKind::Sftp, "kdeconnect.sftp", || {
        PacketBody::Sftp(
            Sftp {
                error_message: Some("errorMessage \u{e9} 1".to_string()),
                ip: "ip 2".to_string(),
                port: number("3.5"),
                user: "user 4".to_string(),
                password: "password 5".to_string(),
                path: "path 6".to_string(),
                multi_paths: vec!["a7".to_string(), "b".to_string()],
                path_names: vec!["a8".to_string(), "b".to_string()],
            },
        )
    });
}

#[test]
fn round_trip_sftp_at_its_least() {
    there_and_back(PacketKind::Sftp, "kdeconnect.sftp", || {
        PacketBody::Sftp(
            Sftp {
                error_message: None,
                ip: String::new(),
                port: number("-0"),
                user: String::new(),
                password: String::new(),
                path: String::new(),
                multi_paths: vec![],
                path_names: vec![],
            },
        )
    });
}

#[test]
fn round_trip_sftp_request() {
    there_and_back(PacketKind::SftpRequest, "kdeconnect.sftp.request", || {
        PacketBody::SftpRequest(SftpRequest { start_browsing: true })
    });
}

#[test]
fn round_trip_sftp_request_at_its_least() {
    there_and_back(PacketKind::SftpRequest, "kdeconnect.sftp.request", || {
        PacketBody::SftpRequest(SftpRequest { start_browsing: false })
    });
}

#[test]
fn round_trip_share_request() {
    there_and_back(PacketKind::ShareRequest, "kdeconnect.share.request", || {
        PacketBody::ShareRequest(
            ShareRequest {
                filename: Some("filename \u{e9} 1".to_string()),
                creation_time: Some(number("2")),
                last_modified: Some(number("3")),
                open: Some(true),
                number_of_files: Some(number("5")),
                total_payload_size: Some(number("6")),
                text: Some("text \u{e9} 7".to_string()),
                url: Some("url \u{e9} 8".to_string()),
            },
        )
    });
}

#[test]
fn round_trip_share_request_at_its_least() {
    there_and_back(PacketKind::ShareRequest, "kdeconnect.share.request", || {
        PacketBody::ShareRequest(
            ShareRequest {
                filename: None,
                creation_time: None,
                last_modified: None,
                open: None,
                number_of_files: None,
                total_payload_size: None,
                text: None,
                url: None,
            },
        )
    });
}

#[test]
fn round_trip_share_request_update() {
    there_and_back(PacketKind::ShareRequestUpdate, "kdeconnect.share.request.update", || {
        PacketBody::ShareRequestUpdate(
            ShareRequestUpdate {
                number_of_files: Some(number("1")),
                total_payload_size: Some(number("2")),
            },
        )
    });
}

#[test]
fn round_trip_share_request_update_at_its_least() {
    there_and_back(PacketKind::ShareRequestUpdate, "kdeconnect.share.request.update", || {
        PacketBody::ShareRequestUpdate(
            ShareRequestUpdate { number_of_files: None, total_payload_size: None },
        )
    });
}

#[test]
fn round_trip_sms_attachment_file() {
    there_and_back(PacketKind::SmsAttachmentFile, "kdeconnect.sms.attachment_file", || {
        PacketBody::SmsAttachmentFile(SmsAttachmentFile { filename: "filename 1".to_string() })
    });
}

#[test]
fn round_trip_sms_attachment_file_at_its_least() {
    there_and_back(PacketKind::SmsAttachmentFile, "kdeconnect.sms.attachment_file", || {
        PacketBody::SmsAttachmentFile(SmsAttachmentFile { filename: String::new() })
    });
}

#[test]
fn round_trip_sms_messages() {
    there_and_back(PacketKind::SmsMessages, "kdeconnect.sms.messages", || {
        PacketBody::SmsMessages(
            SmsMessages {
                messages: vec![
                    SmsMessage {
                        id: number("2.5"),
                        addresses: vec![
                            SmsAddress { address: "address 4".to_string() },
                            SmsAddress { address: String::new() },
                        ],
                        body: Some("body \u{e9} 6".to_string()),
                        date: number("7.5"),
                        read: number("8.5"),
                        thread_id: number("9.5"),
                        message_type: number("10.5"),
                        event: Some(number("11")),
                        sub_id: Some(number("12")),
                    },
                    SmsMessage {
                        id: number("-0"),
                        addresses: vec![],
                        body: None,
                        date: number("-0"),
                        read: number("-0"),
                        thread_id: number("-0"),
                        message_type: number("-0"),
                        event: None,
                        sub_id: None,
                    },
                ],
                version: Some(number("22")),
            },
        )
    });
}

#[test]
fn round_trip_sms_messages_at_its_least() {
    there_and_back(PacketKind::SmsMessages, "kdeconnect.sms.messages", || {
        PacketBody::SmsMessages(SmsMessages { messages: vec![], version: None })
    });
}

#[test]
fn round_trip_sms_request() {
    there_and_back(PacketKind::SmsRequest, "kdeconnect.sms.request", || {
        PacketBody::SmsRequest(
            SmsRequest {
                addresses: vec![
                    SmsAddress { address: "address 2".to_string() },
                    SmsAddress { address: String::new() },
                ],
                message_body: "messageBody 4".to_string(),
                sub_id: Some(number("5")),
                version: Some(number("6")),
            },
        )
    });
}

#[test]
fn round_trip_sms_request_at_its_least() {
    there_and_back(PacketKind::SmsRequest, "kdeconnect.sms.request", || {
        PacketBody::SmsRequest(
            SmsRequest {
                addresses: vec![],
                message_body: String::new(),
                sub_id: None,
                version: None,
            },
        )
    });
}

#[test]
fn round_trip_sms_request_attachment() {
    there_and_back(PacketKind::SmsRequestAttachment, "kdeconnect.sms.request_attachment", || {
        PacketBody::SmsRequestAttachment(
            SmsRequestAttachment {
                part_id: number("1.5"),
                unique_identifier: "unique_identifier 2".to_string(),
            },
        )
    });
}

#[test]
fn round_trip_sms_request_attachment_at_its_least() {
    there_and_back(PacketKind::SmsRequestAttachment, "kdeconnect.sms.request_attachment", || {
        PacketBody::SmsRequestAttachment(
            SmsRequestAttachment { part_id: number("-0"), unique_identifier: String::new() },
        )
    });
}

#[test]
fn round_trip_sms_request_conversation() {
    there_and_back(PacketKind::SmsRequestConversation, "kdeconnect.sms.request_conversation", || {
        PacketBody::SmsRequestConversation(
            SmsRequestConversation {
                thread_id: number("1.5"),
                range_start_timestamp: Some(number("2")),
                number_to_request: Some(number("3")),
            },
        )
    });
}

#[test]
fn round_trip_sms_request_conversation_at_its_least() {
    there_and_back(PacketKind::SmsRequestConversation, "kdeconnect.sms.request_conversation", || {
        PacketBody::SmsRequestConversation(
            SmsRequestConversation {
                thread_id: number("-0"),
                range_start_timestamp: None,
                number_to_request: None,
            },
        )
    });
}

#[test]
fn round_trip_sms_request_conversations() {
    there_and_back(PacketKind::SmsRequestConversations, "kdeconnect.sms.request_conversations", || {
        PacketBody::SmsRequestConversations(SmsRequestConversations {})
    });
}

#[test]
fn round_trip_system_volume() {
    there_and_back(PacketKind::SystemVolume, "kdeconnect.systemvolume", || {
        PacketBody::SystemVolume(
            SystemVolume {
                sink_list: Some(
                    vec![
                        Stream {
                            name: "name 2".to_string(),
                            description: "description 3".to_string(),
                            enabled: Some(true),
                            muted: true,
                            max_volume: Some(number("6")),
                            volume: number("7.5"),
                        },
                    ],
                ),
                name: Some("name \u{e9} 8".to_string()),
                enabled: Some(false),
                muted: Some(true),
                volume: number("11.5"),
            },
        )
    });
}

#[test]
fn round_trip_system_volume_at_its_least() {
    there_and_back(PacketKind::SystemVolume, "kdeconnect.systemvolume", || {
        PacketBody::SystemVolume(
            SystemVolume {
                sink_list: None,
                name: None,
                enabled: None,
                muted: None,
                volume: number("-0"),
            },
        )
    });
}

#[test]
fn round_trip_system_volume_request() {
    there_and_back(PacketKind::SystemVolumeRequest, "kdeconnect.systemvolume.request", || {
        PacketBody::SystemVolumeRequest(
            SystemVolumeRequest {
                request_sinks: Some(false),
                name: Some("name \u{e9} 2".to_string()),
                enabled: Some(false),
                muted: Some(true),
                volume: Some(number("5")),
            },
        )
    });
}

#[test]
fn round_trip_system_volume_request_at_its_least() {
    there_and_back(PacketKind::SystemVolumeRequest, "kdeconnect.systemvolume.request", || {
        PacketBody::SystemVolumeRequest(
            SystemVolumeRequest {
                request_sinks: None,
                name: None,
                enabled: None,
                muted: None,
                volume: None,
            },
        )
    });
}

#[test]
fn round_trip_telephony() {
    there_and_back(PacketKind::Telephony, "kdeconnect.telephony", || {
        PacketBody::Telephony(
            TelephonyBody {
                event: TelephonyEvent::Ringing,
                contact_name: Some("contactName \u{e9} 2".to_string()),
                message_body: Some("messageBody \u{e9} 3".to_string()),
                phone_number: Some("phoneNumber \u{e9} 4".to_string()),
                phone_thumbnail: Some("phoneThumbnail \u{e9} 5".to_string()),
                is_cancel: true,
            },
        )
    });
}

#[test]
fn round_trip_telephony_at_its_least() {
    there_and_back(PacketKind::Telephony, "kdeconnect.telephony", || {
        PacketBody::Telephony(
            TelephonyBody {
                event: TelephonyEvent::Sms,
                contact_name: None,
                message_body: None,
                phone_number: None,
                phone_thumbnail: None,
                is_cancel: false,
            },
        )
    });
}

#[test]
fn round_trip_telephony_request_mute() {
    there_and_back(PacketKind::TelephonyRequestMute, "kdeconnect.telephony.request_mute", || {
        PacketBody::TelephonyRequestMute(TelephonyRequestMute {})
    });
}
