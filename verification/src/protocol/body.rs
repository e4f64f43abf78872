//! The catalog of bodies. Every kind of body has one tag, the text that
//! names it on the wire, and every tag names one kind: decoding goes from
//! the tag to the kind and from the kind to the shape, encoding from the
//! body to its kind and from the kind to the tag. A tag is never given
//! beside a body, so the two cannot disagree.

use crate::field::agrees;
use crate::plugins::battery::{Battery, BatteryRequestBody, BatteryRequestBodyView, BatteryView};
use crate::plugins::clipboard::{Clipboard, ClipboardConnect, ClipboardConnectView, ClipboardView};
use crate::plugins::connectivity_report::{
    ConnectivityReport, ConnectivityReportRequest, ConnectivityReportRequestView,
    ConnectivityReportView,
};
use crate::plugins::contacts::{
    ContactsRequestAllUuidTimestamps, ContactsRequestAllUuidTimestampsView,
    ContactsRequestVcardsByUuid, ContactsRequestVcardsByUuidView, ContactsResponseUidsTimestamps,
    ContactsResponseUidsTimestampsView, ContactsResponseVcards, ContactsResponseVcardsView,
};
use crate::plugins::find_my_phone::{FindMyPhoneRequest, FindMyPhoneRequestView};
use crate::plugins::lock::{Lock, LockRequest, LockRequestView, LockView};
use crate::plugins::mousepad::{
    MousepadEcho, MousepadEchoView, MousepadKeyboardState, MousepadKeyboardStateView,
    MousepadRequest, MousepadRequestView,
};
use crate::plugins::mpris::{Mpris, MprisRequest, MprisRequestView, MprisView};
use crate::plugins::notification::{
    Notification, NotificationAction, NotificationActionView, NotificationReply,
    NotificationReplyView, NotificationRequest, NotificationRequestView, NotificationView,
};
use crate::plugins::ping::{Ping, PingView};
use crate::plugins::presenter::{Presenter, PresenterView};
use crate::plugins::run_command::{
    RunCommand, RunCommandRequest, RunCommandRequestView, RunCommandView,
};
use crate::plugins::sftp::{Sftp, SftpRequest, SftpRequestView, SftpView};
use crate::plugins::share::{
    ShareRequest, ShareRequestUpdate, ShareRequestUpdateView, ShareRequestView,
};
use crate::plugins::sms::{
    SmsAttachmentFile, SmsAttachmentFileView, SmsMessages, SmsMessagesView, SmsRequest,
    SmsRequestAttachment, SmsRequestAttachmentView, SmsRequestConversation,
    SmsRequestConversationView, SmsRequestConversations, SmsRequestConversationsView,
    SmsRequestView,
};
use crate::plugins::telephony::{
    TelephonyBody, TelephonyBodyView, TelephonyRequestMute, TelephonyRequestMuteView,
};
use crate::plugins::volume::{
    SystemVolume, SystemVolumeRequest, SystemVolumeRequestView, SystemVolumeView,
};
use crate::protocol::identity::{Identity, IdentityView, Pair, PairView};
use crate::shape::{unfit, Shape};
use crate::value::{same_text, Json, JsonModel};
use vstd::prelude::*;

verus! {

/// The kinds of body, one for each row of the catalog.
#[derive(Debug, Clone, Copy, PartialEq, Eq, Structural)]
pub enum PacketKind {
    Identity,
    Pair,
    Battery,
    BatteryRequest,
    Clipboard,
    ClipboardConnect,
    ConectivityReport,
    ConectivityReportRequest,
    ContactsRequestAllUuidTimestamps,
    ContactsRequestVcardsByUuid,
    ContactsResponseVcards,
    ContactsResponseUidsTimestamps,
    FindMyPhoneRequest,
    Lock,
    LockRequest,
    MousepadEcho,
    MousepadKeyboardState,
    MousepadRequest,
    Mpris,
    MprisRequest,
    Notification,
    NotificationAction,
    NotificationReply,
    NotificationRequest,
    Ping,
    Presenter,
    RunCommand,
    RunCommandRequest,
    Sftp,
    SftpRequest,
    ShareRequest,
    ShareRequestUpdate,
    SmsAttachmentFile,
    SmsMessages,
    SmsRequest,
    SmsRequestAttachment,
    SmsRequestConversation,
    SmsRequestConversations,
    SystemVolume,
    SystemVolumeRequest,
    Telephony,
    TelephonyRequestMute,
}

/// The body of a packet: one of the shapes of the catalog.
#[derive(Debug, PartialEq, Eq)]
pub enum PacketBody {
    Identity(Identity),
    Pair(Pair),
    Battery(Battery),
    BatteryRequest(BatteryRequestBody),
    Clipboard(Clipboard),
    ClipboardConnect(ClipboardConnect),
    ConectivityReport(ConnectivityReport),
    ConectivityReportRequest(ConnectivityReportRequest),
    ContactsRequestAllUuidTimestamps(ContactsRequestAllUuidTimestamps),
    ContactsRequestVcardsByUuid(ContactsRequestVcardsByUuid),
    ContactsResponseVcards(ContactsResponseVcards),
    ContactsResponseUidsTimestamps(ContactsResponseUidsTimestamps),
    FindMyPhoneRequest(FindMyPhoneRequest),
    Lock(Lock),
    LockRequest(LockRequest),
    MousepadEcho(MousepadEcho),
    MousepadKeyboardState(MousepadKeyboardState),
    MousepadRequest(MousepadRequest),
    Mpris(Mpris),
    MprisRequest(MprisRequest),
    Notification(Notification),
    NotificationAction(NotificationAction),
    NotificationReply(NotificationReply),
    NotificationRequest(NotificationRequest),
    Ping(Ping),
    Presenter(Presenter),
    RunCommand(RunCommand),
    RunCommandRequest(RunCommandRequest),
    Sftp(Sftp),
    SftpRequest(SftpRequest),
    ShareRequest(ShareRequest),
    ShareRequestUpdate(ShareRequestUpdate),
    SmsAttachmentFile(SmsAttachmentFile),
    SmsMessages(SmsMessages),
    SmsRequest(SmsRequest),
    SmsRequestAttachment(SmsRequestAttachment),
    SmsRequestConversation(SmsRequestConversation),
    SmsRequestConversations(SmsRequestConversations),
    SystemVolume(SystemVolume),
    SystemVolumeRequest(SystemVolumeRequest),
    Telephony(TelephonyBody),
    TelephonyRequestMute(TelephonyRequestMute),
}

/// Model of [`PacketBody`].
pub enum BodyView {
    Identity(IdentityView),
    Pair(PairView),
    Battery(BatteryView),
    BatteryRequest(BatteryRequestBodyView),
    Clipboard(ClipboardView),
    ClipboardConnect(ClipboardConnectView),
    ConectivityReport(ConnectivityReportView),
    ConectivityReportRequest(ConnectivityReportRequestView),
    ContactsRequestAllUuidTimestamps(ContactsRequestAllUuidTimestampsView),
    ContactsRequestVcardsByUuid(ContactsRequestVcardsByUuidView),
    ContactsResponseVcards(ContactsResponseVcardsView),
    ContactsResponseUidsTimestamps(ContactsResponseUidsTimestampsView),
    FindMyPhoneRequest(FindMyPhoneRequestView),
    Lock(LockView),
    LockRequest(LockRequestView),
    MousepadEcho(MousepadEchoView),
    MousepadKeyboardState(MousepadKeyboardStateView),
    MousepadRequest(MousepadRequestView),
    Mpris(MprisView),
    MprisRequest(MprisRequestView),
    Notification(NotificationView),
    NotificationAction(NotificationActionView),
    NotificationReply(NotificationReplyView),
    NotificationRequest(NotificationRequestView),
    Ping(PingView),
    Presenter(PresenterView),
    RunCommand(RunCommandView),
    RunCommandRequest(RunCommandRequestView),
    Sftp(SftpView),
    SftpRequest(SftpRequestView),
    ShareRequest(ShareRequestView),
    ShareRequestUpdate(ShareRequestUpdateView),
    SmsAttachmentFile(SmsAttachmentFileView),
    SmsMessages(SmsMessagesView),
    SmsRequest(SmsRequestView),
    SmsRequestAttachment(SmsRequestAttachmentView),
    SmsRequestConversation(SmsRequestConversationView),
    SmsRequestConversations(SmsRequestConversationsView),
    SystemVolume(SystemVolumeView),
    SystemVolumeRequest(SystemVolumeRequestView),
    Telephony(TelephonyBodyView),
    TelephonyRequestMute(TelephonyRequestMuteView),
}

impl View for PacketBody {
    type V = BodyView;

    open spec fn view(&self) -> BodyView {
        match self {
            PacketBody::Identity(b) => BodyView::Identity(b@),
            PacketBody::Pair(b) => BodyView::Pair(b@),
            PacketBody::Battery(b) => BodyView::Battery(b@),
            PacketBody::BatteryRequest(b) => BodyView::BatteryRequest(b@),
            PacketBody::Clipboard(b) => BodyView::Clipboard(b@),
            PacketBody::ClipboardConnect(b) => BodyView::ClipboardConnect(b@),
            PacketBody::ConectivityReport(b) => BodyView::ConectivityReport(b@),
            PacketBody::ConectivityReportRequest(b) => BodyView::ConectivityReportRequest(b@),
            PacketBody::ContactsRequestAllUuidTimestamps(b) => {
                BodyView::ContactsRequestAllUuidTimestamps(b@)
            },
            PacketBody::ContactsRequestVcardsByUuid(b) => BodyView::ContactsRequestVcardsByUuid(b@),
            PacketBody::ContactsResponseVcards(b) => BodyView::ContactsResponseVcards(b@),
            PacketBody::ContactsResponseUidsTimestamps(b) => {
                BodyView::ContactsResponseUidsTimestamps(b@)
            },
            PacketBody::FindMyPhoneRequest(b) => BodyView::FindMyPhoneRequest(b@),
            PacketBody::Lock(b) => BodyView::Lock(b@),
            PacketBody::LockRequest(b) => BodyView::LockRequest(b@),
            PacketBody::MousepadEcho(b) => BodyView::MousepadEcho(b@),
            PacketBody::MousepadKeyboardState(b) => BodyView::MousepadKeyboardState(b@),
            PacketBody::MousepadRequest(b) => BodyView::MousepadRequest(b@),
            PacketBody::Mpris(b) => BodyView::Mpris(b@),
            PacketBody::MprisRequest(b) => BodyView::MprisRequest(b@),
            PacketBody::Notification(b) => BodyView::Notification(b@),
            PacketBody::NotificationAction(b) => BodyView::NotificationAction(b@),
            PacketBody::NotificationReply(b) => BodyView::NotificationReply(b@),
            PacketBody::NotificationRequest(b) => BodyView::NotificationRequest(b@),
            PacketBody::Ping(b) => BodyView::Ping(b@),
            PacketBody::Presenter(b) => BodyView::Presenter(b@),
            PacketBody::RunCommand(b) => BodyView::RunCommand(b@),
            PacketBody::RunCommandRequest(b) => BodyView::RunCommandRequest(b@),
            PacketBody::Sftp(b) => BodyView::Sftp(b@),
            PacketBody::SftpRequest(b) => BodyView::SftpRequest(b@),
            PacketBody::ShareRequest(b) => BodyView::ShareRequest(b@),
            PacketBody::ShareRequestUpdate(b) => BodyView::ShareRequestUpdate(b@),
            PacketBody::SmsAttachmentFile(b) => BodyView::SmsAttachmentFile(b@),
            PacketBody::SmsMessages(b) => BodyView::SmsMessages(b@),
            PacketBody::SmsRequest(b) => BodyView::SmsRequest(b@),
            PacketBody::SmsRequestAttachment(b) => BodyView::SmsRequestAttachment(b@),
            PacketBody::SmsRequestConversation(b) => BodyView::SmsRequestConversation(b@),
            PacketBody::SmsRequestConversations(b) => BodyView::SmsRequestConversations(b@),
            PacketBody::SystemVolume(b) => BodyView::SystemVolume(b@),
            PacketBody::SystemVolumeRequest(b) => BodyView::SystemVolumeRequest(b@),
            PacketBody::Telephony(b) => BodyView::Telephony(b@),
            PacketBody::TelephonyRequestMute(b) => BodyView::TelephonyRequestMute(b@),
        }
    }
}

/// What tells the tags apart: the length of a tag and its fifteenth
/// character. No two tags of the catalog agree in both.
pub open spec fn tag_mark(tag: Seq<char>) -> (nat, char) {
    (tag.len(), tag[14])
}

impl PacketKind {
    /// The tag of a kind. This is the catalog: every other direction is
    /// derived from it.
    pub open spec fn tag(self) -> Seq<char> {
        match self {
            PacketKind::Identity => "kdeconnect.identity"@,
            PacketKind::Pair => "kdeconnect.pair"@,
            PacketKind::Battery => "kdeconnect.battery"@,
            PacketKind::BatteryRequest => "kdeconnect.battery.request"@,
            PacketKind::Clipboard => "kdeconnect.clipboard"@,
            PacketKind::ClipboardConnect => "kdeconnect.clipboard.connect"@,
            PacketKind::ConectivityReport => "kdeconnect.conectivity_report"@,
            PacketKind::ConectivityReportRequest => "kdeconnect.conectivity_report.request"@,
            PacketKind::ContactsRequestAllUuidTimestamps => {
                "kdeconnect.contacts.request_all_uids_timestamps"@
            },
            PacketKind::ContactsRequestVcardsByUuid => "kdeconnect.contacts.request_vcards_by_uid"@,
            PacketKind::ContactsResponseVcards => "kdeconnect.contacts.response_all_uids_vcards"@,
            PacketKind::ContactsResponseUidsTimestamps => {
                "kdeconnect.contacts.response_all_uids_timestamps"@
            },
            PacketKind::FindMyPhoneRequest => "kdeconnect.findmyphone.request"@,
            PacketKind::Lock => "kdeconnect.lock"@,
            PacketKind::LockRequest => "kdeconnect.lock.request"@,
            PacketKind::MousepadEcho => "kdeconnect.mousepad.echo"@,
            PacketKind::MousepadKeyboardState => "kdeconnect.mousepad.keyboardstate"@,
            PacketKind::MousepadRequest => "kdeconnect.mousepad.request"@,
            PacketKind::Mpris => "kdeconnect.mpris"@,
            PacketKind::MprisRequest => "kdeconnect.mpris.request"@,
            PacketKind::Notification => "kdeconnect.notification"@,
            PacketKind::NotificationAction => "kdeconnect.notification.action"@,
            PacketKind::NotificationReply => "kdeconnect.notification.reply"@,
            PacketKind::NotificationRequest => "kdeconnect.notification.request"@,
            PacketKind::Ping => "kdeconnect.ping"@,
            PacketKind::Presenter => "kdeconnect.presenter"@,
            PacketKind::RunCommand => "kdeconnect.runcommand"@,
            PacketKind::RunCommandRequest => "kdeconnect.runcommand.request"@,
            PacketKind::Sftp => "kdeconnect.sftp"@,
            PacketKind::SftpRequest => "kdeconnect.sftp.request"@,
            PacketKind::ShareRequest => "kdeconnect.share.request"@,
            PacketKind::ShareRequestUpdate => "kdeconnect.share.request.update"@,
            PacketKind::SmsAttachmentFile => "kdeconnect.sms.attachment_file"@,
            PacketKind::SmsMessages => "kdeconnect.sms.messages"@,
            PacketKind::SmsRequest => "kdeconnect.sms.request"@,
            PacketKind::SmsRequestAttachment => "kdeconnect.sms.request_attachment"@,
            PacketKind::SmsRequestConversation => "kdeconnect.sms.request_conversation"@,
            PacketKind::SmsRequestConversations => "kdeconnect.sms.request_conversations"@,
            PacketKind::SystemVolume => "kdeconnect.systemvolume"@,
            PacketKind::SystemVolumeRequest => "kdeconnect.systemvolume.request"@,
            PacketKind::Telephony => "kdeconnect.telephony"@,
            PacketKind::TelephonyRequestMute => "kdeconnect.telephony.request_mute"@,
        }
    }

    /// The kind that a tag names, if it names one.
    pub open spec fn from_tag(tag: Seq<char>) -> Option<PacketKind> {
        if exists|k: PacketKind| k.tag() == tag {
            Some(choose|k: PacketKind| k.tag() == tag)
        } else {
            None
        }
    }

    /// All kinds, in the order of the catalog.
    pub open spec fn all() -> Seq<PacketKind> {
        seq![
            PacketKind::Identity,
            PacketKind::Pair,
            PacketKind::Battery,
            PacketKind::BatteryRequest,
            PacketKind::Clipboard,
            PacketKind::ClipboardConnect,
            PacketKind::ConectivityReport,
            PacketKind::ConectivityReportRequest,
            PacketKind::ContactsRequestAllUuidTimestamps,
            PacketKind::ContactsRequestVcardsByUuid,
            PacketKind::ContactsResponseVcards,
            PacketKind::ContactsResponseUidsTimestamps,
            PacketKind::FindMyPhoneRequest,
            PacketKind::Lock,
            PacketKind::LockRequest,
            PacketKind::MousepadEcho,
            PacketKind::MousepadKeyboardState,
            PacketKind::MousepadRequest,
            PacketKind::Mpris,
            PacketKind::MprisRequest,
            PacketKind::Notification,
            PacketKind::NotificationAction,
            PacketKind::NotificationReply,
            PacketKind::NotificationRequest,
            PacketKind::Ping,
            PacketKind::Presenter,
            PacketKind::RunCommand,
            PacketKind::RunCommandRequest,
            PacketKind::Sftp,
            PacketKind::SftpRequest,
            PacketKind::ShareRequest,
            PacketKind::ShareRequestUpdate,
            PacketKind::SmsAttachmentFile,
            PacketKind::SmsMessages,
            PacketKind::SmsRequest,
            PacketKind::SmsRequestAttachment,
            PacketKind::SmsRequestConversation,
            PacketKind::SmsRequestConversations,
            PacketKind::SystemVolume,
            PacketKind::SystemVolumeRequest,
            PacketKind::Telephony,
            PacketKind::TelephonyRequestMute,
        ]
    }

    /// The position of a kind in the catalog.
    pub open spec fn position(self) -> int {
        match self {
            PacketKind::Identity => 0,
            PacketKind::Pair => 1,
            PacketKind::Battery => 2,
            PacketKind::BatteryRequest => 3,
            PacketKind::Clipboard => 4,
            PacketKind::ClipboardConnect => 5,
            PacketKind::ConectivityReport => 6,
            PacketKind::ConectivityReportRequest => 7,
            PacketKind::ContactsRequestAllUuidTimestamps => 8,
            PacketKind::ContactsRequestVcardsByUuid => 9,
            PacketKind::ContactsResponseVcards => 10,
            PacketKind::ContactsResponseUidsTimestamps => 11,
            PacketKind::FindMyPhoneRequest => 12,
            PacketKind::Lock => 13,
            PacketKind::LockRequest => 14,
            PacketKind::MousepadEcho => 15,
            PacketKind::MousepadKeyboardState => 16,
            PacketKind::MousepadRequest => 17,
            PacketKind::Mpris => 18,
            PacketKind::MprisRequest => 19,
            PacketKind::Notification => 20,
            PacketKind::NotificationAction => 21,
            PacketKind::NotificationReply => 22,
            PacketKind::NotificationRequest => 23,
            PacketKind::Ping => 24,
            PacketKind::Presenter => 25,
            PacketKind::RunCommand => 26,
            PacketKind::RunCommandRequest => 27,
            PacketKind::Sftp => 28,
            PacketKind::SftpRequest => 29,
            PacketKind::ShareRequest => 30,
            PacketKind::ShareRequestUpdate => 31,
            PacketKind::SmsAttachmentFile => 32,
            PacketKind::SmsMessages => 33,
            PacketKind::SmsRequest => 34,
            PacketKind::SmsRequestAttachment => 35,
            PacketKind::SmsRequestConversation => 36,
            PacketKind::SmsRequestConversations => 37,
            PacketKind::SystemVolume => 38,
            PacketKind::SystemVolumeRequest => 39,
            PacketKind::Telephony => 40,
            PacketKind::TelephonyRequestMute => 41,
        }
    }

    /// The tag of the kind.
    pub fn as_str(&self) -> (s: &'static str)
        ensures
            s@ == self.tag(),
    {
        match self {
            PacketKind::Identity => "kdeconnect.identity",
            PacketKind::Pair => "kdeconnect.pair",
            PacketKind::Battery => "kdeconnect.battery",
            PacketKind::BatteryRequest => "kdeconnect.battery.request",
            PacketKind::Clipboard => "kdeconnect.clipboard",
            PacketKind::ClipboardConnect => "kdeconnect.clipboard.connect",
            PacketKind::ConectivityReport => "kdeconnect.conectivity_report",
            PacketKind::ConectivityReportRequest => "kdeconnect.conectivity_report.request",
            PacketKind::ContactsRequestAllUuidTimestamps => {
                "kdeconnect.contacts.request_all_uids_timestamps"
            },
            PacketKind::ContactsRequestVcardsByUuid => "kdeconnect.contacts.request_vcards_by_uid",
            PacketKind::ContactsResponseVcards => "kdeconnect.contacts.response_all_uids_vcards",
            PacketKind::ContactsResponseUidsTimestamps => {
                "kdeconnect.contacts.response_all_uids_timestamps"
            },
            PacketKind::FindMyPhoneRequest => "kdeconnect.findmyphone.request",
            PacketKind::Lock => "kdeconnect.lock",
            PacketKind::LockRequest => "kdeconnect.lock.request",
            PacketKind::MousepadEcho => "kdeconnect.mousepad.echo",
            PacketKind::MousepadKeyboardState => "kdeconnect.mousepad.keyboardstate",
            PacketKind::MousepadRequest => "kdeconnect.mousepad.request",
            PacketKind::Mpris => "kdeconnect.mpris",
            PacketKind::MprisRequest => "kdeconnect.mpris.request",
            PacketKind::Notification => "kdeconnect.notification",
            PacketKind::NotificationAction => "kdeconnect.notification.action",
            PacketKind::NotificationReply => "kdeconnect.notification.reply",
            PacketKind::NotificationRequest => "kdeconnect.notification.request",
            PacketKind::Ping => "kdeconnect.ping",
            PacketKind::Presenter => "kdeconnect.presenter",
            PacketKind::RunCommand => "kdeconnect.runcommand",
            PacketKind::RunCommandRequest => "kdeconnect.runcommand.request",
            PacketKind::Sftp => "kdeconnect.sftp",
            PacketKind::SftpRequest => "kdeconnect.sftp.request",
            PacketKind::ShareRequest => "kdeconnect.share.request",
            PacketKind::ShareRequestUpdate => "kdeconnect.share.request.update",
            PacketKind::SmsAttachmentFile => "kdeconnect.sms.attachment_file",
            PacketKind::SmsMessages => "kdeconnect.sms.messages",
            PacketKind::SmsRequest => "kdeconnect.sms.request",
            PacketKind::SmsRequestAttachment => "kdeconnect.sms.request_attachment",
            PacketKind::SmsRequestConversation => "kdeconnect.sms.request_conversation",
            PacketKind::SmsRequestConversations => "kdeconnect.sms.request_conversations",
            PacketKind::SystemVolume => "kdeconnect.systemvolume",
            PacketKind::SystemVolumeRequest => "kdeconnect.systemvolume.request",
            PacketKind::Telephony => "kdeconnect.telephony",
            PacketKind::TelephonyRequestMute => "kdeconnect.telephony.request_mute",
        }
    }

    /// All kinds, in the order of the catalog.
    pub fn all_kinds() -> (kinds: Vec<PacketKind>)
        ensures
            kinds@ == Self::all(),
    {
        let kinds: Vec<PacketKind> = vec![
            PacketKind::Identity,
            PacketKind::Pair,
            PacketKind::Battery,
            PacketKind::BatteryRequest,
            PacketKind::Clipboard,
            PacketKind::ClipboardConnect,
            PacketKind::ConectivityReport,
            PacketKind::ConectivityReportRequest,
            PacketKind::ContactsRequestAllUuidTimestamps,
            PacketKind::ContactsRequestVcardsByUuid,
            PacketKind::ContactsResponseVcards,
            PacketKind::ContactsResponseUidsTimestamps,
            PacketKind::FindMyPhoneRequest,
            PacketKind::Lock,
            PacketKind::LockRequest,
            PacketKind::MousepadEcho,
            PacketKind::MousepadKeyboardState,
            PacketKind::MousepadRequest,
            PacketKind::Mpris,
            PacketKind::MprisRequest,
            PacketKind::Notification,
            PacketKind::NotificationAction,
            PacketKind::NotificationReply,
            PacketKind::NotificationRequest,
            PacketKind::Ping,
            PacketKind::Presenter,
            PacketKind::RunCommand,
            PacketKind::RunCommandRequest,
            PacketKind::Sftp,
            PacketKind::SftpRequest,
            PacketKind::ShareRequest,
            PacketKind::ShareRequestUpdate,
            PacketKind::SmsAttachmentFile,
            PacketKind::SmsMessages,
            PacketKind::SmsRequest,
            PacketKind::SmsRequestAttachment,
            PacketKind::SmsRequestConversation,
            PacketKind::SmsRequestConversations,
            PacketKind::SystemVolume,
            PacketKind::SystemVolumeRequest,
            PacketKind::Telephony,
            PacketKind::TelephonyRequestMute,
        ];
        assert(kinds@ =~= Self::all());
        kinds
    }

    /// The kind that a tag names: the catalog is searched for the tag.
    pub fn of_tag(tag: &str) -> (r: Option<PacketKind>)
        ensures
            r == Self::from_tag(tag@),
    {
        let kinds = Self::all_kinds();
        let mut i: usize = 0;
        while i < kinds.len()
            invariant
                0 <= i <= kinds@.len(),
                kinds@ == Self::all(),
                forall|k: int| 0 <= k < i ==> (#[trigger] kinds@[k]).tag() != tag@,
            decreases kinds@.len() - i,
        {
            if same_text(kinds[i].as_str(), tag) {
                proof {
                    Self::lemma_tags_differ();
                }
                return Some(kinds[i]);
            }
            i = i + 1;
        }
        proof {
            assert forall|k: PacketKind| k.tag() != tag@ by {
                Self::lemma_all_listed(k);
                assert(kinds@[k.position()] == k);
            }
        }
        None
    }

    /// Every kind stands in the catalog, at its position.
    pub proof fn lemma_all_listed(k: PacketKind)
        ensures
            0 <= k.position() < Self::all().len(),
            Self::all()[k.position()] == k,
    {
    }

    /// The mark of the tag of each kind.
    pub open spec fn mark(self) -> (nat, char) {
        match self {
            PacketKind::Identity => (19, 'n'),
            PacketKind::Pair => (15, 'r'),
            PacketKind::Battery => (18, 't'),
            PacketKind::BatteryRequest => (26, 't'),
            PacketKind::Clipboard => (20, 'p'),
            PacketKind::ClipboardConnect => (28, 'p'),
            PacketKind::ConectivityReport => (29, 'e'),
            PacketKind::ConectivityReportRequest => (37, 'e'),
            PacketKind::ContactsRequestAllUuidTimestamps => (47, 't'),
            PacketKind::ContactsRequestVcardsByUuid => (41, 't'),
            PacketKind::ContactsResponseVcards => (44, 't'),
            PacketKind::ContactsResponseUidsTimestamps => (48, 't'),
            PacketKind::FindMyPhoneRequest => (30, 'd'),
            PacketKind::Lock => (15, 'k'),
            PacketKind::LockRequest => (23, 'k'),
            PacketKind::MousepadEcho => (24, 's'),
            PacketKind::MousepadKeyboardState => (33, 's'),
            PacketKind::MousepadRequest => (27, 's'),
            PacketKind::Mpris => (16, 'i'),
            PacketKind::MprisRequest => (24, 'i'),
            PacketKind::Notification => (23, 'i'),
            PacketKind::NotificationAction => (30, 'i'),
            PacketKind::NotificationReply => (29, 'i'),
            PacketKind::NotificationRequest => (31, 'i'),
            PacketKind::Ping => (15, 'g'),
            PacketKind::Presenter => (20, 's'),
            PacketKind::RunCommand => (21, 'c'),
            PacketKind::RunCommandRequest => (29, 'c'),
            PacketKind::Sftp => (15, 'p'),
            PacketKind::SftpRequest => (23, 'p'),
            PacketKind::ShareRequest => (24, 'r'),
            PacketKind::ShareRequestUpdate => (31, 'r'),
            PacketKind::SmsAttachmentFile => (30, '.'),
            PacketKind::SmsMessages => (23, '.'),
            PacketKind::SmsRequest => (22, '.'),
            PacketKind::SmsRequestAttachment => (33, '.'),
            PacketKind::SmsRequestConversation => (35, '.'),
            PacketKind::SmsRequestConversations => (36, '.'),
            PacketKind::SystemVolume => (23, 't'),
            PacketKind::SystemVolumeRequest => (31, 't'),
            PacketKind::Telephony => (20, 'e'),
            PacketKind::TelephonyRequestMute => (33, 'e'),
        }
    }

    /// The tag of each kind has the mark that is listed for the kind.
    pub proof fn lemma_mark(k: PacketKind)
        ensures
            tag_mark(k.tag()) == k.mark(),
    {
        broadcast use vstd::string::group_string_axioms;
        match k {
            PacketKind::Identity => {
                reveal_strlit("kdeconnect.identity");
            },
            PacketKind::Pair => {
                reveal_strlit("kdeconnect.pair");
            },
            PacketKind::Battery => {
                reveal_strlit("kdeconnect.battery");
            },
            PacketKind::BatteryRequest => {
                reveal_strlit("kdeconnect.battery.request");
            },
            PacketKind::Clipboard => {
                reveal_strlit("kdeconnect.clipboard");
            },
            PacketKind::ClipboardConnect => {
                reveal_strlit("kdeconnect.clipboard.connect");
            },
            PacketKind::ConectivityReport => {
                reveal_strlit("kdeconnect.conectivity_report");
            },
            PacketKind::ConectivityReportRequest => {
                reveal_strlit("kdeconnect.conectivity_report.request");
            },
            PacketKind::ContactsRequestAllUuidTimestamps => {
                reveal_strlit("kdeconnect.contacts.request_all_uids_timestamps");
            },
            PacketKind::ContactsRequestVcardsByUuid => {
                reveal_strlit("kdeconnect.contacts.request_vcards_by_uid");
            },
            PacketKind::ContactsResponseVcards => {
                reveal_strlit("kdeconnect.contacts.response_all_uids_vcards");
            },
            PacketKind::ContactsResponseUidsTimestamps => {
                reveal_strlit("kdeconnect.contacts.response_all_uids_timestamps");
            },
            PacketKind::FindMyPhoneRequest => {
                reveal_strlit("kdeconnect.findmyphone.request");
            },
            PacketKind::Lock => {
                reveal_strlit("kdeconnect.lock");
            },
            PacketKind::LockRequest => {
                reveal_strlit("kdeconnect.lock.request");
            },
            PacketKind::MousepadEcho => {
                reveal_strlit("kdeconnect.mousepad.echo");
            },
            PacketKind::MousepadKeyboardState => {
                reveal_strlit("kdeconnect.mousepad.keyboardstate");
            },
            PacketKind::MousepadRequest => {
                reveal_strlit("kdeconnect.mousepad.request");
            },
            PacketKind::Mpris => {
                reveal_strlit("kdeconnect.mpris");
            },
            PacketKind::MprisRequest => {
                reveal_strlit("kdeconnect.mpris.request");
            },
            PacketKind::Notification => {
                reveal_strlit("kdeconnect.notification");
            },
            PacketKind::NotificationAction => {
                reveal_strlit("kdeconnect.notification.action");
            },
            PacketKind::NotificationReply => {
                reveal_strlit("kdeconnect.notification.reply");
            },
            PacketKind::NotificationRequest => {
                reveal_strlit("kdeconnect.notification.request");
            },
            PacketKind::Ping => {
                reveal_strlit("kdeconnect.ping");
            },
            PacketKind::Presenter => {
                reveal_strlit("kdeconnect.presenter");
            },
            PacketKind::RunCommand => {
                reveal_strlit("kdeconnect.runcommand");
            },
            PacketKind::RunCommandRequest => {
                reveal_strlit("kdeconnect.runcommand.request");
            },
            PacketKind::Sftp => {
                reveal_strlit("kdeconnect.sftp");
            },
            PacketKind::SftpRequest => {
                reveal_strlit("kdeconnect.sftp.request");
            },
            PacketKind::ShareRequest => {
                reveal_strlit("kdeconnect.share.request");
            },
            PacketKind::ShareRequestUpdate => {
                reveal_strlit("kdeconnect.share.request.update");
            },
            PacketKind::SmsAttachmentFile => {
                reveal_strlit("kdeconnect.sms.attachment_file");
            },
            PacketKind::SmsMessages => {
                reveal_strlit("kdeconnect.sms.messages");
            },
            PacketKind::SmsRequest => {
                reveal_strlit("kdeconnect.sms.request");
            },
            PacketKind::SmsRequestAttachment => {
                reveal_strlit("kdeconnect.sms.request_attachment");
            },
            PacketKind::SmsRequestConversation => {
                reveal_strlit("kdeconnect.sms.request_conversation");
            },
            PacketKind::SmsRequestConversations => {
                reveal_strlit("kdeconnect.sms.request_conversations");
            },
            PacketKind::SystemVolume => {
                reveal_strlit("kdeconnect.systemvolume");
            },
            PacketKind::SystemVolumeRequest => {
                reveal_strlit("kdeconnect.systemvolume.request");
            },
            PacketKind::Telephony => {
                reveal_strlit("kdeconnect.telephony");
            },
            PacketKind::TelephonyRequestMute => {
                reveal_strlit("kdeconnect.telephony.request_mute");
            },
        }
    }

    /// No two kinds share a tag.
    pub proof fn lemma_tags_differ()
        ensures
            forall|a: PacketKind, b: PacketKind|
                #[trigger] a.tag() == #[trigger] b.tag() ==> a == b,
    {
        assert forall|a: PacketKind, b: PacketKind|
            #[trigger] a.tag() == #[trigger] b.tag() implies a == b by {
            Self::lemma_mark(a);
            Self::lemma_mark(b);
            assert(a.mark() == b.mark());
        }
    }

    /// The tag of a kind names that kind.
    pub proof fn lemma_tag_round_trip(k: PacketKind)
        ensures
            Self::from_tag(k.tag()) == Some(k),
    {
        Self::lemma_tags_differ();
    }
}

impl BodyView {
    /// The kind of a body.
    pub open spec fn kind(self) -> PacketKind {
        match self {
            BodyView::Identity(_) => PacketKind::Identity,
            BodyView::Pair(_) => PacketKind::Pair,
            BodyView::Battery(_) => PacketKind::Battery,
            BodyView::BatteryRequest(_) => PacketKind::BatteryRequest,
            BodyView::Clipboard(_) => PacketKind::Clipboard,
            BodyView::ClipboardConnect(_) => PacketKind::ClipboardConnect,
            BodyView::ConectivityReport(_) => PacketKind::ConectivityReport,
            BodyView::ConectivityReportRequest(_) => PacketKind::ConectivityReportRequest,
            BodyView::ContactsRequestAllUuidTimestamps(_) => {
                PacketKind::ContactsRequestAllUuidTimestamps
            },
            BodyView::ContactsRequestVcardsByUuid(_) => PacketKind::ContactsRequestVcardsByUuid,
            BodyView::ContactsResponseVcards(_) => PacketKind::ContactsResponseVcards,
            BodyView::ContactsResponseUidsTimestamps(_) => {
                PacketKind::ContactsResponseUidsTimestamps
            },
            BodyView::FindMyPhoneRequest(_) => PacketKind::FindMyPhoneRequest,
            BodyView::Lock(_) => PacketKind::Lock,
            BodyView::LockRequest(_) => PacketKind::LockRequest,
            BodyView::MousepadEcho(_) => PacketKind::MousepadEcho,
            BodyView::MousepadKeyboardState(_) => PacketKind::MousepadKeyboardState,
            BodyView::MousepadRequest(_) => PacketKind::MousepadRequest,
            BodyView::Mpris(_) => PacketKind::Mpris,
            BodyView::MprisRequest(_) => PacketKind::MprisRequest,
            BodyView::Notification(_) => PacketKind::Notification,
            BodyView::NotificationAction(_) => PacketKind::NotificationAction,
            BodyView::NotificationReply(_) => PacketKind::NotificationReply,
            BodyView::NotificationRequest(_) => PacketKind::NotificationRequest,
            BodyView::Ping(_) => PacketKind::Ping,
            BodyView::Presenter(_) => PacketKind::Presenter,
            BodyView::RunCommand(_) => PacketKind::RunCommand,
            BodyView::RunCommandRequest(_) => PacketKind::RunCommandRequest,
            BodyView::Sftp(_) => PacketKind::Sftp,
            BodyView::SftpRequest(_) => PacketKind::SftpRequest,
            BodyView::ShareRequest(_) => PacketKind::ShareRequest,
            BodyView::ShareRequestUpdate(_) => PacketKind::ShareRequestUpdate,
            BodyView::SmsAttachmentFile(_) => PacketKind::SmsAttachmentFile,
            BodyView::SmsMessages(_) => PacketKind::SmsMessages,
            BodyView::SmsRequest(_) => PacketKind::SmsRequest,
            BodyView::SmsRequestAttachment(_) => PacketKind::SmsRequestAttachment,
            BodyView::SmsRequestConversation(_) => PacketKind::SmsRequestConversation,
            BodyView::SmsRequestConversations(_) => PacketKind::SmsRequestConversations,
            BodyView::SystemVolume(_) => PacketKind::SystemVolume,
            BodyView::SystemVolumeRequest(_) => PacketKind::SystemVolumeRequest,
            BodyView::Telephony(_) => PacketKind::Telephony,
            BodyView::TelephonyRequestMute(_) => PacketKind::TelephonyRequestMute,
        }
    }

    /// The value that stands for a body on the wire.
    pub open spec fn wire(self) -> JsonModel {
        match self {
            BodyView::Identity(b) => Identity::wire(b),
            BodyView::Pair(b) => Pair::wire(b),
            BodyView::Battery(b) => Battery::wire(b),
            BodyView::BatteryRequest(b) => BatteryRequestBody::wire(b),
            BodyView::Clipboard(b) => Clipboard::wire(b),
            BodyView::ClipboardConnect(b) => ClipboardConnect::wire(b),
            BodyView::ConectivityReport(b) => ConnectivityReport::wire(b),
            BodyView::ConectivityReportRequest(b) => ConnectivityReportRequest::wire(b),
            BodyView::ContactsRequestAllUuidTimestamps(b) => {
                ContactsRequestAllUuidTimestamps::wire(b)
            },
            BodyView::ContactsRequestVcardsByUuid(b) => ContactsRequestVcardsByUuid::wire(b),
            BodyView::ContactsResponseVcards(b) => ContactsResponseVcards::wire(b),
            BodyView::ContactsResponseUidsTimestamps(b) => ContactsResponseUidsTimestamps::wire(b),
            BodyView::FindMyPhoneRequest(b) => FindMyPhoneRequest::wire(b),
            BodyView::Lock(b) => Lock::wire(b),
            BodyView::LockRequest(b) => LockRequest::wire(b),
            BodyView::MousepadEcho(b) => MousepadEcho::wire(b),
            BodyView::MousepadKeyboardState(b) => MousepadKeyboardState::wire(b),
            BodyView::MousepadRequest(b) => MousepadRequest::wire(b),
            BodyView::Mpris(b) => Mpris::wire(b),
            BodyView::MprisRequest(b) => MprisRequest::wire(b),
            BodyView::Notification(b) => Notification::wire(b),
            BodyView::NotificationAction(b) => NotificationAction::wire(b),
            BodyView::NotificationReply(b) => NotificationReply::wire(b),
            BodyView::NotificationRequest(b) => NotificationRequest::wire(b),
            BodyView::Ping(b) => Ping::wire(b),
            BodyView::Presenter(b) => Presenter::wire(b),
            BodyView::RunCommand(b) => RunCommand::wire(b),
            BodyView::RunCommandRequest(b) => RunCommandRequest::wire(b),
            BodyView::Sftp(b) => Sftp::wire(b),
            BodyView::SftpRequest(b) => SftpRequest::wire(b),
            BodyView::ShareRequest(b) => ShareRequest::wire(b),
            BodyView::ShareRequestUpdate(b) => ShareRequestUpdate::wire(b),
            BodyView::SmsAttachmentFile(b) => SmsAttachmentFile::wire(b),
            BodyView::SmsMessages(b) => SmsMessages::wire(b),
            BodyView::SmsRequest(b) => SmsRequest::wire(b),
            BodyView::SmsRequestAttachment(b) => SmsRequestAttachment::wire(b),
            BodyView::SmsRequestConversation(b) => SmsRequestConversation::wire(b),
            BodyView::SmsRequestConversations(b) => SmsRequestConversations::wire(b),
            BodyView::SystemVolume(b) => SystemVolume::wire(b),
            BodyView::SystemVolumeRequest(b) => SystemVolumeRequest::wire(b),
            BodyView::Telephony(b) => TelephonyBody::wire(b),
            BodyView::TelephonyRequestMute(b) => TelephonyRequestMute::wire(b),
        }
    }

    /// The body of the given kind that a value stands for, or the field at
    /// which reading it fails.
    pub open spec fn parse(kind: PacketKind, j: JsonModel) -> Result<BodyView, Seq<char>> {
        match kind {
            PacketKind::Identity => match Identity::parse(j) {
                Ok(b) => Ok(BodyView::Identity(b)),
                Err(e) => Err(e),
            },
            PacketKind::Pair => match Pair::parse(j) {
                Ok(b) => Ok(BodyView::Pair(b)),
                Err(e) => Err(e),
            },
            PacketKind::Battery => match Battery::parse(j) {
                Ok(b) => Ok(BodyView::Battery(b)),
                Err(e) => Err(e),
            },
            PacketKind::BatteryRequest => match BatteryRequestBody::parse(j) {
                Ok(b) => Ok(BodyView::BatteryRequest(b)),
                Err(e) => Err(e),
            },
            PacketKind::Clipboard => match Clipboard::parse(j) {
                Ok(b) => Ok(BodyView::Clipboard(b)),
                Err(e) => Err(e),
            },
            PacketKind::ClipboardConnect => match ClipboardConnect::parse(j) {
                Ok(b) => Ok(BodyView::ClipboardConnect(b)),
                Err(e) => Err(e),
            },
            PacketKind::ConectivityReport => match ConnectivityReport::parse(j) {
                Ok(b) => Ok(BodyView::ConectivityReport(b)),
                Err(e) => Err(e),
            },
            PacketKind::ConectivityReportRequest => match ConnectivityReportRequest::parse(j) {
                Ok(b) => Ok(BodyView::ConectivityReportRequest(b)),
                Err(e) => Err(e),
            },
            PacketKind::ContactsRequestAllUuidTimestamps => {
                match ContactsRequestAllUuidTimestamps::parse(j) {
                    Ok(b) => Ok(BodyView::ContactsRequestAllUuidTimestamps(b)),
                    Err(e) => Err(e),
                }
            },
            PacketKind::ContactsRequestVcardsByUuid => match ContactsRequestVcardsByUuid::parse(j) {
                Ok(b) => Ok(BodyView::ContactsRequestVcardsByUuid(b)),
                Err(e) => Err(e),
            },
            PacketKind::ContactsResponseVcards => match ContactsResponseVcards::parse(j) {
                Ok(b) => Ok(BodyView::ContactsResponseVcards(b)),
                Err(e) => Err(e),
            },
            PacketKind::ContactsResponseUidsTimestamps => {
                match ContactsResponseUidsTimestamps::parse(j) {
                    Ok(b) => Ok(BodyView::ContactsResponseUidsTimestamps(b)),
                    Err(e) => Err(e),
                }
            },
            PacketKind::FindMyPhoneRequest => match FindMyPhoneRequest::parse(j) {
                Ok(b) => Ok(BodyView::FindMyPhoneRequest(b)),
                Err(e) => Err(e),
            },
            PacketKind::Lock => match Lock::parse(j) {
                Ok(b) => Ok(BodyView::Lock(b)),
                Err(e) => Err(e),
            },
            PacketKind::LockRequest => match LockRequest::parse(j) {
                Ok(b) => Ok(BodyView::LockRequest(b)),
                Err(e) => Err(e),
            },
            PacketKind::MousepadEcho => match MousepadEcho::parse(j) {
                Ok(b) => Ok(BodyView::MousepadEcho(b)),
                Err(e) => Err(e),
            },
            PacketKind::MousepadKeyboardState => match MousepadKeyboardState::parse(j) {
                Ok(b) => Ok(BodyView::MousepadKeyboardState(b)),
                Err(e) => Err(e),
            },
            PacketKind::MousepadRequest => match MousepadRequest::parse(j) {
                Ok(b) => Ok(BodyView::MousepadRequest(b)),
                Err(e) => Err(e),
            },
            PacketKind::Mpris => match Mpris::parse(j) {
                Ok(b) => Ok(BodyView::Mpris(b)),
                Err(e) => Err(e),
            },
            PacketKind::MprisRequest => match MprisRequest::parse(j) {
                Ok(b) => Ok(BodyView::MprisRequest(b)),
                Err(e) => Err(e),
            },
            PacketKind::Notification => match Notification::parse(j) {
                Ok(b) => Ok(BodyView::Notification(b)),
                Err(e) => Err(e),
            },
            PacketKind::NotificationAction => match NotificationAction::parse(j) {
                Ok(b) => Ok(BodyView::NotificationAction(b)),
                Err(e) => Err(e),
            },
            PacketKind::NotificationReply => match NotificationReply::parse(j) {
                Ok(b) => Ok(BodyView::NotificationReply(b)),
                Err(e) => Err(e),
            },
            PacketKind::NotificationRequest => match NotificationRequest::parse(j) {
                Ok(b) => Ok(BodyView::NotificationRequest(b)),
                Err(e) => Err(e),
            },
            PacketKind::Ping => match Ping::parse(j) {
                Ok(b) => Ok(BodyView::Ping(b)),
                Err(e) => Err(e),
            },
            PacketKind::Presenter => match Presenter::parse(j) {
                Ok(b) => Ok(BodyView::Presenter(b)),
                Err(e) => Err(e),
            },
            PacketKind::RunCommand => match RunCommand::parse(j) {
                Ok(b) => Ok(BodyView::RunCommand(b)),
                Err(e) => Err(e),
            },
            PacketKind::RunCommandRequest => match RunCommandRequest::parse(j) {
                Ok(b) => Ok(BodyView::RunCommandRequest(b)),
                Err(e) => Err(e),
            },
            PacketKind::Sftp => match Sftp::parse(j) {
                Ok(b) => Ok(BodyView::Sftp(b)),
                Err(e) => Err(e),
            },
            PacketKind::SftpRequest => match SftpRequest::parse(j) {
                Ok(b) => Ok(BodyView::SftpRequest(b)),
                Err(e) => Err(e),
            },
            PacketKind::ShareRequest => match ShareRequest::parse(j) {
                Ok(b) => Ok(BodyView::ShareRequest(b)),
                Err(e) => Err(e),
            },
            PacketKind::ShareRequestUpdate => match ShareRequestUpdate::parse(j) {
                Ok(b) => Ok(BodyView::ShareRequestUpdate(b)),
                Err(e) => Err(e),
            },
            PacketKind::SmsAttachmentFile => match SmsAttachmentFile::parse(j) {
                Ok(b) => Ok(BodyView::SmsAttachmentFile(b)),
                Err(e) => Err(e),
            },
            PacketKind::SmsMessages => match SmsMessages::parse(j) {
                Ok(b) => Ok(BodyView::SmsMessages(b)),
                Err(e) => Err(e),
            },
            PacketKind::SmsRequest => match SmsRequest::parse(j) {
                Ok(b) => Ok(BodyView::SmsRequest(b)),
                Err(e) => Err(e),
            },
            PacketKind::SmsRequestAttachment => match SmsRequestAttachment::parse(j) {
                Ok(b) => Ok(BodyView::SmsRequestAttachment(b)),
                Err(e) => Err(e),
            },
            PacketKind::SmsRequestConversation => match SmsRequestConversation::parse(j) {
                Ok(b) => Ok(BodyView::SmsRequestConversation(b)),
                Err(e) => Err(e),
            },
            PacketKind::SmsRequestConversations => match SmsRequestConversations::parse(j) {
                Ok(b) => Ok(BodyView::SmsRequestConversations(b)),
                Err(e) => Err(e),
            },
            PacketKind::SystemVolume => match SystemVolume::parse(j) {
                Ok(b) => Ok(BodyView::SystemVolume(b)),
                Err(e) => Err(e),
            },
            PacketKind::SystemVolumeRequest => match SystemVolumeRequest::parse(j) {
                Ok(b) => Ok(BodyView::SystemVolumeRequest(b)),
                Err(e) => Err(e),
            },
            PacketKind::Telephony => match TelephonyBody::parse(j) {
                Ok(b) => Ok(BodyView::Telephony(b)),
                Err(e) => Err(e),
            },
            PacketKind::TelephonyRequestMute => match TelephonyRequestMute::parse(j) {
                Ok(b) => Ok(BodyView::TelephonyRequestMute(b)),
                Err(e) => Err(e),
            },
        }
    }

    /// Whether a body is read back as it was written: the shapes that carry
    /// members of their own beside their named fields ask that none of
    /// them stands under the key of a named field.
    pub open spec fn wf(self) -> bool {
        match self {
            BodyView::Identity(b) => Identity::wf(b),
            BodyView::Pair(b) => Pair::wf(b),
            BodyView::Battery(b) => Battery::wf(b),
            BodyView::BatteryRequest(b) => BatteryRequestBody::wf(b),
            BodyView::Clipboard(b) => Clipboard::wf(b),
            BodyView::ClipboardConnect(b) => ClipboardConnect::wf(b),
            BodyView::ConectivityReport(b) => ConnectivityReport::wf(b),
            BodyView::ConectivityReportRequest(b) => ConnectivityReportRequest::wf(b),
            BodyView::ContactsRequestAllUuidTimestamps(b) => {
                ContactsRequestAllUuidTimestamps::wf(b)
            },
            BodyView::ContactsRequestVcardsByUuid(b) => ContactsRequestVcardsByUuid::wf(b),
            BodyView::ContactsResponseVcards(b) => ContactsResponseVcards::wf(b),
            BodyView::ContactsResponseUidsTimestamps(b) => ContactsResponseUidsTimestamps::wf(b),
            BodyView::FindMyPhoneRequest(b) => FindMyPhoneRequest::wf(b),
            BodyView::Lock(b) => Lock::wf(b),
            BodyView::LockRequest(b) => LockRequest::wf(b),
            BodyView::MousepadEcho(b) => MousepadEcho::wf(b),
            BodyView::MousepadKeyboardState(b) => MousepadKeyboardState::wf(b),
            BodyView::MousepadRequest(b) => MousepadRequest::wf(b),
            BodyView::Mpris(b) => Mpris::wf(b),
            BodyView::MprisRequest(b) => MprisRequest::wf(b),
            BodyView::Notification(b) => Notification::wf(b),
            BodyView::NotificationAction(b) => NotificationAction::wf(b),
            BodyView::NotificationReply(b) => NotificationReply::wf(b),
            BodyView::NotificationRequest(b) => NotificationRequest::wf(b),
            BodyView::Ping(b) => Ping::wf(b),
            BodyView::Presenter(b) => Presenter::wf(b),
            BodyView::RunCommand(b) => RunCommand::wf(b),
            BodyView::RunCommandRequest(b) => RunCommandRequest::wf(b),
            BodyView::Sftp(b) => Sftp::wf(b),
            BodyView::SftpRequest(b) => SftpRequest::wf(b),
            BodyView::ShareRequest(b) => ShareRequest::wf(b),
            BodyView::ShareRequestUpdate(b) => ShareRequestUpdate::wf(b),
            BodyView::SmsAttachmentFile(b) => SmsAttachmentFile::wf(b),
            BodyView::SmsMessages(b) => SmsMessages::wf(b),
            BodyView::SmsRequest(b) => SmsRequest::wf(b),
            BodyView::SmsRequestAttachment(b) => SmsRequestAttachment::wf(b),
            BodyView::SmsRequestConversation(b) => SmsRequestConversation::wf(b),
            BodyView::SmsRequestConversations(b) => SmsRequestConversations::wf(b),
            BodyView::SystemVolume(b) => SystemVolume::wf(b),
            BodyView::SystemVolumeRequest(b) => SystemVolumeRequest::wf(b),
            BodyView::Telephony(b) => TelephonyBody::wf(b),
            BodyView::TelephonyRequestMute(b) => TelephonyRequestMute::wf(b),
        }
    }

    /// Whether a body can be written to the wire: its numbers must be number
    /// literals, and whatever stands in it under names of its own must stand
    /// under names that differ from each other and from the named fields.
    pub open spec fn writable(self) -> bool {
        match self {
            BodyView::Identity(b) => Identity::writable(b),
            BodyView::Pair(b) => Pair::writable(b),
            BodyView::Battery(b) => Battery::writable(b),
            BodyView::BatteryRequest(b) => BatteryRequestBody::writable(b),
            BodyView::Clipboard(b) => Clipboard::writable(b),
            BodyView::ClipboardConnect(b) => ClipboardConnect::writable(b),
            BodyView::ConectivityReport(b) => ConnectivityReport::writable(b),
            BodyView::ConectivityReportRequest(b) => ConnectivityReportRequest::writable(b),
            BodyView::ContactsRequestAllUuidTimestamps(b) => {
                ContactsRequestAllUuidTimestamps::writable(b)
            },
            BodyView::ContactsRequestVcardsByUuid(b) => ContactsRequestVcardsByUuid::writable(b),
            BodyView::ContactsResponseVcards(b) => ContactsResponseVcards::writable(b),
            BodyView::ContactsResponseUidsTimestamps(b) => {
                ContactsResponseUidsTimestamps::writable(b)
            },
            BodyView::FindMyPhoneRequest(b) => FindMyPhoneRequest::writable(b),
            BodyView::Lock(b) => Lock::writable(b),
            BodyView::LockRequest(b) => LockRequest::writable(b),
            BodyView::MousepadEcho(b) => MousepadEcho::writable(b),
            BodyView::MousepadKeyboardState(b) => MousepadKeyboardState::writable(b),
            BodyView::MousepadRequest(b) => MousepadRequest::writable(b),
            BodyView::Mpris(b) => Mpris::writable(b),
            BodyView::MprisRequest(b) => MprisRequest::writable(b),
            BodyView::Notification(b) => Notification::writable(b),
            BodyView::NotificationAction(b) => NotificationAction::writable(b),
            BodyView::NotificationReply(b) => NotificationReply::writable(b),
            BodyView::NotificationRequest(b) => NotificationRequest::writable(b),
            BodyView::Ping(b) => Ping::writable(b),
            BodyView::Presenter(b) => Presenter::writable(b),
            BodyView::RunCommand(b) => RunCommand::writable(b),
            BodyView::RunCommandRequest(b) => RunCommandRequest::writable(b),
            BodyView::Sftp(b) => Sftp::writable(b),
            BodyView::SftpRequest(b) => SftpRequest::writable(b),
            BodyView::ShareRequest(b) => ShareRequest::writable(b),
            BodyView::ShareRequestUpdate(b) => ShareRequestUpdate::writable(b),
            BodyView::SmsAttachmentFile(b) => SmsAttachmentFile::writable(b),
            BodyView::SmsMessages(b) => SmsMessages::writable(b),
            BodyView::SmsRequest(b) => SmsRequest::writable(b),
            BodyView::SmsRequestAttachment(b) => SmsRequestAttachment::writable(b),
            BodyView::SmsRequestConversation(b) => SmsRequestConversation::writable(b),
            BodyView::SmsRequestConversations(b) => SmsRequestConversations::writable(b),
            BodyView::SystemVolume(b) => SystemVolume::writable(b),
            BodyView::SystemVolumeRequest(b) => SystemVolumeRequest::writable(b),
            BodyView::Telephony(b) => TelephonyBody::writable(b),
            BodyView::TelephonyRequestMute(b) => TelephonyRequestMute::writable(b),
        }
    }

    /// The value that stands for a body is well formed exactly when the
    /// body can be written; and a body that can be written is read back as
    /// it was written.
    pub proof fn lemma_wire_wf(self)
        ensures
            self.wire().wf() == self.writable(),
            self.writable() ==> self.wf(),
    {
        match self {
            BodyView::Identity(b) => {
                Identity::lemma_wire_wf(b);
            },
            BodyView::Pair(b) => {
                Pair::lemma_wire_wf(b);
            },
            BodyView::Battery(b) => {
                Battery::lemma_wire_wf(b);
            },
            BodyView::BatteryRequest(b) => {
                BatteryRequestBody::lemma_wire_wf(b);
            },
            BodyView::Clipboard(b) => {
                Clipboard::lemma_wire_wf(b);
            },
            BodyView::ClipboardConnect(b) => {
                ClipboardConnect::lemma_wire_wf(b);
            },
            BodyView::ConectivityReport(b) => {
                ConnectivityReport::lemma_wire_wf(b);
            },
            BodyView::ConectivityReportRequest(b) => {
                ConnectivityReportRequest::lemma_wire_wf(b);
            },
            BodyView::ContactsRequestAllUuidTimestamps(b) => {
                ContactsRequestAllUuidTimestamps::lemma_wire_wf(b);
            },
            BodyView::ContactsRequestVcardsByUuid(b) => {
                ContactsRequestVcardsByUuid::lemma_wire_wf(b);
            },
            BodyView::ContactsResponseVcards(b) => {
                ContactsResponseVcards::lemma_wire_wf(b);
            },
            BodyView::ContactsResponseUidsTimestamps(b) => {
                ContactsResponseUidsTimestamps::lemma_wire_wf(b);
            },
            BodyView::FindMyPhoneRequest(b) => {
                FindMyPhoneRequest::lemma_wire_wf(b);
            },
            BodyView::Lock(b) => {
                Lock::lemma_wire_wf(b);
            },
            BodyView::LockRequest(b) => {
                LockRequest::lemma_wire_wf(b);
            },
            BodyView::MousepadEcho(b) => {
                MousepadEcho::lemma_wire_wf(b);
            },
            BodyView::MousepadKeyboardState(b) => {
                MousepadKeyboardState::lemma_wire_wf(b);
            },
            BodyView::MousepadRequest(b) => {
                MousepadRequest::lemma_wire_wf(b);
            },
            BodyView::Mpris(b) => {
                Mpris::lemma_wire_wf(b);
            },
            BodyView::MprisRequest(b) => {
                MprisRequest::lemma_wire_wf(b);
            },
            BodyView::Notification(b) => {
                Notification::lemma_wire_wf(b);
            },
            BodyView::NotificationAction(b) => {
                NotificationAction::lemma_wire_wf(b);
            },
            BodyView::NotificationReply(b) => {
                NotificationReply::lemma_wire_wf(b);
            },
            BodyView::NotificationRequest(b) => {
                NotificationRequest::lemma_wire_wf(b);
            },
            BodyView::Ping(b) => {
                Ping::lemma_wire_wf(b);
            },
            BodyView::Presenter(b) => {
                Presenter::lemma_wire_wf(b);
            },
            BodyView::RunCommand(b) => {
                RunCommand::lemma_wire_wf(b);
            },
            BodyView::RunCommandRequest(b) => {
                RunCommandRequest::lemma_wire_wf(b);
            },
            BodyView::Sftp(b) => {
                Sftp::lemma_wire_wf(b);
            },
            BodyView::SftpRequest(b) => {
                SftpRequest::lemma_wire_wf(b);
            },
            BodyView::ShareRequest(b) => {
                ShareRequest::lemma_wire_wf(b);
            },
            BodyView::ShareRequestUpdate(b) => {
                ShareRequestUpdate::lemma_wire_wf(b);
            },
            BodyView::SmsAttachmentFile(b) => {
                SmsAttachmentFile::lemma_wire_wf(b);
            },
            BodyView::SmsMessages(b) => {
                SmsMessages::lemma_wire_wf(b);
            },
            BodyView::SmsRequest(b) => {
                SmsRequest::lemma_wire_wf(b);
            },
            BodyView::SmsRequestAttachment(b) => {
                SmsRequestAttachment::lemma_wire_wf(b);
            },
            BodyView::SmsRequestConversation(b) => {
                SmsRequestConversation::lemma_wire_wf(b);
            },
            BodyView::SmsRequestConversations(b) => {
                SmsRequestConversations::lemma_wire_wf(b);
            },
            BodyView::SystemVolume(b) => {
                SystemVolume::lemma_wire_wf(b);
            },
            BodyView::SystemVolumeRequest(b) => {
                SystemVolumeRequest::lemma_wire_wf(b);
            },
            BodyView::Telephony(b) => {
                TelephonyBody::lemma_wire_wf(b);
            },
            BodyView::TelephonyRequestMute(b) => {
                TelephonyRequestMute::lemma_wire_wf(b);
            },
        }
    }

    /// A body is read back, under its own kind, as it was written.
    pub proof fn lemma_round_trip(self)
        requires
            self.wf(),
        ensures
            Self::parse(self.kind(), self.wire()) == Ok::<BodyView, Seq<char>>(self),
    {
        match self {
            BodyView::Identity(b) => {
                Identity::lemma_round_trip(b);
            },
            BodyView::Pair(b) => {
                Pair::lemma_round_trip(b);
            },
            BodyView::Battery(b) => {
                Battery::lemma_round_trip(b);
            },
            BodyView::BatteryRequest(b) => {
                BatteryRequestBody::lemma_round_trip(b);
            },
            BodyView::Clipboard(b) => {
                Clipboard::lemma_round_trip(b);
            },
            BodyView::ClipboardConnect(b) => {
                ClipboardConnect::lemma_round_trip(b);
            },
            BodyView::ConectivityReport(b) => {
                ConnectivityReport::lemma_round_trip(b);
            },
            BodyView::ConectivityReportRequest(b) => {
                ConnectivityReportRequest::lemma_round_trip(b);
            },
            BodyView::ContactsRequestAllUuidTimestamps(b) => {
                ContactsRequestAllUuidTimestamps::lemma_round_trip(b);
            },
            BodyView::ContactsRequestVcardsByUuid(b) => {
                ContactsRequestVcardsByUuid::lemma_round_trip(b);
            },
            BodyView::ContactsResponseVcards(b) => {
                ContactsResponseVcards::lemma_round_trip(b);
            },
            BodyView::ContactsResponseUidsTimestamps(b) => {
                ContactsResponseUidsTimestamps::lemma_round_trip(b);
            },
            BodyView::FindMyPhoneRequest(b) => {
                FindMyPhoneRequest::lemma_round_trip(b);
            },
            BodyView::Lock(b) => {
                Lock::lemma_round_trip(b);
            },
            BodyView::LockRequest(b) => {
                LockRequest::lemma_round_trip(b);
            },
            BodyView::MousepadEcho(b) => {
                MousepadEcho::lemma_round_trip(b);
            },
            BodyView::MousepadKeyboardState(b) => {
                MousepadKeyboardState::lemma_round_trip(b);
            },
            BodyView::MousepadRequest(b) => {
                MousepadRequest::lemma_round_trip(b);
            },
            BodyView::Mpris(b) => {
                Mpris::lemma_round_trip(b);
            },
            BodyView::MprisRequest(b) => {
                MprisRequest::lemma_round_trip(b);
            },
            BodyView::Notification(b) => {
                Notification::lemma_round_trip(b);
            },
            BodyView::NotificationAction(b) => {
                NotificationAction::lemma_round_trip(b);
            },
            BodyView::NotificationReply(b) => {
                NotificationReply::lemma_round_trip(b);
            },
            BodyView::NotificationRequest(b) => {
                NotificationRequest::lemma_round_trip(b);
            },
            BodyView::Ping(b) => {
                Ping::lemma_round_trip(b);
            },
            BodyView::Presenter(b) => {
                Presenter::lemma_round_trip(b);
            },
            BodyView::RunCommand(b) => {
                RunCommand::lemma_round_trip(b);
            },
            BodyView::RunCommandRequest(b) => {
                RunCommandRequest::lemma_round_trip(b);
            },
            BodyView::Sftp(b) => {
                Sftp::lemma_round_trip(b);
            },
            BodyView::SftpRequest(b) => {
                SftpRequest::lemma_round_trip(b);
            },
            BodyView::ShareRequest(b) => {
                ShareRequest::lemma_round_trip(b);
            },
            BodyView::ShareRequestUpdate(b) => {
                ShareRequestUpdate::lemma_round_trip(b);
            },
            BodyView::SmsAttachmentFile(b) => {
                SmsAttachmentFile::lemma_round_trip(b);
            },
            BodyView::SmsMessages(b) => {
                SmsMessages::lemma_round_trip(b);
            },
            BodyView::SmsRequest(b) => {
                SmsRequest::lemma_round_trip(b);
            },
            BodyView::SmsRequestAttachment(b) => {
                SmsRequestAttachment::lemma_round_trip(b);
            },
            BodyView::SmsRequestConversation(b) => {
                SmsRequestConversation::lemma_round_trip(b);
            },
            BodyView::SmsRequestConversations(b) => {
                SmsRequestConversations::lemma_round_trip(b);
            },
            BodyView::SystemVolume(b) => {
                SystemVolume::lemma_round_trip(b);
            },
            BodyView::SystemVolumeRequest(b) => {
                SystemVolumeRequest::lemma_round_trip(b);
            },
            BodyView::Telephony(b) => {
                TelephonyBody::lemma_round_trip(b);
            },
            BodyView::TelephonyRequestMute(b) => {
                TelephonyRequestMute::lemma_round_trip(b);
            },
        }
    }

    /// What keeps a value from being a body of a kind, whatever else it
    /// holds: a member under a key that the kind does not take, or the lack
    /// of a field that the kind requires.
    pub open spec fn unfit(kind: PacketKind, j: JsonModel) -> bool {
        match kind {
            PacketKind::Identity => unfit::<Identity>(j),
            PacketKind::Pair => unfit::<Pair>(j),
            PacketKind::Battery => unfit::<Battery>(j),
            PacketKind::BatteryRequest => unfit::<BatteryRequestBody>(j),
            PacketKind::Clipboard => unfit::<Clipboard>(j),
            PacketKind::ClipboardConnect => unfit::<ClipboardConnect>(j),
            PacketKind::ConectivityReport => unfit::<ConnectivityReport>(j),
            PacketKind::ConectivityReportRequest => unfit::<ConnectivityReportRequest>(j),
            PacketKind::ContactsRequestAllUuidTimestamps => {
                unfit::<ContactsRequestAllUuidTimestamps>(j)
            },
            PacketKind::ContactsRequestVcardsByUuid => unfit::<ContactsRequestVcardsByUuid>(j),
            PacketKind::ContactsResponseVcards => unfit::<ContactsResponseVcards>(j),
            PacketKind::ContactsResponseUidsTimestamps => {
                unfit::<ContactsResponseUidsTimestamps>(j)
            },
            PacketKind::FindMyPhoneRequest => unfit::<FindMyPhoneRequest>(j),
            PacketKind::Lock => unfit::<Lock>(j),
            PacketKind::LockRequest => unfit::<LockRequest>(j),
            PacketKind::MousepadEcho => unfit::<MousepadEcho>(j),
            PacketKind::MousepadKeyboardState => unfit::<MousepadKeyboardState>(j),
            PacketKind::MousepadRequest => unfit::<MousepadRequest>(j),
            PacketKind::Mpris => unfit::<Mpris>(j),
            PacketKind::MprisRequest => unfit::<MprisRequest>(j),
            PacketKind::Notification => unfit::<Notification>(j),
            PacketKind::NotificationAction => unfit::<NotificationAction>(j),
            PacketKind::NotificationReply => unfit::<NotificationReply>(j),
            PacketKind::NotificationRequest => unfit::<NotificationRequest>(j),
            PacketKind::Ping => unfit::<Ping>(j),
            PacketKind::Presenter => unfit::<Presenter>(j),
            PacketKind::RunCommand => unfit::<RunCommand>(j),
            PacketKind::RunCommandRequest => unfit::<RunCommandRequest>(j),
            PacketKind::Sftp => unfit::<Sftp>(j),
            PacketKind::SftpRequest => unfit::<SftpRequest>(j),
            PacketKind::ShareRequest => unfit::<ShareRequest>(j),
            PacketKind::ShareRequestUpdate => unfit::<ShareRequestUpdate>(j),
            PacketKind::SmsAttachmentFile => unfit::<SmsAttachmentFile>(j),
            PacketKind::SmsMessages => unfit::<SmsMessages>(j),
            PacketKind::SmsRequest => unfit::<SmsRequest>(j),
            PacketKind::SmsRequestAttachment => unfit::<SmsRequestAttachment>(j),
            PacketKind::SmsRequestConversation => unfit::<SmsRequestConversation>(j),
            PacketKind::SmsRequestConversations => unfit::<SmsRequestConversations>(j),
            PacketKind::SystemVolume => unfit::<SystemVolume>(j),
            PacketKind::SystemVolumeRequest => unfit::<SystemVolumeRequest>(j),
            PacketKind::Telephony => unfit::<TelephonyBody>(j),
            PacketKind::TelephonyRequestMute => unfit::<TelephonyRequestMute>(j),
        }
    }

    /// What is read under a kind is a body of that kind.
    pub proof fn lemma_kind_of_parsed(kind: PacketKind, j: JsonModel)
        ensures
            Self::parse(kind, j) matches Ok(b) ==> b.kind() == kind,
    {
    }

    /// A value that is unfit for a kind is not read as a body of that kind.
    pub proof fn lemma_unfit_is_refused(kind: PacketKind, j: JsonModel)
        requires
            Self::unfit(kind, j),
        ensures
            Self::parse(kind, j) is Err,
    {
        match kind {
            PacketKind::Identity => {
                Identity::lemma_unfit_is_refused(j);
            },
            PacketKind::Pair => {
                Pair::lemma_unfit_is_refused(j);
            },
            PacketKind::Battery => {
                Battery::lemma_unfit_is_refused(j);
            },
            PacketKind::BatteryRequest => {
                BatteryRequestBody::lemma_unfit_is_refused(j);
            },
            PacketKind::Clipboard => {
                Clipboard::lemma_unfit_is_refused(j);
            },
            PacketKind::ClipboardConnect => {
                ClipboardConnect::lemma_unfit_is_refused(j);
            },
            PacketKind::ConectivityReport => {
                ConnectivityReport::lemma_unfit_is_refused(j);
            },
            PacketKind::ConectivityReportRequest => {
                ConnectivityReportRequest::lemma_unfit_is_refused(j);
            },
            PacketKind::ContactsRequestAllUuidTimestamps => {
                ContactsRequestAllUuidTimestamps::lemma_unfit_is_refused(j);
            },
            PacketKind::ContactsRequestVcardsByUuid => {
                ContactsRequestVcardsByUuid::lemma_unfit_is_refused(j);
            },
            PacketKind::ContactsResponseVcards => {
                ContactsResponseVcards::lemma_unfit_is_refused(j);
            },
            PacketKind::ContactsResponseUidsTimestamps => {
                ContactsResponseUidsTimestamps::lemma_unfit_is_refused(j);
            },
            PacketKind::FindMyPhoneRequest => {
                FindMyPhoneRequest::lemma_unfit_is_refused(j);
            },
            PacketKind::Lock => {
                Lock::lemma_unfit_is_refused(j);
            },
            PacketKind::LockRequest => {
                LockRequest::lemma_unfit_is_refused(j);
            },
            PacketKind::MousepadEcho => {
                MousepadEcho::lemma_unfit_is_refused(j);
            },
            PacketKind::MousepadKeyboardState => {
                MousepadKeyboardState::lemma_unfit_is_refused(j);
            },
            PacketKind::MousepadRequest => {
                MousepadRequest::lemma_unfit_is_refused(j);
            },
            PacketKind::Mpris => {
                Mpris::lemma_unfit_is_refused(j);
            },
            PacketKind::MprisRequest => {
                MprisRequest::lemma_unfit_is_refused(j);
            },
            PacketKind::Notification => {
                Notification::lemma_unfit_is_refused(j);
            },
            PacketKind::NotificationAction => {
                NotificationAction::lemma_unfit_is_refused(j);
            },
            PacketKind::NotificationReply => {
                NotificationReply::lemma_unfit_is_refused(j);
            },
            PacketKind::NotificationRequest => {
                NotificationRequest::lemma_unfit_is_refused(j);
            },
            PacketKind::Ping => {
                Ping::lemma_unfit_is_refused(j);
            },
            PacketKind::Presenter => {
                Presenter::lemma_unfit_is_refused(j);
            },
            PacketKind::RunCommand => {
                RunCommand::lemma_unfit_is_refused(j);
            },
            PacketKind::RunCommandRequest => {
                RunCommandRequest::lemma_unfit_is_refused(j);
            },
            PacketKind::Sftp => {
                Sftp::lemma_unfit_is_refused(j);
            },
            PacketKind::SftpRequest => {
                SftpRequest::lemma_unfit_is_refused(j);
            },
            PacketKind::ShareRequest => {
                ShareRequest::lemma_unfit_is_refused(j);
            },
            PacketKind::ShareRequestUpdate => {
                ShareRequestUpdate::lemma_unfit_is_refused(j);
            },
            PacketKind::SmsAttachmentFile => {
                SmsAttachmentFile::lemma_unfit_is_refused(j);
            },
            PacketKind::SmsMessages => {
                SmsMessages::lemma_unfit_is_refused(j);
            },
            PacketKind::SmsRequest => {
                SmsRequest::lemma_unfit_is_refused(j);
            },
            PacketKind::SmsRequestAttachment => {
                SmsRequestAttachment::lemma_unfit_is_refused(j);
            },
            PacketKind::SmsRequestConversation => {
                SmsRequestConversation::lemma_unfit_is_refused(j);
            },
            PacketKind::SmsRequestConversations => {
                SmsRequestConversations::lemma_unfit_is_refused(j);
            },
            PacketKind::SystemVolume => {
                SystemVolume::lemma_unfit_is_refused(j);
            },
            PacketKind::SystemVolumeRequest => {
                SystemVolumeRequest::lemma_unfit_is_refused(j);
            },
            PacketKind::Telephony => {
                TelephonyBody::lemma_unfit_is_refused(j);
            },
            PacketKind::TelephonyRequestMute => {
                TelephonyRequestMute::lemma_unfit_is_refused(j);
            },
        }
    }

    /// Tags exclude each other: a body that is written under one kind is not
    /// read under another, wherever what was written holds a member that the
    /// other kind does not take, or lacks a field that the other kind
    /// requires. What is left are the bodies that hold nothing to tell them
    /// apart, such as an empty body under two kinds that require nothing.
    pub proof fn lemma_tag_exclusive(self, other: PacketKind)
        requires
            Self::unfit(other, self.wire()),
        ensures
            Self::parse(other, self.wire()) is Err,
    {
        Self::lemma_unfit_is_refused(other, self.wire());
    }
}

impl PacketBody {
    /// The kind of the body.
    pub fn kind(&self) -> (k: PacketKind)
        ensures
            k == self@.kind(),
    {
        match self {
            PacketBody::Identity(_) => PacketKind::Identity,
            PacketBody::Pair(_) => PacketKind::Pair,
            PacketBody::Battery(_) => PacketKind::Battery,
            PacketBody::BatteryRequest(_) => PacketKind::BatteryRequest,
            PacketBody::Clipboard(_) => PacketKind::Clipboard,
            PacketBody::ClipboardConnect(_) => PacketKind::ClipboardConnect,
            PacketBody::ConectivityReport(_) => PacketKind::ConectivityReport,
            PacketBody::ConectivityReportRequest(_) => PacketKind::ConectivityReportRequest,
            PacketBody::ContactsRequestAllUuidTimestamps(_) => {
                PacketKind::ContactsRequestAllUuidTimestamps
            },
            PacketBody::ContactsRequestVcardsByUuid(_) => PacketKind::ContactsRequestVcardsByUuid,
            PacketBody::ContactsResponseVcards(_) => PacketKind::ContactsResponseVcards,
            PacketBody::ContactsResponseUidsTimestamps(_) => {
                PacketKind::ContactsResponseUidsTimestamps
            },
            PacketBody::FindMyPhoneRequest(_) => PacketKind::FindMyPhoneRequest,
            PacketBody::Lock(_) => PacketKind::Lock,
            PacketBody::LockRequest(_) => PacketKind::LockRequest,
            PacketBody::MousepadEcho(_) => PacketKind::MousepadEcho,
            PacketBody::MousepadKeyboardState(_) => PacketKind::MousepadKeyboardState,
            PacketBody::MousepadRequest(_) => PacketKind::MousepadRequest,
            PacketBody::Mpris(_) => PacketKind::Mpris,
            PacketBody::MprisRequest(_) => PacketKind::MprisRequest,
            PacketBody::Notification(_) => PacketKind::Notification,
            PacketBody::NotificationAction(_) => PacketKind::NotificationAction,
            PacketBody::NotificationReply(_) => PacketKind::NotificationReply,
            PacketBody::NotificationRequest(_) => PacketKind::NotificationRequest,
            PacketBody::Ping(_) => PacketKind::Ping,
            PacketBody::Presenter(_) => PacketKind::Presenter,
            PacketBody::RunCommand(_) => PacketKind::RunCommand,
            PacketBody::RunCommandRequest(_) => PacketKind::RunCommandRequest,
            PacketBody::Sftp(_) => PacketKind::Sftp,
            PacketBody::SftpRequest(_) => PacketKind::SftpRequest,
            PacketBody::ShareRequest(_) => PacketKind::ShareRequest,
            PacketBody::ShareRequestUpdate(_) => PacketKind::ShareRequestUpdate,
            PacketBody::SmsAttachmentFile(_) => PacketKind::SmsAttachmentFile,
            PacketBody::SmsMessages(_) => PacketKind::SmsMessages,
            PacketBody::SmsRequest(_) => PacketKind::SmsRequest,
            PacketBody::SmsRequestAttachment(_) => PacketKind::SmsRequestAttachment,
            PacketBody::SmsRequestConversation(_) => PacketKind::SmsRequestConversation,
            PacketBody::SmsRequestConversations(_) => PacketKind::SmsRequestConversations,
            PacketBody::SystemVolume(_) => PacketKind::SystemVolume,
            PacketBody::SystemVolumeRequest(_) => PacketKind::SystemVolumeRequest,
            PacketBody::Telephony(_) => PacketKind::Telephony,
            PacketBody::TelephonyRequestMute(_) => PacketKind::TelephonyRequestMute,
        }
    }

    /// The value that stands for the body on the wire.
    pub fn to_json(&self) -> (j: Json)
        ensures
            j@ == self@.wire(),
    {
        match self {
            PacketBody::Identity(b) => b.to_json(),
            PacketBody::Pair(b) => b.to_json(),
            PacketBody::Battery(b) => b.to_json(),
            PacketBody::BatteryRequest(b) => b.to_json(),
            PacketBody::Clipboard(b) => b.to_json(),
            PacketBody::ClipboardConnect(b) => b.to_json(),
            PacketBody::ConectivityReport(b) => b.to_json(),
            PacketBody::ConectivityReportRequest(b) => b.to_json(),
            PacketBody::ContactsRequestAllUuidTimestamps(b) => b.to_json(),
            PacketBody::ContactsRequestVcardsByUuid(b) => b.to_json(),
            PacketBody::ContactsResponseVcards(b) => b.to_json(),
            PacketBody::ContactsResponseUidsTimestamps(b) => b.to_json(),
            PacketBody::FindMyPhoneRequest(b) => b.to_json(),
            PacketBody::Lock(b) => b.to_json(),
            PacketBody::LockRequest(b) => b.to_json(),
            PacketBody::MousepadEcho(b) => b.to_json(),
            PacketBody::MousepadKeyboardState(b) => b.to_json(),
            PacketBody::MousepadRequest(b) => b.to_json(),
            PacketBody::Mpris(b) => b.to_json(),
            PacketBody::MprisRequest(b) => b.to_json(),
            PacketBody::Notification(b) => b.to_json(),
            PacketBody::NotificationAction(b) => b.to_json(),
            PacketBody::NotificationReply(b) => b.to_json(),
            PacketBody::NotificationRequest(b) => b.to_json(),
            PacketBody::Ping(b) => b.to_json(),
            PacketBody::Presenter(b) => b.to_json(),
            PacketBody::RunCommand(b) => b.to_json(),
            PacketBody::RunCommandRequest(b) => b.to_json(),
            PacketBody::Sftp(b) => b.to_json(),
            PacketBody::SftpRequest(b) => b.to_json(),
            PacketBody::ShareRequest(b) => b.to_json(),
            PacketBody::ShareRequestUpdate(b) => b.to_json(),
            PacketBody::SmsAttachmentFile(b) => b.to_json(),
            PacketBody::SmsMessages(b) => b.to_json(),
            PacketBody::SmsRequest(b) => b.to_json(),
            PacketBody::SmsRequestAttachment(b) => b.to_json(),
            PacketBody::SmsRequestConversation(b) => b.to_json(),
            PacketBody::SmsRequestConversations(b) => b.to_json(),
            PacketBody::SystemVolume(b) => b.to_json(),
            PacketBody::SystemVolumeRequest(b) => b.to_json(),
            PacketBody::Telephony(b) => b.to_json(),
            PacketBody::TelephonyRequestMute(b) => b.to_json(),
        }
    }

    /// Reads a body of the given kind.
    pub fn from_json(kind: PacketKind, j: &Json) -> (r: Result<PacketBody, String>)
        ensures
            agrees(r, BodyView::parse(kind, j@)),
    {
        match kind {
            PacketKind::Identity => match Identity::from_json(j) {
                Ok(b) => Ok(PacketBody::Identity(b)),
                Err(e) => Err(e),
            },
            PacketKind::Pair => match Pair::from_json(j) {
                Ok(b) => Ok(PacketBody::Pair(b)),
                Err(e) => Err(e),
            },
            PacketKind::Battery => match Battery::from_json(j) {
                Ok(b) => Ok(PacketBody::Battery(b)),
                Err(e) => Err(e),
            },
            PacketKind::BatteryRequest => match BatteryRequestBody::from_json(j) {
                Ok(b) => Ok(PacketBody::BatteryRequest(b)),
                Err(e) => Err(e),
            },
            PacketKind::Clipboard => match Clipboard::from_json(j) {
                Ok(b) => Ok(PacketBody::Clipboard(b)),
                Err(e) => Err(e),
            },
            PacketKind::ClipboardConnect => match ClipboardConnect::from_json(j) {
                Ok(b) => Ok(PacketBody::ClipboardConnect(b)),
                Err(e) => Err(e),
            },
            PacketKind::ConectivityReport => match ConnectivityReport::from_json(j) {
                Ok(b) => Ok(PacketBody::ConectivityReport(b)),
                Err(e) => Err(e),
            },
            PacketKind::ConectivityReportRequest => match ConnectivityReportRequest::from_json(j) {
                Ok(b) => Ok(PacketBody::ConectivityReportRequest(b)),
                Err(e) => Err(e),
            },
            PacketKind::ContactsRequestAllUuidTimestamps => {
                match ContactsRequestAllUuidTimestamps::from_json(j) {
                    Ok(b) => Ok(PacketBody::ContactsRequestAllUuidTimestamps(b)),
                    Err(e) => Err(e),
                }
            },
            PacketKind::ContactsRequestVcardsByUuid => {
                match ContactsRequestVcardsByUuid::from_json(j) {
                    Ok(b) => Ok(PacketBody::ContactsRequestVcardsByUuid(b)),
                    Err(e) => Err(e),
                }
            },
            PacketKind::ContactsResponseVcards => match ContactsResponseVcards::from_json(j) {
                Ok(b) => Ok(PacketBody::ContactsResponseVcards(b)),
                Err(e) => Err(e),
            },
            PacketKind::ContactsResponseUidsTimestamps => {
                match ContactsResponseUidsTimestamps::from_json(j) {
                    Ok(b) => Ok(PacketBody::ContactsResponseUidsTimestamps(b)),
                    Err(e) => Err(e),
                }
            },
            PacketKind::FindMyPhoneRequest => match FindMyPhoneRequest::from_json(j) {
                Ok(b) => Ok(PacketBody::FindMyPhoneRequest(b)),
                Err(e) => Err(e),
            },
            PacketKind::Lock => match Lock::from_json(j) {
                Ok(b) => Ok(PacketBody::Lock(b)),
                Err(e) => Err(e),
            },
            PacketKind::LockRequest => match LockRequest::from_json(j) {
                Ok(b) => Ok(PacketBody::LockRequest(b)),
                Err(e) => Err(e),
            },
            PacketKind::MousepadEcho => match MousepadEcho::from_json(j) {
                Ok(b) => Ok(PacketBody::MousepadEcho(b)),
                Err(e) => Err(e),
            },
            PacketKind::MousepadKeyboardState => match MousepadKeyboardState::from_json(j) {
                Ok(b) => Ok(PacketBody::MousepadKeyboardState(b)),
                Err(e) => Err(e),
            },
            PacketKind::MousepadRequest => match MousepadRequest::from_json(j) {
                Ok(b) => Ok(PacketBody::MousepadRequest(b)),
                Err(e) => Err(e),
            },
            PacketKind::Mpris => match Mpris::from_json(j) {
                Ok(b) => Ok(PacketBody::Mpris(b)),
                Err(e) => Err(e),
            },
            PacketKind::MprisRequest => match MprisRequest::from_json(j) {
                Ok(b) => Ok(PacketBody::MprisRequest(b)),
                Err(e) => Err(e),
            },
            PacketKind::Notification => match Notification::from_json(j) {
                Ok(b) => Ok(PacketBody::Notification(b)),
                Err(e) => Err(e),
            },
            PacketKind::NotificationAction => match NotificationAction::from_json(j) {
                Ok(b) => Ok(PacketBody::NotificationAction(b)),
                Err(e) => Err(e),
            },
            PacketKind::NotificationReply => match NotificationReply::from_json(j) {
                Ok(b) => Ok(PacketBody::NotificationReply(b)),
                Err(e) => Err(e),
            },
            PacketKind::NotificationRequest => match NotificationRequest::from_json(j) {
                Ok(b) => Ok(PacketBody::NotificationRequest(b)),
                Err(e) => Err(e),
            },
            PacketKind::Ping => match Ping::from_json(j) {
                Ok(b) => Ok(PacketBody::Ping(b)),
                Err(e) => Err(e),
            },
            PacketKind::Presenter => match Presenter::from_json(j) {
                Ok(b) => Ok(PacketBody::Presenter(b)),
                Err(e) => Err(e),
            },
            PacketKind::RunCommand => match RunCommand::from_json(j) {
                Ok(b) => Ok(PacketBody::RunCommand(b)),
                Err(e) => Err(e),
            },
            PacketKind::RunCommandRequest => match RunCommandRequest::from_json(j) {
                Ok(b) => Ok(PacketBody::RunCommandRequest(b)),
                Err(e) => Err(e),
            },
            PacketKind::Sftp => match Sftp::from_json(j) {
                Ok(b) => Ok(PacketBody::Sftp(b)),
                Err(e) => Err(e),
            },
            PacketKind::SftpRequest => match SftpRequest::from_json(j) {
                Ok(b) => Ok(PacketBody::SftpRequest(b)),
                Err(e) => Err(e),
            },
            PacketKind::ShareRequest => match ShareRequest::from_json(j) {
                Ok(b) => Ok(PacketBody::ShareRequest(b)),
                Err(e) => Err(e),
            },
            PacketKind::ShareRequestUpdate => match ShareRequestUpdate::from_json(j) {
                Ok(b) => Ok(PacketBody::ShareRequestUpdate(b)),
                Err(e) => Err(e),
            },
            PacketKind::SmsAttachmentFile => match SmsAttachmentFile::from_json(j) {
                Ok(b) => Ok(PacketBody::SmsAttachmentFile(b)),
                Err(e) => Err(e),
            },
            PacketKind::SmsMessages => match SmsMessages::from_json(j) {
                Ok(b) => Ok(PacketBody::SmsMessages(b)),
                Err(e) => Err(e),
            },
            PacketKind::SmsRequest => match SmsRequest::from_json(j) {
                Ok(b) => Ok(PacketBody::SmsRequest(b)),
                Err(e) => Err(e),
            },
            PacketKind::SmsRequestAttachment => match SmsRequestAttachment::from_json(j) {
                Ok(b) => Ok(PacketBody::SmsRequestAttachment(b)),
                Err(e) => Err(e),
            },
            PacketKind::SmsRequestConversation => match SmsRequestConversation::from_json(j) {
                Ok(b) => Ok(PacketBody::SmsRequestConversation(b)),
                Err(e) => Err(e),
            },
            PacketKind::SmsRequestConversations => match SmsRequestConversations::from_json(j) {
                Ok(b) => Ok(PacketBody::SmsRequestConversations(b)),
                Err(e) => Err(e),
            },
            PacketKind::SystemVolume => match SystemVolume::from_json(j) {
                Ok(b) => Ok(PacketBody::SystemVolume(b)),
                Err(e) => Err(e),
            },
            PacketKind::SystemVolumeRequest => match SystemVolumeRequest::from_json(j) {
                Ok(b) => Ok(PacketBody::SystemVolumeRequest(b)),
                Err(e) => Err(e),
            },
            PacketKind::Telephony => match TelephonyBody::from_json(j) {
                Ok(b) => Ok(PacketBody::Telephony(b)),
                Err(e) => Err(e),
            },
            PacketKind::TelephonyRequestMute => match TelephonyRequestMute::from_json(j) {
                Ok(b) => Ok(PacketBody::TelephonyRequestMute(b)),
                Err(e) => Err(e),
            },
        }
    }
}

} // verus!
