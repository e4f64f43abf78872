//! The mobile networks of a phone.

use crate::field::{
    check_object, group_field_laws, group_wf_laws, new_members, object_check, object_of, put,
};
use crate::shape::{
    get_map, get_word, group_shape_laws, group_shape_refusals, group_shape_wf_laws, map_to_json,
    map_view, map_wire, named_writable, req_map, req_word, word_json, word_wire, Shape, Word,
};
use crate::value::{
    distinct_keys, group_lookup, key_mark, lemma_undeclared, names_of, same_text, undeclared, Json,
    JsonModel, Member,
};
use vstd::prelude::*;

verus! {

/// The kind of a mobile network. A kind that is not listed travels under its
/// own name and is read as `Unknown`.
#[derive(Debug, Clone, Copy, PartialEq, Eq, Structural)]
pub enum NetworkType {
    GSM,
    CDMA,
    IDEN,
    UMTS,
    CDMA2000,
    EDGE,
    GPRS,
    HSPA,
    LTE,
    FiveG,
    Unknown,
}

/// Every name that is not listed stands for `Unknown`.
impl Word for NetworkType {
    open spec fn name(self) -> Seq<char> {
        match self {
            NetworkType::GSM => "GSM"@,
            NetworkType::CDMA => "CDMA"@,
            NetworkType::IDEN => "iDEN"@,
            NetworkType::UMTS => "UMTS"@,
            NetworkType::CDMA2000 => "CDMA2000"@,
            NetworkType::EDGE => "EDGE"@,
            NetworkType::GPRS => "GPRS"@,
            NetworkType::HSPA => "HSPA"@,
            NetworkType::LTE => "LTE"@,
            NetworkType::FiveG => "5G"@,
            NetworkType::Unknown => "Unknown"@,
        }
    }

    open spec fn from_name(name: Seq<char>) -> Option<NetworkType> {
        if name == "GSM"@ {
            Some(NetworkType::GSM)
        } else if name == "CDMA"@ {
            Some(NetworkType::CDMA)
        } else if name == "iDEN"@ {
            Some(NetworkType::IDEN)
        } else if name == "UMTS"@ {
            Some(NetworkType::UMTS)
        } else if name == "CDMA2000"@ {
            Some(NetworkType::CDMA2000)
        } else if name == "EDGE"@ {
            Some(NetworkType::EDGE)
        } else if name == "GPRS"@ {
            Some(NetworkType::GPRS)
        } else if name == "HSPA"@ {
            Some(NetworkType::HSPA)
        } else if name == "LTE"@ {
            Some(NetworkType::LTE)
        } else if name == "5G"@ {
            Some(NetworkType::FiveG)
        } else {
            Some(NetworkType::Unknown)
        }
    }

    fn as_str(&self) -> (s: &'static str) {
        match self {
            NetworkType::GSM => "GSM",
            NetworkType::CDMA => "CDMA",
            NetworkType::IDEN => "iDEN",
            NetworkType::UMTS => "UMTS",
            NetworkType::CDMA2000 => "CDMA2000",
            NetworkType::EDGE => "EDGE",
            NetworkType::GPRS => "GPRS",
            NetworkType::HSPA => "HSPA",
            NetworkType::LTE => "LTE",
            NetworkType::FiveG => "5G",
            NetworkType::Unknown => "Unknown",
        }
    }

    fn from_str(name: &str) -> (r: Option<NetworkType>) {
        if same_text(name, "GSM") {
            Some(NetworkType::GSM)
        } else if same_text(name, "CDMA") {
            Some(NetworkType::CDMA)
        } else if same_text(name, "iDEN") {
            Some(NetworkType::IDEN)
        } else if same_text(name, "UMTS") {
            Some(NetworkType::UMTS)
        } else if same_text(name, "CDMA2000") {
            Some(NetworkType::CDMA2000)
        } else if same_text(name, "EDGE") {
            Some(NetworkType::EDGE)
        } else if same_text(name, "GPRS") {
            Some(NetworkType::GPRS)
        } else if same_text(name, "HSPA") {
            Some(NetworkType::HSPA)
        } else if same_text(name, "LTE") {
            Some(NetworkType::LTE)
        } else if same_text(name, "5G") {
            Some(NetworkType::FiveG)
        } else {
            Some(NetworkType::Unknown)
        }
    }

    proof fn lemma_name_round_trip(x: NetworkType) {
        broadcast use vstd::string::group_string_axioms;
        reveal_strlit("GSM");
        reveal_strlit("CDMA");
        reveal_strlit("iDEN");
        reveal_strlit("UMTS");
        reveal_strlit("CDMA2000");
        reveal_strlit("EDGE");
        reveal_strlit("GPRS");
        reveal_strlit("HSPA");
        reveal_strlit("LTE");
        reveal_strlit("5G");
        reveal_strlit("Unknown");
        // No two names agree in their marks.
        assert(key_mark("GSM"@).0 == 3);
        assert(key_mark("CDMA"@).0 == 4);
        assert(key_mark("iDEN"@).0 == 4);
        assert(key_mark("UMTS"@).0 == 4);
        assert(key_mark("CDMA2000"@).0 == 8);
        assert(key_mark("EDGE"@).0 == 4);
        assert(key_mark("GPRS"@).0 == 4);
        assert(key_mark("HSPA"@).0 == 4);
        assert(key_mark("LTE"@).0 == 3);
        assert(key_mark("5G"@).0 == 2);
        assert(key_mark("Unknown"@).0 == 7);
    }
}

/// The strength of a signal, from none to full.
#[derive(Debug, Clone, Copy, PartialEq, Eq, Structural)]
pub enum SignalStrength {
    Zero,
    One,
    Two,
    Three,
    Four,
}

impl Word for SignalStrength {
    open spec fn name(self) -> Seq<char> {
        match self {
            SignalStrength::Zero => "0"@,
            SignalStrength::One => "1"@,
            SignalStrength::Two => "2"@,
            SignalStrength::Three => "3"@,
            SignalStrength::Four => "4"@,
        }
    }

    open spec fn from_name(name: Seq<char>) -> Option<SignalStrength> {
        if name == "0"@ {
            Some(SignalStrength::Zero)
        } else if name == "1"@ {
            Some(SignalStrength::One)
        } else if name == "2"@ {
            Some(SignalStrength::Two)
        } else if name == "3"@ {
            Some(SignalStrength::Three)
        } else if name == "4"@ {
            Some(SignalStrength::Four)
        } else {
            None
        }
    }

    fn as_str(&self) -> (s: &'static str) {
        match self {
            SignalStrength::Zero => "0",
            SignalStrength::One => "1",
            SignalStrength::Two => "2",
            SignalStrength::Three => "3",
            SignalStrength::Four => "4",
        }
    }

    fn from_str(name: &str) -> (r: Option<SignalStrength>) {
        if same_text(name, "0") {
            Some(SignalStrength::Zero)
        } else if same_text(name, "1") {
            Some(SignalStrength::One)
        } else if same_text(name, "2") {
            Some(SignalStrength::Two)
        } else if same_text(name, "3") {
            Some(SignalStrength::Three)
        } else if same_text(name, "4") {
            Some(SignalStrength::Four)
        } else {
            None
        }
    }

    proof fn lemma_name_round_trip(x: SignalStrength) {
        broadcast use vstd::string::group_string_axioms;
        reveal_strlit("0");
        reveal_strlit("1");
        reveal_strlit("2");
        reveal_strlit("3");
        reveal_strlit("4");
        // No two names agree in their marks.
        assert(key_mark("0"@).0 == 1);
        assert(key_mark("1"@).0 == 1);
        assert(key_mark("2"@).0 == 1);
        assert(key_mark("3"@).0 == 1);
        assert(key_mark("4"@).0 == 1);
    }
}

/// The kind and the strength of one network.
#[derive(Debug, PartialEq, Eq)]
pub struct Signal {
    pub network_type: NetworkType,
    pub signal_strength: SignalStrength,
}

/// Model of [`Signal`].
pub struct SignalView {
    pub network_type: NetworkType,
    pub signal_strength: SignalStrength,
}

impl View for Signal {
    type V = SignalView;

    open spec fn view(&self) -> SignalView {
        SignalView {
            network_type: self.network_type,
            signal_strength: self.signal_strength,
        }
    }
}

impl Shape for Signal {
    open spec fn wire(v: SignalView) -> JsonModel {
        JsonModel::Object(
            Seq::empty()
                .push(Member { key: "networkType"@, value: word_wire(v.network_type) })
                .push(Member { key: "signalStrenght"@, value: word_wire(v.signal_strength) }),
        )
    }

    open spec fn parse(j: JsonModel) -> Result<SignalView, Seq<char>> {
        if object_check(j) is Err {
            Err(Seq::empty())
        } else if req_word::<NetworkType>(j, "networkType"@) is Err {
            Err("networkType"@)
        } else if req_word::<SignalStrength>(j, "signalStrenght"@) is Err {
            Err("signalStrenght"@)
        } else if undeclared(j, Self::declared()) is Some {
            Err(undeclared(j, Self::declared())->Some_0)
        } else {
            Ok(
                SignalView {
                    network_type: req_word::<NetworkType>(j, "networkType"@)->Ok_0,
                    signal_strength: req_word::<SignalStrength>(j, "signalStrenght"@)->Ok_0,
                },
            )
        }
    }

    open spec fn declared() -> Set<Seq<char>> {
        Set::empty().insert("networkType"@).insert("signalStrenght"@)
    }

    open spec fn required() -> Set<Seq<char>> {
        Set::empty().insert("networkType"@).insert("signalStrenght"@)
    }

    open spec fn wf(v: SignalView) -> bool {
        true
    }

    open spec fn writable(v: SignalView) -> bool {
        true
    }

    fn to_json(&self) -> (j: Json) {
        let mut ms = new_members();
        put(&mut ms, "networkType", word_json(&self.network_type));
        put(&mut ms, "signalStrenght", word_json(&self.signal_strength));
        object_of(ms)
    }

    fn from_json(j: &Json) -> (r: Result<Signal, String>) {
        match check_object(j) {
            Ok(_) => {},
            Err(e) => return Err(e),
        }
        let network_type = match get_word::<NetworkType>(j, "networkType") {
            Ok(x) => x,
            Err(e) => return Err(e),
        };
        let signal_strength = match get_word::<SignalStrength>(j, "signalStrenght") {
            Ok(x) => x,
            Err(e) => return Err(e),
        };
        let names: Vec<String> = vec!["networkType".to_owned(), "signalStrenght".to_owned()];
        assert(names_of(names@) =~= Self::declared()) by {
            assert(names@[0]@ == "networkType"@);
            assert(names@[1]@ == "signalStrenght"@);
        }
        match j.first_besides(&names) {
            Some(key) => return Err(key),
            None => {},
        }
        Ok(Signal { network_type, signal_strength })
    }

    proof fn lemma_round_trip(v: SignalView) {
        broadcast use {
            group_lookup,
            group_field_laws,
            group_shape_laws,
            vstd::string::group_string_axioms,
        };
        reveal_strlit("networkType");
        reveal_strlit("signalStrenght");
    }

    proof fn lemma_wire_wf(v: SignalView) {
        broadcast use {group_wf_laws, group_shape_wf_laws, vstd::string::group_string_axioms};
        reveal_strlit("networkType");
        reveal_strlit("signalStrenght");
        let ms = Self::wire(v)->Object_0;
        assert(ms.len() == 2);
        assert(ms[0].key == "networkType"@ && key_mark(ms[0].key).0 == 11);
        assert(ms[1].key == "signalStrenght"@ && key_mark(ms[1].key).0 == 14);
        assert(distinct_keys(ms));
        assert(ms[0].value.wf());
        assert(ms[1].value.wf());
    }

    proof fn lemma_unfit_is_refused(j: JsonModel) {
        broadcast use group_shape_refusals;
        lemma_undeclared(j, Self::declared());
    }
}

/// The networks of a phone, each under the name of its subscription.
#[derive(Debug, PartialEq, Eq)]
pub struct ConnectivityReport {
    pub signal_strengths: Vec<(String, Signal)>,
}

/// Model of [`ConnectivityReport`].
pub struct ConnectivityReportView {
    pub signal_strengths: Seq<(Seq<char>, SignalView)>,
}

impl View for ConnectivityReport {
    type V = ConnectivityReportView;

    open spec fn view(&self) -> ConnectivityReportView {
        ConnectivityReportView {
            signal_strengths: map_view(self.signal_strengths@),
        }
    }
}

impl Shape for ConnectivityReport {
    open spec fn wire(v: ConnectivityReportView) -> JsonModel {
        JsonModel::Object(
            Seq::empty()
                .push(
                    Member {
                        key: "signalStrengths"@,
                        value: map_wire::<Signal>(v.signal_strengths),
                    },
                ),
        )
    }

    open spec fn parse(j: JsonModel) -> Result<ConnectivityReportView, Seq<char>> {
        if object_check(j) is Err {
            Err(Seq::empty())
        } else if req_map::<Signal>(j, "signalStrengths"@) is Err {
            Err("signalStrengths"@)
        } else if undeclared(j, Self::declared()) is Some {
            Err(undeclared(j, Self::declared())->Some_0)
        } else {
            Ok(
                ConnectivityReportView {
                    signal_strengths: req_map::<Signal>(j, "signalStrengths"@)->Ok_0,
                },
            )
        }
    }

    open spec fn declared() -> Set<Seq<char>> {
        Set::empty().insert("signalStrengths"@)
    }

    open spec fn required() -> Set<Seq<char>> {
        Set::empty().insert("signalStrengths"@)
    }

    open spec fn wf(v: ConnectivityReportView) -> bool {
        true
    }

    open spec fn writable(v: ConnectivityReportView) -> bool {
        &&& named_writable::<Signal>(v.signal_strengths)
    }

    fn to_json(&self) -> (j: Json) {
        let mut ms = new_members();
        put(&mut ms, "signalStrengths", map_to_json(&self.signal_strengths));
        object_of(ms)
    }

    fn from_json(j: &Json) -> (r: Result<ConnectivityReport, String>) {
        match check_object(j) {
            Ok(_) => {},
            Err(e) => return Err(e),
        }
        let signal_strengths = match get_map::<Signal>(j, "signalStrengths") {
            Ok(x) => x,
            Err(e) => return Err(e),
        };
        let names: Vec<String> = vec!["signalStrengths".to_owned()];
        assert(names_of(names@) =~= Self::declared()) by {
            assert(names@[0]@ == "signalStrengths"@);
        }
        match j.first_besides(&names) {
            Some(key) => return Err(key),
            None => {},
        }
        Ok(ConnectivityReport { signal_strengths })
    }

    proof fn lemma_round_trip(v: ConnectivityReportView) {
        broadcast use {
            group_lookup,
            group_field_laws,
            group_shape_laws,
            vstd::string::group_string_axioms,
        };
        reveal_strlit("signalStrengths");
        let j = Self::wire(v);
        assert(req_map::<Signal>(j, "signalStrengths"@) == Ok::<
            Seq<(Seq<char>, SignalView)>,
            Seq<char>,
        >(v.signal_strengths));
        assert(undeclared(j, Self::declared()) is None);
    }

    proof fn lemma_wire_wf(v: ConnectivityReportView) {
        broadcast use {group_wf_laws, group_shape_wf_laws, vstd::string::group_string_axioms};
        reveal_strlit("signalStrengths");
        let ms = Self::wire(v)->Object_0;
        assert(ms.len() == 1);
        assert(ms[0].key == "signalStrengths"@ && key_mark(ms[0].key).0 == 15);
        assert(distinct_keys(ms));
        assert(ms[0].value.wf() == named_writable::<Signal>(v.signal_strengths));
    }

    proof fn lemma_unfit_is_refused(j: JsonModel) {
        broadcast use group_shape_refusals;
        lemma_undeclared(j, Self::declared());
    }
}

/// Asks a phone for its networks.
#[derive(Debug, PartialEq, Eq)]
pub struct ConnectivityReportRequest {}

/// Model of [`ConnectivityReportRequest`].
pub struct ConnectivityReportRequestView {}

impl View for ConnectivityReportRequest {
    type V = ConnectivityReportRequestView;

    open spec fn view(&self) -> ConnectivityReportRequestView {
        ConnectivityReportRequestView {}
    }
}

impl Shape for ConnectivityReportRequest {
    open spec fn wire(v: ConnectivityReportRequestView) -> JsonModel {
        JsonModel::Object(Seq::empty())
    }

    open spec fn parse(j: JsonModel) -> Result<ConnectivityReportRequestView, Seq<char>> {
        if object_check(j) is Err {
            Err(Seq::empty())
        } else if undeclared(j, Self::declared()) is Some {
            Err(undeclared(j, Self::declared())->Some_0)
        } else {
            Ok(ConnectivityReportRequestView {})
        }
    }

    open spec fn declared() -> Set<Seq<char>> {
        Set::empty()
    }

    open spec fn required() -> Set<Seq<char>> {
        Set::empty()
    }

    open spec fn wf(v: ConnectivityReportRequestView) -> bool {
        true
    }

    open spec fn writable(v: ConnectivityReportRequestView) -> bool {
        true
    }

    fn to_json(&self) -> (j: Json) {
        object_of(new_members())
    }

    fn from_json(j: &Json) -> (r: Result<ConnectivityReportRequest, String>) {
        match check_object(j) {
            Ok(_) => {},
            Err(e) => return Err(e),
        }
        let names: Vec<String> = Vec::new();
        assert(names_of(names@) =~= Self::declared());
        match j.first_besides(&names) {
            Some(key) => return Err(key),
            None => {},
        }
        Ok(ConnectivityReportRequest {})
    }

    proof fn lemma_round_trip(v: ConnectivityReportRequestView) {
        broadcast use group_lookup;
    }

    proof fn lemma_wire_wf(v: ConnectivityReportRequestView) {
        assert(distinct_keys(Seq::<Member>::empty()));
    }

    proof fn lemma_unfit_is_refused(j: JsonModel) {
        lemma_undeclared(j, Self::declared());
    }
}

} // verus!
