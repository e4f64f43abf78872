//! The battery of a device.

use crate::field::{
    agrees_plain, bool_json, bool_model, check_object, get_bool, get_number, get_opt_bool,
    group_field_laws, group_field_refusals, group_wf_laws, lemma_nat_round_trip, lemma_nat_wf,
    nat_json, nat_model, new_members, number_json, number_model, object_check, object_of, opt_bool,
    opt_bool_model, put, req_bool, req_number,
};
use crate::numeral::{is_number_literal, Number};
use crate::shape::Shape;
use crate::value::{
    distinct_keys, group_lookup, key_mark, lemma_undeclared, names_of, undeclared, Json, JsonModel,
    Member,
};
use vstd::prelude::*;

verus! {

/// The threshold event as it is written: the number 1 or 0 for a flag that
/// is set or not, null where there is none.
pub open spec fn flag_wire(o: Option<bool>) -> JsonModel {
    match o {
        Some(b) => nat_model(if b { 1 } else { 0 }),
        None => JsonModel::Null,
    }
}

/// The threshold event that a value stands for: null stands for none, the
/// numbers 0 and 1 for a flag, and nothing else for anything. This one
/// field takes a number for a flag because older peers send it so; no
/// other field does.
pub open spec fn flag_parse(v: JsonModel) -> Option<Option<bool>> {
    match v {
        JsonModel::Null => Some(None),
        _ => match v.as_nat() {
            Some(n) => if n == 0 {
                Some(Some(false))
            } else if n == 1 {
                Some(Some(true))
            } else {
                None
            },
            None => None,
        },
    }
}

/// The threshold event of a body: the field must be present.
#[verifier::opaque]
pub open spec fn req_flag(j: JsonModel, key: Seq<char>) -> Result<Option<bool>, Seq<char>> {
    match j.field(key) {
        Some(v) => match flag_parse(v) {
            Some(x) => Ok(x),
            None => Err(key),
        },
        None => Err(key),
    }
}

/// Why a value stands for no threshold event.
#[derive(Debug, Clone, Copy, PartialEq, Eq, Structural)]
pub enum FlagError {
    /// The value is neither null nor the number 0 or 1.
    NotZeroOrOne,
}

/// Reads a threshold event from the value that stands for it.
pub fn option_bool_from_int(v: &Json) -> (r: Result<Option<bool>, FlagError>)
    ensures
        match r {
            Ok(x) => flag_parse(v@) == Some(x),
            Err(_) => flag_parse(v@) is None,
        },
{
    match v {
        Json::Null => Ok(None),
        _ => match v.as_u128() {
            Some(n) => if n == 0 {
                Ok(Some(false))
            } else if n == 1 {
                Ok(Some(true))
            } else {
                Err(FlagError::NotZeroOrOne)
            },
            None => Err(FlagError::NotZeroOrOne),
        },
    }
}

/// The value that stands for a threshold event.
pub fn option_bool_to_int(x: &Option<bool>) -> (j: Json)
    ensures
        j@ == flag_wire(*x),
{
    match x {
        Some(v) => nat_json(if *v { 1 } else { 0 }),
        None => Json::Null,
    }
}

/// Reads the threshold event of a body.
pub fn get_flag(j: &Json, key: &str) -> (r: Result<Option<bool>, String>)
    ensures
        agrees_plain(r, req_flag(j@, key@)),
        r matches Err(e) ==> e@ == key@,
{
    proof {
        reveal(req_flag);
    }
    match j.get(key) {
        Some(v) => match option_bool_from_int(v) {
            Ok(x) => Ok(x),
            Err(_) => Err(key.to_owned()),
        },
        None => Err(key.to_owned()),
    }
}

/// A threshold event is read back as it was written.
pub proof fn lemma_flag_round_trip(x: Option<bool>)
    ensures
        flag_parse(flag_wire(x)) == Some(x),
{
    lemma_nat_round_trip(0);
    lemma_nat_round_trip(1);
}

/// What was written into the field is what is read from it.
pub broadcast proof fn lemma_req_flag_written(j: JsonModel, key: Seq<char>, x: Option<bool>)
    requires
        j.field(key) == Some(flag_wire(x)),
    ensures
        #![trigger req_flag(j, key), flag_wire(x)]
        req_flag(j, key) == Ok::<Option<bool>, Seq<char>>(x),
{
    reveal(req_flag);
    lemma_flag_round_trip(x);
}

/// A threshold event can always be written.
pub broadcast proof fn lemma_flag_wf(x: Option<bool>)
    ensures
        #[trigger] flag_wire(x).wf(),
{
    lemma_nat_wf(0);
    lemma_nat_wf(1);
}

/// The field must be there: without it there is no threshold event to read.
pub broadcast proof fn lemma_req_flag_absent(j: JsonModel, key: Seq<char>)
    requires
        j.field(key) is None,
    ensures
        #[trigger] req_flag(j, key) is Err,
{
    reveal(req_flag);
}

/// The state of the battery. The threshold event travels as the number 0 or 1,
/// or as null; no other number stands for a flag.
#[derive(Debug, PartialEq, Eq)]
pub struct Battery {
    pub current_charge: Number,
    pub is_charging: bool,
    pub threshold_event: Option<bool>,
}

/// Model of [`Battery`].
pub struct BatteryView {
    pub current_charge: Seq<char>,
    pub is_charging: bool,
    pub threshold_event: Option<bool>,
}

impl View for Battery {
    type V = BatteryView;

    open spec fn view(&self) -> BatteryView {
        BatteryView {
            current_charge: self.current_charge@,
            is_charging: self.is_charging,
            threshold_event: self.threshold_event,
        }
    }
}

impl Shape for Battery {
    open spec fn wire(v: BatteryView) -> JsonModel {
        JsonModel::Object(
            Seq::empty()
                .push(Member { key: "currentCharge"@, value: number_model(v.current_charge) })
                .push(Member { key: "isCharging"@, value: bool_model(v.is_charging) })
                .push(Member { key: "thresholdEvent"@, value: flag_wire(v.threshold_event) }),
        )
    }

    open spec fn parse(j: JsonModel) -> Result<BatteryView, Seq<char>> {
        if object_check(j) is Err {
            Err(Seq::empty())
        } else if req_number(j, "currentCharge"@) is Err {
            Err("currentCharge"@)
        } else if req_bool(j, "isCharging"@) is Err {
            Err("isCharging"@)
        } else if req_flag(j, "thresholdEvent"@) is Err {
            Err("thresholdEvent"@)
        } else if undeclared(j, Self::declared()) is Some {
            Err(undeclared(j, Self::declared())->Some_0)
        } else {
            Ok(
                BatteryView {
                    current_charge: req_number(j, "currentCharge"@)->Ok_0,
                    is_charging: req_bool(j, "isCharging"@)->Ok_0,
                    threshold_event: req_flag(j, "thresholdEvent"@)->Ok_0,
                },
            )
        }
    }

    open spec fn declared() -> Set<Seq<char>> {
        Set::empty().insert("currentCharge"@).insert("isCharging"@).insert("thresholdEvent"@)
    }

    open spec fn required() -> Set<Seq<char>> {
        Set::empty().insert("currentCharge"@).insert("isCharging"@).insert("thresholdEvent"@)
    }

    open spec fn wf(v: BatteryView) -> bool {
        true
    }

    open spec fn writable(v: BatteryView) -> bool {
        &&& is_number_literal(v.current_charge)
    }

    fn to_json(&self) -> (j: Json) {
        let mut ms = new_members();
        put(&mut ms, "currentCharge", number_json(&self.current_charge));
        put(&mut ms, "isCharging", bool_json(self.is_charging));
        put(&mut ms, "thresholdEvent", option_bool_to_int(&self.threshold_event));
        object_of(ms)
    }

    fn from_json(j: &Json) -> (r: Result<Battery, String>) {
        match check_object(j) {
            Ok(_) => {},
            Err(e) => return Err(e),
        }
        let current_charge = match get_number(j, "currentCharge") {
            Ok(x) => x,
            Err(e) => return Err(e),
        };
        let is_charging = match get_bool(j, "isCharging") {
            Ok(x) => x,
            Err(e) => return Err(e),
        };
        let threshold_event = match get_flag(j, "thresholdEvent") {
            Ok(x) => x,
            Err(e) => return Err(e),
        };
        let names: Vec<String> = vec![
            "currentCharge".to_owned(),
            "isCharging".to_owned(),
            "thresholdEvent".to_owned(),
        ];
        assert(names_of(names@) =~= Self::declared()) by {
            assert(names@[0]@ == "currentCharge"@);
            assert(names@[1]@ == "isCharging"@);
            assert(names@[2]@ == "thresholdEvent"@);
        }
        match j.first_besides(&names) {
            Some(key) => return Err(key),
            None => {},
        }
        Ok(Battery { current_charge, is_charging, threshold_event })
    }

    proof fn lemma_round_trip(v: BatteryView) {
        broadcast use {
            group_lookup,
            group_field_laws,
            lemma_req_flag_written,
            vstd::string::group_string_axioms,
        };
        reveal_strlit("currentCharge");
        reveal_strlit("isCharging");
        reveal_strlit("thresholdEvent");
    }

    proof fn lemma_wire_wf(v: BatteryView) {
        broadcast use {group_wf_laws, lemma_flag_wf, vstd::string::group_string_axioms};
        reveal_strlit("currentCharge");
        reveal_strlit("isCharging");
        reveal_strlit("thresholdEvent");
        let ms = Self::wire(v)->Object_0;
        assert(ms.len() == 3);
        assert(ms[0].key == "currentCharge"@ && key_mark(ms[0].key).0 == 13);
        assert(ms[1].key == "isCharging"@ && key_mark(ms[1].key).0 == 10);
        assert(ms[2].key == "thresholdEvent"@ && key_mark(ms[2].key).0 == 14);
        assert(distinct_keys(ms));
        assert(ms[0].value.wf() == is_number_literal(v.current_charge));
        assert(ms[1].value.wf());
        assert(ms[2].value.wf());
    }

    proof fn lemma_unfit_is_refused(j: JsonModel) {
        broadcast use {group_field_refusals, lemma_req_flag_absent};
        lemma_undeclared(j, Self::declared());
    }
}

/// Asks a device for the state of its battery. The body carries nothing
/// any more; a request flag from an older peer is still read, and written
/// only where it is set.
#[derive(Debug, PartialEq, Eq)]
pub struct BatteryRequestBody {
    pub request: Option<bool>,
}

/// Model of [`BatteryRequestBody`].
pub struct BatteryRequestBodyView {
    pub request: Option<bool>,
}

impl View for BatteryRequestBody {
    type V = BatteryRequestBodyView;

    open spec fn view(&self) -> BatteryRequestBodyView {
        BatteryRequestBodyView { request: self.request }
    }
}

impl Shape for BatteryRequestBody {
    open spec fn wire(v: BatteryRequestBodyView) -> JsonModel {
        JsonModel::Object(
            match v.request {
                Some(b) => Seq::empty().push(
                    Member { key: "request"@, value: opt_bool_model(Some(b)) },
                ),
                None => Seq::empty(),
            },
        )
    }

    open spec fn parse(j: JsonModel) -> Result<BatteryRequestBodyView, Seq<char>> {
        if object_check(j) is Err {
            Err(Seq::empty())
        } else if opt_bool(j, "request"@) is Err {
            Err("request"@)
        } else if undeclared(j, Self::declared()) is Some {
            Err(undeclared(j, Self::declared())->Some_0)
        } else {
            Ok(BatteryRequestBodyView { request: opt_bool(j, "request"@)->Ok_0 })
        }
    }

    open spec fn declared() -> Set<Seq<char>> {
        Set::empty().insert("request"@)
    }

    open spec fn required() -> Set<Seq<char>> {
        Set::empty()
    }

    open spec fn wf(v: BatteryRequestBodyView) -> bool {
        true
    }

    open spec fn writable(v: BatteryRequestBodyView) -> bool {
        true
    }

    fn to_json(&self) -> (j: Json) {
        let mut ms = new_members();
        match self.request {
            Some(b) => {
                put(&mut ms, "request", Json::Bool(b));
            },
            None => {},
        }
        object_of(ms)
    }

    fn from_json(j: &Json) -> (r: Result<BatteryRequestBody, String>) {
        match check_object(j) {
            Ok(_) => {},
            Err(e) => return Err(e),
        }
        let request = match get_opt_bool(j, "request") {
            Ok(x) => x,
            Err(e) => return Err(e),
        };
        let names: Vec<String> = vec!["request".to_owned()];
        assert(names_of(names@) =~= Self::declared()) by {
            assert(names@[0]@ == "request"@);
        }
        match j.first_besides(&names) {
            Some(key) => return Err(key),
            None => {},
        }
        Ok(BatteryRequestBody { request })
    }

    proof fn lemma_round_trip(v: BatteryRequestBodyView) {
        broadcast use {group_lookup, group_field_laws, vstd::string::group_string_axioms};
        reveal_strlit("request");
    }

    proof fn lemma_wire_wf(v: BatteryRequestBodyView) {
        let ms = Self::wire(v)->Object_0;
        match v.request {
            Some(b) => {
                assert(ms.len() == 1);
                assert(ms[0].value.wf());
            },
            None => {
                assert(ms.len() == 0);
            },
        }
        assert(distinct_keys(ms));
    }

    proof fn lemma_unfit_is_refused(j: JsonModel) {
        lemma_undeclared(j, Self::declared());
    }
}

} // verus!
