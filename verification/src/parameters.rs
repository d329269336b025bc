//! ROS 2 parameters in their ergonomic form, and their marshalling to and from
//! the wire records of [`raw`].
//!
//! A [`ParameterValue`] is exactly one of ten kinds of value. On the wire the
//! same value is a [`raw::ParameterValue`]: a record with a slot for every kind
//! and a number, `ptype`, that says which slot counts. Encoding fills the one
//! slot and leaves the other nine at their defaults; decoding reads the one
//! slot that `ptype` names and ignores the rest.
//!
//! Every conversion is an impl of `From`, in both directions. What each one
//! returns is stated over the views of its argument and result, by the spec
//! functions `encode_*` and `decode_*`; the lemmas at the end of the file
//! state what holds between the two directions.
use vstd::prelude::*;
use vstd::std_specs::convert::FromSpecImpl;
use crate::transport::Timestamp;

pub mod raw;

verus! {

/// An IEEE 754 binary64 number, held by its bit pattern.
///
/// The marshaller only ever moves such a number from one place to another, so
/// the bit pattern is all it needs; `bits == 0` is positive zero.
#[derive(Clone, Copy, Debug, PartialEq, Eq, Hash)]
pub struct Float64 {
    pub bits: u64,
}

impl Float64 {
    /// The number whose bit pattern is `bits`.
    pub fn from_bits(bits: u64) -> (r: Float64)
        ensures
            r.bits == bits,
    {
        Float64 { bits }
    }

    /// The bit pattern of this number.
    pub fn to_bits(self) -> (bits: u64)
        ensures
            bits == self.bits,
    {
        self.bits
    }
}

/// The value of a parameter: exactly one of ten kinds.
#[derive(Debug, Clone, PartialEq, Eq)]
pub enum ParameterValue {
    NotSet,
    Boolean(bool),
    Integer(i64),
    Double(Float64),
    String(String),
    ByteArray(Vec<u8>),
    BooleanArray(Vec<bool>),
    IntegerArray(Vec<i64>),
    DoubleArray(Vec<Float64>),
    StringArray(Vec<String>),
}

/// What a [`ParameterValue`] holds.
#[verifier::ext_equal]
pub enum ParameterValueView {
    NotSet,
    Boolean(bool),
    Integer(i64),
    Double(Float64),
    String(Seq<char>),
    ByteArray(Seq<u8>),
    BooleanArray(Seq<bool>),
    IntegerArray(Seq<i64>),
    DoubleArray(Seq<Float64>),
    StringArray(Seq<Seq<char>>),
}

impl View for ParameterValue {
    type V = ParameterValueView;

    open spec fn view(&self) -> ParameterValueView {
        match self {
            ParameterValue::NotSet => ParameterValueView::NotSet,
            ParameterValue::Boolean(b) => ParameterValueView::Boolean(*b),
            ParameterValue::Integer(i) => ParameterValueView::Integer(*i),
            ParameterValue::Double(d) => ParameterValueView::Double(*d),
            ParameterValue::String(s) => ParameterValueView::String(s@),
            ParameterValue::ByteArray(a) => ParameterValueView::ByteArray(a@),
            ParameterValue::BooleanArray(a) => ParameterValueView::BooleanArray(a@),
            ParameterValue::IntegerArray(a) => ParameterValueView::IntegerArray(a@),
            ParameterValue::DoubleArray(a) => ParameterValueView::DoubleArray(a@),
            ParameterValue::StringArray(a) => ParameterValueView::StringArray(a.deep_view()),
        }
    }
}

/// The number that stands for the kind of `v` on the wire.
pub open spec fn type_tag(v: ParameterValueView) -> u8 {
    match v {
        ParameterValueView::NotSet => 0,
        ParameterValueView::Boolean(_) => 1,
        ParameterValueView::Integer(_) => 2,
        ParameterValueView::Double(_) => 3,
        ParameterValueView::String(_) => 4,
        ParameterValueView::ByteArray(_) => 5,
        ParameterValueView::BooleanArray(_) => 6,
        ParameterValueView::IntegerArray(_) => 7,
        ParameterValueView::DoubleArray(_) => 8,
        ParameterValueView::StringArray(_) => 9,
    }
}

/// The wire record of `v`: `ptype` is the tag of `v`, the slot of that kind
/// holds the payload, and every other slot holds its default.
pub open spec fn encode_value(v: ParameterValueView) -> raw::ParameterValueView {
    raw::ParameterValueView {
        ptype: type_tag(v),
        boolean_value: if let ParameterValueView::Boolean(b) = v { b } else { false },
        int_value: if let ParameterValueView::Integer(i) = v { i } else { 0 },
        double_value: if let ParameterValueView::Double(d) = v { d } else { Float64 { bits: 0 } },
        string_value: if let ParameterValueView::String(s) = v { s } else { Seq::empty() },
        byte_array: if let ParameterValueView::ByteArray(a) = v { a } else { Seq::empty() },
        bool_array: if let ParameterValueView::BooleanArray(a) = v { a } else { Seq::empty() },
        int_array: if let ParameterValueView::IntegerArray(a) = v { a } else { Seq::empty() },
        double_array: if let ParameterValueView::DoubleArray(a) = v { a } else { Seq::empty() },
        string_array: if let ParameterValueView::StringArray(a) = v { a } else { Seq::empty() },
    }
}

/// The value that the wire record `r` stands for: the content of the slot that
/// `r.ptype` names. A `ptype` above 9 names no slot and stands for `NotSet`,
/// whatever the slots hold.
pub open spec fn decode_value(r: raw::ParameterValueView) -> ParameterValueView {
    if r.ptype == 1 {
        ParameterValueView::Boolean(r.boolean_value)
    } else if r.ptype == 2 {
        ParameterValueView::Integer(r.int_value)
    } else if r.ptype == 3 {
        ParameterValueView::Double(r.double_value)
    } else if r.ptype == 4 {
        ParameterValueView::String(r.string_value)
    } else if r.ptype == 5 {
        ParameterValueView::ByteArray(r.byte_array)
    } else if r.ptype == 6 {
        ParameterValueView::BooleanArray(r.bool_array)
    } else if r.ptype == 7 {
        ParameterValueView::IntegerArray(r.int_array)
    } else if r.ptype == 8 {
        ParameterValueView::DoubleArray(r.double_array)
    } else if r.ptype == 9 {
        ParameterValueView::StringArray(r.string_array)
    } else {
        ParameterValueView::NotSet
    }
}

/// Every slot of `r` but the one that `tag` names holds its default: `false`,
/// zero, the empty string or the empty sequence.
pub open spec fn other_slots_default(r: raw::ParameterValueView, tag: u8) -> bool {
    &&& tag != 1 ==> r.boolean_value == false
    &&& tag != 2 ==> r.int_value == 0
    &&& tag != 3 ==> r.double_value.bits == 0
    &&& tag != 4 ==> r.string_value == Seq::<char>::empty()
    &&& tag != 5 ==> r.byte_array == Seq::<u8>::empty()
    &&& tag != 6 ==> r.bool_array == Seq::<bool>::empty()
    &&& tag != 7 ==> r.int_array == Seq::<i64>::empty()
    &&& tag != 8 ==> r.double_array == Seq::<Float64>::empty()
    &&& tag != 9 ==> r.string_array == Seq::<Seq<char>>::empty()
}

/// `r` is a record as encoding makes it: `ptype` names a kind, and no slot
/// but the one of that kind holds anything but its default. There is exactly
/// one such record for each value.
pub open spec fn is_canonical(r: raw::ParameterValueView) -> bool {
    r.ptype <= 9 && other_slots_default(r, r.ptype)
}

impl ParameterValue {
    /// The number that stands for the kind of `p` on the wire, from 0 for
    /// `NotSet` to 9 for `StringArray`.
    pub fn to_parameter_type_enum(p: &ParameterValue) -> (tag: u8)
        ensures
            tag == type_tag(p@),
            tag <= 9,
    {
        match p {
            ParameterValue::NotSet => 0,
            ParameterValue::Boolean(_) => 1,
            ParameterValue::Integer(_) => 2,
            ParameterValue::Double(_d) => 3,
            ParameterValue::String(_s) => 4,
            ParameterValue::ByteArray(_a) => 5,
            ParameterValue::BooleanArray(_a) => 6,
            ParameterValue::IntegerArray(_a) => 7,
            ParameterValue::DoubleArray(_a) => 8,
            ParameterValue::StringArray(_a) => 9,
        }
    }
}

impl From<ParameterValue> for raw::ParameterValue {
    /// Encodes a value: total, and the same value always gives the same
    /// record.
    fn from(p: ParameterValue) -> (r: raw::ParameterValue)
        ensures
            r@ == encode_value(p@),
            r.ptype == type_tag(p@),
            is_canonical(r@),
    {
        let mut value = raw::ParameterValue {
            ptype: raw::ParameterType::NOT_SET,
            boolean_value: false,
            int_value: 0,
            double_value: Float64 { bits: 0 },
            string_value: String::new(),
            byte_array: Vec::new(),
            int_array: Vec::new(),
            bool_array: Vec::new(),
            double_array: Vec::new(),
            string_array: Vec::new(),
        };
        assert(value.string_array.deep_view() =~= Seq::<Seq<char>>::empty());
        match p {
            ParameterValue::NotSet => (),
            ParameterValue::Boolean(b) => {
                value.ptype = raw::ParameterType::BOOL;
                value.boolean_value = b;
            },
            ParameterValue::Integer(i) => {
                value.ptype = raw::ParameterType::INTEGER;
                value.int_value = i;
            },
            ParameterValue::Double(d) => {
                value.ptype = raw::ParameterType::DOUBLE;
                value.double_value = d;
            },
            ParameterValue::String(s) => {
                value.ptype = raw::ParameterType::STRING;
                value.string_value = s;
            },
            ParameterValue::ByteArray(a) => {
                value.ptype = raw::ParameterType::BYTE_ARRAY;
                value.byte_array = a;
            },
            ParameterValue::BooleanArray(a) => {
                value.ptype = raw::ParameterType::BOOL_ARRAY;
                value.bool_array = a;
            },
            ParameterValue::IntegerArray(a) => {
                value.ptype = raw::ParameterType::INTEGER_ARRAY;
                value.int_array = a;
            },
            ParameterValue::DoubleArray(a) => {
                value.ptype = raw::ParameterType::DOUBLE_ARRAY;
                value.double_array = a;
            },
            ParameterValue::StringArray(a) => {
                value.ptype = raw::ParameterType::STRING_ARRAY;
                value.string_array = a;
            },
        }
        value
    }
}

impl FromSpecImpl<ParameterValue> for raw::ParameterValue {
    // `from` is specified by its own `ensures`, over views.
    open spec fn obeys_from_spec() -> bool {
        false
    }

    open spec fn from_spec(p: ParameterValue) -> raw::ParameterValue {
        arbitrary()
    }
}

impl From<raw::ParameterValue> for ParameterValue {
    /// Decodes a record: reads the slot that `ptype` names and nothing else. A
    /// record of a kind that this version does not know decodes to `NotSet`.
    fn from(rpv: raw::ParameterValue) -> (v: ParameterValue)
        ensures
            v@ == decode_value(rpv@),
            rpv.ptype > 9 ==> v@ == ParameterValueView::NotSet,
    {
        let ptype = rpv.ptype;
        if ptype == raw::ParameterType::BOOL {
            ParameterValue::Boolean(rpv.boolean_value)
        } else if ptype == raw::ParameterType::INTEGER {
            ParameterValue::Integer(rpv.int_value)
        } else if ptype == raw::ParameterType::DOUBLE {
            ParameterValue::Double(rpv.double_value)
        } else if ptype == raw::ParameterType::STRING {
            ParameterValue::String(rpv.string_value)
        } else if ptype == raw::ParameterType::BYTE_ARRAY {
            ParameterValue::ByteArray(rpv.byte_array)
        } else if ptype == raw::ParameterType::BOOL_ARRAY {
            ParameterValue::BooleanArray(rpv.bool_array)
        } else if ptype == raw::ParameterType::INTEGER_ARRAY {
            ParameterValue::IntegerArray(rpv.int_array)
        } else if ptype == raw::ParameterType::DOUBLE_ARRAY {
            ParameterValue::DoubleArray(rpv.double_array)
        } else if ptype == raw::ParameterType::STRING_ARRAY {
            ParameterValue::StringArray(rpv.string_array)
        } else {
            // NOT_SET, and every number that names no kind known here.
            ParameterValue::NotSet
        }
    }
}

impl FromSpecImpl<raw::ParameterValue> for ParameterValue {
    // `from` is specified by its own `ensures`, over views.
    open spec fn obeys_from_spec() -> bool {
        false
    }

    open spec fn from_spec(rpv: raw::ParameterValue) -> ParameterValue {
        arbitrary()
    }
}

/// A parameter: its name and its value. A parameter is replaced as a whole,
/// never changed in place.
///
/// The name identifies the parameter and is meant not to be empty. The
/// marshaller does not look at it: it hands every name on as it is.
#[derive(Debug, Clone, PartialEq, Eq)]
pub struct Parameter {
    pub name: String,
    pub value: ParameterValue,
}

/// What a [`Parameter`] holds.
#[verifier::ext_equal]
pub struct ParameterView {
    pub name: Seq<char>,
    pub value: ParameterValueView,
}

impl View for Parameter {
    type V = ParameterView;

    open spec fn view(&self) -> ParameterView {
        ParameterView { name: self.name@, value: self.value@ }
    }
}

/// The wire record of the parameter `p`: the same name, the value encoded.
pub open spec fn encode_parameter(p: ParameterView) -> raw::ParameterView {
    raw::ParameterView { name: p.name, value: encode_value(p.value) }
}

/// The parameter that the wire record `r` stands for.
pub open spec fn decode_parameter(r: raw::ParameterView) -> ParameterView {
    ParameterView { name: r.name, value: decode_value(r.value) }
}

impl From<raw::Parameter> for Parameter {
    fn from(rp: raw::Parameter) -> (p: Parameter)
        ensures
            p@ == decode_parameter(rp@),
            p.name == rp.name,
    {
        Parameter { name: rp.name, value: ParameterValue::from(rp.value) }
    }
}

impl FromSpecImpl<raw::Parameter> for Parameter {
    // `from` is specified by its own `ensures`, over views.
    open spec fn obeys_from_spec() -> bool {
        false
    }

    open spec fn from_spec(rp: raw::Parameter) -> Parameter {
        arbitrary()
    }
}

impl From<Parameter> for raw::Parameter {
    fn from(p: Parameter) -> (rp: raw::Parameter)
        ensures
            rp@ == encode_parameter(p@),
            rp.name == p.name,
    {
        raw::Parameter { name: p.name, value: raw::ParameterValue::from(p.value) }
    }
}

impl FromSpecImpl<Parameter> for raw::Parameter {
    // `from` is specified by its own `ensures`, over views.
    open spec fn obeys_from_spec() -> bool {
        false
    }

    open spec fn from_spec(p: Parameter) -> raw::Parameter {
        arbitrary()
    }
}

/// The outcome of a request to set parameters: done, or refused for the
/// reason given.
pub type SetParametersResult = Result<(), String>;

/// What a [`SetParametersResult`] holds.
pub open spec fn result_view(s: SetParametersResult) -> Result<(), Seq<char>> {
    match s {
        Ok(_) => Ok(()),
        Err(reason) => Err(reason@),
    }
}

/// The wire record of an outcome: success has the flag set and an empty
/// reason, failure has the flag cleared and carries its reason.
pub open spec fn encode_result(s: Result<(), Seq<char>>) -> raw::SetParametersResultView {
    match s {
        Ok(_) => raw::SetParametersResultView { successful: true, reason: Seq::empty() },
        Err(reason) => raw::SetParametersResultView { successful: false, reason },
    }
}

/// The outcome that the wire record `r` stands for. Where the flag is set the
/// reason does not count, whatever it holds.
pub open spec fn decode_result(r: raw::SetParametersResultView) -> Result<(), Seq<char>> {
    if r.successful {
        Ok(())
    } else {
        Err(r.reason)
    }
}

impl From<SetParametersResult> for raw::SetParametersResult {
    fn from(s: SetParametersResult) -> (r: raw::SetParametersResult)
        ensures
            r@ == encode_result(result_view(s)),
            r.successful <==> s is Ok,
    {
        match s {
            Ok(_) => raw::SetParametersResult { successful: true, reason: String::new() },
            Err(reason) => raw::SetParametersResult { successful: false, reason },
        }
    }
}

impl FromSpecImpl<SetParametersResult> for raw::SetParametersResult {
    // `from` is specified by its own `ensures`, over views.
    open spec fn obeys_from_spec() -> bool {
        false
    }

    open spec fn from_spec(s: SetParametersResult) -> raw::SetParametersResult {
        arbitrary()
    }
}

impl From<raw::SetParametersResult> for SetParametersResult {
    fn from(r: raw::SetParametersResult) -> (s: SetParametersResult)
        ensures
            result_view(s) == decode_result(r@),
            s is Ok <==> r.successful,
    {
        if r.successful {
            Ok(())
        } else {
            Err(r.reason)
        }
    }
}

impl FromSpecImpl<raw::SetParametersResult> for SetParametersResult {
    // `from` is specified by its own `ensures`, over views.
    open spec fn obeys_from_spec() -> bool {
        false
    }

    open spec fn from_spec(r: raw::SetParametersResult) -> SetParametersResult {
        arbitrary()
    }
}

/// The views of a sequence of parameters, in the same order.
pub open spec fn parameter_views(s: Seq<Parameter>) -> Seq<ParameterView> {
    s.map_values(|p: Parameter| p@)
}

/// The wire records of a sequence of parameters: one record for each
/// parameter, in the same order, a repeated name as often as it occurs.
pub open spec fn encode_parameters(s: Seq<ParameterView>) -> Seq<raw::ParameterView> {
    s.map_values(|p: ParameterView| encode_parameter(p))
}

/// The parameters that a sequence of wire records stands for, in the same
/// order.
pub open spec fn decode_parameters(s: Seq<raw::ParameterView>) -> Seq<ParameterView> {
    s.map_values(|r: raw::ParameterView| decode_parameter(r))
}

/// Encodes each parameter of `params`, keeping their order.
pub fn parameters_to_raw(params: Vec<Parameter>) -> (records: Vec<raw::Parameter>)
    ensures
        raw::parameter_views(records@) == encode_parameters(parameter_views(params@)),
        records@.len() == params@.len(),
{
    let mut records: Vec<raw::Parameter> = Vec::new();
    for p in it: params.into_iter()
        invariant
            it.seq() == params@,
            records@.len() == it.index(),
            forall|j: int|
                0 <= j < records@.len() ==> (#[trigger] records@[j])@ == encode_parameter(
                    params@[j]@,
                ),
    {
        records.push(raw::Parameter::from(p));
    }
    assert(raw::parameter_views(records@) =~= encode_parameters(parameter_views(params@)));
    records
}

/// Decodes each record of `records`, keeping their order.
pub fn parameters_from_raw(records: Vec<raw::Parameter>) -> (params: Vec<Parameter>)
    ensures
        parameter_views(params@) == decode_parameters(raw::parameter_views(records@)),
        params@.len() == records@.len(),
{
    let mut params: Vec<Parameter> = Vec::new();
    for r in it: records.into_iter()
        invariant
            it.seq() == records@,
            params@.len() == it.index(),
            forall|j: int|
                0 <= j < params@.len() ==> (#[trigger] params@[j])@ == decode_parameter(
                    records@[j]@,
                ),
    {
        params.push(Parameter::from(r));
    }
    assert(parameter_views(params@) =~= decode_parameters(raw::parameter_views(records@)));
    params
}

/// A notification that the parameters of a node have changed: when, on which
/// node, and the parameters that were declared, changed and deleted.
///
/// A name may occur more than once, in one sequence or in several; the
/// notification keeps what it was given.
#[derive(Debug, Clone, PartialEq, Eq)]
pub struct ParameterEvent {
    pub timestamp: Timestamp,
    /// Fully qualified name of the node whose parameters changed.
    pub node: String,
    pub new_parameters: Vec<Parameter>,
    pub changed_parameters: Vec<Parameter>,
    pub deleted_parameters: Vec<Parameter>,
}

/// What a [`ParameterEvent`] holds.
#[verifier::ext_equal]
pub struct ParameterEventView {
    pub timestamp: Timestamp,
    pub node: Seq<char>,
    pub new_parameters: Seq<ParameterView>,
    pub changed_parameters: Seq<ParameterView>,
    pub deleted_parameters: Seq<ParameterView>,
}

impl View for ParameterEvent {
    type V = ParameterEventView;

    open spec fn view(&self) -> ParameterEventView {
        ParameterEventView {
            timestamp: self.timestamp,
            node: self.node@,
            new_parameters: parameter_views(self.new_parameters@),
            changed_parameters: parameter_views(self.changed_parameters@),
            deleted_parameters: parameter_views(self.deleted_parameters@),
        }
    }
}

/// The wire record of a notification: field by field, each parameter encoded.
pub open spec fn encode_event(e: ParameterEventView) -> raw::ParameterEventView {
    raw::ParameterEventView {
        timestamp: e.timestamp,
        node: e.node,
        new_parameters: encode_parameters(e.new_parameters),
        changed_parameters: encode_parameters(e.changed_parameters),
        deleted_parameters: encode_parameters(e.deleted_parameters),
    }
}

/// The notification that the wire record `r` stands for.
pub open spec fn decode_event(r: raw::ParameterEventView) -> ParameterEventView {
    ParameterEventView {
        timestamp: r.timestamp,
        node: r.node,
        new_parameters: decode_parameters(r.new_parameters),
        changed_parameters: decode_parameters(r.changed_parameters),
        deleted_parameters: decode_parameters(r.deleted_parameters),
    }
}

impl From<ParameterEvent> for raw::ParameterEvent {
    fn from(e: ParameterEvent) -> (r: raw::ParameterEvent)
        ensures
            r@ == encode_event(e@),
    {
        raw::ParameterEvent {
            timestamp: e.timestamp,
            node: e.node,
            new_parameters: parameters_to_raw(e.new_parameters),
            changed_parameters: parameters_to_raw(e.changed_parameters),
            deleted_parameters: parameters_to_raw(e.deleted_parameters),
        }
    }
}

impl FromSpecImpl<ParameterEvent> for raw::ParameterEvent {
    // `from` is specified by its own `ensures`, over views.
    open spec fn obeys_from_spec() -> bool {
        false
    }

    open spec fn from_spec(e: ParameterEvent) -> raw::ParameterEvent {
        arbitrary()
    }
}

impl From<raw::ParameterEvent> for ParameterEvent {
    fn from(r: raw::ParameterEvent) -> (e: ParameterEvent)
        ensures
            e@ == decode_event(r@),
    {
        ParameterEvent {
            timestamp: r.timestamp,
            node: r.node,
            new_parameters: parameters_from_raw(r.new_parameters),
            changed_parameters: parameters_from_raw(r.changed_parameters),
            deleted_parameters: parameters_from_raw(r.deleted_parameters),
        }
    }
}

impl FromSpecImpl<raw::ParameterEvent> for ParameterEvent {
    // `from` is specified by its own `ensures`, over views.
    open spec fn obeys_from_spec() -> bool {
        false
    }

    open spec fn from_spec(r: raw::ParameterEvent) -> ParameterEvent {
        arbitrary()
    }
}

/// Decoding what was encoded gives the value back, for every value of every
/// kind, empty strings and empty sequences included.
pub proof fn lemma_value_round_trip(v: ParameterValueView)
    ensures
        decode_value(encode_value(v)) == v,
{
}

/// In the record of a value, `ptype` is the tag of the value's kind, and every
/// slot but the one of that kind holds its default.
pub proof fn lemma_encode_leaves_other_slots_default(v: ParameterValueView)
    ensures
        encode_value(v).ptype == type_tag(v),
        type_tag(v) <= 9,
        other_slots_default(encode_value(v), type_tag(v)),
        is_canonical(encode_value(v)),
{
}

/// Encoding what a canonical record decodes to gives the record back: the
/// canonical records and the values correspond one to one.
pub proof fn lemma_canonical_record_round_trip(r: raw::ParameterValueView)
    requires
        is_canonical(r),
    ensures
        encode_value(decode_value(r)) == r,
{
    assert(encode_value(decode_value(r)) =~~= r);
}

/// A record whose `ptype` names no known kind decodes to `NotSet`, whatever
/// its slots hold.
pub proof fn lemma_unknown_type_decodes_to_not_set(r: raw::ParameterValueView)
    requires
        r.ptype > 9,
    ensures
        decode_value(r) == ParameterValueView::NotSet,
{
}

/// Decoding reads one slot only: two records that agree on `ptype` and on
/// the slot that it names decode to the same value.
pub proof fn lemma_decode_reads_one_slot(a: raw::ParameterValueView, b: raw::ParameterValueView)
    requires
        a.ptype == b.ptype,
        a.ptype == 1 ==> a.boolean_value == b.boolean_value,
        a.ptype == 2 ==> a.int_value == b.int_value,
        a.ptype == 3 ==> a.double_value == b.double_value,
        a.ptype == 4 ==> a.string_value == b.string_value,
        a.ptype == 5 ==> a.byte_array == b.byte_array,
        a.ptype == 6 ==> a.bool_array == b.bool_array,
        a.ptype == 7 ==> a.int_array == b.int_array,
        a.ptype == 8 ==> a.double_array == b.double_array,
        a.ptype == 9 ==> a.string_array == b.string_array,
    ensures
        decode_value(a) == decode_value(b),
{
}

/// Decoding the record of a parameter gives the parameter back.
pub proof fn lemma_parameter_round_trip(p: ParameterView)
    ensures
        decode_parameter(encode_parameter(p)) == p,
{
}

/// Decoding the record of an outcome gives the outcome back: success as
/// success, and a failure with the very reason it was given.
pub proof fn lemma_result_round_trip(s: Result<(), Seq<char>>)
    ensures
        decode_result(encode_result(s)) == s,
{
    if let Ok(unit) = s {
        assert(unit == ());
    }
}

/// A record with the flag set stands for success even where it carries a
/// reason.
pub proof fn lemma_success_ignores_reason(r: raw::SetParametersResultView)
    requires
        r.successful,
    ensures
        decode_result(r) == Ok::<(), Seq<char>>(()),
{
}

/// Decoding the records of a sequence of parameters gives the sequence back:
/// as many parameters, in the same order.
pub proof fn lemma_parameters_round_trip(s: Seq<ParameterView>)
    ensures
        decode_parameters(encode_parameters(s)) == s,
        encode_parameters(s).len() == s.len(),
{
    assert(decode_parameters(encode_parameters(s)) =~= s);
}

/// Decoding the record of a notification gives the notification back.
pub proof fn lemma_event_round_trip(e: ParameterEventView)
    ensures
        decode_event(encode_event(e)) == e,
{
    lemma_parameters_round_trip(e.new_parameters);
    lemma_parameters_round_trip(e.changed_parameters);
    lemma_parameters_round_trip(e.deleted_parameters);
}

} // verus!
