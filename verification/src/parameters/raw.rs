//! Parameter records as they travel over the wire.
//!
//! Each record has the fixed layout of its ROS 2 message definition. A
//! [`ParameterValue`] carries a slot for every kind of value at once, and its
//! `ptype` says which slot counts.
use vstd::prelude::*;
use crate::parameters::Float64;
use crate::transport::Timestamp;

verus! {

/// The numbers that `ptype` takes, one for each kind of parameter value.
pub struct ParameterType {}

impl ParameterType {
    pub const NOT_SET: u8 = 0;
    pub const BOOL: u8 = 1;
    pub const INTEGER: u8 = 2;
    pub const DOUBLE: u8 = 3;
    pub const STRING: u8 = 4;
    pub const BYTE_ARRAY: u8 = 5;
    pub const BOOL_ARRAY: u8 = 6;
    pub const INTEGER_ARRAY: u8 = 7;
    pub const DOUBLE_ARRAY: u8 = 8;
    pub const STRING_ARRAY: u8 = 9;
}

/// The wire record of a parameter value.
///
/// The field order is that of the encoded bytes.
#[derive(Debug, Clone, PartialEq, Eq)]
pub struct ParameterValue {
    pub ptype: u8,
    pub boolean_value: bool,
    pub int_value: i64,
    pub double_value: Float64,
    pub string_value: String,
    pub byte_array: Vec<u8>,
    pub bool_array: Vec<bool>,
    pub int_array: Vec<i64>,
    pub double_array: Vec<Float64>,
    pub string_array: Vec<String>,
}

/// What a [`ParameterValue`] record holds.
#[verifier::ext_equal]
pub struct ParameterValueView {
    pub ptype: u8,
    pub boolean_value: bool,
    pub int_value: i64,
    pub double_value: Float64,
    pub string_value: Seq<char>,
    pub byte_array: Seq<u8>,
    pub bool_array: Seq<bool>,
    pub int_array: Seq<i64>,
    pub double_array: Seq<Float64>,
    pub string_array: Seq<Seq<char>>,
}

impl View for ParameterValue {
    type V = ParameterValueView;

    open spec fn view(&self) -> ParameterValueView {
        ParameterValueView {
            ptype: self.ptype,
            boolean_value: self.boolean_value,
            int_value: self.int_value,
            double_value: self.double_value,
            string_value: self.string_value@,
            byte_array: self.byte_array@,
            bool_array: self.bool_array@,
            int_array: self.int_array@,
            double_array: self.double_array@,
            string_array: self.string_array.deep_view(),
        }
    }
}

/// The wire record of a parameter: its name and its value record.
#[derive(Debug, Clone, PartialEq, Eq)]
pub struct Parameter {
    pub name: String,
    pub value: ParameterValue,
}

/// What a [`Parameter`] record holds.
#[verifier::ext_equal]
pub struct ParameterView {
    pub name: Seq<char>,
    pub value: ParameterValueView,
}

impl View for Parameter {
    type V = ParameterView;

    open spec fn view(&self) -> ParameterView {
        ParameterView { name: self.name@, value: self.value@ }
    }
}

/// The wire record of the outcome of a request to set parameters.
#[derive(Debug, Clone, PartialEq, Eq)]
pub struct SetParametersResult {
    pub successful: bool,
    pub reason: String,
}

/// What a [`SetParametersResult`] record holds.
#[verifier::ext_equal]
pub struct SetParametersResultView {
    pub successful: bool,
    pub reason: Seq<char>,
}

impl View for SetParametersResult {
    type V = SetParametersResultView;

    open spec fn view(&self) -> SetParametersResultView {
        SetParametersResultView { successful: self.successful, reason: self.reason@ }
    }
}

/// The views of a sequence of parameter records, in the same order.
pub open spec fn parameter_views(s: Seq<Parameter>) -> Seq<ParameterView> {
    s.map_values(|p: Parameter| p@)
}

/// The wire record of a parameter-change notification.
#[derive(Debug, Clone, PartialEq, Eq)]
pub struct ParameterEvent {
    pub timestamp: Timestamp,
    /// Fully qualified name of the node whose parameters changed.
    pub node: String,
    pub new_parameters: Vec<Parameter>,
    pub changed_parameters: Vec<Parameter>,
    pub deleted_parameters: Vec<Parameter>,
}

/// What a [`ParameterEvent`] record holds.
#[verifier::ext_equal]
pub struct ParameterEventView {
    pub timestamp: Timestamp,
    pub node: Seq<char>,
    pub new_parameters: Seq<ParameterView>,
    pub changed_parameters: Seq<ParameterView>,
    pub deleted_parameters: Seq<ParameterView>,
}

impl View for ParameterEvent {
    type V = ParameterEventView;

    open spec fn view(&self) -> ParameterEventView {
        ParameterEventView {
            timestamp: self.timestamp,
            node: self.node@,
            new_parameters: parameter_views(self.new_parameters@),
            changed_parameters: parameter_views(self.changed_parameters@),
            deleted_parameters: parameter_views(self.deleted_parameters@),
        }
    }
}

} // verus!
