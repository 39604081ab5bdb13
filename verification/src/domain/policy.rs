use vstd::prelude::*;
use crate::keyed::{KeyedVec, lookup};

verus! {

/// A JSON value as a policy parameter. Numbers keep the kind that JSON
/// parsing gives them; a fractional number is held by the bits of its IEEE
/// double; arrays and objects are held as their JSON text.
#[derive(Debug, PartialEq, Eq)]
pub enum ParamValue {
    Null,
    Bool(bool),
    PosInt(u64),
    NegInt(i64),
    FloatBits(u64),
    Str(String),
    Json(String),
}

impl Clone for ParamValue {
    fn clone(&self) -> (r: Self)
        ensures
            r == *self,
    {
        match self {
            ParamValue::Null => ParamValue::Null,
            ParamValue::Bool(b) => ParamValue::Bool(*b),
            ParamValue::PosInt(n) => ParamValue::PosInt(*n),
            ParamValue::NegInt(n) => ParamValue::NegInt(*n),
            ParamValue::FloatBits(n) => ParamValue::FloatBits(*n),
            ParamValue::Str(s) => ParamValue::Str(s.clone()),
            ParamValue::Json(s) => ParamValue::Json(s.clone()),
        }
    }
}

/// The named parameters of a policy.
#[derive(Debug)]
pub struct PolicyParameters {
    pub values: KeyedVec<ParamValue>,
}

impl View for PolicyParameters {
    type V = Seq<(Seq<char>, ParamValue)>;

    open spec fn view(&self) -> Seq<(Seq<char>, ParamValue)> {
        self.values@
    }
}

impl Clone for PolicyParameters {
    fn clone(&self) -> (r: Self)
        ensures
            r@ == self@,
    {
        let values = self.values.clone();
        proof {
            assert forall|i: int| 0 <= i < values@.len() implies #[trigger] values@[i] == self.values@[i] by {
                assert(values@[i].0 == self.values@[i].0);
                assert(cloned::<ParamValue>(self.values@[i].1, values@[i].1));
            }
            assert(values@ =~= self.values@);
        }
        PolicyParameters { values }
    }
}

/// `key` read as an unsigned integer and truncated to 32 bits, when it is a
/// non-negative integer.
pub open spec fn param_u32(p: Seq<(Seq<char>, ParamValue)>, key: Seq<char>) -> Option<u32> {
    match lookup(p, key) {
        Some(ParamValue::PosInt(n)) => Some(n as u32),
        _ => None,
    }
}

impl PolicyParameters {
    /// No parameters.
    pub fn new() -> (r: Self)
        ensures
            r.values@.len() == 0,
    {
        PolicyParameters { values: KeyedVec::new() }
    }

    /// `key` as an unsigned integer truncated to 32 bits, when it holds a
    /// non-negative integer.
    pub fn get_u32(&self, key: &str) -> (r: Option<u32>)
        ensures
            r == param_u32(self.values@, key@),
    {
        match self.values.get(key) {
            Some(ParamValue::PosInt(n)) => Some(*n as u32),
            _ => None,
        }
    }

    /// `key` as a boolean, when it holds one.
    pub fn get_bool(&self, key: &str) -> (r: Option<bool>)
        ensures
            r == (match lookup(self.values@, key@) {
                Some(ParamValue::Bool(b)) => Some(b),
                _ => None,
            }),
    {
        match self.values.get(key) {
            Some(ParamValue::Bool(b)) => Some(*b),
            _ => None,
        }
    }

    /// `key` as a string, when it holds one.
    pub fn get_string(&self, key: &str) -> (r: Option<String>)
        ensures
            match lookup(self.values@, key@) {
                Some(ParamValue::Str(s)) => r == Some(s),
                _ => r is None,
            },
    {
        match self.values.get(key) {
            Some(ParamValue::Str(s)) => Some(s.clone()),
            _ => None,
        }
    }
}

/// What a policy decides about an action.
#[derive(Debug, PartialEq, Eq)]
pub enum PolicyDecision {
    Allow,
    Deny { reason: String },
    Throttle { max_rate: u32 },
    CircuitBreak { cooldown_secs: u64 },
}

/// What is listed of one policy.
#[derive(Debug)]
pub struct PolicySummary {
    pub policy_id: String,
    pub enabled: bool,
    pub parameters: PolicyParameters,
}

/// What is shown of one policy.
#[derive(Debug)]
pub struct PolicyDetail {
    pub policy_id: String,
    pub enabled: bool,
    pub parameters: PolicyParameters,
    pub description: String,
}

} // verus!
