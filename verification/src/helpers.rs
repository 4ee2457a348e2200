//! The class/signature registry and the boundary safety helpers.
//!
//! Every component resolves host class names and constructor signatures only
//! through the registry functions here, never by hardcoding a qualified
//! name, so a single namespace change updates every call site.

use vstd::prelude::*;
use vstd::string::StringExecFns;
use crate::domain::BridgeError;
use crate::host::{HostObject, spec_get_string};

verus! {

/// The namespace under which the post-parsing domain classes live.
pub open spec fn spec_post_parsing_class(class_name: Seq<char>) -> Seq<char> {
    "com/github/k1rakishou/chan/core/lib/data/post_parsing/"@ + class_name
}

/// The namespace under which the spannable-data domain classes live.
pub open spec fn spec_spannables_class(class_name: Seq<char>) -> Seq<char> {
    "com/github/k1rakishou/chan/core/lib/data/post_parsing/spannable/"@ + class_name
}

/// The namespace under which the descriptor domain classes live.
pub open spec fn spec_descriptors_class(class_name: Seq<char>) -> Seq<char> {
    "com/github/k1rakishou/chan/core/lib/data/descriptor/"@ + class_name
}

/// A class name wrapped as a type signature, behind an arbitrary prefix
/// (an array marker, or a constructor signature already under way).
pub open spec fn spec_sig_pref(preffix: Seq<char>, qualified: Seq<char>) -> Seq<char> {
    preffix + "L"@ + qualified + ";"@
}

/// The fully-qualified name of a post-parsing domain class.
pub fn format_post_parsing_object_signature(class_name: &str) -> (r: String)
    ensures
        r@ == spec_post_parsing_class(class_name@),
{
    let mut s = String::from_str("com/github/k1rakishou/chan/core/lib/data/post_parsing/");
    s.append(class_name);
    s
}

/// The type signature of a post-parsing domain class, behind a prefix.
pub fn format_post_parsing_object_signature_pref(preffix: &str, class_name: &str) -> (r: String)
    ensures
        r@ == spec_sig_pref(preffix@, spec_post_parsing_class(class_name@)),
{
    let mut s = String::from_str(preffix);
    s.append("L");
    let q = format_post_parsing_object_signature(class_name);
    s.append(q.as_str());
    s.append(";");
    s
}

/// The fully-qualified name of a spannable-data domain class.
pub fn format_spannables_object_signature(class_name: &str) -> (r: String)
    ensures
        r@ == spec_spannables_class(class_name@),
{
    let mut s = String::from_str(
        "com/github/k1rakishou/chan/core/lib/data/post_parsing/spannable/",
    );
    s.append(class_name);
    s
}

/// The type signature of a spannable-data domain class, behind a prefix.
pub fn format_spannables_object_signature_pref(preffix: &str, class_name: &str) -> (r: String)
    ensures
        r@ == spec_sig_pref(preffix@, spec_spannables_class(class_name@)),
{
    let mut s = String::from_str(preffix);
    s.append("L");
    let q = format_spannables_object_signature(class_name);
    s.append(q.as_str());
    s.append(";");
    s
}

/// The fully-qualified name of a descriptor domain class.
pub fn format_descriptors_object_signature(class_name: &str) -> (r: String)
    ensures
        r@ == spec_descriptors_class(class_name@),
{
    let mut s = String::from_str("com/github/k1rakishou/chan/core/lib/data/descriptor/");
    s.append(class_name);
    s
}

/// The type signature of a descriptor domain class, behind a prefix.
pub fn format_descriptors_object_signature_pref(preffix: &str, class_name: &str) -> (r: String)
    ensures
        r@ == spec_sig_pref(preffix@, spec_descriptors_class(class_name@)),
{
    let mut s = String::from_str(preffix);
    s.append("L");
    let q = format_descriptors_object_signature(class_name);
    s.append(q.as_str());
    s.append(";");
    s
}

/// Reads a string field of a host object and decodes it into native text,
/// through the null-terminated intermediate representation.
pub fn java_string_field_to_rust_string(object_holder: &HostObject, field_name: &str) -> (r:
    Result<String, BridgeError>)
    ensures
        match r {
            Ok(s) => spec_get_string(object_holder.fields@, field_name@) == Ok::<
                Seq<char>,
                BridgeError,
            >(s@),
            Err(e) => spec_get_string(object_holder.fields@, field_name@) == Err::<
                Seq<char>,
                BridgeError,
            >(e),
        },
{
    match crate::host::get_field_value(object_holder, field_name) {
        Option::None => Err(BridgeError::FieldNotFound),
        Option::Some(v) => match v {
            crate::host::HostValue::Text(b) => crate::host::decode_text(b),
            crate::host::HostValue::Null => Err(BridgeError::FieldNotFound),
            _ => Err(BridgeError::TypeMismatch),
        },
    }
}

/// What the boundary does after the bridge body has run to completion or to
/// a captured fault.
#[derive(Clone, Copy, Debug, PartialEq, Eq, Structural)]
pub enum BoundaryAction {
    /// The body completed: hand its result to the host, raise nothing.
    ReturnResult,
    /// The body faulted while the host already has a pending fault of its
    /// own: do nothing further, the host raises its own fault.
    DeferToPendingFault,
    /// The body faulted and the host has no pending fault: raise exactly one
    /// well-formed host-visible error.
    RaiseHostError,
}

/// The boundary safety decision: converts the outcome of one bridge call
/// into the value handed back to the host and the single action taken
/// toward it. A failed call yields the safe sentinel `error_val` and raises
/// at most one host-visible error — exactly one when the host has no fault
/// of its own pending.
pub fn unwrap_exc_or<T>(res: Result<T, BridgeError>, exception_pending: bool, error_val: T) -> (r:
    (T, BoundaryAction))
    ensures
        res matches Ok(v) ==> r == (v, BoundaryAction::ReturnResult),
        res is Err && exception_pending ==> r == (error_val, BoundaryAction::DeferToPendingFault),
        res is Err && !exception_pending ==> r == (error_val, BoundaryAction::RaiseHostError),
        (r.1 is RaiseHostError <==> res is Err && !exception_pending),
{
    match res {
        Ok(val) => (val, BoundaryAction::ReturnResult),
        Err(_) => {
            if exception_pending {
                (error_val, BoundaryAction::DeferToPendingFault)
            } else {
                (error_val, BoundaryAction::RaiseHostError)
            }
        },
    }
}

} // verus!
