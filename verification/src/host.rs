//! Model of the host runtime's object store, and the value decoder.
//!
//! A host object is a class-tagged record of named fields; objects refer to
//! one another through opaque handles (indices into the store), exactly as a
//! managed runtime hands references across a native call boundary. Host
//! strings are carried as raw bytes: decoding goes through a null-terminated
//! intermediate representation and fails with an encoding error when the
//! text is not valid Unicode.

use vstd::prelude::*;
use vstd::string::StrSliceExecFns;
use vstd::utf8::{valid_utf8, decode_utf8};
use crate::domain::BridgeError;

verus! {

/// One field value of a host object.
#[derive(Debug)]
pub enum HostValue {
    /// A 64-bit integer field.
    Long(i64),
    /// A 32-bit integer field.
    Int(i32),
    /// A string field, carried as raw bytes of the host's encoding.
    Text(Vec<u8>),
    /// A fixed-width 64-bit integer array field.
    LongArray(Vec<i64>),
    /// A reference to another object of the store.
    Obj(usize),
    /// An array of nullable references to objects of the store.
    ObjArray(Vec<Option<usize>>),
    /// A null reference.
    Null,
}

/// A named field of a host object.
#[derive(Debug)]
pub struct HostField {
    pub name: String,
    pub value: HostValue,
}

/// One record of the host object store.
#[derive(Debug)]
pub struct HostObject {
    /// Fully-qualified name of the object's class.
    pub class: String,
    pub fields: Vec<HostField>,
}

/// The host runtime as one native call sees it: the loaded-class table and
/// the object store. Handles index into `objects`; they are scoped to the
/// current call and never retained across calls.
pub struct HostEnv {
    /// Fully-qualified names of the classes the host has loaded.
    pub classes: Vec<String>,
    /// The object store; a handle is an index into this table.
    pub objects: Vec<HostObject>,
}

/// The value of the first field named `name`, if any.
pub open spec fn lookup_field(fields: Seq<HostField>, name: Seq<char>) -> Option<HostValue>
    decreases fields.len(),
{
    if fields.len() == 0 {
        None
    } else if fields[0].name@ == name {
        Some(fields[0].value)
    } else {
        lookup_field(fields.drop_first(), name)
    }
}

/// Whether the host has loaded a class of the given fully-qualified name.
pub open spec fn spec_has_class(classes: Seq<String>, name: Seq<char>) -> bool {
    exists|i: int| 0 <= i < classes.len() && classes[i]@ == name
}

impl HostEnv {
    /// A host runtime with the given loaded classes and no objects yet.
    pub fn with_classes(classes: Vec<String>) -> (r: HostEnv)
        ensures
            r.classes == classes,
            r.objects@ =~= Seq::<HostObject>::empty(),
    {
        HostEnv { classes, objects: Vec::new() }
    }

    /// Whether the class of the given fully-qualified name is loaded.
    pub fn has_class(&self, name: &str) -> (r: bool)
        ensures
            r == spec_has_class(self.classes@, name@),
    {
        let mut i: usize = 0;
        while i < self.classes.len()
            invariant
                0 <= i <= self.classes.len(),
                forall|j: int| 0 <= j < i ==> self.classes@[j]@ != name@,
            decreases self.classes.len() - i,
        {
            if str_eq(self.classes[i].as_str(), name) {
                return true;
            }
            i = i + 1;
        }
        false
    }

    /// Allocates a fresh object of the given class and fields and returns its
    /// handle; every object already in the store is left untouched.
    pub fn new_object(&mut self, class: String, fields: Vec<HostField>) -> (h: usize)
        ensures
            final(self).classes == old(self).classes,
            final(self).objects@ == old(self).objects@.push(HostObject { class, fields }),
            h == old(self).objects@.len(),
    {
        let h = self.objects.len();
        self.objects.push(HostObject { class, fields });
        h
    }

    /// The object a handle addresses, if the handle is valid.
    pub fn obj_at(&self, h: usize) -> (r: Option<&HostObject>)
        ensures
            match r {
                Some(o) => 0 <= h < self.objects@.len() && *o == self.objects@[h as int],
                None => h >= self.objects@.len(),
            },
    {
        if h < self.objects.len() {
            Some(&self.objects[h])
        } else {
            None
        }
    }
}

/// Character-exact string equality.
pub fn str_eq(a: &str, b: &str) -> (r: bool)
    ensures
        r == (a@ == b@),
{
    let alen = a.unicode_len();
    let blen = b.unicode_len();
    if alen != blen {
        return false;
    }
    let mut i: usize = 0;
    while i < alen
        invariant
            a@.len() == alen,
            b@.len() == blen,
            alen == blen,
            0 <= i <= alen,
            forall|j: int| 0 <= j < i ==> a@[j] == b@[j],
        decreases alen - i,
    {
        if a.get_char(i) != b.get_char(i) {
            return false;
        }
        i = i + 1;
    }
    proof {
        assert(a@ =~= b@);
    }
    true
}

/// The first field named `name` of the object, as the spec-level lookup
/// gives it.
pub fn get_field_value<'a>(obj: &'a HostObject, name: &str) -> (r: Option<&'a HostValue>)
    ensures
        match r {
            Some(v) => lookup_field(obj.fields@, name@) == Some(*v),
            None => lookup_field(obj.fields@, name@) is None,
        },
{
    let n = obj.fields.len();
    let mut i: usize = 0;
    proof {
        assert(obj.fields@.skip(0) =~= obj.fields@);
    }
    while i < n
        invariant
            n == obj.fields@.len(),
            0 <= i <= n,
            lookup_field(obj.fields@.skip(i as int), name@) == lookup_field(obj.fields@, name@),
        decreases n - i,
    {
        proof {
            assert(obj.fields@.skip(i as int)[0] == obj.fields@[i as int]);
            assert(obj.fields@.skip(i as int).drop_first() =~= obj.fields@.skip(i as int + 1));
        }
        if str_eq(obj.fields[i].name.as_str(), name) {
            return Some(&obj.fields[i].value);
        }
        i = i + 1;
    }
    proof {
        assert(obj.fields@.skip(n as int) =~= Seq::<HostField>::empty());
    }
    None
}

/// Length of the null-terminated prefix of a host string's bytes: everything
/// before the first zero byte, or all of it when none occurs.
pub open spec fn nul_prefix_len(b: Seq<u8>) -> int
    decreases b.len(),
{
    if b.len() == 0 {
        0
    } else if b[0] == 0 {
        0
    } else {
        1 + nul_prefix_len(b.drop_first())
    }
}

/// The bytes a null-terminated read of a host string yields.
pub open spec fn c_text_bytes(b: Seq<u8>) -> Seq<u8> {
    b.take(nul_prefix_len(b))
}

/// The null-terminated prefix ends at the first zero byte, or at the end.
pub proof fn lemma_nul_prefix_len_is(b: Seq<u8>, k: int)
    requires
        0 <= k <= b.len(),
        forall|j: int| 0 <= j < k ==> b[j] != 0,
        k < b.len() ==> b[k] == 0,
    ensures
        nul_prefix_len(b) == k,
    decreases b.len(),
{
    if k > 0 {
        lemma_nul_prefix_len_is(b.drop_first(), k - 1);
    }
}

/// What decoding a host string's bytes yields: the text of the
/// null-terminated prefix, or an encoding error when it is not valid
/// Unicode.
pub open spec fn spec_decode_text(b: Seq<u8>) -> Result<Seq<char>, BridgeError> {
    if valid_utf8(c_text_bytes(b)) {
        Ok(decode_utf8(c_text_bytes(b)))
    } else {
        Err(BridgeError::EncodingError)
    }
}

/// Relies on `String::from_utf8`: it returns a string exactly when the bytes
/// are valid UTF-8, and the returned string decodes those bytes.
#[verifier::external_body]
fn bytes_to_string(bytes: Vec<u8>) -> (r: Option<String>)
    ensures
        r is Some <==> valid_utf8(bytes@),
        r matches Some(s) ==> s@ == decode_utf8(bytes@),
{
    match String::from_utf8(bytes) {
        Ok(s) => Some(s),
        Err(_) => None,
    }
}

/// Decodes a host string's bytes through the null-terminated intermediate
/// representation, read-only and bounds-checked.
pub fn decode_text(bytes: &Vec<u8>) -> (r: Result<String, BridgeError>)
    ensures
        match r {
            Ok(s) => spec_decode_text(bytes@) == Ok::<Seq<char>, BridgeError>(s@),
            Err(e) => spec_decode_text(bytes@) == Err::<Seq<char>, BridgeError>(e),
        },
{
    let n = bytes.len();
    let mut end: usize = 0;
    while end < n && *(&bytes[end]) != 0u8
        invariant
            n == bytes@.len(),
            0 <= end <= n,
            forall|j: int| 0 <= j < end ==> bytes@[j] != 0,
        decreases n - end,
    {
        end = end + 1;
    }
    proof {
        lemma_nul_prefix_len_is(bytes@, end as int);
    }
    let mut prefix: Vec<u8> = Vec::new();
    let mut j: usize = 0;
    while j < end
        invariant
            end <= bytes@.len(),
            0 <= j <= end,
            prefix@ =~= bytes@.take(j as int),
        decreases end - j,
    {
        prefix.push(bytes[j]);
        proof {
            assert(bytes@.take(j as int + 1) =~= bytes@.take(j as int).push(bytes@[j as int]));
        }
        j = j + 1;
    }
    proof {
        assert(prefix@ =~= c_text_bytes(bytes@));
    }
    match bytes_to_string(prefix) {
        Some(s) => Ok(s),
        None => Err(BridgeError::EncodingError),
    }
}

/// Text that can cross a null-terminated boundary without loss: no NUL
/// character anywhere.
pub open spec fn no_nul(s: Seq<char>) -> bool {
    forall|i: int| 0 <= i < s.len() ==> s[i] != '\0'
}

/// A byte with its high bit forced on is never zero.
proof fn lemma_or_high_bit_nonzero(c: u8, x: u8)
    requires
        c >= 0x80,
    ensures
        (c | x) != 0,
{
    assert(c >= 0x80 ==> (c | x) != 0) by (bit_vector);
}

/// The UTF-8 encoding of a nonzero scalar has no zero byte.
proof fn lemma_encode_scalar_no_zero_byte(scalar: u32)
    requires
        vstd::utf8::is_scalar(scalar),
        scalar != 0,
    ensures
        forall|j: int|
            0 <= j < vstd::utf8::encode_scalar(scalar).len()
                ==> vstd::utf8::encode_scalar(scalar)[j] != 0,
{
    if vstd::utf8::has_width_1_encoding(scalar) {
        assert((scalar != 0 && scalar <= 0x7F) ==> ((scalar & 0x7F) as u8) != 0) by (bit_vector);
        assert(vstd::utf8::encode_scalar(scalar) =~= seq![
            vstd::utf8::leading_byte_width_1(scalar),
        ]);
    } else if vstd::utf8::has_width_2_encoding(scalar) {
        lemma_or_high_bit_nonzero(0xC0, ((scalar >> 6) & 0x1F) as u8);
        lemma_or_high_bit_nonzero(0x80, (scalar & 0x3F) as u8);
    } else if vstd::utf8::has_width_3_encoding(scalar) {
        lemma_or_high_bit_nonzero(0xE0, ((scalar >> 12) & 0x0F) as u8);
        lemma_or_high_bit_nonzero(0x80, ((scalar >> 6) & 0x3F) as u8);
        lemma_or_high_bit_nonzero(0x80, (scalar & 0x3F) as u8);
    } else {
        lemma_or_high_bit_nonzero(0xF0, ((scalar >> 18) & 0x7) as u8);
        lemma_or_high_bit_nonzero(0x80, ((scalar >> 12) & 0x3F) as u8);
        lemma_or_high_bit_nonzero(0x80, ((scalar >> 6) & 0x3F) as u8);
        lemma_or_high_bit_nonzero(0x80, (scalar & 0x3F) as u8);
    }
}

/// The UTF-8 encoding of NUL-free text has no zero byte.
proof fn lemma_encode_utf8_no_zero_byte(s: Seq<char>)
    requires
        no_nul(s),
    ensures
        forall|j: int|
            0 <= j < vstd::utf8::encode_utf8(s).len() ==> vstd::utf8::encode_utf8(s)[j] != 0,
    decreases s.len(),
{
    if s.len() > 0 {
        let c = s[0] as u32;
        vstd::utf8::char_is_scalar(s[0]);
        assert(c != 0) by {
            vstd::utf8::char_u32_cast(s[0], s[0] as u32);
            vstd::utf8::char_u32_cast('\0', '\0' as u32);
            if c == 0 {
                assert('\0' as u32 == 0);
                assert(s[0] == '\0');
            }
        }
        lemma_encode_scalar_no_zero_byte(c);
        assert(no_nul(s.drop_first()));
        lemma_encode_utf8_no_zero_byte(s.drop_first());
        let head = vstd::utf8::encode_scalar(c);
        let rest = vstd::utf8::encode_utf8(s.drop_first());
        assert forall|j: int| 0 <= j < (head + rest).len() implies (head + rest)[j] != 0 by {
            if j < head.len() {
                assert((head + rest)[j] == head[j]);
            } else {
                assert((head + rest)[j] == rest[j - head.len()]);
            }
        }
    }
}

/// Writing NUL-free native text as host bytes and decoding it back through
/// the null-terminated intermediate representation yields the text
/// unchanged.
pub proof fn lemma_text_round_trip(s: Seq<char>)
    requires
        no_nul(s),
    ensures
        spec_decode_text(vstd::utf8::encode_utf8(s)) == Ok::<Seq<char>, BridgeError>(s),
{
    broadcast use vstd::utf8::encode_utf8_valid_utf8;
    broadcast use vstd::utf8::encode_utf8_decode_utf8;

    let b = vstd::utf8::encode_utf8(s);
    lemma_encode_utf8_no_zero_byte(s);
    lemma_nul_prefix_len_is(b, b.len() as int);
    assert(c_text_bytes(b) =~= b);
}

/// What reading a 64-bit integer field yields.
pub open spec fn spec_get_long(fields: Seq<HostField>, name: Seq<char>) -> Result<i64, BridgeError> {
    match lookup_field(fields, name) {
        Option::None => Err(BridgeError::FieldNotFound),
        Option::Some(v) => match v {
            HostValue::Long(x) => Ok(x),
            _ => Err(BridgeError::TypeMismatch),
        },
    }
}

/// What reading a 32-bit integer field yields.
pub open spec fn spec_get_int(fields: Seq<HostField>, name: Seq<char>) -> Result<i32, BridgeError> {
    match lookup_field(fields, name) {
        Option::None => Err(BridgeError::FieldNotFound),
        Option::Some(v) => match v {
            HostValue::Int(x) => Ok(x),
            _ => Err(BridgeError::TypeMismatch),
        },
    }
}

/// What reading a 64-bit integer array field yields. A null reference in
/// place of the array counts as an absent field.
pub open spec fn spec_get_long_array(fields: Seq<HostField>, name: Seq<char>) -> Result<
    Seq<i64>,
    BridgeError,
> {
    match lookup_field(fields, name) {
        Option::None => Err(BridgeError::FieldNotFound),
        Option::Some(v) => match v {
            HostValue::LongArray(a) => Ok(a@),
            HostValue::Null => Err(BridgeError::FieldNotFound),
            _ => Err(BridgeError::TypeMismatch),
        },
    }
}

/// What reading an object reference field yields. A null reference counts as
/// an absent field.
pub open spec fn spec_get_obj(fields: Seq<HostField>, name: Seq<char>) -> Result<
    usize,
    BridgeError,
> {
    match lookup_field(fields, name) {
        Option::None => Err(BridgeError::FieldNotFound),
        Option::Some(v) => match v {
            HostValue::Obj(h) => Ok(h),
            HostValue::Null => Err(BridgeError::FieldNotFound),
            _ => Err(BridgeError::TypeMismatch),
        },
    }
}

/// What reading an object array field yields. A null reference in place of
/// the array counts as an absent field.
pub open spec fn spec_get_obj_array(fields: Seq<HostField>, name: Seq<char>) -> Result<
    Seq<Option<usize>>,
    BridgeError,
> {
    match lookup_field(fields, name) {
        Option::None => Err(BridgeError::FieldNotFound),
        Option::Some(v) => match v {
            HostValue::ObjArray(a) => Ok(a@),
            HostValue::Null => Err(BridgeError::FieldNotFound),
            _ => Err(BridgeError::TypeMismatch),
        },
    }
}

/// What reading and decoding a string field yields. A null reference counts
/// as an absent field; text that is not valid Unicode is an encoding error.
pub open spec fn spec_get_string(fields: Seq<HostField>, name: Seq<char>) -> Result<
    Seq<char>,
    BridgeError,
> {
    match lookup_field(fields, name) {
        Option::None => Err(BridgeError::FieldNotFound),
        Option::Some(v) => match v {
            HostValue::Text(b) => spec_decode_text(b@),
            HostValue::Null => Err(BridgeError::FieldNotFound),
            _ => Err(BridgeError::TypeMismatch),
        },
    }
}

/// Reads a 64-bit integer field.
pub fn get_long_field(obj: &HostObject, name: &str) -> (r: Result<i64, BridgeError>)
    ensures
        r == spec_get_long(obj.fields@, name@),
{
    match get_field_value(obj, name) {
        Option::None => Err(BridgeError::FieldNotFound),
        Option::Some(v) => match v {
            HostValue::Long(x) => Ok(*x),
            _ => Err(BridgeError::TypeMismatch),
        },
    }
}

/// Reads a 32-bit integer field.
pub fn get_int_field(obj: &HostObject, name: &str) -> (r: Result<i32, BridgeError>)
    ensures
        r == spec_get_int(obj.fields@, name@),
{
    match get_field_value(obj, name) {
        Option::None => Err(BridgeError::FieldNotFound),
        Option::Some(v) => match v {
            HostValue::Int(x) => Ok(*x),
            _ => Err(BridgeError::TypeMismatch),
        },
    }
}

/// Reads a 64-bit integer array field as a read-only snapshot.
pub fn get_long_array_field<'a>(obj: &'a HostObject, name: &str) -> (r: Result<
    &'a Vec<i64>,
    BridgeError,
>)
    ensures
        match r {
            Ok(a) => spec_get_long_array(obj.fields@, name@) == Ok::<Seq<i64>, BridgeError>(a@),
            Err(e) => spec_get_long_array(obj.fields@, name@) == Err::<Seq<i64>, BridgeError>(e),
        },
{
    match get_field_value(obj, name) {
        Option::None => Err(BridgeError::FieldNotFound),
        Option::Some(v) => match v {
            HostValue::LongArray(a) => Ok(a),
            HostValue::Null => Err(BridgeError::FieldNotFound),
            _ => Err(BridgeError::TypeMismatch),
        },
    }
}

/// Reads an object reference field.
pub fn get_obj_field(obj: &HostObject, name: &str) -> (r: Result<usize, BridgeError>)
    ensures
        r == spec_get_obj(obj.fields@, name@),
{
    match get_field_value(obj, name) {
        Option::None => Err(BridgeError::FieldNotFound),
        Option::Some(v) => match v {
            HostValue::Obj(h) => Ok(*h),
            HostValue::Null => Err(BridgeError::FieldNotFound),
            _ => Err(BridgeError::TypeMismatch),
        },
    }
}

/// Reads an object array field as a read-only snapshot.
pub fn get_obj_array_field<'a>(obj: &'a HostObject, name: &str) -> (r: Result<
    &'a Vec<Option<usize>>,
    BridgeError,
>)
    ensures
        match r {
            Ok(a) => spec_get_obj_array(obj.fields@, name@) == Ok::<
                Seq<Option<usize>>,
                BridgeError,
            >(a@),
            Err(e) => spec_get_obj_array(obj.fields@, name@) == Err::<
                Seq<Option<usize>>,
                BridgeError,
            >(e),
        },
{
    match get_field_value(obj, name) {
        Option::None => Err(BridgeError::FieldNotFound),
        Option::Some(v) => match v {
            HostValue::ObjArray(a) => Ok(a),
            HostValue::Null => Err(BridgeError::FieldNotFound),
            _ => Err(BridgeError::TypeMismatch),
        },
    }
}

} // verus!

