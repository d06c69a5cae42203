//! Model of the host runtime's native-module boundary: status codes, script
//! values, the value conversions the marshaller performs, and the module
//! registration state.
//!
//! The host runtime itself is outside this crate; the unverified shell talks
//! to it through its ABI. What is verified here is the marshalling and
//! registration logic: which conversions succeed on which values, what each
//! returns, and that registration happens exactly once.

use vstd::prelude::*;

verus! {

/// Status of every host-runtime accessor call. Only `Okay` is success; every
/// other value is treated as a fatal internal error by the callers.
#[derive(Clone, Copy, PartialEq, Eq, Structural, Debug)]
pub enum NapiStatus {
    Okay,
    InvalidArg,
    ObjectExpected,
    StringExpected,
    NameExpected,
    FunctionExpected,
    NumberExpected,
    BooleanExpected,
    ArrayExpected,
    GenericFailure,
    PendingException,
    Cancelled,
    EscapeCalledTwice,
    HandleScopeMismatch,
}

/// The host runtime's classification of a script value.
#[derive(Clone, Copy, PartialEq, Eq, Structural, Debug)]
pub enum NapiValueType {
    Undefined,
    Null,
    Boolean,
    Number,
    String,
    Symbol,
    Object,
    Function,
    External,
    Bigint,
}

/// The native implementations this module exposes to script.
#[derive(Clone, Copy, PartialEq, Eq, Structural, Debug)]
pub enum NativeFn {
    /// Creates one fixed-size, fixed-title native window; returns undefined.
    CreateWindow,
    /// Blocks until the GUI toolkit reports input activity; returns undefined.
    WaitEvent,
}

/// The host runtime's execution-context handle. Opaque to this module: it is
/// only passed through, explicitly, along every native call path.
#[derive(Clone, Copy, PartialEq, Eq, Structural, Debug)]
pub struct NapiEnv {
    pub id: u64,
}

/// Model of a boxed script value, remembering exactly what the value holds.
/// Strings are kept as their UTF-8 bytes, since the ABI reads them into byte
/// buffers; objects are property lists; functions carry the native
/// implementation they were created from.
pub enum NapiValue {
    Undefined,
    Null,
    Boolean(bool),
    Uint32(u32),
    Int32(i32),
    Utf8String(Vec<u8>),
    Array(Vec<NapiValue>),
    Function(NativeFn),
    Object(Vec<(String, NapiValue)>),
}

/// The mathematical value of a script value: what a `NapiValue` holds, with
/// every container abstracted to a sequence. All contracts of the
/// marshalling layer are stated over this type.
#[verifier::ext_equal]
pub enum ScriptValue {
    Undefined,
    Null,
    Boolean(bool),
    Uint32(u32),
    Int32(i32),
    Utf8String(Seq<u8>),
    Array(Seq<ScriptValue>),
    Function(NativeFn),
    Object(Seq<(Seq<char>, ScriptValue)>),
}

impl NapiValue {
    /// The mathematical value this script value holds.
    pub open spec fn dv(self) -> ScriptValue
        decreases self, 1int,
    {
        match self {
            NapiValue::Undefined => ScriptValue::Undefined,
            NapiValue::Null => ScriptValue::Null,
            NapiValue::Boolean(b) => ScriptValue::Boolean(b),
            NapiValue::Uint32(v) => ScriptValue::Uint32(v),
            NapiValue::Int32(v) => ScriptValue::Int32(v),
            NapiValue::Utf8String(bytes) => ScriptValue::Utf8String(bytes@),
            NapiValue::Array(elems) => ScriptValue::Array(NapiValue::dv_seq(elems@)),
            NapiValue::Function(f) => ScriptValue::Function(f),
            NapiValue::Object(entries) => ScriptValue::Object(NapiValue::dv_entries(entries@)),
        }
    }

    /// The mathematical values of a sequence of script values, elementwise.
    pub open spec fn dv_seq(elems: Seq<NapiValue>) -> Seq<ScriptValue>
        decreases elems, 0int,
    {
        if elems.len() == 0 {
            Seq::empty()
        } else {
            seq![elems[0].dv()] + NapiValue::dv_seq(elems.drop_first())
        }
    }

    /// The mathematical values of a property list, keys as character
    /// sequences and values elementwise.
    pub open spec fn dv_entries(entries: Seq<(String, NapiValue)>) -> Seq<(Seq<char>, ScriptValue)>
        decreases entries, 0int,
    {
        if entries.len() == 0 {
            Seq::empty()
        } else {
            seq![(entries[0].0@, entries[0].1.dv())] + NapiValue::dv_entries(entries.drop_first())
        }
    }

    /// `dv_seq` is the elementwise image: same length, each element the
    /// mathematical value of its counterpart.
    pub proof fn lemma_dv_seq(elems: Seq<NapiValue>)
        ensures
            NapiValue::dv_seq(elems).len() == elems.len(),
            forall|i: int| 0 <= i < elems.len() ==> NapiValue::dv_seq(elems)[i] == elems[i].dv(),
        decreases elems.len(),
    {
        if elems.len() > 0 {
            NapiValue::lemma_dv_seq(elems.drop_first());
            assert forall|i: int| 0 <= i < elems.len() implies NapiValue::dv_seq(elems)[i]
                == elems[i].dv() by {
                if i > 0 {
                    assert(NapiValue::dv_seq(elems)[i]
                        == NapiValue::dv_seq(elems.drop_first())[i - 1]);
                    assert(elems.drop_first()[i - 1] == elems[i]);
                }
            }
        }
    }

    /// `dv_entries` is the elementwise image of a property list.
    pub proof fn lemma_dv_entries(entries: Seq<(String, NapiValue)>)
        ensures
            NapiValue::dv_entries(entries).len() == entries.len(),
            forall|i: int| 0 <= i < entries.len() ==> NapiValue::dv_entries(entries)[i] == (
                entries[i].0@,
                entries[i].1.dv(),
            ),
        decreases entries.len(),
    {
        if entries.len() > 0 {
            NapiValue::lemma_dv_entries(entries.drop_first());
            assert forall|i: int| 0 <= i < entries.len() implies NapiValue::dv_entries(entries)[i]
                == (entries[i].0@, entries[i].1.dv()) by {
                if i > 0 {
                    assert(NapiValue::dv_entries(entries)[i]
                        == NapiValue::dv_entries(entries.drop_first())[i - 1]);
                    assert(entries.drop_first()[i - 1] == entries[i]);
                }
            }
        }
    }
}

/// The repeated "call an accessor, accept only the success status, use the
/// out-parameter" convention, as one helper: the accessor's status and
/// out-value become a result carrying either the value or the failing status.
pub fn check_status<T>(status: NapiStatus, value: T) -> (r: Result<T, NapiStatus>)
    ensures
        status == NapiStatus::Okay ==> (r matches Ok(v) && v == value),
        status != NapiStatus::Okay ==> r == Result::<T, NapiStatus>::Err(status),
{
    if status == NapiStatus::Okay {
        Ok(value)
    } else {
        Err(status)
    }
}

/// What reading a script value as an unsigned 32-bit integer returns.
pub open spec fn spec_get_value_uint32(v: ScriptValue) -> Result<u32, NapiStatus> {
    match v {
        ScriptValue::Uint32(x) => Ok(x),
        _ => Err(NapiStatus::NumberExpected),
    }
}

/// What reading a script value as a signed 32-bit integer returns.
pub open spec fn spec_get_value_int32(v: ScriptValue) -> Result<i32, NapiStatus> {
    match v {
        ScriptValue::Int32(x) => Ok(x),
        _ => Err(NapiStatus::NumberExpected),
    }
}

/// What reading a script value as a boolean returns.
pub open spec fn spec_get_value_bool(v: ScriptValue) -> Result<bool, NapiStatus> {
    match v {
        ScriptValue::Boolean(x) => Ok(x),
        _ => Err(NapiStatus::BooleanExpected),
    }
}

/// What reading a script value's array length returns: arrays report their
/// element count (the ABI's length is 32-bit), anything else is refused.
pub open spec fn spec_get_array_length(v: ScriptValue) -> Result<u32, NapiStatus> {
    match v {
        ScriptValue::Array(elems) => if elems.len() <= u32::MAX {
            Ok(elems.len() as u32)
        } else {
            Err(NapiStatus::GenericFailure)
        },
        _ => Err(NapiStatus::ArrayExpected),
    }
}

/// What reading the element at `index` of a script value returns: the stored
/// element inside an array's bounds, the canonical undefined beyond them
/// (script arrays have no holes to the reader), a refusal on anything that
/// is not an array.
pub open spec fn spec_get_element(v: ScriptValue, index: u32) -> Result<ScriptValue, NapiStatus> {
    match v {
        ScriptValue::Array(elems) => if index < elems.len() {
            Ok(elems[index as int])
        } else {
            Ok(ScriptValue::Undefined)
        },
        _ => Err(NapiStatus::ArrayExpected),
    }
}

/// What reading a script value as a string into a buffer of `bufsize` bytes
/// returns: the copied bytes and their count. One buffer byte is kept for
/// the terminator, so at most the first `bufsize - 1` bytes are copied; a
/// shorter string is copied whole.
pub open spec fn spec_get_value_string_utf8(v: ScriptValue, bufsize: usize) -> Result<
    (Seq<u8>, int),
    NapiStatus,
> {
    match v {
        ScriptValue::Utf8String(bytes) => {
            let n = if bytes.len() <= bufsize - 1 {
                bytes.len() as int
            } else {
                bufsize - 1
            };
            Ok((bytes.take(n), n))
        }
        _ => Err(NapiStatus::StringExpected),
    }
}

/// The host runtime's type classification of a script value. Script arrays
/// are objects to the classifier.
pub open spec fn spec_type_of(v: ScriptValue) -> NapiValueType {
    match v {
        ScriptValue::Undefined => NapiValueType::Undefined,
        ScriptValue::Null => NapiValueType::Null,
        ScriptValue::Boolean(_) => NapiValueType::Boolean,
        ScriptValue::Uint32(_) => NapiValueType::Number,
        ScriptValue::Int32(_) => NapiValueType::Number,
        ScriptValue::Utf8String(_) => NapiValueType::String,
        ScriptValue::Array(_) => NapiValueType::Object,
        ScriptValue::Function(_) => NapiValueType::Function,
        ScriptValue::Object(_) => NapiValueType::Object,
    }
}

impl NapiValue {
    /// The canonical "no meaningful result" value.
    pub fn undefined() -> (r: NapiValue)
        ensures
            r.dv() == ScriptValue::Undefined,
    {
        NapiValue::Undefined
    }

    /// Creates a script value from a native unsigned 32-bit integer.
    pub fn create_uint32(v: u32) -> (r: NapiValue)
        ensures
            r.dv() == ScriptValue::Uint32(v),
    {
        NapiValue::Uint32(v)
    }

    /// Creates a script value from a native signed 32-bit integer.
    pub fn create_int32(v: i32) -> (r: NapiValue)
        ensures
            r.dv() == ScriptValue::Int32(v),
    {
        NapiValue::Int32(v)
    }

    /// The script boolean for a native boolean.
    pub fn get_boolean(v: bool) -> (r: NapiValue)
        ensures
            r.dv() == ScriptValue::Boolean(v),
    {
        NapiValue::Boolean(v)
    }

    /// Creates a script string from native UTF-8 bytes.
    pub fn create_string_utf8(bytes: Vec<u8>) -> (r: NapiValue)
        ensures
            r.dv() == ScriptValue::Utf8String(bytes@),
    {
        NapiValue::Utf8String(bytes)
    }

    /// Creates an empty script array.
    pub fn create_array() -> (r: NapiValue)
        ensures
            r.dv() == ScriptValue::Array(Seq::<ScriptValue>::empty()),
    {
        let r = NapiValue::Array(Vec::new());
        proof {
            assert(r.dv() =~= ScriptValue::Array(Seq::<ScriptValue>::empty()));
        }
        r
    }

    /// Creates a script-callable function from a native implementation.
    pub fn create_function(f: NativeFn) -> (r: NapiValue)
        ensures
            r.dv() == ScriptValue::Function(f),
    {
        NapiValue::Function(f)
    }

    /// Creates an empty script object.
    pub fn create_object() -> (r: NapiValue)
        ensures
            r.dv() == ScriptValue::Object(Seq::<(Seq<char>, ScriptValue)>::empty()),
    {
        let r = NapiValue::Object(Vec::new());
        proof {
            assert(r.dv() =~= ScriptValue::Object(Seq::<(Seq<char>, ScriptValue)>::empty()));
        }
        r
    }

    /// Reads the value back as a native unsigned 32-bit integer; any value
    /// not created from one is refused as `NumberExpected`.
    pub fn get_value_uint32(&self) -> (r: Result<u32, NapiStatus>)
        ensures
            r == spec_get_value_uint32(self.dv()),
    {
        match self {
            NapiValue::Uint32(v) => Ok(*v),
            _ => Err(NapiStatus::NumberExpected),
        }
    }

    /// Reads the value back as a native signed 32-bit integer.
    pub fn get_value_int32(&self) -> (r: Result<i32, NapiStatus>)
        ensures
            r == spec_get_value_int32(self.dv()),
    {
        match self {
            NapiValue::Int32(v) => Ok(*v),
            _ => Err(NapiStatus::NumberExpected),
        }
    }

    /// Reads the value back as a native boolean.
    pub fn get_value_bool(&self) -> (r: Result<bool, NapiStatus>)
        ensures
            r == spec_get_value_bool(self.dv()),
    {
        match self {
            NapiValue::Boolean(v) => Ok(*v),
            _ => Err(NapiStatus::BooleanExpected),
        }
    }

    /// Copies the value, structure and contents alike, as handing a value
    /// across the marshalling boundary does.
    pub fn deep_clone(&self) -> (r: NapiValue)
        ensures
            r.dv() == self.dv(),
        decreases *self,
    {
        match self {
            NapiValue::Undefined => NapiValue::Undefined,
            NapiValue::Null => NapiValue::Null,
            NapiValue::Boolean(b) => NapiValue::Boolean(*b),
            NapiValue::Uint32(v) => NapiValue::Uint32(*v),
            NapiValue::Int32(v) => NapiValue::Int32(*v),
            NapiValue::Function(f) => NapiValue::Function(*f),
            NapiValue::Utf8String(bytes) => {
                let mut out: Vec<u8> = Vec::new();
                let mut i: usize = 0;
                while i < bytes.len()
                    invariant
                        i <= bytes@.len(),
                        out@ == bytes@.subrange(0, i as int),
                    decreases bytes@.len() - i,
                {
                    out.push(bytes[i]);
                    i = i + 1;
                }
                proof {
                    assert(out@ =~= bytes@);
                }
                NapiValue::Utf8String(out)
            }
            NapiValue::Array(elems) => {
                let mut out: Vec<NapiValue> = Vec::new();
                let mut i: usize = 0;
                while i < elems.len()
                    invariant
                        *self == NapiValue::Array(*elems),
                        i <= elems@.len(),
                        out@.len() == i,
                        forall|j: int| 0 <= j < i ==> out@[j].dv() == elems@[j].dv(),
                    decreases elems@.len() - i,
                {
                    proof {
                        assert(decreases_to!(*self => self->Array_0));
                        assert(self->Array_0 == *elems);
                        assert(decreases_to!(*elems => elems@));
                        assert(decreases_to!(elems@ => elems@[i as int]));
                    }
                    out.push(elems[i].deep_clone());
                    i = i + 1;
                }
                let r = NapiValue::Array(out);
                proof {
                    NapiValue::lemma_dv_seq(out@);
                    NapiValue::lemma_dv_seq(elems@);
                    assert(NapiValue::dv_seq(out@) =~= NapiValue::dv_seq(elems@));
                }
                r
            }
            NapiValue::Object(entries) => {
                let mut out: Vec<(String, NapiValue)> = Vec::new();
                let mut i: usize = 0;
                while i < entries.len()
                    invariant
                        *self == NapiValue::Object(*entries),
                        i <= entries@.len(),
                        out@.len() == i,
                        forall|j: int| 0 <= j < i ==> out@[j].0@ == entries@[j].0@
                            && out@[j].1.dv() == entries@[j].1.dv(),
                    decreases entries@.len() - i,
                {
                    proof {
                        assert(decreases_to!(*self => self->Object_0));
                        assert(self->Object_0 == *entries);
                        assert(decreases_to!(*entries => entries@));
                        assert(decreases_to!(entries@ => entries@[i as int]));
                        assert(decreases_to!(entries@[i as int] => entries@[i as int].1));
                    }
                    let key = entries[i].0.clone();
                    let value = entries[i].1.deep_clone();
                    out.push((key, value));
                    i = i + 1;
                }
                let r = NapiValue::Object(out);
                proof {
                    NapiValue::lemma_dv_entries(out@);
                    NapiValue::lemma_dv_entries(entries@);
                    assert(NapiValue::dv_entries(out@) =~= NapiValue::dv_entries(entries@));
                }
                r
            }
        }
    }

    /// Reads the value's length as a script array.
    pub fn get_array_length(&self) -> (r: Result<u32, NapiStatus>)
        ensures
            r == spec_get_array_length(self.dv()),
    {
        match self {
            NapiValue::Array(elems) => {
                proof {
                    NapiValue::lemma_dv_seq(elems@);
                }
                if elems.len() <= u32::MAX as usize {
                    Ok(elems.len() as u32)
                } else {
                    Err(NapiStatus::GenericFailure)
                }
            }
            _ => Err(NapiStatus::ArrayExpected),
        }
    }

    /// Reads the element at `index` of a script array.
    pub fn get_element(&self, index: u32) -> (r: Result<NapiValue, NapiStatus>)
        ensures
            (match (r, spec_get_element(self.dv(), index)) {
                (Ok(rv), Ok(sv)) => rv.dv() == sv,
                (Err(e), Err(se)) => e == se,
                _ => false,
            }),
    {
        match self {
            NapiValue::Array(elems) => {
                proof {
                    NapiValue::lemma_dv_seq(elems@);
                }
                if (index as usize) < elems.len() {
                    Ok(elems[index as usize].deep_clone())
                } else {
                    Ok(NapiValue::Undefined)
                }
            }
            _ => Err(NapiStatus::ArrayExpected),
        }
    }

    /// Reads the value back as native UTF-8 bytes through a buffer of
    /// `bufsize` bytes, reporting how many bytes were copied.
    pub fn get_value_string_utf8(&self, bufsize: usize) -> (r: Result<
        (Vec<u8>, usize),
        NapiStatus,
    >)
        requires
            bufsize >= 1,
        ensures
            (match (r, spec_get_value_string_utf8(self.dv(), bufsize)) {
                (Ok((buf, copied)), Ok((sbuf, scopied))) => buf@ == sbuf && copied == scopied,
                (Err(e), Err(se)) => e == se,
                _ => false,
            }),
    {
        match self {
            NapiValue::Utf8String(bytes) => {
                let n = if bytes.len() <= bufsize - 1 {
                    bytes.len()
                } else {
                    bufsize - 1
                };
                let mut out: Vec<u8> = Vec::new();
                let mut i: usize = 0;
                while i < n
                    invariant
                        i <= n,
                        n <= bytes@.len(),
                        out@ == bytes@.subrange(0, i as int),
                    decreases n - i,
                {
                    out.push(bytes[i]);
                    i = i + 1;
                }
                proof {
                    assert(out@ =~= bytes@.take(n as int));
                }
                Ok((out, n))
            }
            _ => Err(NapiStatus::StringExpected),
        }
    }

    /// Classifies the value as the host runtime's type introspection does.
    pub fn type_of(&self) -> (t: NapiValueType)
        ensures
            t == spec_type_of(self.dv()),
    {
        match self {
            NapiValue::Undefined => NapiValueType::Undefined,
            NapiValue::Null => NapiValueType::Null,
            NapiValue::Boolean(_) => NapiValueType::Boolean,
            NapiValue::Uint32(_) => NapiValueType::Number,
            NapiValue::Int32(_) => NapiValueType::Number,
            NapiValue::Utf8String(_) => NapiValueType::String,
            NapiValue::Array(_) => NapiValueType::Object,
            NapiValue::Function(_) => NapiValueType::Function,
            NapiValue::Object(_) => NapiValueType::Object,
        }
    }
}


/// What writing `value` at `index` of a script value yields, with the
/// status: inside an array's bounds the element is replaced; beyond them the
/// array grows to `index + 1` elements, the gap filled with undefined, as
/// script arrays do; anything that is not an array is left unchanged and
/// refused.
pub open spec fn spec_set_element(v: ScriptValue, index: u32, value: ScriptValue) -> (
    ScriptValue,
    NapiStatus,
) {
    match v {
        ScriptValue::Array(elems) => if index < elems.len() {
            (ScriptValue::Array(elems.update(index as int, value)), NapiStatus::Okay)
        } else {
            (
                ScriptValue::Array(
                    elems + Seq::new((index - elems.len()) as nat, |j: int| ScriptValue::Undefined)
                        + seq![value],
                ),
                NapiStatus::Okay,
            )
        },
        _ => (v, NapiStatus::ArrayExpected),
    }
}

/// The position of the first property named `name`, or the list's length
/// where there is none.
pub open spec fn spec_property_index(
    props: Seq<(Seq<char>, ScriptValue)>,
    name: Seq<char>,
) -> int
    decreases props.len(),
{
    if props.len() == 0 {
        0
    } else if props[0].0 == name {
        0
    } else {
        1 + spec_property_index(props.drop_first(), name)
    }
}

/// `spec_property_index` finds exactly the first property of that name: it
/// stays within the list, points at a property of that name whenever it is
/// inside it, and everything before it bears another name.
pub proof fn lemma_property_index(props: Seq<(Seq<char>, ScriptValue)>, name: Seq<char>)
    ensures
        0 <= spec_property_index(props, name) <= props.len(),
        spec_property_index(props, name) < props.len() ==> props[spec_property_index(
            props,
            name,
        )].0 == name,
        forall|j: int| 0 <= j < spec_property_index(props, name) ==> props[j].0 != name,
    decreases props.len(),
{
    if props.len() > 0 && props[0].0 != name {
        lemma_property_index(props.drop_first(), name);
        let tail = props.drop_first();
        assert forall|j: int| 0 <= j < spec_property_index(props, name) implies props[j].0
            != name by {
            if j > 0 {
                assert(tail[j - 1] == props[j]);
            }
        }
    }
}

/// What setting the property `name` to `value` on a script value yields,
/// with the status: on an object the first property of that name is
/// replaced, or the property is appended when there is none; anything else
/// is left unchanged and refused.
pub open spec fn spec_set_property(v: ScriptValue, name: Seq<char>, value: ScriptValue) -> (
    ScriptValue,
    NapiStatus,
) {
    match v {
        ScriptValue::Object(props) => {
            let k = spec_property_index(props, name);
            if k < props.len() {
                (ScriptValue::Object(props.update(k, (name, value))), NapiStatus::Okay)
            } else {
                (ScriptValue::Object(props.push((name, value))), NapiStatus::Okay)
            }
        },
        _ => (v, NapiStatus::ObjectExpected),
    }
}

impl NapiValue {
    /// Writes `value` at `index` of a script array, growing it as script
    /// arrays grow.
    pub fn set_element(&mut self, index: u32, value: NapiValue) -> (s: NapiStatus)
        ensures
            final(self).dv() == spec_set_element(old(self).dv(), index, value.dv()).0,
            s == spec_set_element(old(self).dv(), index, value.dv()).1,
    {
        match self {
            NapiValue::Array(elems) => {
                let ghost orig: Seq<NapiValue> = elems@;
                proof {
                    NapiValue::lemma_dv_seq(orig);
                }
                if (index as usize) < elems.len() {
                    elems[index as usize] = value;
                    proof {
                        NapiValue::lemma_dv_seq(elems@);
                        assert(NapiValue::dv_seq(elems@) =~= NapiValue::dv_seq(orig).update(
                            index as int,
                            value.dv(),
                        ));
                    }
                } else {
                    while elems.len() < index as usize
                        invariant
                            orig.len() <= elems@.len() <= index as usize,
                            elems@.subrange(0, orig.len() as int) == orig,
                            forall|j: int| orig.len() <= j < elems@.len() ==> elems@[j]
                                == NapiValue::Undefined,
                        decreases index as usize - elems@.len(),
                    {
                        elems.push(NapiValue::Undefined);
                        proof {
                            assert(elems@.subrange(0, orig.len() as int) =~= orig);
                        }
                    }
                    elems.push(value);
                    proof {
                        NapiValue::lemma_dv_seq(elems@);
                        assert(NapiValue::dv_seq(elems@) =~= NapiValue::dv_seq(orig) + Seq::new(
                            (index - orig.len()) as nat,
                            |j: int| ScriptValue::Undefined,
                        ) + seq![value.dv()]);
                    }
                }
                NapiStatus::Okay
            }
            _ => NapiStatus::ArrayExpected,
        }
    }

    /// The position of the first property named `name` in this object's
    /// entries, if any, as the first-match rule of `spec_property_index`
    /// finds it.
    fn find_property(entries: &Vec<(String, NapiValue)>, name: &String) -> (r: Option<usize>)
        ensures
            (r matches Some(k) ==> {
                &&& k < entries@.len()
                &&& entries@[k as int].0@ == name@
                &&& forall|j: int| 0 <= j < k ==> entries@[j].0@ != name@
            }),
            r is None ==> forall|j: int| 0 <= j < entries@.len() ==> entries@[j].0@ != name@,
    {
        let mut i: usize = 0;
        while i < entries.len()
            invariant
                i <= entries@.len(),
                forall|j: int| 0 <= j < i ==> entries@[j].0@ != name@,
            decreases entries@.len() - i,
        {
            if entries[i].0 == *name {
                return Some(i);
            }
            i = i + 1;
        }
        None
    }

    /// Sets the property `name` of a script object to `value`, as assignment
    /// in script does: replacing the first property of that name, appending
    /// the property when there is none.
    pub fn set_named_property(&mut self, name: String, value: NapiValue) -> (s: NapiStatus)
        ensures
            final(self).dv() == spec_set_property(old(self).dv(), name@, value.dv()).0,
            s == spec_set_property(old(self).dv(), name@, value.dv()).1,
    {
        match self {
            NapiValue::Object(entries) => {
                let ghost orig: Seq<(String, NapiValue)> = entries@;
                let ghost props = NapiValue::dv_entries(orig);
                let ghost k = spec_property_index(props, name@);
                proof {
                    NapiValue::lemma_dv_entries(orig);
                    lemma_property_index(props, name@);
                }
                match NapiValue::find_property(entries, &name) {
                    Some(i) => {
                        proof {
                            if k < i {
                                assert(props[k].0 == name@);
                            }
                            if k > i {
                                assert(props[i as int].0 != name@);
                            }
                            assert(k == i);
                        }
                        entries[i] = (name, value);
                        proof {
                            NapiValue::lemma_dv_entries(entries@);
                            assert(NapiValue::dv_entries(entries@) =~= props.update(
                                k,
                                (NapiValue::dv_entries(entries@)[k].0, value.dv()),
                            ));
                        }
                    }
                    None => {
                        proof {
                            if k < props.len() {
                                assert(props[k].0 == name@);
                            }
                            assert(k == props.len());
                        }
                        entries.push((name, value));
                        proof {
                            NapiValue::lemma_dv_entries(entries@);
                            assert(NapiValue::dv_entries(entries@) =~= props.push(
                                (NapiValue::dv_entries(entries@)[k].0, value.dv()),
                            ));
                        }
                    }
                }
                NapiStatus::Okay
            }
            _ => NapiStatus::ObjectExpected,
        }
    }
}

/// The opaque handle a native callback receives from the host runtime,
/// modelled as what its introspection hands back: the receiver and the
/// call's arguments.
pub struct NapiCallbackInfo {
    pub this_arg: NapiValue,
    pub args: Vec<NapiValue>,
}

impl NapiCallbackInfo {
    /// Retrieves the call's arguments as the host runtime's introspection
    /// does: exactly `argc` values, the actual arguments first and the
    /// canonical undefined padding any missing ones, together with the
    /// actual argument count.
    pub fn get_cb_info(&self, argc: usize) -> (r: (Vec<NapiValue>, usize))
        ensures
            r.1 == self.args@.len(),
            r.0@.len() == argc,
            forall|i: int| 0 <= i < argc ==> r.0@[i].dv() == (if i < self.args@.len() {
                self.args@[i].dv()
            } else {
                ScriptValue::Undefined
            }),
    {
        let mut out: Vec<NapiValue> = Vec::new();
        let mut i: usize = 0;
        while i < argc
            invariant
                i <= argc,
                out@.len() == i,
                forall|j: int| 0 <= j < i ==> out@[j].dv() == (if j < self.args@.len() {
                    self.args@[j].dv()
                } else {
                    ScriptValue::Undefined
                }),
            decreases argc - i,
        {
            if i < self.args.len() {
                out.push(self.args[i].deep_clone());
            } else {
                out.push(NapiValue::Undefined);
            }
            i = i + 1;
        }
        (out, self.args.len())
    }
}

/// The native-module registration record the host runtime is handed, with
/// the guard that makes registration effective exactly once.
pub struct NapiModule {
    pub nm_version: i32,
    pub nm_flags: u32,
    pub nm_modname: String,
    pub registered: bool,
}

impl NapiModule {
    /// A fresh, unregistered module record under the given name.
    pub fn new(modname: String) -> (m: NapiModule)
        ensures
            m.nm_version == 1,
            m.nm_flags == 0,
            m.nm_modname@ == modname@,
            !m.registered,
    {
        NapiModule { nm_version: 1, nm_flags: 0, nm_modname: modname, registered: false }
    }

    /// The registration entry point the host runtime invokes with an
    /// environment handle and an exports object. On its first call it
    /// publishes the two exported operations on the exports object, in
    /// order, and returns it; any later call returns the exports untouched
    /// and changes nothing, so the exported functions are registered exactly
    /// once however often the host invokes the entry point.
    ///
    /// Starting the wakeup watcher and initializing the GUI toolkit, which
    /// accompany the first registration, are outside calls the unverified
    /// shell makes around this function.
    #[allow(unused_variables)]
    pub fn init_node_module(&mut self, env: NapiEnv, exports: NapiValue) -> (r: NapiValue)
        ensures
            old(self).registered ==> *final(self) == *old(self) && r == exports,
            !old(self).registered ==> {
                &&& final(self).registered
                &&& final(self).nm_version == old(self).nm_version
                &&& final(self).nm_flags == old(self).nm_flags
                &&& final(self).nm_modname == old(self).nm_modname
                &&& r.dv() == spec_set_property(
                    spec_set_property(
                        exports.dv(),
                        "createWindow"@,
                        ScriptValue::Function(NativeFn::CreateWindow),
                    ).0,
                    "waitEvent"@,
                    ScriptValue::Function(NativeFn::WaitEvent),
                ).0
            },
    {
        if self.registered {
            return exports;
        }
        self.registered = true;
        let mut exports = exports;
        let method = NapiValue::create_function(NativeFn::CreateWindow);
        let _ = exports.set_named_property("createWindow".to_owned(), method);
        let method = NapiValue::create_function(NativeFn::WaitEvent);
        let _ = exports.set_named_property("waitEvent".to_owned(), method);
        exports
    }
}

/// Round-trip marshalling: a script value created from a native value reads
/// back as that value — exactly for 32-bit integers and booleans, byte for
/// byte for strings whose length fits the read buffer, and elementwise for
/// arrays.
pub proof fn lemma_marshalling_round_trip(
    u: u32,
    i: i32,
    b: bool,
    bytes: Seq<u8>,
    elems: Seq<ScriptValue>,
    bufsize: usize,
)
    requires
        bytes.len() < bufsize,
        elems.len() <= u32::MAX,
    ensures
        spec_get_value_uint32(ScriptValue::Uint32(u)) == Ok::<u32, NapiStatus>(u),
        spec_get_value_int32(ScriptValue::Int32(i)) == Ok::<i32, NapiStatus>(i),
        spec_get_value_bool(ScriptValue::Boolean(b)) == Ok::<bool, NapiStatus>(b),
        spec_get_value_string_utf8(ScriptValue::Utf8String(bytes), bufsize) == Ok::<
            (Seq<u8>, int),
            NapiStatus,
        >((bytes, bytes.len() as int)),
        spec_get_array_length(ScriptValue::Array(elems)) == Ok::<u32, NapiStatus>(
            elems.len() as u32,
        ),
        forall|k: int| 0 <= k < elems.len() ==> spec_get_element(ScriptValue::Array(elems), k as u32)
            == Ok::<ScriptValue, NapiStatus>(elems[k]),
    {
        assert(bytes.take(bytes.len() as int) =~= bytes);
    }

} // verus!
