//! The fixed table of native type names and the descriptor fragments that
//! each of them accepts.
use vstd::prelude::*;

use crate::descriptor::{is_value_code, is_value_code_exec};
use crate::text::same_chars;

verus! {

/// A type name on the native side of a binding, as written in the binding
/// function's signature.
#[derive(Clone, Copy, Debug, PartialEq, Eq, Structural)]
pub enum NativeType {
    Unit,
    Jint,
    Jlong,
    Jbyte,
    Jboolean,
    Jchar,
    Jshort,
    Jfloat,
    Jdouble,
    Jobject,
    Jclass,
    Jthrowable,
    Jstring,
    Jarray,
    JbooleanArray,
    JbyteArray,
    JcharArray,
    JshortArray,
    JintArray,
    JlongArray,
    JfloatArray,
    JdoubleArray,
    JobjectArray,
    JByteBuffer,
    JClass,
    JList,
    JMap,
    JObject,
    JObjectArray,
    JPrimitiveArray,
    JString,
    JThrowable,
}

/// What a pattern asks of the rest of a fragment after its head.
#[derive(Clone, Copy, Debug, PartialEq, Eq, Structural)]
pub enum Tail {
    /// The fragment ends with the head.
    Nothing,
    /// One or more characters, up to the end of the fragment.
    AnyChars,
    /// One or more characters, then the given one, which ends the fragment.
    AnyCharsThen(char),
    /// One primitive value code, which ends the fragment.
    PrimitiveCode,
}

/// A pattern over a whole descriptor fragment: a head in which `.` stands
/// for any character, then a tail that runs to the end of the fragment.
pub struct Pattern {
    pub head: Seq<char>,
    pub tail: Tail,
}

/// The registry's entry for a native type name, if it has one.
pub open spec fn lookup_spec(name: Seq<char>) -> Option<NativeType> {
    if name == "()"@ {
        Some(NativeType::Unit)
    } else if name == "jint"@ {
        Some(NativeType::Jint)
    } else if name == "jlong"@ {
        Some(NativeType::Jlong)
    } else if name == "jbyte"@ {
        Some(NativeType::Jbyte)
    } else if name == "jboolean"@ {
        Some(NativeType::Jboolean)
    } else if name == "jchar"@ {
        Some(NativeType::Jchar)
    } else if name == "jshort"@ {
        Some(NativeType::Jshort)
    } else if name == "jfloat"@ {
        Some(NativeType::Jfloat)
    } else if name == "jdouble"@ {
        Some(NativeType::Jdouble)
    } else if name == "jobject"@ {
        Some(NativeType::Jobject)
    } else if name == "jclass"@ {
        Some(NativeType::Jclass)
    } else if name == "jthrowable"@ {
        Some(NativeType::Jthrowable)
    } else if name == "jstring"@ {
        Some(NativeType::Jstring)
    } else if name == "jarray"@ {
        Some(NativeType::Jarray)
    } else if name == "jbooleanArray"@ {
        Some(NativeType::JbooleanArray)
    } else if name == "jbyteArray"@ {
        Some(NativeType::JbyteArray)
    } else if name == "jcharArray"@ {
        Some(NativeType::JcharArray)
    } else if name == "jshortArray"@ {
        Some(NativeType::JshortArray)
    } else if name == "jintArray"@ {
        Some(NativeType::JintArray)
    } else if name == "jlongArray"@ {
        Some(NativeType::JlongArray)
    } else if name == "jfloatArray"@ {
        Some(NativeType::JfloatArray)
    } else if name == "jdoubleArray"@ {
        Some(NativeType::JdoubleArray)
    } else if name == "jobjectArray"@ {
        Some(NativeType::JobjectArray)
    } else if name == "JByteBuffer"@ {
        Some(NativeType::JByteBuffer)
    } else if name == "JClass"@ {
        Some(NativeType::JClass)
    } else if name == "JList"@ {
        Some(NativeType::JList)
    } else if name == "JMap"@ {
        Some(NativeType::JMap)
    } else if name == "JObject"@ {
        Some(NativeType::JObject)
    } else if name == "JObjectArray"@ {
        Some(NativeType::JObjectArray)
    } else if name == "JPrimitiveArray"@ {
        Some(NativeType::JPrimitiveArray)
    } else if name == "JString"@ {
        Some(NativeType::JString)
    } else if name == "JThrowable"@ {
        Some(NativeType::JThrowable)
    } else {
        None
    }
}

/// `head` matches `t` at index `i`, a `.` in it matching any character.
pub open spec fn head_matches_at(t: Seq<char>, head: Seq<char>, i: int) -> bool {
    0 <= i && i + head.len() <= t.len() && forall|k: int|
        0 <= k < head.len() ==> (head[k] == '.' || #[trigger] t[i + k] == head[k])
}

/// The tail covers `t` from index `j` to its end.
pub open spec fn tail_ends(t: Seq<char>, tail: Tail, j: int) -> bool {
    match tail {
        Tail::Nothing => j == t.len(),
        Tail::AnyChars => j < t.len(),
        Tail::AnyCharsThen(c) => j + 1 < t.len() && t[t.len() - 1] == c,
        Tail::PrimitiveCode => j + 1 == t.len() && is_value_code(t[j]),
    }
}

/// The pattern covers all of `t`.
pub open spec fn pattern_matches(t: Seq<char>, p: Pattern) -> bool {
    head_matches_at(t, p.head, 0) && tail_ends(t, p.tail, p.head.len() as int)
}

impl NativeType {
    /// The pattern that this native type's fragments match.
    pub open spec fn pattern(self) -> Pattern {
        match self {
            NativeType::Unit => Pattern { head: "V"@, tail: Tail::Nothing },
            NativeType::Jint => Pattern { head: "I"@, tail: Tail::Nothing },
            NativeType::Jlong => Pattern { head: "J"@, tail: Tail::Nothing },
            NativeType::Jbyte => Pattern { head: "B"@, tail: Tail::Nothing },
            NativeType::Jboolean => Pattern { head: "Z"@, tail: Tail::Nothing },
            NativeType::Jchar => Pattern { head: "C"@, tail: Tail::Nothing },
            NativeType::Jshort => Pattern { head: "S"@, tail: Tail::Nothing },
            NativeType::Jfloat => Pattern { head: "F"@, tail: Tail::Nothing },
            NativeType::Jdouble => Pattern { head: "D"@, tail: Tail::Nothing },
            NativeType::Jobject => Pattern { head: "L"@, tail: Tail::AnyCharsThen(';') },
            NativeType::Jclass => Pattern { head: "Ljava.lang.Class;"@, tail: Tail::Nothing },
            NativeType::Jthrowable => Pattern { head: "Ljava.lang.Throwable;"@, tail: Tail::Nothing },
            NativeType::Jstring => Pattern { head: "Ljava.lang.String;"@, tail: Tail::Nothing },
            NativeType::Jarray => Pattern { head: "["@, tail: Tail::AnyChars },
            NativeType::JbooleanArray => Pattern { head: "[Z"@, tail: Tail::Nothing },
            NativeType::JbyteArray => Pattern { head: "[B"@, tail: Tail::Nothing },
            NativeType::JcharArray => Pattern { head: "[C"@, tail: Tail::Nothing },
            NativeType::JshortArray => Pattern { head: "[S"@, tail: Tail::Nothing },
            NativeType::JintArray => Pattern { head: "[I"@, tail: Tail::Nothing },
            NativeType::JlongArray => Pattern { head: "[J"@, tail: Tail::Nothing },
            NativeType::JfloatArray => Pattern { head: "[F"@, tail: Tail::Nothing },
            NativeType::JdoubleArray => Pattern { head: "[D"@, tail: Tail::Nothing },
            NativeType::JobjectArray => Pattern { head: "[L"@, tail: Tail::AnyCharsThen(';') },
            NativeType::JByteBuffer => Pattern { head: "Ljava.nio.ByteBuffer;"@, tail: Tail::Nothing },
            NativeType::JClass => Pattern { head: "Ljava.lang.Class;"@, tail: Tail::Nothing },
            NativeType::JList => Pattern { head: "Ljava.util.List;"@, tail: Tail::Nothing },
            NativeType::JMap => Pattern { head: "Ljava.util.Map;"@, tail: Tail::Nothing },
            NativeType::JObject => Pattern { head: "L"@, tail: Tail::AnyCharsThen(';') },
            NativeType::JObjectArray => Pattern { head: "[Ljava.lang.Object;"@, tail: Tail::Nothing },
            NativeType::JPrimitiveArray => Pattern { head: "["@, tail: Tail::PrimitiveCode },
            NativeType::JString => Pattern { head: "Ljava.lang.String;"@, tail: Tail::Nothing },
            NativeType::JThrowable => Pattern { head: "Ljava.lang.Throwable;"@, tail: Tail::Nothing },
        }
    }

    /// This native type may stand for the descriptor fragment `frag`.
    pub open spec fn accepts_spec(self, frag: Seq<char>) -> bool {
        pattern_matches(frag, self.pattern())
    }

    fn pattern_parts(&self) -> (r: (&'static str, Tail))
        ensures
            r.0@ == self.pattern().head,
            r.1 == self.pattern().tail,
    {
        match self {
            NativeType::Unit => ("V", Tail::Nothing),
            NativeType::Jint => ("I", Tail::Nothing),
            NativeType::Jlong => ("J", Tail::Nothing),
            NativeType::Jbyte => ("B", Tail::Nothing),
            NativeType::Jboolean => ("Z", Tail::Nothing),
            NativeType::Jchar => ("C", Tail::Nothing),
            NativeType::Jshort => ("S", Tail::Nothing),
            NativeType::Jfloat => ("F", Tail::Nothing),
            NativeType::Jdouble => ("D", Tail::Nothing),
            NativeType::Jobject => ("L", Tail::AnyCharsThen(';')),
            NativeType::Jclass => ("Ljava.lang.Class;", Tail::Nothing),
            NativeType::Jthrowable => ("Ljava.lang.Throwable;", Tail::Nothing),
            NativeType::Jstring => ("Ljava.lang.String;", Tail::Nothing),
            NativeType::Jarray => ("[", Tail::AnyChars),
            NativeType::JbooleanArray => ("[Z", Tail::Nothing),
            NativeType::JbyteArray => ("[B", Tail::Nothing),
            NativeType::JcharArray => ("[C", Tail::Nothing),
            NativeType::JshortArray => ("[S", Tail::Nothing),
            NativeType::JintArray => ("[I", Tail::Nothing),
            NativeType::JlongArray => ("[J", Tail::Nothing),
            NativeType::JfloatArray => ("[F", Tail::Nothing),
            NativeType::JdoubleArray => ("[D", Tail::Nothing),
            NativeType::JobjectArray => ("[L", Tail::AnyCharsThen(';')),
            NativeType::JByteBuffer => ("Ljava.nio.ByteBuffer;", Tail::Nothing),
            NativeType::JClass => ("Ljava.lang.Class;", Tail::Nothing),
            NativeType::JList => ("Ljava.util.List;", Tail::Nothing),
            NativeType::JMap => ("Ljava.util.Map;", Tail::Nothing),
            NativeType::JObject => ("L", Tail::AnyCharsThen(';')),
            NativeType::JObjectArray => ("[Ljava.lang.Object;", Tail::Nothing),
            NativeType::JPrimitiveArray => ("[", Tail::PrimitiveCode),
            NativeType::JString => ("Ljava.lang.String;", Tail::Nothing),
            NativeType::JThrowable => ("Ljava.lang.Throwable;", Tail::Nothing),
        }
    }

    /// Whether this native type may stand for the descriptor fragment `frag`.
    pub fn accepts(&self, frag: &Vec<char>) -> (r: bool)
        ensures
            r == self.accepts_spec(frag@),
    {
        let (head, tail) = self.pattern_parts();
        let head = crate::text::chars_of(head);
        head_matches_at_exec(frag, &head, 0) && tail_ends_exec(frag, tail, head.len())
    }
}

/// Looks up a native type name in the registry.
pub fn lookup(name: &Vec<char>) -> (r: Option<NativeType>)
    ensures
        r == lookup_spec(name@),
{
    if same_chars(name, "()") {
        Some(NativeType::Unit)
    } else if same_chars(name, "jint") {
        Some(NativeType::Jint)
    } else if same_chars(name, "jlong") {
        Some(NativeType::Jlong)
    } else if same_chars(name, "jbyte") {
        Some(NativeType::Jbyte)
    } else if same_chars(name, "jboolean") {
        Some(NativeType::Jboolean)
    } else if same_chars(name, "jchar") {
        Some(NativeType::Jchar)
    } else if same_chars(name, "jshort") {
        Some(NativeType::Jshort)
    } else if same_chars(name, "jfloat") {
        Some(NativeType::Jfloat)
    } else if same_chars(name, "jdouble") {
        Some(NativeType::Jdouble)
    } else if same_chars(name, "jobject") {
        Some(NativeType::Jobject)
    } else if same_chars(name, "jclass") {
        Some(NativeType::Jclass)
    } else if same_chars(name, "jthrowable") {
        Some(NativeType::Jthrowable)
    } else if same_chars(name, "jstring") {
        Some(NativeType::Jstring)
    } else if same_chars(name, "jarray") {
        Some(NativeType::Jarray)
    } else if same_chars(name, "jbooleanArray") {
        Some(NativeType::JbooleanArray)
    } else if same_chars(name, "jbyteArray") {
        Some(NativeType::JbyteArray)
    } else if same_chars(name, "jcharArray") {
        Some(NativeType::JcharArray)
    } else if same_chars(name, "jshortArray") {
        Some(NativeType::JshortArray)
    } else if same_chars(name, "jintArray") {
        Some(NativeType::JintArray)
    } else if same_chars(name, "jlongArray") {
        Some(NativeType::JlongArray)
    } else if same_chars(name, "jfloatArray") {
        Some(NativeType::JfloatArray)
    } else if same_chars(name, "jdoubleArray") {
        Some(NativeType::JdoubleArray)
    } else if same_chars(name, "jobjectArray") {
        Some(NativeType::JobjectArray)
    } else if same_chars(name, "JByteBuffer") {
        Some(NativeType::JByteBuffer)
    } else if same_chars(name, "JClass") {
        Some(NativeType::JClass)
    } else if same_chars(name, "JList") {
        Some(NativeType::JList)
    } else if same_chars(name, "JMap") {
        Some(NativeType::JMap)
    } else if same_chars(name, "JObject") {
        Some(NativeType::JObject)
    } else if same_chars(name, "JObjectArray") {
        Some(NativeType::JObjectArray)
    } else if same_chars(name, "JPrimitiveArray") {
        Some(NativeType::JPrimitiveArray)
    } else if same_chars(name, "JString") {
        Some(NativeType::JString)
    } else if same_chars(name, "JThrowable") {
        Some(NativeType::JThrowable)
    } else {
        None
    }
}

fn head_matches_at_exec(t: &Vec<char>, head: &Vec<char>, i: usize) -> (r: bool)
    ensures
        r == head_matches_at(t@, head@, i as int),
{
    if i > t.len() || head.len() > t.len() - i {
        return false;
    }
    let tlen = t.len();
    let mut k: usize = 0;
    while k < head.len()
        invariant
            tlen == t@.len(),
            i + head@.len() <= t@.len(),
            k <= head@.len(),
            forall|m: int| 0 <= m < k ==> (head@[m] == '.' || #[trigger] t@[i + m] == head@[m]),
        decreases head@.len() - k,
    {
        if head[k] != '.' && t[i + k] != head[k] {
            return false;
        }
        k += 1;
    }
    true
}

fn tail_ends_exec(t: &Vec<char>, tail: Tail, j: usize) -> (r: bool)
    ensures
        r == tail_ends(t@, tail, j as int),
{
    let n = t.len();
    match tail {
        Tail::Nothing => j == n,
        Tail::AnyChars => j < n,
        Tail::AnyCharsThen(c) => j < n && j + 1 < n && t[n - 1] == c,
        Tail::PrimitiveCode => j < n && j + 1 == n && is_value_code_exec(t[j]),
    }
}

} // verus!
