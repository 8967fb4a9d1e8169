//! The check of a binding function against its descriptor: naming
//! convention, context parameters, parameter types and return type, in that
//! order, stopping at the first failure.
use vstd::prelude::*;

use crate::descriptor::{parse_descriptor, parse_spec};
use crate::error::{ContextParam, TypeSite, ValidationError};
use crate::registry::{lookup, lookup_spec, NativeType};
use crate::text::{chars_of, chars_occur_at, occurs_at, push_chars, same_chars};

verus! {

/// A binding function as declared: its name, the native type names of all its
/// parameters (context parameters included), and the native type name of its
/// return type, if it declares one.
pub struct FunctionDecl {
    pub ident: String,
    pub params: Vec<String>,
    pub ret: Option<String>,
}

impl FunctionDecl {
    pub open spec fn params_view(&self) -> Seq<Seq<char>> {
        self.params@.map_values(|p: String| p@)
    }

    pub open spec fn ret_view(&self) -> Option<Seq<char>> {
        match self.ret {
            Some(r) => Some(r@),
            None => None,
        }
    }
}

/// `ident` holds `Java_`, then at least one character, then `_<method>`.
pub open spec fn jni_name_matches(ident: Seq<char>, method: Seq<char>) -> bool {
    exists|i: int, k: int|
        #![trigger occurs_at(ident, "Java_"@, i), occurs_at(ident, seq!['_'] + method, k)]
        occurs_at(ident, "Java_"@, i) && i + "Java_"@.len() + 1 <= k && occurs_at(
            ident,
            seq!['_'] + method,
            k,
        )
}

/// The first context parameter that is missing or of another type, if any.
pub open spec fn context_failure(params: Seq<Seq<char>>) -> Option<ContextParam> {
    if !(params.len() >= 1 && params[0] == "JNIEnv"@) {
        Some(ContextParam::Env)
    } else if !(params.len() >= 2 && params[1] == "JClass"@) {
        Some(ContextParam::Class)
    } else {
        None
    }
}

/// The first failure among the parameter pairs from index `i` on: a name the
/// registry does not know, or a type that does not accept its fragment.
pub open spec fn param_failure(declared: Seq<Seq<char>>, tokens: Seq<Seq<char>>, i: int) -> Option<
    ValidationError,
>
    decreases declared.len() - i,
{
    if i < 0 || i >= declared.len() || i >= tokens.len() {
        None
    } else {
        match lookup_spec(declared[i]) {
            None => Some(ValidationError::UnknownNativeType(TypeSite::Param(i as usize))),
            Some(t) => if !t.accepts_spec(tokens[i]) {
                Some(ValidationError::ParameterTypeMismatch { index: i as usize })
            } else {
                param_failure(declared, tokens, i + 1)
            },
        }
    }
}

/// The native type name of the return type: `()` where none is declared.
pub open spec fn return_name(ret: Option<Seq<char>>) -> Seq<char> {
    match ret {
        Some(r) => r,
        None => "()"@,
    }
}

/// The outcome of the return type check against the return fragment `tok`,
/// which starts at index `at` of the descriptor.
pub open spec fn return_check(ret: Option<Seq<char>>, tok: Seq<char>, at: usize) -> Result<
    (),
    ValidationError,
> {
    match lookup_spec(return_name(ret)) {
        None => Err(ValidationError::UnknownNativeType(TypeSite::Return)),
        Some(t) => if t.accepts_spec(tok) {
            Ok(())
        } else {
            Err(ValidationError::ReturnTypeMismatch { declared: t, expected_at: at })
        },
    }
}

/// The outcome of checking a binding function (`ident`, `params`, `ret`)
/// against `descriptor` for the method named `method`.
pub open spec fn verdict(
    method: Seq<char>,
    descriptor: Seq<char>,
    ident: Seq<char>,
    params: Seq<Seq<char>>,
    ret: Option<Seq<char>>,
) -> Result<(), ValidationError> {
    match parse_spec(descriptor) {
        None => Err(ValidationError::MalformedDescriptor),
        Some((tokens, rtok)) => if !jni_name_matches(ident, method) {
            Err(ValidationError::NamingConventionMismatch)
        } else {
            match context_failure(params) {
                Some(c) => Err(ValidationError::MissingOrWrongContextParameter(c)),
                None => {
                    let declared = params.skip(2);
                    if tokens.len() != declared.len() {
                        Err(
                            ValidationError::ParameterCountMismatch {
                                descriptor: tokens.len() as usize,
                                declared: declared.len() as usize,
                            },
                        )
                    } else {
                        match param_failure(declared, tokens, 0) {
                            Some(e) => Err(e),
                            None => return_check(
                                ret,
                                rtok,
                                (descriptor.len() - rtok.len()) as usize,
                            ),
                        }
                    }
                },
            }
        },
    }
}

/// Whether `ident` follows the naming convention `Java_<Class>_<method>`.
/// The method name is compared character by character, so no character in it
/// has a special meaning.
pub fn is_jni_name(ident: &str, method: &str) -> (r: bool)
    ensures
        r == jni_name_matches(ident@, method@),
{
    let id = chars_of(ident);
    let prefix = chars_of("Java_");
    let mut suffix: Vec<char> = Vec::new();
    suffix.push('_');
    push_chars(&mut suffix, method);
    assert(suffix@ =~= seq!['_'] + method@);
    let n = id.len();
    let plen = prefix.len();
    let mut i: usize = 0;
    loop
        invariant
            n == id@.len(),
            id@ == ident@,
            prefix@ == "Java_"@,
            plen == prefix@.len(),
            suffix@ == seq!['_'] + method@,
            i <= n,
            forall|i2: int, k: int|
                #![trigger occurs_at(id@, prefix@, i2), occurs_at(id@, suffix@, k)]
                0 <= i2 < i ==> !(occurs_at(id@, prefix@, i2) && i2 + plen + 1 <= k && occurs_at(
                    id@,
                    suffix@,
                    k,
                )),
        decreases n - i,
    {
        if chars_occur_at(&id, &prefix, i) && i + plen < n {
            let mut k: usize = i + plen + 1;
            while k < n
                invariant
                    n == id@.len(),
                    id@ == ident@,
                    prefix@ == "Java_"@,
                    plen == prefix@.len(),
                    suffix@ == seq!['_'] + method@,
                    i < n,
                    occurs_at(id@, prefix@, i as int),
                    forall|i2: int, k3: int|
                        #![trigger occurs_at(id@, prefix@, i2), occurs_at(id@, suffix@, k3)]
                        0 <= i2 < i ==> !(occurs_at(id@, prefix@, i2) && i2 + plen + 1 <= k3
                            && occurs_at(id@, suffix@, k3)),
                    i + plen + 1 <= k <= n,
                    suffix@.len() >= 1,
                    forall|k2: int|
                        i + plen + 1 <= k2 < k ==> !#[trigger] occurs_at(id@, suffix@, k2),
                decreases n - k,
            {
                if chars_occur_at(&id, &suffix, k) {
                    assert(occurs_at(id@, prefix@, i as int) && occurs_at(id@, suffix@, k as int));
                    return true;
                }
                k += 1;
            }
            assert forall|k2: int| i + plen + 1 <= k2 implies !#[trigger] occurs_at(
                id@,
                suffix@,
                k2,
            ) by {
                if k2 >= n {
                    assert(!occurs_at(id@, suffix@, k2));
                }
            }
        }
        if i == n {
            return false;
        }
        i += 1;
    }
}

/// The first context parameter that is missing or of another type, if any.
pub fn check_context_params(params: &Vec<String>) -> (r: Option<ContextParam>)
    ensures
        r == context_failure(params@.map_values(|p: String| p@)),
{
    if params.len() < 1 || !same_chars(&chars_of(params[0].as_str()), "JNIEnv") {
        return Some(ContextParam::Env);
    }
    if params.len() < 2 || !same_chars(&chars_of(params[1].as_str()), "JClass") {
        return Some(ContextParam::Class);
    }
    None
}

/// The first failing parameter pair, if any, where the declared parameters
/// are those of `params` after the two context parameters.
fn check_parameters(params: &Vec<String>, tokens: &Vec<Vec<char>>) -> (r: Option<ValidationError>)
    requires
        params@.len() >= 2,
        tokens@.len() == params@.len() - 2,
    ensures
        r == param_failure(
            params@.map_values(|p: String| p@).skip(2),
            tokens@.map_values(|p: Vec<char>| p@),
            0,
        ),
{
    let ghost declared = params@.map_values(|p: String| p@).skip(2);
    let ghost tv = tokens@.map_values(|p: Vec<char>| p@);
    let np = params.len();
    let mut i: usize = 0;
    while i < tokens.len()
        invariant
            np == params@.len(),
            params@.len() >= 2,
            tokens@.len() == params@.len() - 2,
            declared == params@.map_values(|p: String| p@).skip(2),
            tv == tokens@.map_values(|p: Vec<char>| p@),
            i <= tokens@.len(),
            param_failure(declared, tv, 0) == param_failure(declared, tv, i as int),
        decreases tokens@.len() - i,
    {
        let name = chars_of(params[i + 2].as_str());
        assert(declared[i as int] == name@);
        match lookup(&name) {
            None => {
                return Some(ValidationError::UnknownNativeType(TypeSite::Param(i)));
            },
            Some(t) => {
                if !t.accepts(&tokens[i]) {
                    return Some(ValidationError::ParameterTypeMismatch { index: i });
                }
            },
        }
        i += 1;
    }
    None
}

/// The outcome of the return type check against the return fragment `tok`,
/// which starts at index `at` of the descriptor.
fn check_return(ret: &Option<String>, tok: &Vec<char>, at: usize) -> (r: Result<
    (),
    ValidationError,
>)
    ensures
        r == return_check(
            match ret {
                Some(s) => Some(s@),
                None => None,
            },
            tok@,
            at,
        ),
{
    let found = match ret {
        Some(s) => lookup(&chars_of(s.as_str())),
        None => Some(NativeType::Unit),
    };
    match found {
        None => Err(ValidationError::UnknownNativeType(TypeSite::Return)),
        Some(t) => if t.accepts(tok) {
            Ok(())
        } else {
            Err(ValidationError::ReturnTypeMismatch { declared: t, expected_at: at })
        },
    }
}

/// Checks the binding function `function` against `descriptor`, the JNI
/// descriptor of the method named `method`. The descriptor is parsed first;
/// then the function's name, its context parameters, its other parameters
/// and its return type are checked in that order, and the first failure is
/// returned. The outcome depends on the inputs alone.
pub fn verify_signature(method: &str, descriptor: &str, function: &FunctionDecl) -> (r: Result<
    (),
    ValidationError,
>)
    ensures
        r == verdict(
            method@,
            descriptor@,
            function.ident@,
            function.params_view(),
            function.ret_view(),
        ),
{
    let sig = match parse_descriptor(descriptor) {
        Ok(sig) => sig,
        Err(e) => {
            return Err(e);
        },
    };
    if !is_jni_name(function.ident.as_str(), method) {
        return Err(ValidationError::NamingConventionMismatch);
    }
    match check_context_params(&function.params) {
        Some(c) => {
            return Err(ValidationError::MissingOrWrongContextParameter(c));
        },
        None => {},
    }
    let declared = function.params.len() - 2;
    if sig.params.len() != declared {
        return Err(
            ValidationError::ParameterCountMismatch { descriptor: sig.params.len(), declared },
        );
    }
    match check_parameters(&function.params, &sig.params) {
        Some(e) => {
            return Err(e);
        },
        None => {},
    }
    let at = descriptor.unicode_len() - sig.ret.len();
    check_return(&function.ret, &sig.ret, at)
}

/// Once the descriptor parses, a function whose name breaks the naming
/// convention fails on its name, before any parameter is looked at.
pub proof fn lemma_name_checked_first(
    method: Seq<char>,
    descriptor: Seq<char>,
    ident: Seq<char>,
    params: Seq<Seq<char>>,
    ret: Option<Seq<char>>,
)
    requires
        parse_spec(descriptor) is Some,
        !jni_name_matches(ident, method),
    ensures
        verdict(method, descriptor, ident, params, ret) == Err::<(), ValidationError>(
            ValidationError::NamingConventionMismatch,
        ),
{
}

/// Once the descriptor parses and the name is right, a function whose first
/// parameter is missing or is not `JNIEnv` fails on that parameter, whatever
/// its other parameters and its return type are.
pub proof fn lemma_env_param_checked(
    method: Seq<char>,
    descriptor: Seq<char>,
    ident: Seq<char>,
    params: Seq<Seq<char>>,
    ret: Option<Seq<char>>,
)
    requires
        parse_spec(descriptor) is Some,
        jni_name_matches(ident, method),
        params.len() == 0 || params[0] != "JNIEnv"@,
    ensures
        verdict(method, descriptor, ident, params, ret) == Err::<(), ValidationError>(
            ValidationError::MissingOrWrongContextParameter(ContextParam::Env),
        ),
{
}

} // verus!
