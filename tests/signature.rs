use jni_verify::descriptor::{parse_descriptor, serialize};
use jni_verify::error::{ContextParam, TypeSite, ValidationError};
use jni_verify::registry::{lookup, NativeType};
use jni_verify::validate::{check_context_params, is_jni_name, verify_signature, FunctionDecl};

fn decl(ident: &str, params: &[&str], ret: Option<&str>) -> FunctionDecl {
    FunctionDecl {
        ident: ident.to_string(),
        params: params.iter().map(|p| p.to_string()).collect(),
        ret: ret.map(|r| r.to_string()),
    }
}

fn chars(s: &str) -> Vec<char> {
    s.chars().collect()
}

#[test]
fn zero_parameters_void_return_passes() {
    let f = decl("Java_Test_foo3", &["JNIEnv", "JClass"], None);
    assert_eq!(verify_signature("foo3", "()V", &f), Ok(()));
}

#[test]
fn zero_parameters_string_return_passes() {
    let f = decl("Java_Test_foo3", &["JNIEnv", "JClass"], Some("jstring"));
    assert_eq!(verify_signature("foo3", "()Ljava.lang.String;", &f), Ok(()));
}

#[test]
fn string_and_float_parameters_pass() {
    let f = decl("Java_Test_foo2", &["JNIEnv", "JClass", "JString", "jfloat"], Some("jstring"));
    assert_eq!(verify_signature("foo2", "(Ljava.lang.String;F)Ljava.lang.String;", &f), Ok(()));
}

#[test]
fn underscores_in_method_name_pass() {
    let f = decl("Java_Test_foo4_123_d____", &["JNIEnv", "JClass", "JString", "jfloat"], None);
    assert_eq!(verify_signature("foo4_123_d____", "(Ljava.lang.String;F)V", &f), Ok(()));
}

#[test]
fn missing_parameter_is_count_mismatch() {
    let f = decl("Java_Test_foo2", &["JNIEnv", "JClass", "JString"], Some("jstring"));
    assert_eq!(
        verify_signature("foo2", "(Ljava.lang.String;F)Ljava.lang.String;", &f),
        Err(ValidationError::ParameterCountMismatch { descriptor: 2, declared: 1 })
    );
}

#[test]
fn wrong_name_fails_before_parameters() {
    let f = decl("Java_Test_wrongName", &["JNIEnv", "JClass", "jint"], Some("jint"));
    assert_eq!(verify_signature("foo", "(I)I", &f), Err(ValidationError::NamingConventionMismatch));
    let g = decl("Java_Test_wrongName", &["JClass"], Some("jlong"));
    assert_eq!(verify_signature("foo", "(I)I", &g), Err(ValidationError::NamingConventionMismatch));
}

#[test]
fn first_parameter_not_env_is_context_error() {
    let f = decl("Java_Test_foo", &["JObject", "JClass", "jint"], Some("jint"));
    assert_eq!(
        verify_signature("foo", "(I)I", &f),
        Err(ValidationError::MissingOrWrongContextParameter(ContextParam::Env))
    );
    let g = decl("Java_Test_foo", &["JClass", "JNIEnv"], Some("jint"));
    assert_eq!(
        verify_signature("foo", "(I)I", &g),
        Err(ValidationError::MissingOrWrongContextParameter(ContextParam::Env))
    );
}

#[test]
fn second_parameter_not_class_is_context_error() {
    let f = decl("Java_Test_foo", &["JNIEnv", "JObject", "jint"], Some("jint"));
    assert_eq!(
        verify_signature("foo", "(I)I", &f),
        Err(ValidationError::MissingOrWrongContextParameter(ContextParam::Class))
    );
    let g = decl("Java_Test_foo", &["JNIEnv"], Some("jint"));
    assert_eq!(
        verify_signature("foo", "()I", &g),
        Err(ValidationError::MissingOrWrongContextParameter(ContextParam::Class))
    );
    let h = decl("Java_Test_foo", &[], None);
    assert_eq!(
        verify_signature("foo", "()V", &h),
        Err(ValidationError::MissingOrWrongContextParameter(ContextParam::Env))
    );
}

#[test]
fn unbalanced_descriptor_is_malformed() {
    let f = decl("Java_Test_foo", &["JNIEnv", "JClass", "jint", "jfloat"], None);
    assert_eq!(verify_signature("foo", "(IF", &f), Err(ValidationError::MalformedDescriptor));
}

#[test]
fn junk_in_parameters_is_malformed() {
    let f = decl("Java_World_foo", &["JNIEnv", "JClass", "JObject", "jint"], Some("jfloat"));
    assert_eq!(
        verify_signature("foo", "(Lsome.package.Foo;asdI)Ljava.lang.Foo;", &f),
        Err(ValidationError::MalformedDescriptor)
    );
}

#[test]
fn parameter_type_mismatch_reports_index() {
    let f = decl("Java_Test_foo", &["JNIEnv", "JClass", "jint", "jlong"], None);
    assert_eq!(
        verify_signature("foo", "(IF)V", &f),
        Err(ValidationError::ParameterTypeMismatch { index: 1 })
    );
}

#[test]
fn unknown_parameter_type() {
    let f = decl("Java_Test_foo", &["JNIEnv", "JClass", "u8"], None);
    assert_eq!(
        verify_signature("foo", "(B)V", &f),
        Err(ValidationError::UnknownNativeType(TypeSite::Param(0)))
    );
}

#[test]
fn first_failing_parameter_decides() {
    let f = decl("Java_Test_foo", &["JNIEnv", "JClass", "jint", "u8"], None);
    assert_eq!(
        verify_signature("foo", "(JB)V", &f),
        Err(ValidationError::ParameterTypeMismatch { index: 0 })
    );
}

#[test]
fn unknown_return_type() {
    let f = decl("Java_Test_foo", &["JNIEnv", "JClass"], Some("i32"));
    assert_eq!(
        verify_signature("foo", "()I", &f),
        Err(ValidationError::UnknownNativeType(TypeSite::Return))
    );
}

#[test]
fn return_type_mismatch() {
    let f = decl("Java_Test_foo", &["JNIEnv", "JClass", "jint"], Some("jint"));
    assert_eq!(
        verify_signature("foo", "(I)J", &f),
        Err(ValidationError::ReturnTypeMismatch { declared: NativeType::Jint, expected_at: 3 })
    );
    let g = decl("Java_Test_foo", &["JNIEnv", "JClass"], None);
    assert_eq!(
        verify_signature("foo", "()I", &g),
        Err(ValidationError::ReturnTypeMismatch { declared: NativeType::Unit, expected_at: 2 })
    );
}

#[test]
fn array_and_object_parameters_pass() {
    let f = decl(
        "Java_pkg_Foo_bar",
        &["JNIEnv", "JClass", "jintArray", "jobjectArray", "jarray", "JPrimitiveArray", "jobject"],
        Some("jbyteArray"),
    );
    assert_eq!(
        verify_signature("bar", "([I[Ljava/lang/String;[[D[ZLpkg/Foo;)[B", &f),
        Ok(())
    );
}

#[test]
fn parse_splits_fragments() {
    let sig = parse_descriptor("(I[[JLjava/lang/String;)V").unwrap();
    assert_eq!(sig.params, vec![chars("I"), chars("[[J"), chars("Ljava/lang/String;")]);
    assert_eq!(sig.ret, chars("V"));
    let empty = parse_descriptor("()Lpkg/Foo;").unwrap();
    assert!(empty.params.is_empty());
    assert_eq!(empty.ret, chars("Lpkg/Foo;"));
}

#[test]
fn parse_rejects_malformed() {
    for d in ["", "I)V", "(I)", "(I)VV", "(V)V", "([V)V", "(L;)V", "(Lfoo)V", "(I)[V", "(I)V;", "(I)(V"] {
        assert_eq!(
            parse_descriptor(d).err(),
            Some(ValidationError::MalformedDescriptor),
            "descriptor {:?}",
            d
        );
    }
}

#[test]
fn parse_then_serialize_round_trips() {
    for d in ["()V", "(I[[JLjava/lang/String;)V", "(Ljava.lang.String;F)Ljava.lang.String;", "([Z)[[Lx;"] {
        let sig = parse_descriptor(d).unwrap();
        assert_eq!(serialize(&sig), chars(d));
    }
}

#[test]
fn parse_is_deterministic() {
    let d = "(Ljava.lang.String;[IZ)J";
    let a = parse_descriptor(d).unwrap();
    let b = parse_descriptor(d).unwrap();
    assert_eq!(a.params, b.params);
    assert_eq!(a.ret, b.ret);
}

#[test]
fn validate_is_repeatable() {
    let f = decl("Java_Test_foo", &["JNIEnv", "JClass", "jint", "jlong"], None);
    let first = verify_signature("foo", "(IF)V", &f);
    let second = verify_signature("foo", "(IF)V", &f);
    assert_eq!(first, second);
}

#[test]
fn registry_lookup() {
    assert_eq!(lookup(&chars("jint")), Some(NativeType::Jint));
    assert_eq!(lookup(&chars("()")), Some(NativeType::Unit));
    assert_eq!(lookup(&chars("JString")), Some(NativeType::JString));
    assert_eq!(lookup(&chars("jstring")), Some(NativeType::Jstring));
    assert_eq!(lookup(&chars("JNIEnv")), None);
    assert_eq!(lookup(&chars("")), None);
}

#[test]
fn registry_patterns() {
    assert!(NativeType::Jint.accepts(&chars("I")));
    assert!(!NativeType::Jint.accepts(&chars("J")));
    assert!(NativeType::Jobject.accepts(&chars("Lpkg/Foo;")));
    assert!(!NativeType::Jobject.accepts(&chars("I")));
    assert!(NativeType::Jstring.accepts(&chars("Ljava/lang/String;")));
    assert!(!NativeType::Jstring.accepts(&chars("Ljava/lang/Object;")));
    assert!(NativeType::JString.accepts(&chars("Ljava.lang.String;")));
    assert!(NativeType::Jarray.accepts(&chars("[[I")));
    assert!(!NativeType::Jarray.accepts(&chars("[")));
    assert!(NativeType::JPrimitiveArray.accepts(&chars("[I")));
    assert!(!NativeType::JPrimitiveArray.accepts(&chars("[Lx;")));
    assert!(NativeType::JobjectArray.accepts(&chars("[Lx;")));
    assert!(!NativeType::JobjectArray.accepts(&chars("[I")));
    assert!(NativeType::Unit.accepts(&chars("V")));
}

#[test]
fn naming_convention() {
    assert!(is_jni_name("Java_Test_foo", "foo"));
    assert!(is_jni_name("Java_pkg_Test_foo", "foo"));
    assert!(!is_jni_name("Java__foo", "foo"));
    assert!(!is_jni_name("Test_foo", "foo"));
    assert!(!is_jni_name("Java_Test_bar", "foo"));
    assert!(is_jni_name("Java_X_foo.bar", "foo.bar"));
    assert!(!is_jni_name("Java_X_fooxbar", "foo.bar"));
    assert!(!is_jni_name("Java_X_foo", "fo+"));
}

#[test]
fn context_parameters() {
    let ok: Vec<String> = vec!["JNIEnv".to_string(), "JClass".to_string(), "jint".to_string()];
    assert_eq!(check_context_params(&ok), None);
    let bad: Vec<String> = vec!["JNIEnv".to_string(), "jclass".to_string()];
    assert_eq!(check_context_params(&bad), Some(ContextParam::Class));
}

#[test]
fn primitive_parameter_rejects_object_fragment() {
    let f = decl("Java_Test_foo", &["JNIEnv", "JClass", "jint"], None);
    assert_eq!(
        verify_signature("foo", "(Ljava.lang.Integer;)V", &f),
        Err(ValidationError::ParameterTypeMismatch { index: 0 })
    );
    assert_eq!(
        verify_signature("foo", "([I)V", &f),
        Err(ValidationError::ParameterTypeMismatch { index: 0 })
    );
}

#[test]
fn no_return_type_rejects_object_return() {
    let f = decl("Java_Test_foo", &["JNIEnv", "JClass"], None);
    assert_eq!(
        verify_signature("foo", "()Lcom/example/View;", &f),
        Err(ValidationError::ReturnTypeMismatch { declared: NativeType::Unit, expected_at: 2 })
    );
}

#[test]
fn patterns_cover_whole_fragment() {
    assert!(!NativeType::Jint.accepts(&chars("[I")));
    assert!(!NativeType::Jint.accepts(&chars("Ljava/lang/Integer;")));
    assert!(!NativeType::Jchar.accepts(&chars("Ljava/lang/Class;")));
    assert!(!NativeType::Unit.accepts(&chars("Lcom/example/View;")));
    assert!(!NativeType::JString.accepts(&chars("Ljava.lang.StringBuilder;")));
    assert!(!NativeType::JPrimitiveArray.accepts(&chars("[[I")));
    assert!(!NativeType::JintArray.accepts(&chars("[[I")));
    assert!(NativeType::JObjectArray.accepts(&chars("[Ljava/lang/Object;")));
    assert!(NativeType::JList.accepts(&chars("Ljava/util/List;")));
    assert!(NativeType::JMap.accepts(&chars("Ljava/util/Map;")));
    assert!(NativeType::JByteBuffer.accepts(&chars("Ljava/nio/ByteBuffer;")));
    assert!(NativeType::JClass.accepts(&chars("Ljava/lang/Class;")));
    assert!(NativeType::JThrowable.accepts(&chars("Ljava/lang/Throwable;")));
    assert!(!NativeType::Jobject.accepts(&chars("L;")));
}
