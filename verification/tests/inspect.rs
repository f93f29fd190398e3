use builder::ty::{classify, get_option_inner, get_type_inner, get_vec_inner, TypeExpr};
use builder::{GenError, Shape};

fn texpr(text: &str, head: Option<&str>, args: &[&str]) -> TypeExpr {
    TypeExpr {
        text: text.to_string(),
        head: head.map(|s| s.to_string()),
        args: args.iter().map(|s| s.to_string()).collect(),
    }
}

#[test]
fn plain_type_is_plain() {
    let t = texpr("String", Some("String"), &[]);
    let (shape, inner) = classify(&t).unwrap();
    assert_eq!(shape, Shape::Plain);
    assert_eq!(inner, "String");
}

#[test]
fn option_wrapper_is_optional() {
    let t = texpr("Option<String>", Some("Option"), &["String"]);
    let (shape, inner) = classify(&t).unwrap();
    assert_eq!(shape, Shape::Optional);
    assert_eq!(inner, "String");
}

#[test]
fn vec_wrapper_is_sequence() {
    let t = texpr("Vec<String>", Some("Vec"), &["String"]);
    let (shape, inner) = classify(&t).unwrap();
    assert_eq!(shape, Shape::Sequence);
    assert_eq!(inner, "String");
}

#[test]
fn nested_wrapper_keeps_inner_text() {
    let t = texpr("Option<Vec<u32>>", Some("Option"), &["Vec<u32>"]);
    let (shape, inner) = classify(&t).unwrap();
    assert_eq!(shape, Shape::Optional);
    assert_eq!(inner, "Vec<u32>");
}

#[test]
fn matching_is_by_spelled_first_segment() {
    // A fully qualified spelling is not recognized: the first path segment
    // is `std`, not `Option`.
    let t = texpr("std::option::Option<String>", Some("std"), &[]);
    let (shape, inner) = classify(&t).unwrap();
    assert_eq!(shape, Shape::Plain);
    assert_eq!(inner, "std::option::Option<String>");
}

#[test]
fn non_path_type_is_plain() {
    let t = texpr("(u8, u8)", None, &[]);
    let (shape, inner) = classify(&t).unwrap();
    assert_eq!(shape, Shape::Plain);
    assert_eq!(inner, "(u8, u8)");
}

#[test]
fn bare_wrapper_is_fatal() {
    let t = texpr("Option", Some("Option"), &[]);
    let e = classify(&t).unwrap_err();
    assert!(matches!(e, GenError::WrapperArity { wrapper, count } if wrapper == "Option" && count == 0));
}

#[test]
fn two_argument_wrapper_is_fatal() {
    let t = texpr("Vec<String, Alloc>", Some("Vec"), &["String", "Alloc"]);
    let e = classify(&t).unwrap_err();
    assert!(matches!(e, GenError::WrapperArity { wrapper, count } if wrapper == "Vec" && count == 2));
}

#[test]
fn option_inner_unwraps_only_option() {
    let o = texpr("Option<u8>", Some("Option"), &["u8"]);
    let v = texpr("Vec<u8>", Some("Vec"), &["u8"]);
    assert_eq!(get_option_inner(&o).unwrap(), (true, "u8".to_string()));
    assert_eq!(get_option_inner(&v).unwrap(), (false, "Vec<u8>".to_string()));
    assert_eq!(get_vec_inner(&v).unwrap(), (true, "u8".to_string()));
    assert_eq!(get_vec_inner(&o).unwrap(), (false, "Option<u8>".to_string()));
}

#[test]
fn unrecognized_wrapper_keeps_bad_arity() {
    // Arity is checked only for the wrapper that matches: a `Result` with
    // two arguments is simply a plain type.
    let t = texpr("Result<A, B>", Some("Result"), &["A", "B"]);
    let (shape, inner) = classify(&t).unwrap();
    assert_eq!(shape, Shape::Plain);
    assert_eq!(inner, "Result<A, B>");
    assert_eq!(get_type_inner(&t, "Result").unwrap_err().message(),
        "Result must take exactly one type argument");
}
