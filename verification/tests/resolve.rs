use builder::directive::{lookup_directive, resolve_options, Directive};

fn d(key: &str, value: &str) -> Directive {
    Directive { key: key.to_string(), value: value.to_string() }
}

#[test]
fn no_directives_yield_empty_options() {
    let opts = resolve_options(&vec![]);
    assert!(opts.each_name.is_none());
    assert!(opts.default_expr.is_none());
}

#[test]
fn each_and_default_are_recognized() {
    let ds = vec![d("each", "arg"), d("default", "vec![]")];
    let opts = resolve_options(&ds);
    assert_eq!(opts.each_name.as_deref(), Some("arg"));
    assert_eq!(opts.default_expr.as_deref(), Some("vec![]"));
}

#[test]
fn unknown_keys_are_ignored() {
    let ds = vec![d("rename", "x"), d("skip", "true")];
    let opts = resolve_options(&ds);
    assert!(opts.each_name.is_none());
    assert!(opts.default_expr.is_none());
}

#[test]
fn unknown_keys_do_not_hide_recognized_ones() {
    let ds = vec![d("rename", "x"), d("each", "item")];
    let opts = resolve_options(&ds);
    assert_eq!(opts.each_name.as_deref(), Some("item"));
    assert!(opts.default_expr.is_none());
}

#[test]
fn first_occurrence_wins() {
    let ds = vec![d("each", "first"), d("each", "second")];
    let opts = resolve_options(&ds);
    assert_eq!(opts.each_name.as_deref(), Some("first"));
}

#[test]
fn lookup_finds_first_match() {
    let ds = vec![d("a", "1"), d("b", "2"), d("a", "3")];
    assert_eq!(lookup_directive(&ds, "a").as_deref(), Some("1"));
    assert_eq!(lookup_directive(&ds, "b").as_deref(), Some("2"));
    assert_eq!(lookup_directive(&ds, "c"), None);
}

#[test]
fn default_expression_text_is_kept_verbatim() {
    let ds = vec![d("default", "compute(1 + 2, \"x\")")];
    let opts = resolve_options(&ds);
    assert_eq!(opts.default_expr.as_deref(), Some("compute(1 + 2, \"x\")"));
}
