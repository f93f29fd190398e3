use builder::context::FieldDescriptor;
use builder::directive::FieldOptions;
use builder::semantics::{plan_for, BuilderState, FieldPlan, Finished, FinishRule, Value};
use builder::ty::TypeExpr;
use builder::Shape;

fn plan(name: &str, rule: FinishRule) -> FieldPlan {
    FieldPlan { name: name.to_string(), rule }
}

fn one(s: &str) -> Value {
    Value::One(s.to_string())
}

fn many(items: &[&str]) -> Value {
    Value::Many(items.iter().map(|s| s.to_string()).collect())
}

fn expect_val(f: &Finished) -> &Value {
    match f {
        Finished::Val(v) => v,
        Finished::Opt(_) => panic!("expected a definite field"),
    }
}

fn expect_many(v: &Value) -> Vec<String> {
    match v {
        Value::Many(items) => items.clone(),
        Value::One(_) => panic!("expected accumulated elements"),
    }
}

#[test]
fn required_field_set_then_finish_succeeds() {
    // One required field `executable`, set before finishing.
    let plans = vec![plan("executable", FinishRule::Required)];
    let b = BuilderState::fresh(1).set(0, one("find"));
    let out = b.finish(&plans).unwrap();
    assert_eq!(out.len(), 1);
    assert!(matches!(expect_val(&out[0]), Value::One(s) if s == "find"));
}

#[test]
fn required_field_unset_fails_naming_it() {
    let plans = vec![plan("executable", FinishRule::Required)];
    let err = BuilderState::fresh(1).finish(&plans).unwrap_err();
    assert_eq!(err, "executable needs to be set!");
}

#[test]
fn first_unset_required_field_is_named() {
    let plans = vec![
        plan("alpha", FinishRule::Required),
        plan("beta", FinishRule::Required),
    ];
    let err = BuilderState::fresh(2).finish(&plans).unwrap_err();
    assert_eq!(err, "alpha needs to be set!");

    let err = BuilderState::fresh(2).set(0, one("a")).finish(&plans).unwrap_err();
    assert_eq!(err, "beta needs to be set!");
}

#[test]
fn all_required_set_never_fails() {
    let plans = vec![
        plan("alpha", FinishRule::Required),
        plan("beta", FinishRule::Required),
    ];
    let b = BuilderState::fresh(2).set(0, one("a")).set(1, one("b"));
    assert!(b.finish(&plans).is_ok());
}

#[test]
fn optional_field_round_trips() {
    let plans = vec![plan("current_dir", FinishRule::TakeOptional)];
    // Never set: finishing succeeds and the field is unset.
    let out = BuilderState::fresh(1).finish(&plans).unwrap();
    assert!(matches!(&out[0], Finished::Opt(None)));
    // Set: finishing succeeds and the field holds exactly the value.
    let out = BuilderState::fresh(1).set(0, one("/tmp")).finish(&plans).unwrap();
    assert!(matches!(&out[0], Finished::Opt(Some(Value::One(s))) if s == "/tmp"));
}

#[test]
fn accumulator_preserves_call_order() {
    // A sequence field `args` with accumulator `arg`:
    // builder().arg("-c").arg("-vv").finish() yields ["-c", "-vv"].
    let plans = vec![plan("args", FinishRule::Required)];
    let b = BuilderState::fresh(1)
        .accumulate(0, "-c".to_string())
        .accumulate(0, "-vv".to_string());
    let out = b.finish(&plans).unwrap();
    assert_eq!(expect_many(expect_val(&out[0])), vec!["-c", "-vv"]);
}

#[test]
fn accumulator_keeps_duplicates() {
    let plans = vec![plan("args", FinishRule::Required)];
    let b = BuilderState::fresh(1)
        .accumulate(0, "x".to_string())
        .accumulate(0, "x".to_string())
        .accumulate(0, "x".to_string());
    let out = b.finish(&plans).unwrap();
    assert_eq!(expect_many(expect_val(&out[0])), vec!["x", "x", "x"]);
}

#[test]
fn whole_value_setter_overwrites_accumulated_state() {
    let plans = vec![plan("args", FinishRule::Required)];
    let b = BuilderState::fresh(1)
        .accumulate(0, "-a".to_string())
        .accumulate(0, "-b".to_string())
        .set(0, many(&["-z"]));
    let out = b.finish(&plans).unwrap();
    assert_eq!(expect_many(expect_val(&out[0])), vec!["-z"]);
}

#[test]
fn default_used_only_when_unset() {
    // A sequence field `env` with accumulator `env_item` and a default.
    let default = many(&["RUST_LOG=info"]);
    let plans = vec![plan("env", FinishRule::UseDefault(default))];
    // Never accumulated: the default comes through unchanged.
    let out = BuilderState::fresh(1).finish(&plans).unwrap();
    assert_eq!(expect_many(expect_val(&out[0])), vec!["RUST_LOG=info"]);
    // Accumulated once: the default is not merged in.
    let out = BuilderState::fresh(1)
        .accumulate(0, "X=1".to_string())
        .finish(&plans)
        .unwrap();
    assert_eq!(expect_many(expect_val(&out[0])), vec!["X=1"]);
}

#[test]
fn finished_record_keeps_field_order() {
    let plans = vec![
        plan("first", FinishRule::Required),
        plan("second", FinishRule::TakeOptional),
        plan("third", FinishRule::UseDefault(one("d"))),
    ];
    let b = BuilderState::fresh(3).set(0, one("1")).set(1, one("2"));
    let out = b.finish(&plans).unwrap();
    assert_eq!(out.len(), 3);
    assert!(matches!(expect_val(&out[0]), Value::One(s) if s == "1"));
    assert!(matches!(&out[1], Finished::Opt(Some(Value::One(s))) if s == "2"));
    assert!(matches!(expect_val(&out[2]), Value::One(s) if s == "d"));
}

fn descriptor(name: &str, shape: Shape, default_expr: Option<&str>) -> FieldDescriptor {
    FieldDescriptor {
        name: name.to_string(),
        declared: TypeExpr { text: "String".to_string(), head: Some("String".to_string()), args: vec![] },
        shape,
        inner: "String".to_string(),
        options: FieldOptions {
            each_name: None,
            default_expr: default_expr.map(|s| s.to_string()),
        },
    }
}

#[test]
fn plan_priority_order() {
    // Optional beats a configured default; a default beats required.
    let f = descriptor("dir", Shape::Optional, Some("fallback()"));
    assert!(matches!(plan_for(&f, Some(one("x"))).rule, FinishRule::TakeOptional));

    let f = descriptor("env", Shape::Sequence, Some("fallback()"));
    let p = plan_for(&f, Some(many(&["a"])));
    assert!(matches!(&p.rule, FinishRule::UseDefault(Value::Many(v)) if v == &vec!["a"]));

    let f = descriptor("executable", Shape::Plain, None);
    let p = plan_for(&f, None);
    assert!(matches!(p.rule, FinishRule::Required));
    assert_eq!(p.name, "executable");
}
