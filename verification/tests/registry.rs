use serde_json::Value;
use tremor_core::registry::{check_args, settle, FnError, Registry, TremorFnWrapper};
use tremor_core::value::ValueKind;

type TremorFn = fn(&[Value]) -> Result<Value, FnError>;

fn number(name: &str) -> (String, ValueKind) {
    (name.to_string(), ValueKind::Number)
}

fn null(_args: &[Value]) -> Result<Value, FnError> {
    Ok(Value::Null)
}

fn show(args: &[Value]) -> Result<Value, FnError> {
    match &args[0] {
        Value::Number(a) => Ok(format!("{}", a).into()),
        _ => Err(FnError::ExecutionError),
    }
}

fn sum_f64(args: &[Value]) -> Result<Value, FnError> {
    Ok(Value::from(args[0].as_f64().unwrap() + args[1].as_f64().unwrap()))
}

fn sum_i64(args: &[Value]) -> Result<Value, FnError> {
    Ok(Value::from(
        args[0].as_i64().unwrap() + args[1].as_i64().unwrap() + args[2].as_i64().unwrap(),
    ))
}

fn max(args: &[Value]) -> Result<Value, FnError> {
    match (args[0].as_f64(), args[1].as_f64()) {
        (Some(a), Some(b)) => Ok(if a > b { args[0].clone() } else { args[1].clone() }),
        _ => Err(FnError::ExecutionError),
    }
}

fn answer(_args: &[Value]) -> Result<Value, FnError> {
    Ok(Value::from(42))
}

fn fails(_args: &[Value]) -> Result<Value, FnError> {
    Err(FnError::BadType)
}

fn shown() -> TremorFnWrapper<TremorFn> {
    TremorFnWrapper::new("module", "name", vec![number("_a")], show as TremorFn)
}

fn registry() -> Registry<TremorFn> {
    Registry::new(vec![
        TremorFnWrapper::new("math", "max", vec![number("a"), number("b")], max as TremorFn),
        TremorFnWrapper::new("math", "answer", vec![], answer as TremorFn),
        TremorFnWrapper::new("text", "show", vec![number("a")], show as TremorFn),
    ])
}

#[test]
fn t() {
    assert_eq!(
        TremorFnWrapper::new("module", "name", vec![], null as TremorFn),
        shown()
    )
}

#[test]
fn call_a_function_from_a_registry_works() {
    let returned_value = registry().find("math", "max");
    assert_eq!(
        Value::from(2),
        returned_value
            .unwrap()
            .invoke(&[Value::from(1), Value::from(2)])
            .unwrap()
    );
}

#[test]
fn t1() {
    let f = shown();
    assert_eq!(f.invoke(&[Value::from(1)]).unwrap(), Value::from("1"));
}

#[test]
fn bad_arrity() {
    let f = shown();
    let args = &[Value::from(1), Value::from(2)];
    assert_eq!(f.invoke(args), Err(FnError::BadArity));
}

#[test]
fn bad_type() {
    let f = shown();
    assert_eq!(f.invoke(&[Value::from("1")]), Err(FnError::BadType));
}

#[test]
fn add() {
    let f = TremorFnWrapper::new(
        "module",
        "name",
        vec![number("_a"), number("_b")],
        sum_f64 as TremorFn,
    );
    assert_eq!(
        f.invoke(&[Value::from(2), Value::from(1)]).unwrap(),
        Value::from(3.0)
    )
}

#[test]
fn t3() {
    let f = TremorFnWrapper::new(
        "module",
        "name",
        vec![number("_a"), number("_b"), number("_c")],
        sum_i64 as TremorFn,
    );
    let args = &[Value::from(1), Value::from(2), Value::from(3)];
    assert_eq!(f.invoke(args).unwrap(), Value::from(6));
}

#[test]
fn registry_format_with_3_args() {
    let f = registry().find("math", "max").unwrap();
    assert_eq!(
        f.invoke(&[Value::from(1), Value::from(2), Value::from(3)]),
        Err(FnError::BadArity)
    );
}

#[test]
fn max_of_two_strings_is_a_bad_type() {
    let f = registry().find("math", "max").unwrap();
    assert_eq!(
        f.invoke(&[Value::from("1"), Value::from("2")]),
        Err(FnError::BadType)
    );
}

#[test]
fn find_returns_the_entry_asked_for() {
    let r = registry();
    for (module, name, arity) in [("math", "max", 2), ("math", "answer", 0), ("text", "show", 1)] {
        let f = r.find(module, name).unwrap();
        assert_eq!(f.module(), module);
        assert_eq!(f.name(), name);
        assert_eq!(f.arity(), arity);
    }
}

#[test]
fn unknown_module_is_an_execution_error() {
    assert_eq!(registry().find("maths", "max").err(), Some(FnError::ExecutionError));
}

#[test]
fn unknown_name_in_a_known_module_is_an_execution_error() {
    assert_eq!(registry().find("math", "min").err(), Some(FnError::ExecutionError));
    assert_eq!(registry().find("math", "show").err(), Some(FnError::ExecutionError));
}

#[test]
fn empty_registry_knows_nothing() {
    let r: Registry<TremorFn> = Registry::new(vec![]);
    assert_eq!(r.find("math", "max").err(), Some(FnError::ExecutionError));
}

#[test]
fn find_twice_gives_the_same_entry() {
    let r = registry();
    let first = r.find("math", "max").unwrap();
    let second = r.find("math", "max").unwrap();
    assert_eq!(first, second);
    assert_eq!(first.arity(), second.arity());
    let args = [Value::from(7), Value::from(3)];
    assert_eq!(first.invoke(&args), second.invoke(&args));
    assert_eq!(r.find("no", "such").err(), r.find("no", "such").err());
}

#[test]
fn first_registration_of_a_pair_stays() {
    let r = Registry::new(vec![
        TremorFnWrapper::new("math", "max", vec![number("a"), number("b")], max as TremorFn),
        TremorFnWrapper::new("math", "max", vec![], answer as TremorFn),
    ]);
    let f = r.find("math", "max").unwrap();
    assert_eq!(f.arity(), 2);
    assert_eq!(f.invoke(&[Value::from(1), Value::from(2)]), Ok(Value::from(2)));
}

#[test]
fn wrong_count_is_bad_arity_whatever_the_shapes() {
    let f = registry().find("math", "max").unwrap();
    assert_eq!(f.invoke(&[]), Err(FnError::BadArity));
    assert_eq!(f.invoke(&[Value::from(1)]), Err(FnError::BadArity));
    assert_eq!(f.invoke(&[Value::from("a")]), Err(FnError::BadArity));
    assert_eq!(
        f.invoke(&[Value::Null, Value::from(true), Value::from("x")]),
        Err(FnError::BadArity)
    );
}

#[test]
fn one_wrong_shape_is_enough_for_bad_type() {
    let f = registry().find("math", "max").unwrap();
    assert_eq!(f.invoke(&[Value::from(1), Value::from("2")]), Err(FnError::BadType));
    assert_eq!(f.invoke(&[Value::from("1"), Value::from(2)]), Err(FnError::BadType));
    assert_eq!(f.invoke(&[Value::Null, Value::from(2)]), Err(FnError::BadType));
    assert_eq!(f.invoke(&[Value::from(1), Value::from(vec![1])]), Err(FnError::BadType));
}

#[test]
fn no_parameters_means_no_arguments() {
    let f = registry().find("math", "answer").unwrap();
    assert_eq!(f.invoke(&[]), Ok(Value::from(42)));
    assert_eq!(f.invoke(&[Value::Null]), Err(FnError::BadArity));
    assert_eq!(f.invoke(&[Value::from(1), Value::from(2)]), Err(FnError::BadArity));
}

#[test]
fn every_shape_is_told_apart() {
    let object = Value::Object(serde_json::Map::new());
    let values = [
        (Value::Null, ValueKind::Null),
        (Value::from(true), ValueKind::Bool),
        (Value::from(1.5), ValueKind::Number),
        (Value::from("s"), ValueKind::String),
        (Value::from(vec![1, 2]), ValueKind::Array),
        (object, ValueKind::Object),
    ];
    for (i, (_, expected)) in values.iter().enumerate() {
        let params = vec![("p".to_string(), *expected)];
        for (j, (v, _)) in values.iter().enumerate() {
            let verdict = check_args(&params, std::slice::from_ref(v));
            if i == j {
                assert_eq!(verdict, None);
            } else {
                assert_eq!(verdict, Some(FnError::BadType));
            }
        }
    }
}

#[test]
fn check_args_judges_the_count_first() {
    let params = vec![number("a")];
    assert_eq!(check_args(&params, &[]), Some(FnError::BadArity));
    assert_eq!(
        check_args(&params, &[Value::from("x"), Value::from("y")]),
        Some(FnError::BadArity)
    );
    assert_eq!(check_args(&params, &[Value::from("x")]), Some(FnError::BadType));
    assert_eq!(check_args(&params, &[Value::from(1)]), None);
}

#[test]
fn a_failing_body_is_an_execution_error() {
    let f = TremorFnWrapper::new("m", "fails", vec![], fails as TremorFn);
    assert_eq!(f.invoke(&[]), Err(FnError::ExecutionError));
    assert_eq!(settle(Err(FnError::BadArity)), Err(FnError::ExecutionError));
    assert_eq!(settle(Err(FnError::ExecutionError)), Err(FnError::ExecutionError));
    assert_eq!(settle(Ok(Value::from(1))), Ok(Value::from(1)));
}

#[test]
fn entries_are_equal_by_identity_alone() {
    let a = TremorFnWrapper::new("math", "max", vec![number("a"), number("b")], max as TremorFn);
    let b = TremorFnWrapper::new("math", "max", vec![], null as TremorFn);
    let c = TremorFnWrapper::new("math", "min", vec![number("a"), number("b")], max as TremorFn);
    let d = TremorFnWrapper::new("meth", "max", vec![number("a"), number("b")], max as TremorFn);
    assert!(a == b);
    assert!(a != c);
    assert!(a != d);
}

#[test]
fn a_copy_of_an_entry_is_the_same_function() {
    let a = shown();
    let b = a.clone();
    assert_eq!(a, b);
    assert_eq!(b.module(), "module");
    assert_eq!(b.name(), "name");
    assert_eq!(b.arity(), 1);
    assert_eq!(b.invoke(&[Value::from(12)]), Ok(Value::from("12")));
    assert_eq!(b.invoke(&[Value::from("12")]), Err(FnError::BadType));
}

#[test]
fn error_messages() {
    assert_eq!(FnError::BadArity.to_string(), "bad arity");
    assert_eq!(FnError::BadType.to_string(), "invalid type");
    assert_eq!(FnError::ExecutionError.to_string(), "function failed to execute");
}
