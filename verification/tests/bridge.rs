use nanochat_rust::adapter::greet;
use nanochat_rust::adapter::greet_adapter;
use nanochat_rust::registry::initialize;
use nanochat_rust::registry::ExportId;
use nanochat_rust::registry::Module;
use nanochat_rust::registry::Registry;
use nanochat_rust::registry::RegistryState;
use nanochat_rust::value::CallError;
use nanochat_rust::value::SetupError;
use nanochat_rust::value::Value;

#[test]
fn greet_world() {
    assert_eq!(greet("World"), "Hello from Rust, World!");
}

#[test]
fn greet_empty_name() {
    assert_eq!(greet(""), "Hello from Rust, !");
}

#[test]
fn greet_is_pure() {
    let first = greet("World");
    let second = greet("World");
    assert_eq!(first, second);
}

#[test]
fn adapter_accepts_text() {
    let r = greet_adapter(&Value::Text(String::from("World")));
    assert_eq!(r, Ok(Value::Text(String::from("Hello from Rust, World!"))));
}

#[test]
fn adapter_rejects_number() {
    let r = greet_adapter(&Value::Number(42));
    match r {
        Err(CallError::Conversion(m)) => {
            assert_eq!(m, "greet: expected a text argument");
        }
        other => panic!("expected a conversion error, got {:?}", other),
    }
}

#[test]
fn adapter_rejects_bool() {
    let r = greet_adapter(&Value::Bool(true));
    assert!(matches!(r, Err(CallError::Conversion(_))));
}

#[test]
fn initialize_populates_namespace() {
    let mut reg = Registry::new();
    let mut m = Module::new();
    assert_eq!(reg.state, RegistryState::Uninitialized);
    let r = initialize(&mut reg, &mut m);
    assert_eq!(r, Ok(()));
    assert_eq!(reg.state, RegistryState::Ready);
    assert_eq!(m.entries.len(), 1);
    assert_eq!(m.entries[0].name, "greet");
    assert_eq!(m.entries[0].func, ExportId::Greet);
    assert_eq!(m.lookup(&String::from("greet")), Some(ExportId::Greet));
}

#[test]
fn initialize_twice_is_a_no_op() {
    let mut reg = Registry::new();
    let mut m = Module::new();
    assert_eq!(initialize(&mut reg, &mut m), Ok(()));
    let snapshot = m.clone();
    let r = initialize(&mut reg, &mut m);
    assert_eq!(r, Ok(()));
    assert_eq!(reg.state, RegistryState::Ready);
    assert_eq!(m, snapshot);
}

#[test]
fn initialize_fails_on_taken_name() {
    let mut reg = Registry::new();
    let mut m = Module::new();
    assert_eq!(m.attach(String::from("greet"), ExportId::Greet), Ok(()));
    let r = initialize(&mut reg, &mut m);
    match r {
        Err(SetupError::DuplicateName(n)) => assert_eq!(n, "greet"),
        other => panic!("expected a duplicate-name error, got {:?}", other),
    }
    assert_eq!(reg.state, RegistryState::Failed);
    assert_eq!(m.entries.len(), 1);
}

#[test]
fn initialize_after_failure_keeps_failing() {
    let mut reg = Registry::new();
    let mut m = Module::new();
    m.attach(String::from("greet"), ExportId::Greet).unwrap();
    assert!(initialize(&mut reg, &mut m).is_err());
    let r = initialize(&mut reg, &mut m);
    assert_eq!(r, Err(SetupError::Unavailable));
    assert_eq!(reg.state, RegistryState::Failed);
    assert_eq!(m.entries.len(), 1);
}

#[test]
fn attach_rejects_duplicate_name() {
    let mut m = Module::new();
    assert_eq!(m.attach(String::from("greet"), ExportId::Greet), Ok(()));
    let r = m.attach(String::from("greet"), ExportId::Greet);
    match r {
        Err(e @ SetupError::DuplicateName(_)) => {
            assert_eq!(e.message(), "duplicate export name: greet");
        }
        other => panic!("expected a duplicate-name error, got {:?}", other),
    }
    assert_eq!(m.entries.len(), 1);
}

#[test]
fn call_dispatches_by_name() {
    let mut reg = Registry::new();
    let mut m = Module::new();
    initialize(&mut reg, &mut m).unwrap();
    let r = m.call(&String::from("greet"), &Value::Text(String::from("World")));
    assert_eq!(
        r,
        Some(Ok(Value::Text(String::from("Hello from Rust, World!"))))
    );
}

#[test]
fn call_rejects_non_text_argument() {
    let mut reg = Registry::new();
    let mut m = Module::new();
    initialize(&mut reg, &mut m).unwrap();
    let r = m.call(&String::from("greet"), &Value::Number(7));
    match r {
        Some(Err(CallError::Conversion(m))) => {
            assert_eq!(m, "greet: expected a text argument");
        }
        other => panic!("expected a conversion error, got {:?}", other),
    }
}

#[test]
fn call_unknown_name_is_none() {
    let mut reg = Registry::new();
    let mut m = Module::new();
    initialize(&mut reg, &mut m).unwrap();
    assert_eq!(m.call(&String::from("absent"), &Value::Bool(false)), None);
    assert_eq!(m.lookup(&String::from("absent")), None);
}

#[test]
fn lookup_on_empty_namespace_is_none() {
    let m = Module::new();
    assert_eq!(m.lookup(&String::from("greet")), None);
}

#[test]
fn error_messages_are_readable() {
    let c = CallError::Conversion(String::from("bad argument"));
    assert_eq!(c.message(), "bad argument");
    let n = CallError::Native(String::from("invariant violated"));
    assert_eq!(n.message(), "invariant violated");
    let u = SetupError::Unavailable;
    assert_eq!(
        u.message(),
        "module registry is not available for initialization"
    );
}
