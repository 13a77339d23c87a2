use avm2_object::function::Executable;
use avm2_object::names::QName;
use avm2_object::object::{Object, ScriptObject};
use avm2_object::property::Property;
use avm2_object::storage::ScriptObjectData;
use avm2_object::value::{Error, ReturnValue, Value};

fn name(local: &str) -> QName {
    QName::new(String::from("public"), String::from(local))
}

fn this() -> Object {
    Object::ScriptObject(ScriptObject { index: 0 })
}

fn deferred(callable: Executable, arguments: Vec<Value>) -> ReturnValue {
    ReturnValue::ResultOf { callable, receiver: this(), arguments }
}

#[test]
fn qname_same_compares_both_parts() {
    let a = QName::new(String::from("ns"), String::from("v"));
    assert!(a.same(&QName::new(String::from("ns"), String::from("v"))));
    assert!(!a.same(&QName::new(String::from("other"), String::from("v"))));
    assert!(!a.same(&QName::new(String::from("ns"), String::from("w"))));
    assert!(a.same(&a.clone()));
}

#[test]
fn base_new_has_no_property_no_slot_and_the_given_proto() {
    let bare = ScriptObjectData::base_new(None);
    assert_eq!(bare.proto(), None);
    assert_eq!(bare.slot_count(), 0);
    assert!(!bare.has_property(&name("anything")));
    let based = ScriptObjectData::base_new(Some(this()));
    assert_eq!(based.proto(), Some(this()));
}

#[test]
fn absent_name_reads_undefined() {
    let o = ScriptObjectData::base_new(None);
    assert!(!o.has_property(&name("missing")));
    assert_eq!(
        o.get_property(&name("missing"), this()),
        Ok(ReturnValue::Immediate(Value::Undefined))
    );
}

#[test]
fn installed_dynamic_property_is_read_back() {
    let mut o = ScriptObjectData::base_new(None);
    assert_eq!(o.install_dynamic_property(name("x"), Value::Integer(5)), Ok(()));
    assert!(o.has_property(&name("x")));
    assert_eq!(o.get_property(&name("x"), this()), Ok(ReturnValue::Immediate(Value::Integer(5))));
    assert!(!o.has_property(&name("y")));
    assert!(!o.has_property(&QName::new(String::from("private"), String::from("x"))));
}

#[test]
fn install_dynamic_property_replaces_what_was_there() {
    let mut o = ScriptObjectData::base_new(None);
    o.install_method(name("x"), this());
    assert_eq!(o.install_dynamic_property(name("x"), Value::Bool(true)), Ok(()));
    assert_eq!(o.install_dynamic_property(name("x"), Value::Unsigned(9)), Ok(()));
    assert_eq!(o.get_property(&name("x"), this()), Ok(ReturnValue::Immediate(Value::Unsigned(9))));
}

#[test]
fn set_property_creates_an_absent_name() {
    let mut o = ScriptObjectData::base_new(None);
    assert_eq!(
        o.set_property(&name("fresh"), Value::Integer(1), this()),
        Ok(ReturnValue::Immediate(Value::Undefined))
    );
    assert!(o.has_property(&name("fresh")));
    assert_eq!(
        o.get_property(&name("fresh"), this()),
        Ok(ReturnValue::Immediate(Value::Integer(1)))
    );
}

#[test]
fn set_property_overwrites_a_stored_value() {
    let mut o = ScriptObjectData::base_new(None);
    o.install_dynamic_property(name("a"), Value::Integer(1)).unwrap();
    o.install_dynamic_property(name("b"), Value::Integer(2)).unwrap();
    assert_eq!(
        o.set_property(&name("a"), Value::Integer(3), this()),
        Ok(ReturnValue::Immediate(Value::Undefined))
    );
    assert_eq!(o.get_property(&name("a"), this()), Ok(ReturnValue::Immediate(Value::Integer(3))));
    assert_eq!(o.get_property(&name("b"), this()), Ok(ReturnValue::Immediate(Value::Integer(2))));
}

#[test]
fn method_reads_bound_to_the_receiver() {
    let function = Object::ScriptObject(ScriptObject { index: 7 });
    let mut o = ScriptObjectData::base_new(None);
    o.install_method(name("m"), function);
    assert!(o.has_property(&name("m")));
    assert_eq!(
        o.get_property(&name("m"), this()),
        Ok(ReturnValue::Immediate(Value::BoundMethod { function, receiver: this() }))
    );
}

#[test]
fn set_property_turns_a_method_into_a_stored_value() {
    let function = Object::ScriptObject(ScriptObject { index: 7 });
    let mut o = ScriptObjectData::base_new(None);
    o.install_method(name("m"), function);
    assert_eq!(
        o.set_property(&name("m"), Value::Null, this()),
        Ok(ReturnValue::Immediate(Value::Undefined))
    );
    assert_eq!(o.get_property(&name("m"), this()), Ok(ReturnValue::Immediate(Value::Null)));
}

#[test]
fn slots_scenario() {
    let mut x = ScriptObjectData::with_slots(None, vec![Value::Integer(10), Value::Integer(20)]);
    assert_eq!(x.set_slot(0, Value::Integer(99)), Ok(()));
    assert_eq!(x.get_slot(0), Ok(Value::Integer(99)));
    assert_eq!(x.get_slot(1), Ok(Value::Integer(20)));
    assert_eq!(x.get_slot(2), Err(Error::OutOfBounds(2)));
}

#[test]
fn slots_never_grow() {
    let mut x = ScriptObjectData::with_slots(None, vec![Value::Integer(10), Value::Integer(20)]);
    assert_eq!(x.set_slot(2, Value::Integer(1)), Err(Error::OutOfBounds(2)));
    assert_eq!(x.set_slot(u32::MAX, Value::Integer(1)), Err(Error::OutOfBounds(u32::MAX)));
    x.install_dynamic_property(name("p"), Value::Integer(3)).unwrap();
    x.set_property(&name("q"), Value::Integer(4), this()).unwrap();
    x.install_getter(name("r"), Executable { id: 1 }).unwrap();
    assert_eq!(x.set_slot(1, Value::Integer(21)), Ok(()));
    assert_eq!(x.slot_count(), 2);
    assert_eq!(x.get_slot(2), Err(Error::OutOfBounds(2)));
    assert_eq!(x.set_slot(2, Value::Integer(1)), Err(Error::OutOfBounds(2)));
    assert_eq!(x.get_slot(0), Ok(Value::Integer(10)));
    assert_eq!(x.get_slot(1), Ok(Value::Integer(21)));
}

#[test]
fn empty_object_has_no_slot_zero() {
    let mut o = ScriptObjectData::base_new(None);
    assert_eq!(o.get_slot(0), Err(Error::OutOfBounds(0)));
    assert_eq!(o.set_slot(0, Value::Integer(1)), Err(Error::OutOfBounds(0)));
}

#[test]
fn accessor_scenario_getter_then_setter() {
    let g = Executable { id: 1 };
    let s = Executable { id: 2 };
    let mut x = ScriptObjectData::base_new(None);
    assert_eq!(x.install_getter(name("v"), g), Ok(()));
    assert_eq!(x.install_setter(name("v"), s), Ok(()));
    assert_eq!(x.get_property(&name("v"), this()), Ok(deferred(g, vec![])));
    assert_eq!(
        x.set_property(&name("v"), Value::Integer(7), this()),
        Ok(deferred(s, vec![Value::Integer(7)]))
    );
    assert_eq!(x.get_property(&name("v"), this()), Ok(deferred(g, vec![])));
}

#[test]
fn accessor_setter_then_getter_is_the_same() {
    let g = Executable { id: 1 };
    let s = Executable { id: 2 };
    let mut x = ScriptObjectData::base_new(None);
    assert_eq!(x.install_setter(name("v"), s), Ok(()));
    assert_eq!(x.install_getter(name("v"), g), Ok(()));
    assert_eq!(x.get_property(&name("v"), this()), Ok(deferred(g, vec![])));
    assert_eq!(
        x.set_property(&name("v"), Value::Integer(7), this()),
        Ok(deferred(s, vec![Value::Integer(7)]))
    );
}

#[test]
fn reinstalling_a_half_keeps_the_other() {
    let mut x = ScriptObjectData::base_new(None);
    x.install_getter(name("v"), Executable { id: 1 }).unwrap();
    x.install_setter(name("v"), Executable { id: 2 }).unwrap();
    x.install_getter(name("v"), Executable { id: 3 }).unwrap();
    assert_eq!(x.get_property(&name("v"), this()), Ok(deferred(Executable { id: 3 }, vec![])));
    assert_eq!(
        x.set_property(&name("v"), Value::Null, this()),
        Ok(deferred(Executable { id: 2 }, vec![Value::Null]))
    );
}

#[test]
fn getter_only_refuses_writes() {
    let g = Executable { id: 1 };
    let mut x = ScriptObjectData::base_new(None);
    x.install_getter(name("v"), g).unwrap();
    assert_eq!(x.set_property(&name("v"), Value::Integer(7), this()), Err(Error::MissingAccessor));
    assert_eq!(x.get_property(&name("v"), this()), Ok(deferred(g, vec![])));
}

#[test]
fn setter_only_refuses_reads() {
    let s = Executable { id: 2 };
    let mut x = ScriptObjectData::base_new(None);
    x.install_setter(name("v"), s).unwrap();
    assert_eq!(x.get_property(&name("v"), this()), Err(Error::MissingAccessor));
    assert_eq!(
        x.set_property(&name("v"), Value::Integer(7), this()),
        Ok(deferred(s, vec![Value::Integer(7)]))
    );
}

#[test]
fn accessor_half_is_refused_on_a_stored_value_or_method() {
    let mut x = ScriptObjectData::base_new(None);
    x.install_dynamic_property(name("d"), Value::Integer(1)).unwrap();
    x.install_method(name("m"), this());
    assert_eq!(x.install_getter(name("d"), Executable { id: 1 }), Err(Error::NotVirtual));
    assert_eq!(x.install_setter(name("m"), Executable { id: 1 }), Err(Error::NotVirtual));
    assert_eq!(x.get_property(&name("d"), this()), Ok(ReturnValue::Immediate(Value::Integer(1))));
}

#[test]
fn property_state_machine() {
    let g = Executable { id: 1 };
    let s = Executable { id: 2 };
    let mut p = Property::new_virtual();
    assert_eq!(p, Property::Virtual { getter: None, setter: None });
    assert_eq!(p.get(this()), Err(Error::MissingAccessor));
    assert_eq!(p.set(this(), Value::Null), Err(Error::MissingAccessor));
    assert_eq!(p.install_virtual_setter(s), Ok(()));
    assert_eq!(p, Property::Virtual { getter: None, setter: Some(s) });
    assert_eq!(p.install_virtual_getter(g), Ok(()));
    assert_eq!(p, Property::Virtual { getter: Some(g), setter: Some(s) });
    let mut d = Property::new_dynamic_property(Value::Integer(4));
    assert_eq!(d.install_virtual_getter(g), Err(Error::NotVirtual));
    assert_eq!(d, Property::Dynamic(Value::Integer(4)));
    let mut m = Property::new_method(this());
    assert_eq!(m.install_virtual_setter(s), Err(Error::NotVirtual));
    assert_eq!(m.set(this(), Value::Integer(1)), Ok(ReturnValue::Immediate(Value::Undefined)));
    assert_eq!(m, Property::Dynamic(Value::Integer(1)));
}

#[test]
fn resolve_hands_on_what_the_call_gave() {
    let call = deferred(Executable { id: 1 }, vec![]);
    assert_eq!(call.resolve(Ok(Value::Integer(3))), Ok(Value::Integer(3)));
    let call = deferred(Executable { id: 1 }, vec![]);
    assert_eq!(
        call.resolve(Err(Error::Raised(Value::Integer(3)))),
        Err(Error::Raised(Value::Integer(3)))
    );
    let known = ReturnValue::immediate(Value::Bool(false));
    assert!(known.is_immediate());
    assert_eq!(known.resolve(Err(Error::MissingAccessor)), Ok(Value::Bool(false)));
    assert!(!ReturnValue::read_through(Executable { id: 1 }, this()).is_immediate());
    assert_eq!(
        ReturnValue::write_through(Executable { id: 1 }, this(), Value::Null),
        deferred(Executable { id: 1 }, vec![Value::Null])
    );
}

#[test]
fn messages_describe_the_error() {
    assert_eq!(Error::OutOfBounds(2).message(), "Slot index 2 out of bounds!");
    assert_eq!(Error::OutOfBounds(4294967295).message(), "Slot index 4294967295 out of bounds!");
    assert_eq!(Error::MissingAccessor.message(), "Property lacks the accessor for this access");
    assert_eq!(Error::NotVirtual.message(), "Not a virtual property");
    assert_eq!(Error::Raised(Value::Null).message(), "Error raised by accessor code");
}

#[test]
fn many_names_are_kept_apart() {
    let mut o = ScriptObjectData::base_new(None);
    for (i, local) in ["a", "b", "c", "d", "e"].iter().enumerate() {
        o.install_dynamic_property(name(local), Value::Integer(i as i32)).unwrap();
    }
    o.set_property(&name("c"), Value::Integer(30), this()).unwrap();
    o.install_method(name("a"), this());
    assert_eq!(o.get_property(&name("b"), this()), Ok(ReturnValue::Immediate(Value::Integer(1))));
    assert_eq!(o.get_property(&name("c"), this()), Ok(ReturnValue::Immediate(Value::Integer(30))));
    assert_eq!(o.get_property(&name("e"), this()), Ok(ReturnValue::Immediate(Value::Integer(4))));
    assert_eq!(
        o.get_property(&name("a"), this()),
        Ok(ReturnValue::Immediate(Value::BoundMethod { function: this(), receiver: this() }))
    );
    assert!(!o.has_property(&name("f")));
}
