use juniper_compose::{compose, ComposableObject, Composite, EmptyObject};
use juniper_compose::{Argument, ResolutionError, Value};

struct A;

impl ComposableObject<()> for A {
    fn fields() -> Vec<String> {
        vec!["a1".to_string(), "a2".to_string()]
    }

    fn neutral() -> Self {
        A
    }

    fn resolve_field(
        &self,
        field: &String,
        _args: &Vec<Argument>,
        _ctx: &(),
    ) -> Result<Value, ResolutionError> {
        match field.as_str() {
            "a1" => Ok(Value::Int(1)),
            "a2" => Ok(Value::Int(2)),
            _ => Ok(Value::Text("resolved by A".to_string())),
        }
    }
}

struct B;

impl ComposableObject<()> for B {
    fn fields() -> Vec<String> {
        vec!["b1".to_string()]
    }

    fn neutral() -> Self {
        B
    }

    fn resolve_field(
        &self,
        field: &String,
        _args: &Vec<Argument>,
        _ctx: &(),
    ) -> Result<Value, ResolutionError> {
        match field.as_str() {
            "b1" => Ok(Value::Int(10)),
            _ => Ok(Value::Text("resolved by B".to_string())),
        }
    }
}

struct C;

impl ComposableObject<()> for C {
    fn fields() -> Vec<String> {
        vec!["c1".to_string()]
    }

    fn neutral() -> Self {
        C
    }

    fn resolve_field(
        &self,
        field: &String,
        _args: &Vec<Argument>,
        _ctx: &(),
    ) -> Result<Value, ResolutionError> {
        match field.as_str() {
            "c1" => Ok(Value::Int(100)),
            _ => Ok(Value::Text("resolved by C".to_string())),
        }
    }
}

struct XFirst;

impl ComposableObject<()> for XFirst {
    fn fields() -> Vec<String> {
        vec!["x".to_string()]
    }

    fn neutral() -> Self {
        XFirst
    }

    fn resolve_field(
        &self,
        _field: &String,
        _args: &Vec<Argument>,
        _ctx: &(),
    ) -> Result<Value, ResolutionError> {
        Ok(Value::Int(1))
    }
}

struct XSecond;

impl ComposableObject<()> for XSecond {
    fn fields() -> Vec<String> {
        vec!["x".to_string(), "y".to_string()]
    }

    fn neutral() -> Self {
        XSecond
    }

    fn resolve_field(
        &self,
        _field: &String,
        _args: &Vec<Argument>,
        _ctx: &(),
    ) -> Result<Value, ResolutionError> {
        Ok(Value::Int(2))
    }
}

#[test]
fn compose_succeeds_on_disjoint_participants() {
    assert!(compose::<A, B, ()>().is_ok());
}

#[test]
fn composite_fields_are_union_in_order() {
    let fields = <Composite<A, B> as ComposableObject<()>>::fields();
    assert_eq!(fields, vec!["a1".to_string(), "a2".to_string(), "b1".to_string()]);
}

#[test]
fn compose_fails_on_shared_field_naming_it() {
    let result = compose::<XFirst, XSecond, ()>();
    match result {
        Ok(_) => panic!("composition of overlapping participants succeeded"),
        Err(e) => assert_eq!(e.duplicate_field, "x".to_string()),
    }
}

#[test]
fn compose_order_does_not_hide_collision() {
    let result = compose::<XSecond, XFirst, ()>();
    match result {
        Ok(_) => panic!("composition of overlapping participants succeeded"),
        Err(e) => assert_eq!(e.duplicate_field, "x".to_string()),
    }
}

#[test]
fn composite_composes_into_higher_level_composite() {
    assert!(compose::<Composite<A, B>, C, ()>().is_ok());
    let fields = <Composite<Composite<A, B>, C> as ComposableObject<()>>::fields();
    assert_eq!(
        fields,
        vec!["a1".to_string(), "a2".to_string(), "b1".to_string(), "c1".to_string()]
    );
}

#[test]
fn nested_composite_resolves_inner_and_outer_fields() {
    let nested = <Composite<Composite<A, B>, C> as ComposableObject<()>>::neutral();
    let args: Vec<Argument> = Vec::new();
    assert_eq!(nested.resolve_field(&"a1".to_string(), &args, &()), Ok(Value::Int(1)));
    assert_eq!(nested.resolve_field(&"b1".to_string(), &args, &()), Ok(Value::Int(10)));
    assert_eq!(nested.resolve_field(&"c1".to_string(), &args, &()), Ok(Value::Int(100)));
}

#[test]
fn empty_object_is_the_identity_of_composition() {
    assert!(compose::<A, EmptyObject, ()>().is_ok());
    let fields = <Composite<A, EmptyObject> as ComposableObject<()>>::fields();
    assert_eq!(fields, vec!["a1".to_string(), "a2".to_string()]);
    let lone = <Composite<A, EmptyObject> as ComposableObject<()>>::neutral();
    let args: Vec<Argument> = Vec::new();
    assert_eq!(lone.resolve_field(&"a1".to_string(), &args, &()), Ok(Value::Int(1)));
    assert_eq!(
        lone.resolve_field(&"b1".to_string(), &args, &()),
        Err(ResolutionError::FieldNotFound)
    );
}

#[test]
fn composition_error_message_names_the_field() {
    let result = compose::<XFirst, XSecond, ()>();
    match result {
        Ok(_) => panic!("composition of overlapping participants succeeded"),
        Err(e) => assert_eq!(
            e.message(),
            "field declared by more than one participant: x".to_string()
        ),
    }
}

#[test]
fn composite_with_composite_collision_is_rejected() {
    let result = compose::<Composite<A, B>, XSecond, ()>();
    assert!(result.is_ok());
    let result = compose::<Composite<XFirst, A>, XSecond, ()>();
    match result {
        Ok(_) => panic!("composition of overlapping participants succeeded"),
        Err(e) => assert_eq!(e.duplicate_field, "x".to_string()),
    }
}
