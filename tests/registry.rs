use corewars_core::registry::{lookup, unknown_variant};
use corewars_core::Opcode;

#[derive(Copy, Clone, Debug, PartialEq)]
enum Foo {
    Bar,
    Baz,
    SomethingElse,
}

const FOO_VALUES: &[Foo] = &[Foo::Bar, Foo::Baz, Foo::SomethingElse];
const FOO_NAMES: &[&str] = &["Bar", "Baz", "blahblah"];

impl Foo {
    fn to_string(&self) -> String {
        let i = FOO_VALUES.iter().position(|v| v == self).unwrap();
        FOO_NAMES[i].to_owned()
    }

    fn from_str(s: &str) -> Result<Foo, String> {
        match lookup(FOO_NAMES, s) {
            Some(i) => Ok(FOO_VALUES[i]),
            None => Err(unknown_variant(s, "Foo")),
        }
    }

    fn iter_values() -> std::slice::Iter<'static, Foo> {
        FOO_VALUES.iter()
    }
}

#[test]
fn pub_visible() {
    let _ = Opcode::Dat;
}

#[test]
fn to_string() {
    assert_eq!(Foo::Bar.to_string(), "Bar");
    assert_eq!(Foo::Baz.to_string(), "Baz");
    assert_eq!(Foo::SomethingElse.to_string(), "blahblah");
}

#[test]
fn from_string() {
    assert_eq!(Foo::from_str("Bar").unwrap(), Foo::Bar);
    assert_eq!(Foo::from_str("Baz").unwrap(), Foo::Baz);
    assert_eq!(Foo::from_str("blahblah").unwrap(), Foo::SomethingElse);

    assert_eq!(
        Foo::from_str("Should fail"),
        Err("No variant 'Should fail' found for enum 'Foo'".to_owned())
    );
}

#[test]
fn iter_values() {
    let values_from_iter: Vec<Foo> = Foo::iter_values().cloned().collect();
    assert_eq!(
        values_from_iter,
        vec![Foo::Bar, Foo::Baz, Foo::SomethingElse]
    );
}

#[test]
fn lookup_in_empty_table_finds_nothing() {
    assert_eq!(lookup(&[], "Bar"), None);
}

#[test]
fn lookup_is_exact_and_case_sensitive() {
    assert_eq!(lookup(FOO_NAMES, "bar"), None);
    assert_eq!(lookup(FOO_NAMES, " Bar"), None);
    assert_eq!(lookup(FOO_NAMES, "Bar "), None);
    assert_eq!(lookup(FOO_NAMES, ""), None);
    assert_eq!(lookup(FOO_NAMES, "blahblah"), Some(2));
}

#[test]
fn lookup_returns_first_match() {
    assert_eq!(lookup(&["x", "y", "y"], "y"), Some(1));
}

#[test]
fn unknown_variant_message() {
    assert_eq!(
        unknown_variant("mov", "Opcode"),
        "No variant 'mov' found for enum 'Opcode'"
    );
}
