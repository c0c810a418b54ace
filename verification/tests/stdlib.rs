use teo_runtime::arguments::arguments::Arguments;
use teo_runtime::model::decorator::Call;
use teo_runtime::model::field::{Field, FieldNames, IndexKind, Optionality, Read, Write};
use teo_runtime::namespace::namespace::Namespace;
use teo_runtime::object::Object;
use teo_runtime::path::error::ErrorKind;
use teo_runtime::pipeline::item::item::ItemCall;
use teo_runtime::pipeline::item::validator::Validity;
use teo_runtime::pipeline::pipeline::{BoundedItem, Pipeline};
use teo_runtime::stdlib::decorators::model_field_decorators::load_model_field_decorators;
use teo_runtime::stdlib::pipeline_items::math::{call_math_item, load_pipeline_math_items};
use teo_runtime::stdlib::pipeline_items::string::validation::{
    call_string_validation_item, load_pipeline_string_validation_items,
};
use teo_runtime::value::decimal::Decimal;
use teo_runtime::value::value::Value;

fn text(value: &str) -> Value {
    Value::String(value.to_string())
}

fn decimal(unscaled: i64, scale: i64) -> Value {
    let mut bytes = unscaled.to_be_bytes().to_vec();
    while bytes.len() > 1
        && ((bytes[0] == 0 && bytes[1] < 0x80) || (bytes[0] == 0xff && bytes[1] >= 0x80))
    {
        bytes.remove(0);
    }
    Value::Decimal(Decimal { unscaled: bytes, scale })
}

fn arguments(entries: Vec<(&str, Object)>) -> Arguments {
    Arguments { entries: entries.into_iter().map(|(name, object)| (name.to_string(), object)).collect() }
}

fn one_item(name: &str) -> Pipeline {
    Pipeline { items: vec![BoundedItem { path: vec![name.to_string()], arguments: Arguments::new() }] }
}

#[test]
fn integer_arithmetic_is_exact() {
    let seven = Value::Int(7);
    assert_eq!(call_math_item(ItemCall::Add, &seven, Some(&Value::Int(5))), Ok(Value::Int(12)));
    assert_eq!(call_math_item(ItemCall::Sub, &seven, Some(&Value::Int(9))), Ok(Value::Int(-2)));
    assert_eq!(call_math_item(ItemCall::Mul, &seven, Some(&Value::Int64(6))), Ok(Value::Int(42)));
    assert_eq!(call_math_item(ItemCall::Div, &Value::Int(-7), Some(&Value::Int(2))), Ok(Value::Int(-3)));
    assert_eq!(call_math_item(ItemCall::Mod, &Value::Int(-7), Some(&Value::Int(2))), Ok(Value::Int(-1)));
    assert_eq!(
        call_math_item(ItemCall::Add, &Value::Int64(1), Some(&Value::Int(2))),
        Ok(Value::Int64(3))
    );
}

#[test]
fn arithmetic_faults() {
    let overflow = call_math_item(ItemCall::Add, &Value::Int(i32::MAX), Some(&Value::Int(1))).unwrap_err();
    assert_eq!(overflow.kind, ErrorKind::ValueError);
    assert_eq!(overflow.message, "add: overflow");
    let zero = call_math_item(ItemCall::Div, &Value::Int(1), Some(&Value::Int(0))).unwrap_err();
    assert_eq!(zero.message, "div: division by zero");
    let mixed = call_math_item(ItemCall::Mul, &Value::Int(1), Some(&text("a"))).unwrap_err();
    assert_eq!(mixed.kind, ErrorKind::TypeError);
    assert_eq!(mixed.message, "mul: invalid operands");
    let missing = call_math_item(ItemCall::Sub, &Value::Int(1), None).unwrap_err();
    assert_eq!(missing.message, "sub: invalid operands");
    let floating = call_math_item(ItemCall::Add, &Value::Float(0), Some(&Value::Float(0))).unwrap_err();
    assert_eq!(floating.kind, ErrorKind::InvalidOperation);
    let input = call_math_item(ItemCall::Floor, &Value::Int(1), None).unwrap_err();
    assert_eq!(input.message, "floor: invalid input");
    let no_math = call_math_item(ItemCall::IsEmail, &Value::Int(1), None).unwrap_err();
    assert_eq!(no_math.message, "math: invalid input");
}

#[test]
fn strings_can_be_added() {
    assert_eq!(call_math_item(ItemCall::Add, &text("ab"), Some(&text("cd"))), Ok(text("abcd")));
    assert!(call_math_item(ItemCall::Sub, &text("ab"), Some(&text("cd"))).is_err());
}

#[test]
fn max_and_min_keep_the_input_within_the_bound() {
    assert_eq!(call_math_item(ItemCall::Max, &Value::Int(12), Some(&Value::Int(10))), Ok(Value::Int(10)));
    assert_eq!(call_math_item(ItemCall::Max, &Value::Int(8), Some(&Value::Int(10))), Ok(Value::Int(8)));
    assert_eq!(call_math_item(ItemCall::Min, &Value::Int(8), Some(&Value::Int(10))), Ok(Value::Int(10)));
    assert_eq!(call_math_item(ItemCall::Min, &Value::Int(12), Some(&Value::Int(10))), Ok(Value::Int(12)));
    assert_eq!(call_math_item(ItemCall::Max, &text("b"), Some(&text("a"))), Ok(text("a")));
    assert_eq!(call_math_item(ItemCall::Min, &decimal(15, 1), Some(&decimal(2, 0))), Ok(decimal(2, 0)));
}

#[test]
fn decimal_arithmetic() {
    assert_eq!(
        call_math_item(ItemCall::Add, &decimal(15, 1), Some(&decimal(25, 2))),
        Ok(decimal(175, 2))
    );
    assert_eq!(
        call_math_item(ItemCall::Sub, &decimal(15, 1), Some(&decimal(25, 2))),
        Ok(decimal(125, 2))
    );
    assert_eq!(
        call_math_item(ItemCall::Mul, &decimal(15, 1), Some(&decimal(2, 0))),
        Ok(decimal(30, 1))
    );
    assert_eq!(
        call_math_item(ItemCall::Mod, &decimal(7, 0), Some(&decimal(2, 0))),
        Ok(decimal(1, 0))
    );
    assert!(matches!(
        call_math_item(ItemCall::Div, &decimal(7, 0), Some(&decimal(2, 0))),
        Ok(Value::Decimal(_))
    ));
    let zero = call_math_item(ItemCall::Div, &decimal(7, 0), Some(&decimal(0, 0))).unwrap_err();
    assert_eq!(zero.message, "div: division by zero");
    let scale = call_math_item(ItemCall::Add, &decimal(7, 1 << 40), Some(&decimal(0, 0))).unwrap_err();
    assert_eq!(scale.message, "add: scale out of range");
    assert_eq!(
        call_math_item(ItemCall::Add, &decimal(7, 5000), Some(&decimal(0, 0))),
        Ok(decimal(7, 5000))
    );
    assert_eq!(call_math_item(ItemCall::Ceil, &decimal(7, 5000), None), Ok(decimal(1, 0)));
    assert_eq!(call_math_item(ItemCall::Floor, &decimal(7, 5000), None), Ok(decimal(0, 0)));
    assert_eq!(call_math_item(ItemCall::Round, &decimal(-7, 5000), None), Ok(decimal(0, 0)));
}

#[test]
fn decimal_rounding() {
    assert_eq!(call_math_item(ItemCall::Floor, &decimal(15, 1), None), Ok(decimal(1, 0)));
    assert_eq!(call_math_item(ItemCall::Ceil, &decimal(15, 1), None), Ok(decimal(2, 0)));
    assert_eq!(call_math_item(ItemCall::Ceil, &decimal(20, 1), None), Ok(decimal(2, 0)));
    assert_eq!(call_math_item(ItemCall::Round, &decimal(25, 1), None), Ok(decimal(2, 0)));
    assert_eq!(call_math_item(ItemCall::Round, &decimal(35, 1), None), Ok(decimal(4, 0)));
    assert_eq!(call_math_item(ItemCall::Abs, &decimal(-35, 1), None), Ok(decimal(35, 1)));
}

#[test]
fn absolute_values() {
    assert_eq!(call_math_item(ItemCall::Abs, &Value::Int(-5), None), Ok(Value::Int(5)));
    assert_eq!(call_math_item(ItemCall::Abs, &Value::Int64(5), None), Ok(Value::Int64(5)));
    assert!(call_math_item(ItemCall::Abs, &Value::Int(i32::MIN), None).is_err());
}

#[test]
fn integer_roots_round_toward_zero() {
    assert_eq!(call_math_item(ItemCall::Sqrt, &Value::Int(17), None), Ok(Value::Int(4)));
    assert_eq!(call_math_item(ItemCall::Sqrt, &Value::Int64(16), None), Ok(Value::Int64(4)));
    assert_eq!(call_math_item(ItemCall::Cbrt, &Value::Int(-28), None), Ok(Value::Int(-3)));
    assert_eq!(call_math_item(ItemCall::Root, &Value::Int(12345), Some(&Value::Int(4))), Ok(Value::Int(10)));
    let negative = call_math_item(ItemCall::Sqrt, &Value::Int(-1), None).unwrap_err();
    assert_eq!(negative.message, "sqrt: no real root");
    assert!(call_math_item(ItemCall::Root, &Value::Int(8), Some(&Value::Int(0))).is_err());
    assert!(call_math_item(ItemCall::Root, &Value::Int(-8), Some(&Value::Int(2))).is_err());
    assert_eq!(call_math_item(ItemCall::Root, &Value::Int(-8), Some(&Value::Int(3))), Ok(Value::Int(-2)));
}

#[test]
fn decimal_roots() {
    let root = call_math_item(ItemCall::Sqrt, &decimal(4, 0), None).unwrap();
    assert_eq!(call_math_item(ItemCall::Floor, &root, None), Ok(decimal(2, 0)));
    assert_eq!(call_math_item(ItemCall::Ceil, &root, None), Ok(decimal(2, 0)));
    let negative = call_math_item(ItemCall::Sqrt, &decimal(-4, 0), None).unwrap_err();
    assert_eq!(negative.message, "sqrt: no real root");
    let root = call_math_item(ItemCall::Cbrt, &decimal(27, 0), None).unwrap();
    assert_eq!(call_math_item(ItemCall::Round, &root, None), Ok(decimal(3, 0)));
    let root = call_math_item(ItemCall::Sqrt, &decimal(2, 0), None).unwrap();
    assert_eq!(call_math_item(ItemCall::Floor, &root, None), Ok(decimal(1, 0)));
    assert_eq!(call_math_item(ItemCall::Ceil, &root, None), Ok(decimal(2, 0)));
}

#[test]
fn integer_powers() {
    assert_eq!(call_math_item(ItemCall::Pow, &Value::Int(2), Some(&Value::Int(10))), Ok(Value::Int(1024)));
    assert_eq!(call_math_item(ItemCall::Pow, &Value::Int(-1), Some(&Value::Int64(1_000_000_001))), Ok(Value::Int(-1)));
    assert_eq!(call_math_item(ItemCall::Pow, &Value::Int64(3), Some(&Value::Int(0))), Ok(Value::Int64(1)));
    let overflow = call_math_item(ItemCall::Pow, &Value::Int(2), Some(&Value::Int(31))).unwrap_err();
    assert_eq!(overflow.message, "pow: overflow");
    assert!(call_math_item(ItemCall::Pow, &Value::Int(2), Some(&Value::Int(-1))).is_err());
    assert!(call_math_item(ItemCall::Pow, &Value::Int64(2), Some(&Value::Int(64))).is_err());
}

#[test]
fn string_validators() {
    let valid = Ok(Validity::Valid);
    assert_eq!(call_string_validation_item(ItemCall::IsEmail, &text("ada@example.com"), None), valid);
    assert_eq!(
        call_string_validation_item(ItemCall::IsEmail, &text("ada"), None),
        Ok(Validity::Invalid("input is not email".to_string()))
    );
    assert_eq!(call_string_validation_item(ItemCall::IsHexColor, &text("a0B1c2"), None), valid);
    assert_eq!(
        call_string_validation_item(ItemCall::IsHexColor, &text("a0B1c"), None),
        Ok(Validity::Invalid("input is not hex color".to_string()))
    );
    assert_eq!(call_string_validation_item(ItemCall::IsSecurePassword, &text("Aa1!aaaa"), None), valid);
    assert_eq!(
        call_string_validation_item(ItemCall::IsSecurePassword, &text("Aa1aaaa"), None),
        Ok(Validity::Invalid("input is not secure password".to_string()))
    );
    assert_eq!(call_string_validation_item(ItemCall::IsNumeric, &text("0123"), None), valid);
    assert_eq!(
        call_string_validation_item(ItemCall::IsNumeric, &text("01a3"), None),
        Ok(Validity::Invalid("input is not numeric".to_string()))
    );
    assert_eq!(call_string_validation_item(ItemCall::IsAlphabetic, &text("abc"), None), valid);
    assert!(call_string_validation_item(ItemCall::IsAlphabetic, &text("ab1"), None) != valid);
    assert_eq!(call_string_validation_item(ItemCall::IsAlphanumeric, &text("ab1"), None), valid);
    assert!(call_string_validation_item(ItemCall::IsAlphanumeric, &text("ab 1"), None) != valid);
}

#[test]
fn string_validators_with_arguments() {
    let valid = Ok(Validity::Valid);
    let input = text("abc");
    assert_eq!(call_string_validation_item(ItemCall::HasPrefix, &input, Some(&text("ab"))), valid);
    assert_eq!(
        call_string_validation_item(ItemCall::HasPrefix, &input, Some(&text("bc"))),
        Ok(Validity::Invalid("input doesn't have prefix \"bc\"".to_string()))
    );
    assert_eq!(call_string_validation_item(ItemCall::HasSuffix, &input, Some(&text("bc"))), valid);
    assert_eq!(
        call_string_validation_item(ItemCall::HasSuffix, &input, Some(&text("ab"))),
        Ok(Validity::Invalid("input doesn't have suffix \"ab\"".to_string()))
    );
    assert_eq!(call_string_validation_item(ItemCall::IsPrefixOf, &input, Some(&text("abcd"))), valid);
    assert_eq!(
        call_string_validation_item(ItemCall::IsPrefixOf, &input, Some(&text("xabc"))),
        Ok(Validity::Invalid("input is not prefix of \"xabc\"".to_string()))
    );
    assert_eq!(call_string_validation_item(ItemCall::IsSuffixOf, &input, Some(&text("xabc"))), valid);
    assert_eq!(
        call_string_validation_item(ItemCall::IsSuffixOf, &input, Some(&text("abcd"))),
        Ok(Validity::Invalid("input is not suffix of \"abcd\"".to_string()))
    );
    let pattern = Value::Regex("^a.c$".to_string());
    assert_eq!(call_string_validation_item(ItemCall::RegexMatch, &input, Some(&pattern)), valid);
    assert_eq!(
        call_string_validation_item(ItemCall::RegexMatch, &text("abd"), Some(&pattern)),
        Ok(Validity::Invalid("input doesn't match regex".to_string()))
    );
    let broken = Value::Regex("(".to_string());
    assert!(call_string_validation_item(ItemCall::RegexMatch, &input, Some(&broken)).is_err());
    assert!(call_string_validation_item(ItemCall::HasPrefix, &input, None).is_err());
    assert!(call_string_validation_item(ItemCall::IsEmail, &Value::Int(1), None).is_err());
    assert!(call_string_validation_item(ItemCall::Add, &input, None).is_err());
}

#[test]
fn standard_items_and_decorators_are_defined_in_order() {
    let mut namespace = Namespace::new();
    load_model_field_decorators(&mut namespace);
    assert_eq!(namespace.model_field_decorators.len(), 37);
    assert_eq!(namespace.model_field_decorators[0].path, vec!["map".to_string()]);
    assert_eq!(namespace.model_field_decorators[0].call, Call::MapColumn);
    assert_eq!(namespace.model_field_decorators[36].path, vec!["migration".to_string()]);
    assert_eq!(namespace.model_field_decorators[36].call, Call::Migration);
    let found = namespace.model_field_decorator_at_path(&vec!["onSet".to_string()]).unwrap();
    assert_eq!(found.call, Call::OnSet);
    assert!(namespace.model_field_decorator_at_path(&vec!["nothing".to_string()]).is_none());

    load_pipeline_math_items(&mut namespace);
    load_pipeline_string_validation_items(&mut namespace);
    assert_eq!(namespace.pipeline_items.len(), 26);
    assert_eq!(namespace.pipeline_items[0].path, vec!["add".to_string()]);
    assert_eq!(namespace.pipeline_items[14].call, ItemCall::Root);
    assert_eq!(namespace.pipeline_items[15].path, vec!["isEmail".to_string()]);
    assert_eq!(namespace.pipeline_items[25].call, ItemCall::RegexMatch);
    let found = namespace.pipeline_item_at_path(&vec!["hasPrefix".to_string()]).unwrap();
    assert_eq!(found.call, ItemCall::HasPrefix);
}

#[test]
fn decorators_change_the_field() {
    let mut field = Field::new("name");
    let args = arguments(vec![("columnName", Object::from_value(text("full_name")))]);
    assert!(Call::MapColumn.call(args, &mut field).is_ok());
    assert_eq!(field.column_name, "full_name");

    assert!(Call::Readonly.call(Arguments::new(), &mut field).is_ok());
    assert!(matches!(field.write, Write::NoWrite));
    assert!(Call::Internal.call(Arguments::new(), &mut field).is_ok());
    assert!(matches!(field.read, Read::NoRead));
    assert!(Call::Readwrite.call(Arguments::new(), &mut field).is_ok());
    assert!(matches!(field.write, Write::Write));
    assert!(matches!(field.read, Read::Read));

    let args = arguments(vec![("cond", Object::from_pipeline(one_item("valid")))]);
    assert!(Call::WriteIf.call(args, &mut field).is_ok());
    assert!(matches!(&field.write, Write::WriteIf(p) if p.items.len() == 1));

    let args = arguments(vec![(
        "fields",
        Object::from_value(Value::Array(vec![
            Value::EnumVariant("a".to_string()),
            Value::EnumVariant("b".to_string()),
        ])),
    )]);
    assert!(Call::PresentWith.call(args, &mut field).is_ok());
    match &field.optionality {
        Optionality::PresentWith(groups) => {
            assert_eq!(groups.len(), 2);
            assert!(matches!(&groups[0], FieldNames::One(name) if name == "a"));
            assert!(matches!(&groups[1], FieldNames::One(name) if name == "b"));
        },
        other => panic!("unexpected optionality {:?}", other),
    }

    assert!(Call::Id.call(Arguments::new(), &mut field).is_ok());
    assert_eq!(field.index.as_ref().map(|index| index.kind), Some(IndexKind::Primary));
    assert!(Call::Auto.call(Arguments::new(), &mut field).is_ok());
    assert!(field.auto && field.input_omissible);

    let args = arguments(vec![("value", Object::from_value(Value::Int(3)))]);
    assert!(Call::Default.call(args, &mut field).is_ok());
    assert!(field.default.as_ref().map(|d| d.is_teon()).unwrap_or(false));

    let args = arguments(vec![
        ("renamed", Object::from_value(text("old"))),
        ("priority", Object::from_value(Value::Int(2))),
    ]);
    assert!(Call::Migration.call(args, &mut field).is_ok());
    let migration = field.migration.as_ref().unwrap();
    assert_eq!(migration.renamed, vec!["old".to_string()]);
    assert_eq!(migration.priority, Some(2));
    assert!(migration.version.is_none());
}

#[test]
fn decorators_refuse_wrong_arguments() {
    let mut field = Field::new("name");
    let error = Call::MapColumn.call(Arguments::new(), &mut field).unwrap_err();
    assert_eq!(error.kind, ErrorKind::TypeError);
    assert_eq!(error.message, "invalid argument");
    assert_eq!(field.column_name, "name");
    let args = arguments(vec![("cond", Object::from_value(Value::Int(1)))]);
    assert!(Call::ReadIf.call(args, &mut field).is_err());
    assert!(matches!(field.read, Read::Read));
    let args = arguments(vec![("fields", Object::from_value(Value::Int(1)))]);
    assert!(Call::PresentWithout.call(args, &mut field).is_err());
    let args = arguments(vec![("version", Object::from_value(Value::Int(1)))]);
    assert!(Call::Migration.call(args, &mut field).is_err());
    assert!(field.migration.is_none());
}

#[test]
fn the_root_of_degree_one_is_the_input() {
    assert_eq!(
        call_math_item(ItemCall::Root, &Value::Int64(i64::MIN), Some(&Value::Int(1))),
        Ok(Value::Int64(i64::MIN))
    );
    assert_eq!(call_math_item(ItemCall::Root, &Value::Int(-5), Some(&Value::Int(1))), Ok(Value::Int(-5)));
    assert_eq!(
        call_math_item(ItemCall::Root, &Value::Int64(i64::MIN), Some(&Value::Int(3))),
        Ok(Value::Int64(-2097152))
    );
    assert_eq!(call_math_item(ItemCall::Cbrt, &Value::Int64(i64::MIN), None), Ok(Value::Int64(-2097152)));
}
