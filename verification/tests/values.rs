use teo_runtime::action::action::{
    Action, NestedAction, NESTED_CONNECT_OR_CREATE_ACTION, NESTED_CREATE_ACTION,
    NESTED_DELETE_MANY_ACTION, NESTED_SET_ACTION, NESTED_UPDATE_MANY_ACTION,
};
use teo_runtime::arguments::arguments::{bad_argument, Arguments};
use teo_runtime::collections::key_set::KeySet;
use teo_runtime::collections::names::{
    copy_names, find_name, find_pair, has_name, put_pair, same_names, take_pair,
};
use teo_runtime::config::connector::Database;
use teo_runtime::enumeration::enumeration::Enum;
use teo_runtime::enumeration::member::Member;
use teo_runtime::handler::default::count;
use teo_runtime::handler::handler::{Handler, HandlerInputFormat, Method};
use teo_runtime::object::traits::{default_struct_path, PrimitiveStruct};
use teo_runtime::object::Object;
use teo_runtime::path::error::{Error, ErrorKind};
use teo_runtime::path::key_path::{Item, KeyPath};
use teo_runtime::pipeline::item::transform::TransformResult;
use teo_runtime::pipeline::item::validator::{ValidateResult, Validity};
use teo_runtime::pipeline::pipeline::{BoundedItem, Pipeline};
use teo_runtime::schema::fetch::fetchers::fetch_identifier::{fetch_identifier, path_value, Top};
use teo_runtime::schema::fetch::fetchers::fetch_pipeline::{fetch_pipeline, fetch_pipeline_unit, UnitItem};
use teo_runtime::stdlib::pipeline_items::identity::{
    ConnectIdentityItem, IdentityItem, IdentityPlan, Initiator,
};
use teo_runtime::structs;
use teo_runtime::value::decimal::{Decimal, SCALE_LIMIT};
use teo_runtime::value::interface_enum_variant::InterfaceEnumVariant;
use teo_runtime::value::value::{
    copy_value, copy_values, same_decimal, same_entries, same_value, same_values, Dictionary, Value,
};

fn words(list: &[&str]) -> Vec<String> {
    list.iter().map(|name| name.to_string()).collect()
}

fn string(value: &str) -> Value {
    Value::String(value.to_string())
}

fn keys_of(d: &Dictionary) -> Vec<String> {
    let mut keys = Vec::new();
    let mut i = 0;
    while let Some((key, _)) = d.entry_at(i) {
        keys.push(key.clone());
        i += 1;
    }
    keys
}

#[test]
fn a_dictionary_keeps_the_order_of_insertion() {
    let mut d = Dictionary::new();
    assert_eq!(d.len(), 0);
    d.insert("b".to_string(), Value::Int(1));
    d.insert("a".to_string(), Value::Int(2));
    d.insert("c".to_string(), Value::Int(3));
    assert_eq!(keys_of(&d), words(&["b", "a", "c"]));
    assert_eq!(d.len(), 3);
    assert_eq!(d.get("a"), Some(&Value::Int(2)));
    assert_eq!(d.get("z"), None);
    assert!(d.contains_key("c"));
    assert!(!d.contains_key("d"));
    assert_eq!(d.entry_at(3), None);
}

#[test]
fn inserting_under_a_key_that_is_held_replaces_in_place() {
    let mut d = Dictionary::new();
    d.insert("a".to_string(), Value::Int(1));
    d.insert("b".to_string(), Value::Int(2));
    d.insert("a".to_string(), Value::Int(9));
    assert_eq!(keys_of(&d), words(&["a", "b"]));
    assert_eq!(d.get("a"), Some(&Value::Int(9)));
    assert_eq!(d.len(), 2);
}

#[test]
fn removing_an_entry_keeps_the_order_of_the_rest() {
    let mut d = Dictionary::new();
    d.insert("a".to_string(), Value::Int(1));
    d.insert("b".to_string(), Value::Int(2));
    d.insert("c".to_string(), Value::Int(3));
    d.remove("a");
    assert_eq!(keys_of(&d), words(&["b", "c"]));
    assert_eq!(d.get("b"), Some(&Value::Int(2)));
    assert_eq!(d.get("c"), Some(&Value::Int(3)));
    d.remove("missing");
    assert_eq!(d.len(), 2);
}

#[test]
fn entries_can_be_added_and_dropped_by_value() {
    let d = Dictionary::new().with_entry("a".to_string(), Value::Bool(true));
    let d = d.with_entry("b".to_string(), Value::Null);
    assert_eq!(keys_of(&d), words(&["a", "b"]));
    let d = d.without_entry("a");
    assert_eq!(keys_of(&d), words(&["b"]));
    let d = d.without_entry("a");
    assert_eq!(keys_of(&d), words(&["b"]));
}

#[test]
fn a_dictionary_from_lists_pairs_keys_and_values() {
    let d = Dictionary::from_lists(&words(&["x", "y", "x"]), &vec![Value::Int(1), Value::Int(2), Value::Int(3)]);
    assert_eq!(keys_of(&d), words(&["x", "y"]));
    assert_eq!(d.get("x"), Some(&Value::Int(3)));
    assert_eq!(d.get("y"), Some(&Value::Int(2)));
}

#[test]
fn copies_of_values_are_equal_to_the_values() {
    let mut inner = Dictionary::new();
    inner.insert("k".to_string(), Value::Array(vec![Value::Int(1), string("two")]));
    let value = Value::Tuple(vec![
        Value::Dictionary(inner),
        Value::Range(true, Box::new(Value::Int(1)), Box::new(Value::Int64(5))),
        Value::Decimal(Decimal { unscaled: vec![1, 0], scale: 2 }),
        Value::Float(1.5f64.to_bits()),
    ]);
    assert_eq!(copy_value(&value), value);
    assert_eq!(value.clone(), value);
    let list = vec![Value::Null, value];
    assert_eq!(copy_values(&list), list);
}

#[test]
fn values_tell_their_kind() {
    assert!(Value::Null.is_null());
    assert!(!Value::Int(0).is_null());
    assert_eq!(Value::Bool(true).as_bool(), Some(true));
    assert_eq!(Value::Int(1).as_bool(), None);
    assert_eq!(string("a").as_str(), Some("a"));
    assert_eq!(Value::Null.as_str(), None);
    assert!(string("a").is_string());
    assert!(!Value::EnumVariant("a".to_string()).is_string());
    assert_eq!(Value::Array(vec![Value::Null]).as_array(), Some(&vec![Value::Null]));
    assert_eq!(Value::Tuple(vec![]).as_array(), None);
    assert!(Value::Dictionary(Dictionary::new()).as_dictionary().is_some());
    assert!(Value::Int(1).is_any_int());
    assert!(Value::Int64(1).is_any_int());
    assert!(!Value::Float(0).is_any_int());
    assert!(Value::Float32(0).is_any_float());
    assert!(Value::Float(0).is_any_float());
    assert!(!Value::Int(0).is_any_float());
    assert!(Value::Decimal(Decimal { unscaled: vec![0], scale: 0 }).is_decimal());
    assert!(!Value::Int(0).is_decimal());
}

#[test]
fn integers_convert_between_widths_where_they_fit() {
    assert_eq!(Value::Int(-7).to_int64(), Some(-7));
    assert_eq!(Value::Int64(1 << 40).to_int64(), Some(1 << 40));
    assert_eq!(string("7").to_int64(), None);
    assert_eq!(Value::Int(7).to_int(), Some(7));
    assert_eq!(Value::Int64(7).to_int(), Some(7));
    assert_eq!(Value::Int64(i32::MAX as i64).to_int(), Some(i32::MAX));
    assert_eq!(Value::Int64(i32::MIN as i64).to_int(), Some(i32::MIN));
    assert_eq!(Value::Int64(i32::MAX as i64 + 1).to_int(), None);
    assert_eq!(Value::Int64(i32::MIN as i64 - 1).to_int(), None);
    assert_eq!(Value::Bool(true).to_int(), None);
}

#[test]
fn a_decimal_is_within_the_limit_by_its_scale() {
    assert!(Decimal { unscaled: vec![1], scale: 0 }.within_limit());
    assert!(Decimal { unscaled: vec![1], scale: SCALE_LIMIT }.within_limit());
    assert!(Decimal { unscaled: vec![1], scale: -SCALE_LIMIT }.within_limit());
    assert!(!Decimal { unscaled: vec![1], scale: SCALE_LIMIT + 1 }.within_limit());
    assert!(!Decimal { unscaled: vec![1], scale: -SCALE_LIMIT - 1 }.within_limit());
}

#[test]
fn a_key_set_holds_each_name_once() {
    let mut set = KeySet::new();
    assert!(set.is_empty());
    assert!(!set.contains("a"));
    set.insert("a".to_string());
    set.insert("b".to_string());
    set.insert("a".to_string());
    assert!(!set.is_empty());
    assert!(set.contains("a"));
    assert!(set.contains("b"));
    assert!(!set.contains("ab"));
    let copy = set.clone();
    assert!(copy.contains("a") && copy.contains("b") && !copy.contains("c"));
}

#[test]
fn names_are_found_at_their_first_position() {
    let list = words(&["id", "name", "id", "Name"]);
    assert_eq!(find_name(&list, "id"), Some(0));
    assert_eq!(find_name(&list, "name"), Some(1));
    assert_eq!(find_name(&list, "Name"), Some(3));
    assert_eq!(find_name(&list, "nam"), None);
    assert!(has_name(&list, "Name"));
    assert!(!has_name(&list, ""));
    assert!(same_names(&list, &copy_names(&list)));
    assert!(!same_names(&list, &words(&["id", "name", "id"])));
    assert!(!same_names(&words(&["a", "b"]), &words(&["b", "a"])));
    assert!(same_names(&words(&[]), &words(&[])));
    assert_eq!(copy_names(&list), list);
}

#[test]
fn pairs_are_put_found_and_taken_by_name() {
    let mut list: Vec<(String, i32)> = Vec::new();
    put_pair(&mut list, "a".to_string(), 1);
    put_pair(&mut list, "b".to_string(), 2);
    put_pair(&mut list, "a".to_string(), 3);
    assert_eq!(list, vec![("a".to_string(), 3), ("b".to_string(), 2)]);
    assert_eq!(find_pair(&list, "b"), Some(1));
    assert_eq!(find_pair(&list, "c"), None);
    assert_eq!(take_pair(&mut list, "a"), Some(3));
    assert_eq!(take_pair(&mut list, "a"), None);
    assert_eq!(list, vec![("b".to_string(), 2)]);
}

#[test]
fn key_paths_grow_at_the_end() {
    let root = KeyPath::new();
    assert_eq!(root.len(), 0);
    let path = root.with_key("posts").with_index(2).with_key("title");
    assert_eq!(path.len(), 3);
    assert_eq!(
        path.items,
        vec![Item::Key("posts".to_string()), Item::Index(2), Item::Key("title".to_string())]
    );
    assert_eq!(root.len(), 0);
    assert_eq!(path.clone(), path);
}

#[test]
fn errors_carry_kind_message_and_path() {
    let plain = Error::new(ErrorKind::ValueError, "bad");
    assert_eq!(plain.kind, ErrorKind::ValueError);
    assert_eq!(plain.message, "bad");
    assert_eq!(plain.path, None);
    let path = KeyPath::new().with_key("a");
    let placed = Error::at(ErrorKind::NotFound, "missing", &path);
    assert_eq!(placed.path, Some(path.clone()));
    let prefixed = placed.message_prefixed("find");
    assert_eq!(prefixed.message, "find: missing");
    assert_eq!(prefixed.kind, ErrorKind::NotFound);
    assert_eq!(prefixed.path, Some(path));
    assert_eq!(prefixed.clone(), prefixed);
}

#[test]
fn nested_actions_have_names_and_bits() {
    let all = [
        ("create", NestedAction::Create),
        ("connect", NestedAction::Connect),
        ("set", NestedAction::SetLinks),
        ("connectOrCreate", NestedAction::ConnectOrCreate),
        ("disconnect", NestedAction::Disconnect),
        ("update", NestedAction::Update),
        ("updateMany", NestedAction::UpdateMany),
        ("upsert", NestedAction::Upsert),
        ("delete", NestedAction::Delete),
        ("deleteMany", NestedAction::DeleteMany),
    ];
    for (name, action) in all {
        assert_eq!(NestedAction::from_name(name), Some(action));
        assert_eq!(NestedAction::from_bits(action.bits()), Some(action));
        assert_eq!(Action::nested_action_from_name(name), Some(Action(action.bits())));
    }
    assert_eq!(NestedAction::Create.bits(), NESTED_CREATE_ACTION);
    assert_eq!(NestedAction::SetLinks.bits(), NESTED_SET_ACTION);
    assert_eq!(NestedAction::ConnectOrCreate.bits(), NESTED_CONNECT_OR_CREATE_ACTION);
    assert_eq!(NestedAction::UpdateMany.bits(), NESTED_UPDATE_MANY_ACTION);
    assert_eq!(NestedAction::DeleteMany.bits(), NESTED_DELETE_MANY_ACTION);
    assert_eq!(NestedAction::from_name("Create"), None);
    assert_eq!(NestedAction::from_name(""), None);
    assert_eq!(NestedAction::from_bits(0), None);
    assert_eq!(Action::nested_action_from_name("link"), None);
    assert_eq!(Action::from_u32(0x901).to_u32(), 0x901);
}

fn sample_arguments() -> Arguments {
    let mut arguments = Arguments::new();
    arguments.entries.push(("value".to_string(), Object::from_value(Value::Int(3))));
    arguments.entries.push((
        "pipeline".to_string(),
        Object::from_pipeline(Pipeline {
            items: vec![BoundedItem { path: words(&["isEmail"]), arguments: Arguments::new() }],
        }),
    ));
    arguments.entries.push((
        "variant".to_string(),
        Object { inner: teo_runtime::object::ObjectInner::InterfaceEnumVariant(InterfaceEnumVariant {
            value: "asc".to_string(),
            args: None,
        }) },
    ));
    arguments
}

#[test]
fn arguments_are_taken_by_name_and_kind() {
    let mut arguments = sample_arguments();
    assert!(arguments.get_object("value").is_some());
    assert!(arguments.get_object("other").is_none());
    assert_eq!(arguments.take_value("value"), Ok(Value::Int(3)));
    assert_eq!(arguments.take_value("value"), Err(bad_argument("value")));
    assert_eq!(arguments.entries.len(), 2);

    let pipeline = arguments.take_pipeline("pipeline").unwrap();
    assert_eq!(pipeline.items.len(), 1);
    assert_eq!(pipeline.items[0].path, words(&["isEmail"]));

    let variant = arguments.take_variant("variant").unwrap();
    assert_eq!(variant.value, "asc");
    assert!(arguments.entries.is_empty());
}

#[test]
fn arguments_of_the_wrong_kind_are_refused() {
    let error = bad_argument("value");
    assert_eq!(error.kind, ErrorKind::TypeError);
    assert_eq!(error.message, "invalid argument");
    assert_eq!(error.path, Some(KeyPath::new().with_key("value")));

    assert_eq!(sample_arguments().take_value("pipeline"), Err(bad_argument("pipeline")));
    assert_eq!(sample_arguments().take_optional_value("pipeline"), Err(bad_argument("pipeline")));
    assert_eq!(sample_arguments().take_optional_value("value"), Ok(Some(Value::Int(3))));
    assert_eq!(sample_arguments().take_optional_value("absent"), Ok(None));
    assert_eq!(sample_arguments().take_pipeline("value").unwrap_err(), bad_argument("value"));
    assert_eq!(sample_arguments().take_pipeline("absent").unwrap_err(), bad_argument("absent"));
    assert_eq!(sample_arguments().take_variant("value").unwrap_err(), bad_argument("value"));
    assert!(sample_arguments().take("variant").is_some());
    assert!(sample_arguments().take("absent").is_none());
}

#[test]
fn objects_tell_what_they_hold() {
    let plain = Object::from_value(Value::Null);
    assert!(plain.is_teon() && plain.is_null());
    assert_eq!(plain.as_teon(), Some(&Value::Null));
    assert!(!plain.is_pipeline() && plain.as_pipeline().is_none());
    assert!(!plain.is_model_object() && plain.as_model_object().is_none());
    assert!(!plain.is_struct_object() && plain.as_struct_object().is_none());
    assert!(!plain.is_interface_enum_variant() && plain.as_interface_enum_variant().is_none());
    assert!(!plain.is_array() && plain.as_array().is_none());

    let text = Object::from_string("a".to_string());
    assert_eq!(text.as_teon(), Some(&string("a")));
    assert!(!text.is_null());

    let entries = Object::from_dictionary(Dictionary::new().with_entry("k".to_string(), Value::Int(1)));
    assert_eq!(entries.as_teon().and_then(|v| v.as_dictionary()).and_then(|d| d.get("k")), Some(&Value::Int(1)));

    let pipeline = Object::from_pipeline(Pipeline::new());
    assert!(pipeline.is_pipeline() && !pipeline.is_teon() && !pipeline.is_null());
    assert_eq!(pipeline.as_pipeline().map(|p| p.len()), Some(0));

    let list = Object { inner: teo_runtime::object::ObjectInner::Array(vec![Object::from_value(Value::Int(1))]) };
    assert!(list.is_array());
    assert_eq!(list.as_array().map(|items| items.len()), Some(1));

    let instance = Object {
        inner: teo_runtime::object::ObjectInner::StructObject(structs::object::Object::new(
            words(&["std", "Point"]),
            Vec::new(),
        )),
    };
    assert!(instance.is_struct_object());
    assert_eq!(instance.as_struct_object().map(|s| s.struct_path()), Some(vec!["std", "Point"]));
}

#[test]
fn objects_that_hold_no_plain_value_are_refused() {
    let pipeline = || Object::from_pipeline(Pipeline::new());
    let plain = || Object::from_value(Value::Int(4));
    assert_eq!(plain().try_into_err_prefix("add"), Ok(Value::Int(4)));
    assert_eq!(
        pipeline().try_into_err_prefix("add"),
        Err(Error::new(ErrorKind::TypeError, "add: object is not teon"))
    );
    assert_eq!(plain().try_into_err_message("no"), Ok(Value::Int(4)));
    assert_eq!(pipeline().try_into_err_message("no"), Err(Error::new(ErrorKind::TypeError, "no")));
    assert_eq!(plain().try_ref_into_err_prefix("add"), Ok(&Value::Int(4)));
    assert_eq!(
        pipeline().try_ref_into_err_prefix("add"),
        Err(Error::new(ErrorKind::TypeError, "add: object is not teon"))
    );
    assert_eq!(plain().try_ref_into_err_message("no"), Ok(&Value::Int(4)));
    assert_eq!(pipeline().try_ref_into_err_message("no"), Err(Error::new(ErrorKind::TypeError, "no")));
    assert_eq!(
        plain().try_into_interface_enum_variant().unwrap_err(),
        Error::new(ErrorKind::TypeError, "object is not InterfaceEnumVariant")
    );
    let variant = Object {
        inner: teo_runtime::object::ObjectInner::InterfaceEnumVariant(InterfaceEnumVariant {
            value: "desc".to_string(),
            args: None,
        }),
    };
    assert_eq!(variant.try_into_interface_enum_variant().unwrap().value, "desc");
}

#[test]
fn plain_values_are_instances_of_standard_structs() {
    assert_eq!(default_struct_path(&Value::Null), Ok(vec!["std", "Null"]));
    assert_eq!(default_struct_path(&Value::Int64(1)), Ok(vec!["std", "Int64"]));
    assert_eq!(default_struct_path(&Value::Float32(0)), Ok(vec!["std", "Float32"]));
    assert_eq!(default_struct_path(&string("s")), Ok(vec!["std", "String"]));
    assert_eq!(default_struct_path(&Value::Array(vec![])), Ok(vec!["std", "Array"]));
    assert_eq!(default_struct_path(&Value::Dictionary(Dictionary::new())), Ok(vec!["std", "Dictionary"]));
    assert_eq!(
        default_struct_path(&Value::Range(false, Box::new(Value::Int(0)), Box::new(Value::Int(1)))),
        Ok(vec!["std", "Range"])
    );
    assert_eq!(Value::Regex("a+".to_string()).default_struct_path(), Ok(vec!["std", "Regex"]));
    assert_eq!(Value::File("f".to_string()).default_struct_path(), Ok(vec!["std", "File"]));
    assert_eq!(
        default_struct_path(&Value::Tuple(vec![])),
        Err(Error::new(ErrorKind::TypeError, "tuple struct is not supported"))
    );
    assert_eq!(
        default_struct_path(&Value::EnumVariant("a".to_string())),
        Err(Error::new(ErrorKind::TypeError, "enum variant struct is not supported"))
    );
    assert_eq!(
        default_struct_path(&Value::OptionVariant(1)),
        Err(Error::new(ErrorKind::TypeError, "option variant struct is not supported"))
    );
}

#[test]
fn a_database_is_named_by_an_enum_variant() {
    let named = |name: &str| Object::from_value(Value::EnumVariant(name.to_string()));
    assert_eq!(Database::try_from_object(&named("mysql")), Ok(Database::MySQL));
    assert_eq!(Database::try_from_object(&named("postgres")), Ok(Database::PostgreSQL));
    assert_eq!(Database::try_from_object(&named("mongo")), Ok(Database::MongoDB));
    assert_eq!(Database::try_from_object(&named("sqlite")), Ok(Database::SQLite));
    assert_eq!(
        Database::try_from_object(&named("oracle")),
        Err(Error::new(ErrorKind::TypeError, "invalid database name"))
    );
    assert_eq!(
        Database::try_from_object(&Object::from_value(string("mysql"))),
        Err(Error::new(ErrorKind::TypeError, "object is not enum variant"))
    );
    assert_eq!(
        Database::try_from_object(&Object::from_pipeline(Pipeline::new())),
        Err(Error::new(ErrorKind::TypeError, "object is not enum variant"))
    );
}

fn handler(method: Method, url: Option<&str>, interface: Option<&str>) -> Handler {
    Handler {
        path: words(&["auth", "signIn"]),
        namespace_path: words(&["auth"]),
        input_type: "Any".to_string(),
        output_type: "Any".to_string(),
        nonapi: false,
        format: HandlerInputFormat::Json,
        method,
        url: url.map(|u| u.to_string()),
        interface: interface.map(|i| i.to_string()),
        ignore_prefix: false,
    }
}

#[test]
fn handlers_know_their_url_arguments_and_bodies() {
    assert!(!handler(Method::Post, None, None).has_custom_url_args());
    assert!(!handler(Method::Post, Some("/plain/path"), None).has_custom_url_args());
    assert!(handler(Method::Post, Some("/users/:id"), None).has_custom_url_args());
    assert!(handler(Method::Post, Some("/files/*"), None).has_custom_url_args());
    assert!(!handler(Method::Post, Some(""), None).has_custom_url_args());

    assert!(handler(Method::Post, None, None).has_body_input());
    assert!(handler(Method::Put, None, None).has_body_input());
    assert!(handler(Method::Patch, None, None).has_body_input());
    assert!(!handler(Method::Get, None, None).has_body_input());
    assert!(!handler(Method::Delete, None, None).has_body_input());

    assert_eq!(handler(Method::Get, None, None).custom_url_args_path(), None);
    assert_eq!(
        handler(Method::Get, None, Some("SignInArgs")).custom_url_args_path(),
        Some(words(&["auth", "signIn", "SignInArgs"]))
    );
    assert_eq!(handler(Method::Get, None, None).name(), Some("signIn"));
    let mut nameless = handler(Method::Get, None, None);
    nameless.path.clear();
    assert_eq!(nameless.name(), None);
}

#[test]
fn a_count_is_a_64_bit_integer() {
    assert_eq!(count(0), Value::Int64(0));
    assert_eq!(count(42), Value::Int64(42));
    assert_eq!(count(i64::MAX as u64), Value::Int64(i64::MAX));
    assert_eq!(count(i64::MAX as u64 + 1), Value::Int64(i64::MAX));
    assert_eq!(count(u64::MAX), Value::Int64(i64::MAX));
}

#[test]
fn an_enum_caches_the_names_of_its_members() {
    let mut e = Enum::new();
    assert_eq!(e.path(), Vec::<&str>::new());
    assert_eq!(e.name(), None);
    assert!(e.comment().is_none());
    assert_eq!(e.kind(), "enum");
    e.path = words(&["shop", "Status"]);
    e.members = vec![
        Member { name: "open".to_string(), value: string("open"), comment: None },
        Member { name: "closed".to_string(), value: string("closed"), comment: None },
    ];
    assert!(e.cache.member_names.is_empty());
    e.finalize();
    assert_eq!(e.cache.member_names, words(&["open", "closed"]));
    assert_eq!(e.path(), vec!["shop", "Status"]);
    assert_eq!(e.name(), Some("Status"));
    assert_eq!(e.members().len(), 2);
    assert_eq!(e.members()[1].name, "closed");
}

#[test]
fn a_struct_instance_prints_its_path() {
    let object = structs::object::Object::new(words(&["std", "geo", "Point"]), Vec::new());
    assert_eq!(object.struct_path(), vec!["std", "geo", "Point"]);
    assert_eq!(object.to_string(), "std.geo.Point");
    assert_eq!(structs::object::Object::new(words(&["One"]), Vec::new()).to_string(), "One");
    assert_eq!(structs::object::Object::new(Vec::new(), Vec::new()).to_string(), "");
}

#[test]
fn verdicts_come_from_reasons_and_flags() {
    assert!(Validity::Valid.is_valid());
    assert_eq!(Validity::Valid.invalid_reason(), None);
    let invalid = Validity::from_reason("too short");
    assert!(!invalid.is_valid());
    assert_eq!(invalid.invalid_reason(), Some("too short"));
    assert_eq!(Validity::from_bool(true), Validity::Valid);
    assert_eq!(Validity::from_bool(false), Validity::Invalid("value is invalid".to_string()));
    assert_eq!(Validity::from_optional_reason(None), Validity::Valid);
    assert_eq!(Validity::from_optional_reason(Some("no")), Validity::Invalid("no".to_string()));
    assert_eq!(Validity::from("bad".to_string()), Validity::Invalid("bad".to_string()));
    assert_eq!(Validity::from(()), Validity::Valid);
    assert_eq!(Validity::from(Some("bad".to_string())), Validity::Invalid("bad".to_string()));
    assert_eq!(Validity::from(None::<String>), Validity::Valid);
    assert_eq!(invalid.clone(), invalid);
}

#[test]
fn results_of_items_flatten_to_a_value_or_an_error() {
    assert_eq!(ValidateResult::from(Validity::Valid).flatten(), Ok(Validity::Valid));
    assert_eq!(
        ValidateResult::from(Ok::<Validity, Error>(Validity::from_reason("r"))).flatten(),
        Ok(Validity::Invalid("r".to_string()))
    );
    let error = Error::new(ErrorKind::ValueError, "failed");
    assert_eq!(ValidateResult::from(Err::<Validity, Error>(error.clone())).flatten(), Err(error.clone()));

    assert_eq!(TransformResult::from_object(Value::Int(1)).flatten(), Ok(Value::Int(1)));
    assert_eq!(TransformResult::from_result(Ok(Value::Int(2))).flatten(), Ok(Value::Int(2)));
    assert_eq!(TransformResult::<Value>::from_result(Err(error.clone())).flatten(), Err(error));
}

#[test]
fn the_identity_item_runs_on_the_identity_of_the_request() {
    let item = IdentityItem::new(Pipeline::new());
    let user = Value::Dictionary(Dictionary::new().with_entry("id".to_string(), Value::Int(1)));
    match item.call(&Initiator::Identity(Some(user.clone()))) {
        IdentityPlan::Run(value) => assert_eq!(value, user),
        other => panic!("unexpected plan {:?}", other),
    }
    assert!(matches!(item.call(&Initiator::Identity(None)), IdentityPlan::PassThrough));
    assert!(matches!(item.call(&Initiator::ProgramCode), IdentityPlan::PassThrough));
    assert!(matches!(item.call(&Initiator::Seed), IdentityPlan::PassThrough));

    let connect = ConnectIdentityItem::new();
    assert!(connect.call(&words(&["User"]), Some(&words(&["User"]))));
    assert!(!connect.call(&words(&["User"]), Some(&words(&["Admin"]))));
    assert!(!connect.call(&words(&["User"]), Some(&words(&["app", "User"]))));
    assert!(!connect.call(&words(&["User"]), None));
}

#[test]
fn identifiers_stand_for_constants_and_paths() {
    let constant = fetch_identifier(Top::ConstantDeclaration(Object::from_value(Value::Int(5)))).unwrap();
    assert_eq!(constant.as_teon(), Some(&Value::Int(5)));
    let model = fetch_identifier(Top::Model(words(&["shop", "Order"]))).unwrap();
    assert_eq!(model.as_teon(), Some(&Value::Array(vec![string("shop"), string("Order")])));
    let data_set = fetch_identifier(Top::DataSet(words(&["default"]))).unwrap();
    assert_eq!(data_set.as_teon(), Some(&Value::Array(vec![string("default")])));
    assert_eq!(path_value(&words(&[])), Value::Array(vec![]));
    let refused = Error::new(ErrorKind::ValueError, "cannot resolve");
    for top in [Top::Config, Top::Enum, Top::InterfaceDeclaration, Top::Namespace] {
        assert_eq!(fetch_identifier(top).unwrap_err(), refused);
    }
}

#[test]
fn a_pipeline_holds_the_items_of_its_unit_in_order() {
    let mut with = Arguments::new();
    with.entries.push(("value".to_string(), Object::from_value(Value::Int(2))));
    let unit = vec![
        UnitItem::Space,
        UnitItem::Item(words(&["std", "add"]), with),
        UnitItem::Other,
        UnitItem::Item(words(&["isEmail"]), Arguments::new()),
    ];
    let object = fetch_pipeline_unit(unit).unwrap();
    let pipeline = object.as_pipeline().unwrap();
    assert_eq!(pipeline.items.len(), 2);
    assert_eq!(pipeline.items[0].path, words(&["std", "add"]));
    assert_eq!(
        pipeline.items[0].arguments.get_object("value").and_then(|o| o.as_teon()),
        Some(&Value::Int(2))
    );
    assert_eq!(pipeline.items[1].path, words(&["isEmail"]));
    assert!(pipeline.items[1].arguments.entries.is_empty());

    let empty = fetch_pipeline(Vec::new()).unwrap();
    assert_eq!(empty.as_pipeline().map(|p| p.is_empty()), Some(true));

    let broken = vec![UnitItem::Item(words(&["a"]), Arguments::new()), UnitItem::Missing];
    assert_eq!(
        fetch_pipeline(broken).unwrap_err(),
        Error::new(ErrorKind::ValueError, "pipeline item not found")
    );
}

#[test]
fn values_are_equal_by_kind_and_content() {
    assert!(same_value(&Value::Null, &Value::Null));
    assert!(!same_value(&Value::Int(1), &Value::Int64(1)));
    assert!(!same_value(&Value::Int(1), &Value::Int(2)));
    assert!(same_value(&string("a"), &string("a")));
    assert!(!same_value(&string("a"), &Value::EnumVariant("a".to_string())));
    assert!(!same_value(&Value::Date("2020-01-01".to_string()), &Value::DateTime("2020-01-01".to_string())));
    assert!(same_value(&Value::Float(7), &Value::Float(7)));
    assert!(!same_value(&Value::Float32(7), &Value::Float32(8)));
    let range = |end: i32| Value::Range(true, Box::new(Value::Int(0)), Box::new(Value::Int(end)));
    assert!(same_value(&range(3), &range(3)));
    assert!(!same_value(&range(3), &range(4)));
    assert!(!same_value(&range(3), &Value::Range(false, Box::new(Value::Int(0)), Box::new(Value::Int(3)))));
    assert!(!same_value(&Value::Array(vec![]), &Value::Tuple(vec![])));
    assert_eq!(Value::Array(vec![Value::Int(1)]), Value::Array(vec![Value::Int(1)]));
    assert_ne!(Value::Array(vec![Value::Int(1)]), Value::Array(vec![Value::Int(1), Value::Int(1)]));

    assert!(same_values(&vec![Value::Int(1), string("b")], &vec![Value::Int(1), string("b")]));
    assert!(!same_values(&vec![Value::Int(1), string("b")], &vec![string("b"), Value::Int(1)]));
    assert!(!same_values(&vec![Value::Int(1)], &vec![]));
    assert!(same_values(&vec![], &vec![]));

    let one = Decimal { unscaled: vec![1, 0], scale: 2 };
    assert!(same_decimal(&one, &Decimal { unscaled: vec![1, 0], scale: 2 }));
    assert!(!same_decimal(&one, &Decimal { unscaled: vec![1, 0], scale: 3 }));
    assert!(!same_decimal(&one, &Decimal { unscaled: vec![1, 1], scale: 2 }));
    assert!(!same_decimal(&one, &Decimal { unscaled: vec![1], scale: 2 }));
}

#[test]
fn dictionaries_are_equal_entry_by_entry() {
    let make = |entries: Vec<(&str, i32)>| {
        let mut d = Dictionary::new();
        for (key, value) in entries {
            d.insert(key.to_string(), Value::Int(value));
        }
        d
    };
    assert!(same_entries(&make(vec![("a", 1), ("b", 2)]), &make(vec![("a", 1), ("b", 2)])));
    assert!(!same_entries(&make(vec![("a", 1), ("b", 2)]), &make(vec![("b", 2), ("a", 1)])));
    assert!(!same_entries(&make(vec![("a", 1), ("b", 2)]), &make(vec![("b", 1), ("a", 2)])));
    assert!(!same_entries(&make(vec![("a", 1), ("b", 1)]), &make(vec![("b", 1), ("a", 1)])));
    assert!(!same_entries(&make(vec![("a", 1)]), &make(vec![("a", 1), ("b", 2)])));
    assert!(same_entries(&make(vec![]), &make(vec![])));
    assert_eq!(make(vec![("a", 1)]), make(vec![("a", 1)]));
    assert_ne!(make(vec![("a", 1)]), make(vec![("a", 2)]));
    assert_eq!(Value::Dictionary(make(vec![("a", 1)])), Value::Dictionary(make(vec![("a", 1)])));
}
