use teo_runtime::action::action::{Action, NestedAction, CREATE, ENTRY, SINGLE};
use teo_runtime::connection::transaction;
use teo_runtime::model::field::{Field, FieldNames, Optionality, Previous, Write};
use teo_runtime::model::model::Model;
use teo_runtime::model::object::input::Input;
use teo_runtime::model::object::object::{invalid_key, Object};
use teo_runtime::model::object::tracking::Pending;
use teo_runtime::model::object::validate::{check_user_json_keys, Requirement};
use teo_runtime::model::property::Property;
use teo_runtime::model::relation::Relation;
use teo_runtime::namespace::namespace::Namespace;
use teo_runtime::path::error::{Error, ErrorKind};
use teo_runtime::path::key_path::KeyPath;
use teo_runtime::pipeline::pipeline::{BoundedItem, Pipeline};
use teo_runtime::arguments::arguments::Arguments;
use teo_runtime::value::value::{Dictionary, Value};

fn list(names: &[&str]) -> Vec<String> {
    names.iter().map(|name| name.to_string()).collect()
}

fn string(value: &str) -> Value {
    Value::String(value.to_string())
}

fn map(entries: Vec<(&str, Value)>) -> Value {
    let mut d = Dictionary::new();
    for (key, value) in entries {
        d.insert(key.to_string(), value);
    }
    Value::Dictionary(d)
}

fn one_item(name: &str) -> Pipeline {
    Pipeline { items: vec![BoundedItem { path: list(&[name]), arguments: Arguments::new() }] }
}

/// Fills the key lists of a model from its fields, relations and
/// properties, in that order.
fn complete(mut model: Model) -> Model {
    let mut all = Vec::new();
    let mut save = Vec::new();
    let mut settable = Vec::new();
    for field in &model.fields {
        all.push(field.name.clone());
        if !field.is_virtual {
            save.push(field.name.clone());
        }
        settable.push(field.name.clone());
    }
    let mut relations = Vec::new();
    for relation in &model.relations {
        all.push(relation.name.clone());
        relations.push(relation.name.clone());
    }
    for property in &model.properties {
        all.push(property.name.clone());
    }
    model.cache.all_keys = all.clone();
    model.cache.input_keys = all.clone();
    model.cache.output_keys = all;
    model.cache.save_keys = save;
    model.cache.save_keys_and_virtual_keys = settable;
    model.cache.relation_output_keys = relations;
    model
}

fn person() -> Model {
    let mut model = Model::new(list(&["Person"]));
    let mut id = Field::new("id");
    id.auto_increment = true;
    id.previous = Previous::Keep;
    let mut email = Field::new("email");
    email.previous = Previous::Keep;
    email.column_name = "email_address".to_string();
    let name = Field::new("name");
    let mut first = Field::new("first");
    first.is_virtual = true;
    let mut initials = Property::new("initials");
    initials.cached = true;
    initials.dependencies = list(&["name"]);
    let mut posts = Relation::new("posts", list(&["Post"]));
    posts.is_vec = true;
    posts.fields = list(&["id"]);
    posts.references = list(&["authorId"]);
    model.fields = vec![id, email, name, first];
    model.relations = vec![posts];
    model.properties = vec![initials];
    model.primary_index = list(&["id"]);
    complete(model)
}

fn fresh(model: &Model) -> Object {
    Object::new(None, transaction::Ctx { id: 7 }, model, Action::from_u32(CREATE | SINGLE | ENTRY))
}

fn loaded(model: &Model, row: Value) -> Object {
    let mut namespace = Namespace::new();
    namespace.models.push(person());
    let mut record = fresh(model);
    record.set_from_database_result_value(&namespace, model, &row, None, None);
    record
}

#[test]
fn a_blank_record_is_new_and_holds_nothing() {
    let model = person();
    let record = fresh(&model);
    assert!(record.is_new());
    assert!(!record.is_modified());
    assert!(!record.is_initialized);
    assert!(record.modified_fields.is_empty());
    assert_eq!(record.model_path, list(&["Person"]));
    assert_eq!(record.transaction_ctx(), transaction::Ctx { id: 7 });
    assert_eq!(record.request_ctx(), None);
    assert_eq!(record.action(), Action::from_u32(CREATE | SINGLE | ENTRY));
    assert_eq!(record.get_value(&model, "name"), Ok(Value::Null));
    assert_eq!(record.get(&model, "posts"), Ok(Value::Null));
    assert_eq!(record.get_value(&model, "nope"), Err(invalid_key("nope")));
    assert_eq!(invalid_key("nope").kind, ErrorKind::InvalidKey);
}

#[test]
fn assignments_to_a_new_record_are_not_tracked() {
    let model = person();
    let mut record = fresh(&model);
    assert_eq!(record.set(&model, "name", string("Ada")), Ok(()));
    assert_eq!(record.set_value(&model, "first", string("A")), Ok(()));
    assert_eq!(record.get_value(&model, "name"), Ok(string("Ada")));
    assert_eq!(record.get_value_map_value("first"), string("A"));
    assert!(!record.is_modified());
    assert!(record.modified_fields.is_empty());
    assert_eq!(record.get_previous_value(&model, "name"), Ok(Value::Null));
    assert_eq!(record.set(&model, "posts", Value::Null), Err(invalid_key("posts")));
    assert_eq!(record.set_value(&model, "initials", Value::Null), Err(invalid_key("initials")));
}

#[test]
fn a_null_assignment_removes_the_key() {
    let model = person();
    let mut record = fresh(&model);
    record.set(&model, "name", string("Ada")).unwrap();
    assert!(record.value_map.contains_key("name"));
    record.set(&model, "name", Value::Null).unwrap();
    assert!(!record.value_map.contains_key("name"));
    assert_eq!(record.get_value(&model, "name"), Ok(Value::Null));
}

#[test]
fn the_value_at_load_time_is_kept_as_the_previous_value() {
    let model = person();
    let mut record = loaded(&model, map(vec![("id", Value::Int(1)), ("email", string("a@x.io")), ("name", string("Ada"))]));
    assert!(!record.is_new());
    assert!(!record.is_modified());
    assert!(record.modified_fields.is_empty());

    record.set(&model, "email", string("b@x.io")).unwrap();
    assert_eq!(record.get_previous_value(&model, "email"), Ok(string("a@x.io")));
    record.set(&model, "email", string("c@x.io")).unwrap();
    assert_eq!(record.get_previous_value(&model, "email"), Ok(string("a@x.io")));
    assert_eq!(record.get_value(&model, "email"), Ok(string("c@x.io")));
    assert!(record.is_modified());
    assert!(record.modified_fields.contains("email"));
    assert!(!record.modified_fields.contains("name"));

    record.set(&model, "name", string("Bea")).unwrap();
    assert_eq!(record.get_previous_value(&model, "name"), Ok(Value::Null));
    assert_eq!(record.get_previous_value(&model, "nope"), Err(invalid_key("nope")));
}

#[test]
fn a_change_of_a_field_forgets_the_properties_that_depend_on_it() {
    let model = person();
    let mut record = loaded(
        &model,
        map(vec![("id", Value::Int(1)), ("name", string("Ada")), ("initials", string("A"))]),
    );
    assert_eq!(record.cached_property_map.get("initials"), Some(&string("A")));
    record.set(&model, "email", string("a@x.io")).unwrap();
    assert_eq!(record.cached_property_map.get("initials"), Some(&string("A")));
    record.set(&model, "name", string("Bea")).unwrap();
    assert_eq!(record.cached_property_map.get("initials"), None);
    assert!(record.modified_fields.contains("initials"));
    assert!(record.modified_fields.contains("name"));
}

#[test]
fn the_identifiers_of_a_record() {
    let model = person();
    let mut record = loaded(&model, map(vec![("id", Value::Int(1)), ("name", string("Ada"))]));
    assert_eq!(record.identifier(&model), map(vec![("id", Value::Int(1))]));
    assert_eq!(record.previous_identifier(&model), map(vec![("id", Value::Int(1))]));
    assert_eq!(record.db_identifier(&model), map(vec![("id", Value::Int(1))]));

    record.set(&model, "id", Value::Int(2)).unwrap();
    assert_eq!(record.identifier(&model), map(vec![("id", Value::Int(2))]));
    assert_eq!(record.previous_identifier(&model), map(vec![("id", Value::Int(1))]));
    assert_eq!(record.db_identifier(&model), map(vec![("id", Value::Int(1))]));

    let mut by_email = person();
    by_email.primary_index = list(&["email", "id"]);
    let record = loaded(&by_email, map(vec![("id", Value::Int(1)), ("email", string("a@x.io"))]));
    assert_eq!(
        record.identifier(&by_email),
        map(vec![("email", string("a@x.io")), ("id", Value::Int(1))])
    );
    assert_eq!(
        record.db_identifier(&by_email),
        map(vec![("email_address", string("a@x.io")), ("id", Value::Int(1))])
    );
}

#[test]
fn the_filter_of_a_relation_pairs_references_with_local_values() {
    let model = person();
    let record = loaded(&model, map(vec![("id", Value::Int(4))]));
    let relation = &model.relations[0];
    assert_eq!(record.intrinsic_where_unique_for_relation(relation), map(vec![("authorId", Value::Int(4))]));

    let mut wide = Relation::new("pair", list(&["Other"]));
    wide.fields = list(&["id", "name", "email"]);
    wide.references = list(&["a", "b"]);
    assert_eq!(wide.pair_count(), 2);
    assert_eq!(
        record.intrinsic_where_unique_for_relation(&wide),
        map(vec![("a", Value::Int(4)), ("b", Value::Null)])
    );
}

#[test]
fn nested_payloads_are_made_complete() {
    let model = person();
    let record = loaded(&model, map(vec![("id", Value::Int(4))]));
    let relation = &model.relations[0];
    let filter = map(vec![("authorId", Value::Int(4))]);
    let payload = map(vec![("title", string("t"))]);

    assert_eq!(
        record.normalize_relation_one_value(relation, NestedAction::Create, &payload),
        map(vec![("create", payload.clone())])
    );
    assert_eq!(
        record.normalize_relation_one_value(relation, NestedAction::Update, &payload),
        map(vec![("update", payload.clone()), ("where", filter.clone())])
    );
    assert_eq!(
        record.normalize_relation_one_value(relation, NestedAction::Delete, &Value::Bool(true)),
        map(vec![("where", filter.clone())])
    );
    assert_eq!(
        record.normalize_relation_one_value(relation, NestedAction::Disconnect, &Value::Bool(true)),
        filter
    );
    assert_eq!(
        record.normalize_relation_one_value(relation, NestedAction::Upsert, &payload),
        map(vec![("title", string("t")), ("where", filter.clone())])
    );
    assert_eq!(
        record.normalize_relation_one_value(relation, NestedAction::Upsert, &Value::Int(1)),
        Value::Int(1)
    );
    assert_eq!(record.normalize_relation_one_value(relation, NestedAction::Connect, &payload), payload);

    assert_eq!(
        Object::normalize_relation_many_value(NestedAction::Create, &payload),
        map(vec![("create", payload.clone())])
    );
    assert_eq!(Object::normalize_relation_many_value(NestedAction::Update, &payload), payload);
}

#[test]
fn linked_values_are_copied_and_removed() {
    let model = person();
    let mut post_model = Model::new(list(&["Post"]));
    post_model.fields = vec![Field::new("id"), Field::new("authorId")];
    post_model.primary_index = list(&["id"]);
    let post_model = complete(post_model);

    let author = loaded(&model, map(vec![("id", Value::Int(4))]));
    let mut post = fresh(&post_model);
    // posts: local `id` on the author, `authorId` on the post
    let mut back = Relation::new("author", list(&["Person"]));
    back.fields = list(&["authorId"]);
    back.references = list(&["id"]);
    author.assign_linked_values_to_related_object(&mut post, &post_model, &back);
    assert_eq!(post.get_value(&post_model, "authorId"), Ok(Value::Int(4)));

    post.remove_linked_values_from_related_relation(&post_model, &back);
    assert_eq!(post.get_value(&post_model, "authorId"), Ok(Value::Null));

    post.set(&post_model, "authorId", Value::Int(4)).unwrap();
    Object::remove_linked_values_from_related_relation_on_related_object(&model.relations[0], &mut post, &post_model);
    assert_eq!(post.get_value(&post_model, "authorId"), Ok(Value::Null));
}

#[test]
fn virtual_fields_are_copied_to_another_record() {
    let model = person();
    let mut from = fresh(&model);
    from.set(&model, "first", string("A")).unwrap();
    from.set(&model, "name", string("Ada")).unwrap();
    let mut to = fresh(&model);
    from.copy_virtual_fields(&model, &mut to);
    assert_eq!(to.get_value(&model, "first"), Ok(string("A")));
    assert_eq!(to.get_value(&model, "name"), Ok(Value::Null));
    assert!(model.has_virtual_fields());
}

#[test]
fn values_are_assigned_position_by_position() {
    let model = person();
    let mut record = fresh(&model);
    record.assign_values(&model, &list(&["name", "email"]), &vec![string("Ada"), string("a@x.io")], 2);
    assert_eq!(record.get_value(&model, "name"), Ok(string("Ada")));
    assert_eq!(record.get_value(&model, "email"), Ok(string("a@x.io")));
}

#[test]
fn atomic_updaters_are_told_from_plain_values() {
    for name in ["increment", "decrement", "multiply", "divide", "push"] {
        let updater = map(vec![(name, Value::Int(1))]);
        assert!(matches!(Input::decode_field(&updater), Input::AtomicUpdater(v) if v == updater));
    }
    let plain = map(vec![("set", Value::Int(1))]);
    assert!(matches!(Input::decode_field(&plain), Input::SetValue(v) if v == plain));
    let two = map(vec![("increment", Value::Int(1)), ("decrement", Value::Int(1))]);
    assert!(matches!(Input::decode_field(&two), Input::SetValue(v) if v == two));
    assert!(matches!(Input::decode_field(&Value::Int(3)), Input::SetValue(Value::Int(3))));
    assert!(matches!(Input::decode_field(&map(vec![])), Input::SetValue(_)));
}

#[test]
fn queued_updaters_and_payloads_mark_the_key_modified() {
    let model = person();
    let mut record = loaded(&model, map(vec![("id", Value::Int(1))]));
    let updater = map(vec![("increment", Value::Int(1))]);
    assert_eq!(record.get_atomic_updator("id"), None);
    record.set_value_to_atomic_updator_map("id", updater.clone());
    assert_eq!(record.get_atomic_updator("id"), Some(updater));
    assert!(!record.value_map.contains_key("id"));
    assert!(record.is_modified());
    assert!(record.modified_fields.contains("id"));

    let payload = map(vec![("create", map(vec![]))]);
    record.set_value_to_relation_manipulation_map("posts", &payload);
    assert_eq!(record.relation_mutation_map.get("posts"), Some(&payload));
    assert!(record.modified_fields.contains("posts"));

    let mut blank = fresh(&model);
    blank.set_value_to_atomic_updator_map("id", Value::Null);
    assert!(!blank.is_modified());
    assert!(blank.modified_fields.is_empty());
}

#[test]
fn the_state_of_a_record_can_be_cleared() {
    let model = person();
    let mut record = loaded(&model, map(vec![("id", Value::Int(1))]));
    record.set(&model, "name", string("Ada")).unwrap();
    record.clear_new_state();
    assert!(!record.is_new() && !record.is_modified());
    assert!(record.modified_fields.contains("name"));
    record.set_modified_field("email");
    assert!(record.is_modified());
    record.clear_state();
    assert!(!record.is_new() && !record.is_modified());
    assert!(record.modified_fields.is_empty());

    let mut blank = fresh(&model);
    blank.set_modified_field("email");
    assert!(!blank.is_modified());
    assert!(blank.modified_fields.is_empty());
}

#[test]
fn a_save_from_inside_a_before_save_callback_is_refused() {
    let model = person();
    let mut record = fresh(&model);
    assert_eq!(record.before_save_callback_check(), Ok(()));
    record.inside_before_save_callback = true;
    let error = record.before_save_callback_check().unwrap_err();
    assert_eq!(error.kind, ErrorKind::InvalidOperation);
}

#[test]
fn fetched_relations_are_read_by_key() {
    let model = person();
    let mut record = fresh(&model);
    assert!(!record.has_query_relation_fetched("posts"));
    assert!(!record.has_mutation_relation_fetched("posts"));
    assert!(matches!(record.get_query_relation_object(&model, "posts"), Ok(None)));
    assert_eq!(record.get_relation_vec(&model, "posts").map(|l| l.len()), Ok(0));

    let mut first = fresh(&model);
    first.set(&model, "name", string("one")).unwrap();
    let mut second = fresh(&model);
    second.set(&model, "name", string("two")).unwrap();
    record.relation_query_map.push(("posts".to_string(), vec![first, second]));
    assert!(record.has_query_relation_fetched("posts"));
    assert!(record.has_mutation_relation_fetched("posts"));
    let found = record.get_query_relation_object(&model, "posts").unwrap().unwrap();
    assert_eq!(found.get_value(&model, "name"), Ok(string("one")));
    let found = record.get_mutation_relation_object(&model, "posts").unwrap().unwrap();
    assert_eq!(found.get_value(&model, "name"), Ok(string("one")));
    let all = record.get_relation_vec(&model, "posts").unwrap();
    assert_eq!(all.len(), 2);
    assert_eq!(all[1].get_value(&model, "name"), Ok(string("two")));

    assert_eq!(record.get_query_relation_object(&model, "nope").unwrap_err(), invalid_key("nope"));
    assert_eq!(record.get_mutation_relation_object(&model, "nope").unwrap_err(), invalid_key("nope"));
    assert_eq!(record.get_relation_vec(&model, "nope").unwrap_err(), invalid_key("nope"));
}

#[test]
fn programmatic_relation_changes_are_queued_by_key() {
    let model = person();
    let mut record = fresh(&model);
    record.force_set_relation_objects("posts", vec![fresh(&model)]);
    record.force_set_relation_objects("posts", vec![fresh(&model), fresh(&model)]);
    assert_eq!(record.object_set_many_map.len(), 1);
    assert_eq!(record.object_set_many_map[0].0, "posts");
    assert_eq!(record.object_set_many_map[0].1.len(), 2);

    record.force_add_relation_objects("posts", vec![fresh(&model)]);
    assert_eq!(record.object_connect_map.len(), 1);
    assert_eq!(record.object_connect_map[0].1.len(), 1);

    record.force_remove_relation_objects("posts", vec![]);
    assert_eq!(record.object_disconnect_map.len(), 1);
    assert_eq!(record.object_disconnect_map[0].1.len(), 0);

    record.force_set_relation_object("author", Some(fresh(&model)));
    record.force_set_relation_object("editor", None);
    assert_eq!(record.object_set_map.len(), 2);
    assert!(record.object_set_map[0].1.is_some());
    assert!(record.object_set_map[1].1.is_none());

    record.ignore_relation("author");
    assert_eq!(record.ignore_relation, Some("author".to_string()));
}

fn ruled(write: Write) -> Model {
    let mut model = Model::new(list(&["Ruled"]));
    let mut field = Field::new("f");
    field.write = write;
    model.fields = vec![Field::new("id"), field];
    model.primary_index = list(&["id"]);
    complete(model)
}

fn refusal_at(key: &str) -> Error {
    Error::at(ErrorKind::ValueError, "unexpected key", &KeyPath::new().with_key("in").with_key(key))
}

#[test]
fn write_rules_permit_and_refuse() {
    let at = KeyPath::new().with_key("in");
    let try_write = |write: Write, stored: Option<Value>, value: Value, condition: bool| {
        let model = ruled(write);
        let record = match stored {
            Some(held) => loaded(&model, map(vec![("id", Value::Int(1)), ("f", held)])),
            None => fresh(&model),
        };
        record.check_write_rule(&model, "f", &value, &at, condition)
    };
    assert_eq!(try_write(Write::Write, None, Value::Int(1), false), Ok(()));
    assert_eq!(try_write(Write::NoWrite, None, Value::Int(1), true), Err(refusal_at("f")));
    assert_eq!(try_write(Write::WriteOnCreate, None, Value::Int(1), false), Ok(()));
    assert_eq!(try_write(Write::WriteOnCreate, Some(Value::Null), Value::Int(1), false), Err(refusal_at("f")));
    assert_eq!(try_write(Write::WriteOnce, None, Value::Int(1), false), Ok(()));
    assert_eq!(try_write(Write::WriteOnce, Some(Value::Null), Value::Int(1), false), Ok(()));
    assert_eq!(try_write(Write::WriteOnce, Some(Value::Int(0)), Value::Int(1), false), Err(refusal_at("f")));
    assert_eq!(try_write(Write::WriteNonNull, None, Value::Null, false), Ok(()));
    assert_eq!(try_write(Write::WriteNonNull, Some(Value::Int(0)), Value::Int(1), false), Ok(()));
    assert_eq!(try_write(Write::WriteNonNull, Some(Value::Int(0)), Value::Null, false), Err(refusal_at("f")));
    assert_eq!(try_write(Write::WriteIf(one_item("check")), None, Value::Int(1), true), Ok(()));
    assert_eq!(try_write(Write::WriteIf(one_item("check")), None, Value::Int(1), false), Err(refusal_at("f")));

    let model = ruled(Write::Write);
    assert_eq!(
        fresh(&model).check_write_rule(&model, "nope", &Value::Null, &at, true),
        Err(invalid_key("nope"))
    );
}

fn asked(optionality: Optionality) -> Model {
    let mut model = Model::new(list(&["Asked"]));
    let mut field = Field::new("f");
    field.optionality = optionality;
    let mut auto = Field::new("auto");
    auto.optionality = Optionality::Required;
    auto.auto = true;
    let mut key = Field::new("key");
    key.optionality = Optionality::Required;
    key.foreign_key = true;
    model.fields = vec![Field::new("a"), Field::new("b"), field, auto, key];
    complete(model)
}

fn missing_at(key: &str) -> Error {
    Error::at(ErrorKind::MissingRequiredInput, "missing required input", &KeyPath::new().with_key(key))
}

#[test]
fn optionality_decides_what_is_missing() {
    let root = KeyPath::new();
    let with = |optionality: Optionality, values: Vec<(&str, Value)>| {
        let model = asked(optionality);
        let mut record = fresh(&model);
        for (key, value) in values {
            record.set(&model, key, value).unwrap();
        }
        (record.requirement(&model, "f"), record.validate_required_field(&model, "f", &root, true), record.validate_required_field(&model, "f", &root, false))
    };
    assert_eq!(with(Optionality::Optional, vec![]), (Requirement::Satisfied, Ok(()), Ok(())));
    assert_eq!(
        with(Optionality::Required, vec![]),
        (Requirement::Missing, Err(missing_at("f")), Err(missing_at("f")))
    );
    assert_eq!(with(Optionality::Required, vec![("f", Value::Int(1))]), (Requirement::Satisfied, Ok(()), Ok(())));

    let groups = || vec![FieldNames::One("a".to_string()), FieldNames::Any(list(&["b", "a"]))];
    assert_eq!(with(Optionality::PresentWith(groups()), vec![]).0, Requirement::Satisfied);
    assert_eq!(with(Optionality::PresentWith(groups()), vec![("b", Value::Int(1))]).0, Requirement::Missing);
    assert_eq!(
        with(Optionality::PresentWith(groups()), vec![("b", Value::Int(1)), ("f", Value::Int(1))]).0,
        Requirement::Satisfied
    );
    assert_eq!(with(Optionality::PresentWithout(groups()), vec![]).0, Requirement::Missing);
    assert_eq!(with(Optionality::PresentWithout(groups()), vec![("a", Value::Int(1))]).0, Requirement::Satisfied);
    assert_eq!(
        with(Optionality::PresentIf(one_item("check")), vec![]),
        (Requirement::Ask, Err(missing_at("f")), Ok(()))
    );
    assert_eq!(
        with(Optionality::PresentIf(one_item("check")), vec![("f", Value::Int(1))]).0,
        Requirement::Satisfied
    );

    let model = asked(Optionality::Optional);
    let record = fresh(&model);
    assert_eq!(record.requirement(&model, "auto"), Requirement::Satisfied);
    assert_eq!(record.requirement(&model, "key"), Requirement::Satisfied);
}

#[test]
fn a_required_relation_needs_a_record_in_sight() {
    let mut model = Model::new(list(&["Profile"]));
    let mut user = Relation::new("user", list(&["User"]));
    user.is_required = true;
    user.fields = list(&["userId"]);
    user.references = list(&["id"]);
    let mut key = Field::new("userId");
    key.foreign_key = true;
    model.fields = vec![Field::new("id"), key];
    model.relations = vec![user];
    model.primary_index = list(&["id"]);
    let model = complete(model);
    let root = KeyPath::new();

    let mut record = fresh(&model);
    assert!(record.relation_lacks_record(&model, "user", false));
    assert_eq!(record.validate_required_relations(&model, &root, false), Err(missing_at("user")));
    assert_eq!(record.validate_required_relations(&model, &root, true), Ok(()));

    record.ignore_relation("user");
    assert_eq!(record.validate_required_relations(&model, &root, false), Ok(()));

    let mut record = fresh(&model);
    record.set(&model, "userId", Value::Int(1)).unwrap();
    assert!(!record.relation_lacks_record(&model, "user", false));
    assert_eq!(record.validate_required_relations(&model, &root, false), Ok(()));

    let mut record = fresh(&model);
    record.set_value_to_relation_manipulation_map("user", &map(vec![("create", map(vec![]))]));
    assert_eq!(record.validate_required_relations(&model, &root, false), Ok(()));

    let stored = loaded(&model, map(vec![("id", Value::Int(1))]));
    assert_eq!(stored.validate_required_relations(&model, &root, false), Ok(()));
}

#[test]
fn payload_keys_outside_the_allowed_ones_are_reported() {
    let model = person();
    let payload = match map(vec![("name", Value::Null), ("zip", Value::Null), ("zap", Value::Null)]) {
        Value::Dictionary(entries) => entries,
        _ => unreachable!(),
    };
    assert_eq!(check_user_json_keys(&payload, &list(&["name", "zip", "zap"]), &model), Ok(()));
    assert_eq!(
        check_user_json_keys(&payload, &list(&["name"]), &model),
        Err(Error::new(ErrorKind::InvalidKey, "key 'zip' is not allowed for Person"))
    );
    assert_eq!(check_user_json_keys(&Dictionary::new(), &list(&[]), &model), Ok(()));
}

#[test]
fn a_selection_restricts_the_selected_fields() {
    let model = person();
    let mut record = fresh(&model);
    assert_eq!(record.set_select(&model, None), Ok(()));
    assert!(record.selected_fields.is_empty());
    assert!(!record.is_selected);
    assert_eq!(record.set_select(&model, Some(&map(vec![]))), Ok(()));
    assert!(record.selected_fields.is_empty());

    record.set_select(&model, Some(&map(vec![("name", Value::Bool(true)), ("id", Value::Bool(true))]))).unwrap();
    assert_eq!(record.selected_fields, list(&["id", "name"]));

    record.set_select(&model, Some(&map(vec![("name", Value::Bool(false))]))).unwrap();
    assert_eq!(record.selected_fields, list(&["id", "email", "first", "posts", "initials"]));
    assert!(record.is_selected);

    record.set_select(&model, Some(&map(vec![("name", Value::Bool(false)), ("email", Value::Bool(true))]))).unwrap();
    assert_eq!(record.selected_fields, list(&["email"]));

    let before = record.selected_fields.clone();
    let error = record.set_select(&model, Some(&map(vec![("name", Value::Int(1))]))).unwrap_err();
    assert_eq!(error.kind, ErrorKind::TypeError);
    assert_eq!(record.selected_fields, before);
    assert!(record.set_select(&model, Some(&Value::Bool(true))).is_err());
}

#[test]
fn a_stored_row_fills_fields_properties_and_relations() {
    let mut namespace = Namespace::new();
    let mut post_model = Model::new(list(&["Post"]));
    post_model.fields = vec![Field::new("id"), Field::new("authorId"), Field::new("title")];
    post_model.primary_index = list(&["id"]);
    namespace.models.push(person());
    namespace.models.push(complete(post_model));
    let model = &namespace.models[0];
    let post_model = &namespace.models[1];

    let row = map(vec![
        ("id", Value::Int(1)),
        ("name", string("Ada")),
        ("initials", string("A")),
        ("unknown", Value::Int(9)),
        (
            "posts",
            Value::Array(vec![
                map(vec![("id", Value::Int(10)), ("title", string("first"))]),
                map(vec![("id", Value::Int(11)), ("title", string("second"))]),
            ]),
        ),
    ]);
    let mut record = fresh(model);
    let select = map(vec![("name", Value::Bool(true))]);
    record.set_from_database_result_value(&namespace, model, &row, Some(&select), None);
    assert!(!record.is_new() && !record.is_modified());
    assert!(record.modified_fields.is_empty());
    assert_eq!(record.get_value(model, "id"), Ok(Value::Int(1)));
    assert_eq!(record.get_value(model, "name"), Ok(string("Ada")));
    assert_eq!(record.cached_property_map.get("initials"), Some(&string("A")));
    assert!(!record.value_map.contains_key("unknown"));
    assert_eq!(record.selected_fields, list(&["name"]));
    let posts = record.get_relation_vec(model, "posts").unwrap();
    assert_eq!(posts.len(), 2);
    assert_eq!(posts[0].model_path, list(&["Post"]));
    assert_eq!(posts[1].get_value(post_model, "title"), Ok(string("second")));
    assert!(!posts[0].is_new());
}

#[test]
fn fields_relations_and_properties_are_found_by_name() {
    let model = person();
    assert_eq!(model.field_index("email"), Some(1));
    assert_eq!(model.field_index("posts"), None);
    assert_eq!(model.field("email").map(|f| f.column_name.as_str()), Some("email_address"));
    assert_eq!(model.relation_index("posts"), Some(0));
    assert_eq!(model.relation_index("email"), None);
    assert!(model.relation("posts").is_some());
    assert!(model.property("initials").is_some());
    assert!(model.property("email").is_none());
    assert!(!model.relations[0].has_join_table());
    assert!(!model.fields[0].needs_on_save_callback());
    let mut field = Field::new("f");
    field.on_save = one_item("now");
    assert!(field.needs_on_save_callback());
}

#[test]
fn a_key_is_written_by_its_updater_or_by_its_value() {
    let model = person();
    let mut record = loaded(&model, map(vec![("id", Value::Int(1)), ("name", string("Ada"))]));
    assert_eq!(record.pending_write("name"), Pending::Value(string("Ada")));
    assert_eq!(record.pending_write("email"), Pending::Value(Value::Null));
    let updater = map(vec![("increment", Value::Int(1))]);
    record.set_value_to_atomic_updator_map("id", updater.clone());
    assert_eq!(record.pending_write("id"), Pending::Updater(updater));
    assert_eq!(record.get_value(&model, "id"), Ok(Value::Null));
    record.set(&model, "id", Value::Int(9)).unwrap();
    assert_eq!(record.get_atomic_updator("id"), None);
    assert_eq!(record.pending_write("id"), Pending::Value(Value::Int(9)));
    let keys = record.keys_for_save(&model);
    assert_eq!(keys, vec!["id"]);
}
