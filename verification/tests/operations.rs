use teo_runtime::action::action::{Action, CREATE, ENTRY, SINGLE};
use teo_runtime::connection::transaction;
use teo_runtime::model::field::{Field, Optionality, Previous};
use teo_runtime::model::model::Model;
use teo_runtime::model::object::machine::{ItemOutcome, Reply, Request, Returned, Step};
use teo_runtime::model::object::script::{Script, Wait};
use teo_runtime::model::object::object::Object;
use teo_runtime::model::object::operation::Operation;
use teo_runtime::model::object::tracking::Pending;
use teo_runtime::model::relation::{Delete, Relation};
use teo_runtime::namespace::namespace::Namespace;
use teo_runtime::path::error::{Error, ErrorKind};
use teo_runtime::path::key_path::{Item, KeyPath};
use teo_runtime::pipeline::item::validator::Validity;
use teo_runtime::pipeline::pipeline::{BoundedItem, Pipeline};
use teo_runtime::arguments::arguments::Arguments;
use teo_runtime::value::value::{Dictionary, Value};

fn s(text: &str) -> String {
    text.to_string()
}

fn names(list: &[&str]) -> Vec<String> {
    list.iter().map(|name| name.to_string()).collect()
}

fn text(value: &str) -> Value {
    Value::String(value.to_string())
}

fn dict(entries: Vec<(&str, Value)>) -> Value {
    let mut d = Dictionary::new();
    for (key, value) in entries {
        d.insert(key.to_string(), value);
    }
    Value::Dictionary(d)
}

fn entries_of(value: &Value) -> Vec<(String, Value)> {
    let mut list = Vec::new();
    if let Some(d) = value.as_dictionary() {
        let mut i = 0;
        while let Some((key, item)) = d.entry_at(i) {
            list.push((key.clone(), item.clone()));
            i += 1;
        }
    }
    list
}

fn pipeline(items: &[&str]) -> Pipeline {
    Pipeline {
        items: items
            .iter()
            .map(|name| BoundedItem { path: names(&[name]), arguments: Arguments::new() })
            .collect(),
    }
}

/// Fills the key lists of a model from its fields, relations and
/// properties, in that order.
fn finish(mut model: Model) -> Model {
    let mut all = Vec::new();
    let mut save = Vec::new();
    let mut settable = Vec::new();
    for field in &model.fields {
        all.push(field.name.clone());
        if !field.is_virtual {
            save.push(field.name.clone());
        }
        settable.push(field.name.clone());
    }
    let mut relations = Vec::new();
    for relation in &model.relations {
        all.push(relation.name.clone());
        relations.push(relation.name.clone());
    }
    for property in &model.properties {
        all.push(property.name.clone());
    }
    model.cache.all_keys = all.clone();
    model.cache.input_keys = all.clone();
    model.cache.output_keys = all;
    model.cache.save_keys = save;
    model.cache.save_keys_and_virtual_keys = settable;
    model.cache.relation_output_keys = relations;
    model
}

fn id_field() -> Field {
    let mut id = Field::new("id");
    id.auto_increment = true;
    id.previous = Previous::Keep;
    id
}

struct Store {
    tables: Vec<(Vec<String>, Vec<Value>)>,
    next_id: i32,
    writes: Vec<String>,
}

impl Store {
    fn new() -> Store {
        Store { tables: Vec::new(), next_id: 1, writes: Vec::new() }
    }

    fn table(&mut self, model: &Vec<String>) -> &mut Vec<Value> {
        if !self.tables.iter().any(|(name, _)| name == model) {
            self.tables.push((model.clone(), Vec::new()));
        }
        &mut self.tables.iter_mut().find(|(name, _)| name == model).unwrap().1
    }

    fn rows(&self, model: &[&str]) -> Vec<Value> {
        let model = names(model);
        match self.tables.iter().find(|(name, _)| *name == model) {
            Some((_, rows)) => rows.clone(),
            None => Vec::new(),
        }
    }
}

fn field_of(row: &Value, key: &str) -> Value {
    match row.as_dictionary().and_then(|d| d.get(key)) {
        Some(value) => value.clone(),
        None => Value::Null,
    }
}

fn matches_filter(row: &Value, filter: &Value) -> bool {
    for (key, wanted) in entries_of(filter) {
        if wanted.as_dictionary().is_some() {
            return false;
        }
        if field_of(row, key.as_str()) != wanted {
            return false;
        }
    }
    true
}

fn filter_of(finder: &Value) -> Value {
    match finder.as_dictionary().and_then(|d| d.get("where")) {
        Some(filter) => filter.clone(),
        None => dict(vec![]),
    }
}

fn linked(row: &Value, fields: &Vec<String>, other: &Value, references: &Vec<String>) -> bool {
    fields
        .iter()
        .zip(references.iter())
        .all(|(field, reference)| field_of(row, field) == field_of(other, reference))
}

/// The rows of the model on the other side of a relation that are linked
/// to `row`, directly or through the join table of the relation.
fn related_rows(namespace: &Namespace, store: &Store, home: &Model, relation: &Relation, row: &Value) -> Vec<Value> {
    let all: Vec<&str> = relation.model_path.iter().map(|part| part.as_str()).collect();
    let others = store.rows(&all);
    match &relation.through {
        None => others
            .into_iter()
            .filter(|other| linked(row, &relation.fields, other, &relation.references))
            .collect(),
        Some(through) => {
            let join_model = namespace.model_at_path(through).expect("the join model exists");
            let near = join_model.relation(relation.local.as_ref().unwrap()).unwrap();
            let far = join_model.relation(relation.foreign.as_ref().unwrap()).unwrap();
            let _ = home;
            let path: Vec<&str> = through.iter().map(|part| part.as_str()).collect();
            let joins: Vec<Value> = store
                .rows(&path)
                .into_iter()
                .filter(|join| linked(join, &near.fields, row, &near.references))
                .collect();
            others
                .into_iter()
                .filter(|other| joins.iter().any(|join| linked(join, &far.fields, other, &far.references)))
                .collect()
        },
    }
}

/// The rows of a model that a finder names: the plain entries of its
/// filter are compared with the row, an entry for a relation asks for a
/// related row that its own filter names, and the relations that the
/// finder wants with the rows are put under their names.
fn find_rows(namespace: &Namespace, store: &Store, model: &Vec<String>, finder: &Value) -> Vec<Value> {
    let path: Vec<&str> = model.iter().map(|part| part.as_str()).collect();
    let home = namespace.model_at_path(model).expect("the model exists");
    let filter = filter_of(finder);
    let mut found = Vec::new();
    for row in store.rows(&path) {
        let fits = entries_of(&filter).into_iter().all(|(key, wanted)| {
            match (home.relation(key.as_str()), wanted.as_dictionary().and_then(|d| d.get("is"))) {
                (Some(relation), Some(inner)) => related_rows(namespace, store, home, relation, &row)
                    .iter()
                    .any(|other| matches_filter(other, inner)),
                _ => wanted.as_dictionary().is_none() && field_of(&row, key.as_str()) == wanted,
            }
        });
        if !fits {
            continue;
        }
        let mut row = row;
        if let Some(wanted) = finder.as_dictionary().and_then(|d| d.get("include")) {
            for (key, _) in entries_of(wanted) {
                if let Some(relation) = home.relation(key.as_str()) {
                    let others = related_rows(namespace, store, home, relation, &row);
                    if let Value::Dictionary(entries) = &mut row {
                        entries.insert(key, Value::Array(others));
                    }
                }
            }
        }
        found.push(row);
    }
    found
}

fn call_item(namespace: &Namespace, request: &Request) -> ItemOutcome {
    if let Request::CallItem { pipeline, index, value, path, .. } = request {
        let found = pipeline.resolve(namespace).expect("the pipeline exists");
        let name = found.items[*index].path[0].as_str();
        return match name {
            "uppercase" => match value {
                Value::String(text) => ItemOutcome::Value(Value::String(text.to_uppercase())),
                other => ItemOutcome::Value(other.clone()),
            },
            "fail" => ItemOutcome::Error(Error::new(ErrorKind::ValueError, "failed")),
            "invalid" => ItemOutcome::Validity(Validity::Invalid(s("bad value"))),
            "valid" => ItemOutcome::Validity(Validity::Valid),
            "now" => ItemOutcome::Value(text("now")),
            _ => {
                let _ = path;
                ItemOutcome::Value(value.clone())
            },
        };
    }
    unreachable!()
}

fn answer(operation: &Operation, namespace: &Namespace, store: &mut Store, request: Request) -> Reply {
    match request {
        Request::Continue => Reply::Nothing,
        Request::CallItem { .. } => Reply::Item(call_item(namespace, &request)),
        Request::TransformAction { value, action, .. } => Reply::Transformed(Ok((value, action))),
        Request::FindUnique { model, finder, .. } | Request::FindFirst { model, finder, .. } => {
            Reply::Row(Ok(find_rows(namespace, store, &model, &finder).into_iter().next()))
        },
        Request::FindMany { model, finder, .. } => {
            Reply::Rows(Ok(find_rows(namespace, store, &model, &finder)))
        },
        Request::Count { model, finder } => {
            let count = store.table(&model).iter().filter(|row| matches_filter(row, &finder)).count();
            Reply::Count(Ok(count as u64))
        },
        Request::SaveObject { object } => {
            let record = operation.record(object).expect("the record exists");
            let model = namespace.model_at_path(&record.model_path).expect("the model exists");
            store.writes.push(format!("save {}", model.path.join(".")));
            if record.is_new {
                let mut row = Dictionary::new();
                let mut generated = Dictionary::new();
                for key in record.keys_for_save(model) {
                    let value = record.get_value_map_value(key);
                    let auto = model.field(key).map(|f| f.auto_increment).unwrap_or(false);
                    if auto && value.is_null() {
                        let id = Value::Int(store.next_id);
                        store.next_id += 1;
                        generated.insert(key.to_string(), id.clone());
                        row.insert(key.to_string(), id);
                    } else if !value.is_null() {
                        row.insert(key.to_string(), value);
                    }
                }
                store.table(&record.model_path).push(Value::Dictionary(row));
                Reply::Saved(Ok(Value::Dictionary(generated)))
            } else {
                let identifier = record.db_identifier(model);
                let keys: Vec<String> =
                    record.keys_for_save(model).iter().map(|k| k.to_string()).collect();
                let mut generated = Dictionary::new();
                for row in store.table(&record.model_path).iter_mut() {
                    if matches_filter(row, &identifier) {
                        if let Value::Dictionary(entries) = row {
                            for key in &keys {
                                let value = match record.pending_write(key) {
                                    Pending::Value(value) => value,
                                    Pending::Updater(updater) => {
                                        let held = entries.get(key).cloned().unwrap_or(Value::Int(0));
                                        let by = field_of(&updater, "increment");
                                        let next = match (held, by) {
                                            (Value::Int(a), Value::Int(b)) => Value::Int(a + b),
                                            (held, _) => held,
                                        };
                                        generated.insert(key.clone(), next.clone());
                                        next
                                    },
                                };
                                if value.is_null() {
                                    entries.remove(key);
                                } else {
                                    entries.insert(key.clone(), value);
                                }
                            }
                        }
                    }
                }
                Reply::Saved(Ok(Value::Dictionary(generated)))
            }
        },
        Request::DeleteObject { object } => {
            let record = operation.record(object).expect("the record exists");
            let model = namespace.model_at_path(&record.model_path).expect("the model exists");
            store.writes.push(format!("delete {}", model.path.join(".")));
            let identifier = record.identifier(model);
            store.table(&record.model_path).retain(|row| !matches_filter(row, &identifier));
            Reply::Deleted(Ok(()))
        },
        Request::Finished(_) => unreachable!(),
    }
}

fn run(operation: &mut Operation, namespace: &Namespace, store: &mut Store) -> Result<Returned, Error> {
    let mut reply = Reply::Nothing;
    for _ in 0..100000 {
        match operation.resume(namespace, reply) {
            Request::Finished(result) => return result,
            request => {
                reply = answer(operation, namespace, store, request);
            },
        }
    }
    panic!("the operation does not end");
}

fn blank(model: &Model) -> Object {
    Object::new(None, transaction::Ctx { id: 1 }, model, Action::from_u32(CREATE | SINGLE | ENTRY))
}

fn user_model() -> Model {
    let mut model = Model::new(names(&["User"]));
    let mut upper = Field::new("nameUpper");
    upper.on_set = pipeline(&["uppercase"]);
    model.fields = vec![id_field(), Field::new("name"), upper];
    model.primary_index = names(&["id"]);
    finish(model)
}

#[test]
fn create_with_on_set_pipeline() {
    let mut namespace = Namespace::new();
    namespace.models.push(user_model());
    let model = &namespace.models[0];
    let mut store = Store::new();

    let payload = dict(vec![("name", text("ada")), ("nameUpper", text("x"))]);
    let mut operation = blank(model).set_teon(&payload);
    assert_eq!(run(&mut operation, &namespace, &mut store), Ok(Returned::Done));
    let record = operation.into_records().remove(0);
    assert!(record.is_initialized);

    let mut operation = record.save();
    assert_eq!(run(&mut operation, &namespace, &mut store), Ok(Returned::Done));
    let record = operation.into_records().remove(0);
    assert!(!record.is_new());
    assert!(!record.is_modified());
    assert!(record.modified_fields.is_empty());
    assert_eq!(record.get_value(model, "id"), Ok(Value::Int(1)));

    let mut operation = record.refreshed(None, None);
    let fresh = match run(&mut operation, &namespace, &mut store) {
        Ok(Returned::Record(number)) => operation.into_records().remove(number),
        other => panic!("unexpected result {:?}", other),
    };
    assert_eq!(fresh.get_value(model, "nameUpper"), Ok(text("X")));
    assert_eq!(fresh.get_value(model, "name"), Ok(text("ada")));

    let mut operation = fresh.to_json(&KeyPath::new());
    let json = match run(&mut operation, &namespace, &mut store) {
        Ok(Returned::Value(json)) => json,
        other => panic!("unexpected result {:?}", other),
    };
    assert_eq!(
        json,
        dict(vec![("id", Value::Int(1)), ("name", text("ada")), ("nameUpper", text("X"))])
    );
}

#[test]
fn required_optionality_enforcement() {
    let mut model = Model::new(names(&["Post"]));
    let mut title = Field::new("title");
    title.optionality = Optionality::Required;
    model.fields = vec![id_field(), title, Field::new("body")];
    model.primary_index = names(&["id"]);
    let mut namespace = Namespace::new();
    namespace.models.push(finish(model));
    let model = &namespace.models[0];
    let mut store = Store::new();

    let mut operation = blank(model).set_teon(&dict(vec![("body", text("b"))]));
    assert_eq!(run(&mut operation, &namespace, &mut store), Ok(Returned::Done));
    let mut operation = operation.into_records().remove(0).save();
    let error = run(&mut operation, &namespace, &mut store).unwrap_err();
    assert_eq!(error.kind, ErrorKind::MissingRequiredInput);
    assert_eq!(error.path, Some(KeyPath { items: vec![Item::Key(s("title"))] }));
    assert!(store.rows(&["Post"]).is_empty());
    assert!(store.writes.is_empty());
}

#[test]
fn saving_twice_writes_once() {
    let mut namespace = Namespace::new();
    namespace.models.push(user_model());
    let model = &namespace.models[0];
    let mut store = Store::new();

    let mut operation = blank(model).set_teon(&dict(vec![("name", text("ada"))]));
    run(&mut operation, &namespace, &mut store).unwrap();
    let mut operation = operation.into_records().remove(0).save();
    run(&mut operation, &namespace, &mut store).unwrap();
    assert_eq!(store.writes, vec![s("save User")]);
    let mut operation = operation.into_records().remove(0).save();
    assert_eq!(run(&mut operation, &namespace, &mut store), Ok(Returned::Done));
    assert_eq!(store.writes, vec![s("save User")]);
    assert_eq!(store.rows(&["User"]).len(), 1);
}

fn blog() -> Namespace {
    let mut user = Model::new(names(&["User"]));
    user.fields = vec![id_field(), Field::new("name")];
    user.primary_index = names(&["id"]);
    let mut posts = Relation::new("posts", names(&["Post"]));
    posts.is_vec = true;
    posts.fields = names(&["id"]);
    posts.references = names(&["userId"]);
    user.relations = vec![posts];

    let mut post = Model::new(names(&["Post"]));
    let mut user_id = Field::new("userId");
    user_id.foreign_key = true;
    post.fields = vec![id_field(), Field::new("title"), user_id];
    post.primary_index = names(&["id"]);
    let mut author = Relation::new("user", names(&["User"]));
    author.fields = names(&["userId"]);
    author.references = names(&["id"]);
    author.has_foreign_key = true;
    post.relations = vec![author];

    let mut namespace = Namespace::new();
    namespace.models.push(finish(user));
    namespace.models.push(finish(post));
    namespace
}

#[test]
fn nested_create_with_foreign_key_side() {
    let namespace = blog();
    let user = &namespace.models[0];
    let mut store = Store::new();
    let payload = dict(vec![
        ("name", text("a")),
        (
            "posts",
            dict(vec![(
                "create",
                Value::Array(vec![dict(vec![("title", text("t1"))]), dict(vec![("title", text("t2"))])]),
            )]),
        ),
    ]);
    let mut operation = blank(user).set_teon(&payload);
    assert_eq!(run(&mut operation, &namespace, &mut store), Ok(Returned::Done));
    let mut operation = operation.into_records().remove(0).save();
    assert_eq!(run(&mut operation, &namespace, &mut store), Ok(Returned::Done));
    let users = store.rows(&["User"]);
    assert_eq!(users.len(), 1);
    let id = field_of(&users[0], "id");
    assert_eq!(id, Value::Int(1));
    let posts = store.rows(&["Post"]);
    assert_eq!(posts.len(), 2);
    assert_eq!(field_of(&posts[0], "title"), text("t1"));
    assert_eq!(field_of(&posts[1], "title"), text("t2"));
    assert_eq!(field_of(&posts[0], "userId"), id);
    assert_eq!(field_of(&posts[1], "userId"), id);
}

fn one_to_one(required: bool) -> Namespace {
    let mut a = Model::new(names(&["A"]));
    let mut b_id = Field::new("bId");
    b_id.foreign_key = true;
    a.fields = vec![id_field(), b_id];
    a.primary_index = names(&["id"]);
    let mut b = Relation::new("b", names(&["B"]));
    b.fields = names(&["bId"]);
    b.references = names(&["id"]);
    b.has_foreign_key = true;
    b.is_required = required;
    a.relations = vec![b];

    let mut other = Model::new(names(&["B"]));
    other.fields = vec![id_field(), Field::new("label")];
    other.primary_index = names(&["id"]);
    let mut back = Relation::new("a", names(&["A"]));
    back.fields = names(&["id"]);
    back.references = names(&["bId"]);
    other.relations = vec![back];

    let mut namespace = Namespace::new();
    namespace.models.push(finish(a));
    namespace.models.push(finish(other));
    namespace
}

fn stored(namespace: &Namespace, model: usize, store: &mut Store, payload: Value) -> Object {
    let mut operation = blank(&namespace.models[model]).set_teon(&payload);
    assert_eq!(run(&mut operation, namespace, store), Ok(Returned::Done));
    let mut operation = operation.into_records().remove(0).save();
    assert_eq!(run(&mut operation, namespace, store), Ok(Returned::Done));
    operation.into_records().remove(0)
}

#[test]
fn one_to_one_disconnect_on_required_rejects() {
    let namespace = one_to_one(true);
    let mut store = Store::new();
    let b = stored(&namespace, 1, &mut store, dict(vec![("label", text("b"))]));
    let b_id = b.get_value(&namespace.models[1], "id").unwrap();
    let a = stored(&namespace, 0, &mut store, dict(vec![("bId", b_id.clone())]));

    let mut operation = a.set_teon(&dict(vec![("b", dict(vec![("disconnect", Value::Bool(true))]))]));
    assert_eq!(run(&mut operation, &namespace, &mut store), Ok(Returned::Done));
    let mut operation = operation.into_records().remove(0).save();
    let error = run(&mut operation, &namespace, &mut store).unwrap_err();
    assert_eq!(error.kind, ErrorKind::CannotDisconnectPreviousRelation);
    assert_eq!(field_of(&store.rows(&["A"])[0], "bId"), b_id);
}

#[test]
fn one_to_one_disconnect_on_optional_clears_the_link() {
    let namespace = one_to_one(false);
    let mut store = Store::new();
    let b = stored(&namespace, 1, &mut store, dict(vec![("label", text("b"))]));
    let b_id = b.get_value(&namespace.models[1], "id").unwrap();
    let a = stored(&namespace, 0, &mut store, dict(vec![("bId", b_id)]));

    let mut operation = a.set_teon(&dict(vec![("b", dict(vec![("disconnect", Value::Bool(true))]))]));
    assert_eq!(run(&mut operation, &namespace, &mut store), Ok(Returned::Done));
    let mut operation = operation.into_records().remove(0).save();
    assert_eq!(run(&mut operation, &namespace, &mut store), Ok(Returned::Done));
    assert_eq!(field_of(&store.rows(&["A"])[0], "bId"), Value::Null);
    assert_eq!(store.rows(&["B"]).len(), 1);
}

fn library(rule: Delete) -> Namespace {
    let mut author = Model::new(names(&["Author"]));
    author.fields = vec![id_field(), Field::new("name")];
    author.primary_index = names(&["id"]);
    let mut books = Relation::new("books", names(&["Book"]));
    books.is_vec = true;
    books.fields = names(&["id"]);
    books.references = names(&["authorId"]);
    author.relations = vec![books];

    let mut book = Model::new(names(&["Book"]));
    let mut author_id = Field::new("authorId");
    author_id.foreign_key = true;
    book.fields = vec![id_field(), Field::new("title"), author_id];
    book.primary_index = names(&["id"]);
    let mut written_by = Relation::new("author", names(&["Author"]));
    written_by.fields = names(&["authorId"]);
    written_by.references = names(&["id"]);
    written_by.has_foreign_key = true;
    written_by.delete = rule;
    book.relations = vec![written_by];

    let mut namespace = Namespace::new();
    namespace.models.push(finish(author));
    namespace.models.push(finish(book));
    namespace
}

fn author_with_books(namespace: &Namespace, store: &mut Store) -> Object {
    let payload = dict(vec![
        ("name", text("ada")),
        (
            "books",
            dict(vec![(
                "create",
                Value::Array(vec![dict(vec![("title", text("b1"))]), dict(vec![("title", text("b2"))])]),
            )]),
        ),
    ]);
    stored(namespace, 0, store, payload)
}

#[test]
fn deny_on_delete() {
    let namespace = library(Delete::Deny);
    let mut store = Store::new();
    let author = author_with_books(&namespace, &mut store);
    assert_eq!(store.rows(&["Book"]).len(), 2);
    let mut operation = author.delete();
    let error = run(&mut operation, &namespace, &mut store).unwrap_err();
    assert_eq!(error.kind, ErrorKind::DeletionDenied);
    assert_eq!(error.message, "books");
    assert_eq!(store.rows(&["Author"]).len(), 1);
    assert!(!store.writes.contains(&s("delete Author")));
}

#[test]
fn deny_allows_the_deletion_of_a_record_without_related_rows() {
    let namespace = library(Delete::Deny);
    let mut store = Store::new();
    let author = stored(&namespace, 0, &mut store, dict(vec![("name", text("ada"))]));
    let mut operation = author.delete();
    assert_eq!(run(&mut operation, &namespace, &mut store), Ok(Returned::Done));
    assert!(store.rows(&["Author"]).is_empty());
    assert!(operation.into_records().remove(0).is_deleted);
}

#[test]
fn nullify_on_delete_clears_the_links() {
    let namespace = library(Delete::Nullify);
    let mut store = Store::new();
    let author = author_with_books(&namespace, &mut store);
    let mut operation = author.delete();
    assert_eq!(run(&mut operation, &namespace, &mut store), Ok(Returned::Done));
    assert!(store.rows(&["Author"]).is_empty());
    let books = store.rows(&["Book"]);
    assert_eq!(books.len(), 2);
    assert_eq!(field_of(&books[0], "authorId"), Value::Null);
    assert_eq!(field_of(&books[1], "authorId"), Value::Null);
    assert_eq!(field_of(&books[0], "title"), text("b1"));
}

#[test]
fn cascade_on_delete_removes_the_related_rows() {
    let namespace = library(Delete::Cascade);
    let mut store = Store::new();
    let author = author_with_books(&namespace, &mut store);
    let _other = stored(&namespace, 1, &mut store, dict(vec![("title", text("free"))]));
    let mut operation = author.delete();
    assert_eq!(run(&mut operation, &namespace, &mut store), Ok(Returned::Done));
    assert!(store.rows(&["Author"]).is_empty());
    let books = store.rows(&["Book"]);
    assert_eq!(books.len(), 1);
    assert_eq!(field_of(&books[0], "title"), text("free"));
}

#[test]
fn default_delete_rule_leaves_the_related_rows() {
    let namespace = library(Delete::Default);
    let mut store = Store::new();
    let author = author_with_books(&namespace, &mut store);
    let mut operation = author.delete();
    assert_eq!(run(&mut operation, &namespace, &mut store), Ok(Returned::Done));
    assert_eq!(store.rows(&["Book"]).len(), 2);
    assert_eq!(field_of(&store.rows(&["Book"])[0], "authorId"), Value::Int(1));
}

fn parent_and_child() -> Namespace {
    let mut parent = Model::new(names(&["Parent"]));
    parent.fields = vec![id_field(), Field::new("name")];
    parent.primary_index = names(&["id"]);
    let mut child = Relation::new("child", names(&["Child"]));
    child.fields = names(&["id"]);
    child.references = names(&["parentId"]);
    parent.relations = vec![child];

    let mut model = Model::new(names(&["Child"]));
    let mut parent_id = Field::new("parentId");
    parent_id.foreign_key = true;
    model.fields = vec![id_field(), Field::new("note"), parent_id];
    model.primary_index = names(&["id"]);
    let mut back = Relation::new("parent", names(&["Parent"]));
    back.fields = names(&["parentId"]);
    back.references = names(&["id"]);
    back.has_foreign_key = true;
    model.relations = vec![back];

    let mut namespace = Namespace::new();
    namespace.models.push(finish(parent));
    namespace.models.push(finish(model));
    namespace
}

fn upsert_payload() -> Value {
    dict(vec![(
        "child",
        dict(vec![(
            "upsert",
            dict(vec![
                ("create", dict(vec![("note", text("made"))])),
                ("update", dict(vec![("note", text("changed"))])),
            ]),
        )]),
    )])
}

#[test]
fn upsert_creates_the_child_that_is_missing() {
    let namespace = parent_and_child();
    let mut store = Store::new();
    let parent = stored(&namespace, 0, &mut store, dict(vec![("name", text("p"))]));
    store.writes.clear();
    let mut operation = parent.set_teon(&upsert_payload());
    assert_eq!(run(&mut operation, &namespace, &mut store), Ok(Returned::Done));
    let mut operation = operation.into_records().remove(0).save();
    assert_eq!(run(&mut operation, &namespace, &mut store), Ok(Returned::Done));
    let children = store.rows(&["Child"]);
    assert_eq!(children.len(), 1);
    assert_eq!(field_of(&children[0], "note"), text("made"));
    assert_eq!(field_of(&children[0], "parentId"), Value::Int(1));
    assert_eq!(store.writes.iter().filter(|w| w.as_str() == "save Child").count(), 1);
}

#[test]
fn upsert_updates_the_child_that_exists() {
    let namespace = parent_and_child();
    let mut store = Store::new();
    let parent = stored(&namespace, 0, &mut store, dict(vec![("name", text("p"))]));
    let parent_id = parent.get_value(&namespace.models[0], "id").unwrap();
    let _child = stored(
        &namespace,
        1,
        &mut store,
        dict(vec![("note", text("old")), ("parentId", parent_id)]),
    );
    store.writes.clear();
    let mut operation = parent.set_teon(&upsert_payload());
    assert_eq!(run(&mut operation, &namespace, &mut store), Ok(Returned::Done));
    let mut operation = operation.into_records().remove(0).save();
    assert_eq!(run(&mut operation, &namespace, &mut store), Ok(Returned::Done));
    let children = store.rows(&["Child"]);
    assert_eq!(children.len(), 1);
    assert_eq!(field_of(&children[0], "note"), text("changed"));
    assert_eq!(store.writes.iter().filter(|w| w.as_str() == "save Child").count(), 1);
}

#[test]
fn nested_connect_links_an_existing_record() {
    let namespace = blog();
    let mut store = Store::new();
    let post = stored(&namespace, 1, &mut store, dict(vec![("title", text("t"))]));
    let post_id = post.get_value(&namespace.models[1], "id").unwrap();
    let payload = dict(vec![
        ("name", text("a")),
        ("posts", dict(vec![("connect", dict(vec![("id", post_id)]))])),
    ]);
    let user = stored(&namespace, 0, &mut store, payload);
    let user_id = user.get_value(&namespace.models[0], "id").unwrap();
    assert_eq!(field_of(&store.rows(&["Post"])[0], "userId"), user_id);
}

#[test]
fn nested_connect_of_a_missing_record_is_not_found() {
    let namespace = blog();
    let mut store = Store::new();
    let payload = dict(vec![
        ("name", text("a")),
        ("posts", dict(vec![("connect", dict(vec![("id", Value::Int(99))]))])),
    ]);
    let mut operation = blank(&namespace.models[0]).set_teon(&payload);
    assert_eq!(run(&mut operation, &namespace, &mut store), Ok(Returned::Done));
    let mut operation = operation.into_records().remove(0).save();
    let error = run(&mut operation, &namespace, &mut store).unwrap_err();
    assert_eq!(error.kind, ErrorKind::NotFound);
}

#[test]
fn nested_delete_many_removes_the_linked_records() {
    let namespace = library(Delete::Default);
    let mut store = Store::new();
    let author = author_with_books(&namespace, &mut store);
    let payload = dict(vec![("books", dict(vec![("deleteMany", dict(vec![]))]))]);
    let mut operation = author.set_teon(&payload);
    assert_eq!(run(&mut operation, &namespace, &mut store), Ok(Returned::Done));
    let mut operation = operation.into_records().remove(0).save();
    assert_eq!(run(&mut operation, &namespace, &mut store), Ok(Returned::Done));
    assert!(store.rows(&["Book"]).is_empty());
}

#[test]
fn nested_update_many_changes_the_linked_records() {
    let namespace = library(Delete::Default);
    let mut store = Store::new();
    let author = author_with_books(&namespace, &mut store);
    let payload = dict(vec![(
        "books",
        dict(vec![(
            "updateMany",
            dict(vec![("where", dict(vec![])), ("update", dict(vec![("title", text("new"))]))]),
        )]),
    )]);
    let mut operation = author.set_teon(&payload);
    assert_eq!(run(&mut operation, &namespace, &mut store), Ok(Returned::Done));
    let mut operation = operation.into_records().remove(0).save();
    assert_eq!(run(&mut operation, &namespace, &mut store), Ok(Returned::Done));
    let books = store.rows(&["Book"]);
    assert_eq!(field_of(&books[0], "title"), text("new"));
    assert_eq!(field_of(&books[1], "title"), text("new"));
}

#[test]
fn payload_keys_are_checked() {
    let mut namespace = Namespace::new();
    namespace.models.push(user_model());
    let mut store = Store::new();
    let mut operation = blank(&namespace.models[0]).set_teon(&dict(vec![("nothing", text("x"))]));
    let error = run(&mut operation, &namespace, &mut store).unwrap_err();
    assert_eq!(error.kind, ErrorKind::InvalidKey);
    assert_eq!(error.message, "key 'nothing' is not allowed for User");
    let record = operation.into_records().remove(0);
    assert!(!record.is_initialized);

    let mut operation = record.set_teon_with_path(&dict(vec![("nothing", text("x"))]), &KeyPath::new(), true);
    assert_eq!(run(&mut operation, &namespace, &mut store), Ok(Returned::Done));
}

#[test]
fn permission_pipelines_deny() {
    let mut model = Model::new(names(&["Secret"]));
    let mut guarded = Field::new("guarded");
    guarded.can_mutate = pipeline(&["fail"]);
    guarded.can_read = pipeline(&["fail"]);
    model.fields = vec![id_field(), Field::new("open"), guarded];
    model.primary_index = names(&["id"]);
    let mut namespace = Namespace::new();
    namespace.models.push(finish(model));
    let model = &namespace.models[0];
    let mut store = Store::new();

    let mut operation = blank(model).set_teon(&dict(vec![("guarded", text("x"))]));
    let error = run(&mut operation, &namespace, &mut store).unwrap_err();
    assert_eq!(error.kind, ErrorKind::PermissionDenied);
    assert_eq!(error.path, Some(KeyPath { items: vec![Item::Key(s("guarded"))] }));

    let mut record = blank(model);
    record.set_value(model, "open", text("o")).unwrap();
    record.set_value(model, "guarded", text("g")).unwrap();
    let mut operation = record.to_json(&KeyPath::new());
    assert_eq!(
        run(&mut operation, &namespace, &mut store),
        Ok(Returned::Value(dict(vec![("open", text("o"))])))
    );
}

#[test]
fn model_read_permission_aborts_the_output() {
    let mut model = user_model();
    model.can_read = pipeline(&["fail"]);
    let mut namespace = Namespace::new();
    namespace.models.push(model);
    let mut store = Store::new();
    let mut operation = blank(&namespace.models[0]).to_json(&KeyPath::new());
    let error = run(&mut operation, &namespace, &mut store).unwrap_err();
    assert_eq!(error.kind, ErrorKind::PermissionDenied);
}

#[test]
fn validators_report_value_errors_at_the_path() {
    let mut model = Model::new(names(&["Checked"]));
    let mut field = Field::new("code");
    field.on_set = pipeline(&["uppercase", "invalid"]);
    model.fields = vec![id_field(), field];
    model.primary_index = names(&["id"]);
    let mut namespace = Namespace::new();
    namespace.models.push(finish(model));
    let mut store = Store::new();
    let mut operation = blank(&namespace.models[0]).set_teon(&dict(vec![("code", text("x"))]));
    let error = run(&mut operation, &namespace, &mut store).unwrap_err();
    assert_eq!(error.kind, ErrorKind::ValueError);
    assert_eq!(error.message, "bad value");
    assert_eq!(error.path, Some(KeyPath { items: vec![Item::Key(s("code"))] }));
}

#[test]
fn selection_bounds_the_output() {
    let mut namespace = Namespace::new();
    namespace.models.push(user_model());
    let model = &namespace.models[0];
    let mut store = Store::new();
    let mut record = stored(&namespace, 0, &mut store, dict(vec![("name", text("ada")), ("nameUpper", text("x"))]));
    record.set_select(model, Some(&dict(vec![("name", Value::Bool(true))]))).unwrap();
    assert_eq!(record.selected_fields, names(&["name"]));
    let mut operation = record.to_json(&KeyPath::new());
    assert_eq!(
        run(&mut operation, &namespace, &mut store),
        Ok(Returned::Value(dict(vec![("name", text("ada"))])))
    );
    let mut record = operation.into_records().remove(0);
    record.set_select(model, Some(&dict(vec![("name", Value::Bool(false))]))).unwrap();
    assert_eq!(record.selected_fields, names(&["id", "nameUpper"]));
    record
        .set_select(model, Some(&dict(vec![("name", Value::Bool(false)), ("id", Value::Bool(true))])))
        .unwrap();
    assert_eq!(record.selected_fields, names(&["id"]));
    assert!(record.set_select(model, Some(&Value::Int(1))).is_err());
    assert!(record.set_select(model, Some(&dict(vec![("name", Value::Int(1))]))).is_err());
    assert_eq!(record.selected_fields, names(&["id"]));
    record.set_select(model, Some(&dict(vec![]))).unwrap();
    record.set_select(model, None).unwrap();
    assert_eq!(record.selected_fields, names(&["id"]));
}

#[test]
fn fetched_relations_are_put_out() {
    let namespace = library(Delete::Default);
    let mut store = Store::new();
    let author = author_with_books(&namespace, &mut store);
    let mut operation = author.fetch_relation_objects("books", None);
    let found = match run(&mut operation, &namespace, &mut store) {
        Ok(Returned::Records(found)) => found,
        other => panic!("unexpected result {:?}", other),
    };
    assert_eq!(found, vec![1, 2]);
    let author = operation.into_records().remove(0);
    assert!(author.has_query_relation_fetched("books"));
    assert_eq!(author.get_relation_vec(&namespace.models[0], "books").unwrap().len(), 2);
    let mut operation = author.to_json(&KeyPath::new());
    let json = match run(&mut operation, &namespace, &mut store) {
        Ok(Returned::Value(json)) => json,
        other => panic!("unexpected result {:?}", other),
    };
    let books = field_of(&json, "books");
    assert_eq!(
        books,
        Value::Array(vec![
            dict(vec![("id", Value::Int(2)), ("title", text("b1")), ("authorId", Value::Int(1))]),
            dict(vec![("id", Value::Int(3)), ("title", text("b2")), ("authorId", Value::Int(1))]),
        ])
    );
    assert_eq!(operation.records.len(), 1);
}

#[test]
fn fetching_the_record_of_a_to_one_relation() {
    let namespace = library(Delete::Default);
    let mut store = Store::new();
    let _author = author_with_books(&namespace, &mut store);
    let mut book = blank(&namespace.models[1]);
    book.set_from_database_result_value(&namespace, &namespace.models[1], &store.rows(&["Book"])[0], None, None);
    let mut operation = book.force_get_relation_object("author");
    let number = match run(&mut operation, &namespace, &mut store) {
        Ok(Returned::Record(number)) => number,
        other => panic!("unexpected result {:?}", other),
    };
    let author = operation.record(number).unwrap();
    assert_eq!(author.get_value(&namespace.models[0], "name"), Ok(text("ada")));
    let book = operation.into_records().remove(0);
    assert!(book.has_mutation_relation_fetched("author"));
    assert!(book.get_query_relation_object(&namespace.models[1], "author").unwrap().is_some());
    let mut store = Store::new();
    let mut operation = book.force_get_relation_object("author");
    assert!(matches!(run(&mut operation, &namespace, &mut store), Ok(Returned::Record(1))));

    let mut operation = blank(&namespace.models[1]).fetch_relation_object("nothing", None);
    let error = run(&mut operation, &namespace, &mut store).unwrap_err();
    assert_eq!(error.kind, ErrorKind::InvalidKey);
}

#[test]
fn partial_update_assigns_without_pipelines() {
    let mut namespace = Namespace::new();
    namespace.models.push(user_model());
    let model = &namespace.models[0];
    let mut store = Store::new();
    let record = stored(&namespace, 0, &mut store, dict(vec![("name", text("ada"))]));
    let mut operation = record.update_teon(&dict(vec![("nameUpper", text("quiet"))]));
    assert_eq!(run(&mut operation, &namespace, &mut store), Ok(Returned::Done));
    let record = operation.into_records().remove(0);
    assert_eq!(record.get_value(model, "nameUpper"), Ok(text("quiet")));
    assert!(record.is_modified());
    assert!(record.modified_fields.contains("nameUpper"));
    let mut operation = record.update_teon(&dict(vec![("nothing", text("x"))]));
    assert_eq!(run(&mut operation, &namespace, &mut store).unwrap_err().kind, ErrorKind::InvalidKey);
}

#[test]
fn an_operation_that_has_ended_refuses_to_resume() {
    let mut namespace = Namespace::new();
    namespace.models.push(user_model());
    let mut store = Store::new();
    let mut operation = blank(&namespace.models[0]).to_json(&KeyPath::new());
    assert!(run(&mut operation, &namespace, &mut store).is_ok());
    assert!(operation.is_finished());
    match operation.resume(&namespace, Reply::Nothing) {
        Request::Finished(Err(error)) => assert_eq!(error.kind, ErrorKind::InvalidOperation),
        other => panic!("unexpected request {:?}", other),
    }
}

#[test]
fn an_answer_that_does_not_fit_ends_the_operation() {
    let mut namespace = Namespace::new();
    let mut model = user_model();
    model.can_read = pipeline(&["valid"]);
    namespace.models.push(model);
    let mut operation = blank(&namespace.models[0]).to_json(&KeyPath::new());
    let mut last = operation.resume(&namespace, Reply::Nothing);
    for _ in 0..50 {
        last = match last {
            Request::Continue => operation.resume(&namespace, Reply::Nothing),
            Request::Finished(result) => {
                assert_eq!(result.unwrap_err().message, "unexpected reply");
                return;
            },
            _ => operation.resume(&namespace, Reply::Count(Ok(1))),
        };
    }
    panic!("the operation does not end");
}

fn counter_model() -> Model {
    let mut model = Model::new(names(&["Counter"]));
    let mut count = Field::new("count");
    count.atomic = true;
    count.default = Some(teo_runtime::object::Object::from_value(Value::Int(0)));
    let mut stamp = Field::new("stamp");
    stamp.on_save = pipeline(&["now"]);
    let mut label = Field::new("label");
    label.default = Some(teo_runtime::object::Object::from_pipeline(pipeline(&["now"])));
    model.fields = vec![id_field(), count, stamp, label];
    model.primary_index = names(&["id"]);
    finish(model)
}

#[test]
fn defaults_fill_the_fields_that_the_payload_leaves_out() {
    let mut namespace = Namespace::new();
    namespace.models.push(counter_model());
    let model = &namespace.models[0];
    let mut store = Store::new();
    let mut operation = blank(model).set_teon(&dict(vec![]));
    assert_eq!(run(&mut operation, &namespace, &mut store), Ok(Returned::Done));
    let record = operation.into_records().remove(0);
    assert_eq!(record.get_value(model, "count"), Ok(Value::Int(0)));
    assert_eq!(record.get_value(model, "label"), Ok(text("now")));
    assert_eq!(record.get_value(model, "stamp"), Ok(Value::Null));

    let mut operation = blank(model).set_teon(&dict(vec![("count", Value::Int(5)), ("label", text("mine"))]));
    assert_eq!(run(&mut operation, &namespace, &mut store), Ok(Returned::Done));
    let record = operation.into_records().remove(0);
    assert_eq!(record.get_value(model, "count"), Ok(Value::Int(5)));
    assert_eq!(record.get_value(model, "label"), Ok(text("mine")));
}

#[test]
fn on_save_pipelines_run_before_the_row_is_written() {
    let mut namespace = Namespace::new();
    namespace.models.push(counter_model());
    let record = stored(&namespace, 0, &mut store_of(), dict(vec![]));
    assert_eq!(record.get_value(&namespace.models[0], "stamp"), Ok(text("now")));
}

fn store_of() -> Store {
    Store::new()
}

#[test]
fn atomic_updaters_are_queued_for_the_next_save() {
    let mut namespace = Namespace::new();
    namespace.models.push(counter_model());
    let model = &namespace.models[0];
    let mut store = Store::new();
    let record = stored(&namespace, 0, &mut store, dict(vec![("count", Value::Int(1))]));
    let updater = dict(vec![("increment", Value::Int(2))]);
    let mut operation = record.set_teon(&dict(vec![("count", updater.clone())]));
    assert_eq!(run(&mut operation, &namespace, &mut store), Ok(Returned::Done));
    let record = operation.into_records().remove(0);
    assert_eq!(record.get_atomic_updator("count"), Some(updater));
    assert_eq!(record.get_value(model, "count"), Ok(Value::Null));
    assert!(!record.value_map.contains_key("count"));
    assert!(record.is_modified());
    assert!(record.modified_fields.contains("count"));
    assert!(record.keys_for_save(model).contains(&"count"));
}

#[test]
fn a_failing_before_save_callback_stops_the_save() {
    let mut model = user_model();
    model.before_save = pipeline(&["fail"]);
    let mut namespace = Namespace::new();
    namespace.models.push(model);
    let mut store = Store::new();
    let mut operation = blank(&namespace.models[0]).set_teon(&dict(vec![("name", text("a"))]));
    assert_eq!(run(&mut operation, &namespace, &mut store), Ok(Returned::Done));
    let mut operation = operation.into_records().remove(0).save();
    let error = run(&mut operation, &namespace, &mut store).unwrap_err();
    assert_eq!(error.message, "failed");
    assert!(store.writes.is_empty());
    let record = operation.into_records().remove(0);
    assert!(record.is_new());
    assert!(!record.inside_before_save_callback);
}

#[test]
fn a_failing_after_save_callback_fails_the_save_after_the_write() {
    let mut model = user_model();
    model.after_save = pipeline(&["fail"]);
    let mut namespace = Namespace::new();
    namespace.models.push(model);
    let mut store = Store::new();
    let mut operation = blank(&namespace.models[0]).set_teon(&dict(vec![("name", text("a"))]));
    assert_eq!(run(&mut operation, &namespace, &mut store), Ok(Returned::Done));
    let mut operation = operation.into_records().remove(0).save();
    assert!(run(&mut operation, &namespace, &mut store).is_err());
    assert_eq!(store.writes, vec![s("save User")]);
}

fn profile_namespace() -> Namespace {
    let mut user = Model::new(names(&["User"]));
    user.fields = vec![id_field()];
    user.primary_index = names(&["id"]);
    let mut profile = Model::new(names(&["Profile"]));
    let mut user_id = Field::new("userId");
    user_id.foreign_key = true;
    let mut bio = Field::new("bio");
    bio.optionality = Optionality::Required;
    profile.fields = vec![id_field(), user_id, bio];
    profile.primary_index = names(&["id"]);
    let mut owner = Relation::new("user", names(&["User"]));
    owner.is_required = true;
    owner.fields = names(&["userId"]);
    owner.references = names(&["id"]);
    owner.has_foreign_key = true;
    profile.relations = vec![owner];
    let mut namespace = Namespace::new();
    namespace.models.push(finish(user));
    namespace.models.push(finish(profile));
    namespace
}

#[test]
fn a_seed_is_saved_without_the_record_of_a_required_relation() {
    let namespace = profile_namespace();
    let profile = &namespace.models[1];
    let mut store = Store::new();
    let mut operation = blank(profile).set_teon(&dict(vec![("bio", text("b"))]));
    assert_eq!(run(&mut operation, &namespace, &mut store), Ok(Returned::Done));
    let record = operation.into_records().remove(0);

    let mut operation = record.clone().save();
    let error = run(&mut operation, &namespace, &mut store).unwrap_err();
    assert_eq!(error.kind, ErrorKind::MissingRequiredInput);
    assert_eq!(error.path, Some(KeyPath::new().with_key("user")));
    assert!(store.writes.is_empty());

    let mut operation = record.save_for_seed_without_required_relation();
    assert_eq!(run(&mut operation, &namespace, &mut store), Ok(Returned::Done));
    assert_eq!(store.rows(&["Profile"]).len(), 1);
}

#[test]
fn a_save_at_a_path_reports_what_is_missing_below_the_path() {
    let namespace = profile_namespace();
    let profile = &namespace.models[1];
    let mut store = Store::new();
    let mut operation = blank(profile).set_teon(&dict(vec![("userId", Value::Int(1))]));
    assert_eq!(run(&mut operation, &namespace, &mut store), Ok(Returned::Done));
    let at = KeyPath::new().with_key("profiles").with_index(0);
    let mut operation = operation.into_records().remove(0).save_with_session_and_path(&at);
    let error = run(&mut operation, &namespace, &mut store).unwrap_err();
    assert_eq!(error.kind, ErrorKind::MissingRequiredInput);
    assert_eq!(error.path, Some(at.with_key("bio")));
}

#[test]
fn a_guarded_deletion_asks_for_the_permission_to_mutate() {
    let mut model = user_model();
    model.can_mutate = pipeline(&["invalid"]);
    let mut namespace = Namespace::new();
    namespace.models.push(model);
    let model = &namespace.models[0];
    let mut store = Store::new();
    store.table(&names(&["User"])).push(dict(vec![("id", Value::Int(1))]));
    let mut record = blank(model);
    record.set_from_database_result_value(&namespace, model, &dict(vec![("id", Value::Int(1))]), None, None);

    let at = KeyPath::new().with_key("users");
    let mut operation = record.clone().delete_internal(&at);
    let error = run(&mut operation, &namespace, &mut store).unwrap_err();
    assert_eq!(error.kind, ErrorKind::PermissionDenied);
    assert_eq!(store.rows(&["User"]).len(), 1);

    let mut operation = record.delete();
    assert_eq!(run(&mut operation, &namespace, &mut store), Ok(Returned::Done));
    assert!(store.rows(&["User"]).is_empty());
    assert!(operation.into_records().remove(0).is_deleted);
}

fn with_property() -> Namespace {
    let mut model = Model::new(names(&["Person"]));
    let mut shout = teo_runtime::model::property::Property::new("shout");
    shout.cached = true;
    shout.getter = Some(pipeline(&["now"]));
    shout.setter = Some(pipeline(&["valid"]));
    shout.dependencies = names(&["name"]);
    let plain = teo_runtime::model::property::Property::new("plain");
    model.fields = vec![id_field(), Field::new("name")];
    model.properties = vec![shout, plain];
    model.primary_index = names(&["id"]);
    let mut namespace = Namespace::new();
    namespace.models.push(finish(model));
    namespace
}

#[test]
fn a_property_is_read_through_its_getter_and_cached() {
    let namespace = with_property();
    let mut store = Store::new();
    let mut operation = blank(&namespace.models[0]).get_property("shout");
    match run(&mut operation, &namespace, &mut store) {
        Ok(Returned::Value(value)) => assert_eq!(value, text("now")),
        other => panic!("unexpected result {:?}", other),
    }
    let record = operation.into_records().remove(0);
    assert_eq!(record.cached_property_map.get("shout"), Some(&text("now")));

    let mut record = record;
    record.cached_property_map.insert(s("shout"), text("kept"));
    let mut operation = record.get_property("shout");
    assert_eq!(run(&mut operation, &namespace, &mut store), Ok(Returned::Value(text("kept"))));
}

#[test]
fn a_property_without_an_accessor_is_refused() {
    let namespace = with_property();
    let mut store = Store::new();
    let mut operation = blank(&namespace.models[0]).get_property("plain");
    let error = run(&mut operation, &namespace, &mut store).unwrap_err();
    assert_eq!(error.kind, ErrorKind::InvalidOperation);
    let mut operation = blank(&namespace.models[0]).set_property("plain", Value::Int(1));
    assert!(run(&mut operation, &namespace, &mut store).is_err());
    let mut operation = blank(&namespace.models[0]).get_property("name");
    let error = run(&mut operation, &namespace, &mut store).unwrap_err();
    assert_eq!(error.kind, ErrorKind::InvalidKey);
}

#[test]
fn a_property_is_assigned_through_its_setter() {
    let namespace = with_property();
    let mut store = Store::new();
    let mut operation = blank(&namespace.models[0]).set_property("shout", text("hey"));
    assert_eq!(run(&mut operation, &namespace, &mut store), Ok(Returned::Done));
}

#[test]
fn fetching_every_record_of_a_to_many_relation() {
    let namespace = library(Delete::Default);
    let mut store = Store::new();
    let author = author_with_books(&namespace, &mut store);
    let mut operation = author.force_get_relation_objects("books", &dict(vec![]));
    let found = match run(&mut operation, &namespace, &mut store) {
        Ok(Returned::Records(found)) => found,
        other => panic!("unexpected result {:?}", other),
    };
    assert_eq!(found.len(), 2);
    let records = operation.into_records();
    let book = &namespace.models[1];
    assert_eq!(records[found[0]].model_path, names(&["Book"]));
    assert!(!records[found[1]].is_new());
    assert_eq!(records[0].get_relation_vec(&namespace.models[0], "books").unwrap().len(), 2);
    assert!(records[found[0]].get_value(book, "title").is_ok());
}

#[test]
fn fetching_a_key_that_is_no_relation_is_refused() {
    let namespace = library(Delete::Default);
    let mut store = Store::new();
    let author = author_with_books(&namespace, &mut store);
    let mut operation = author.fetch_relation_objects("name", None);
    let error = run(&mut operation, &namespace, &mut store).unwrap_err();
    assert_eq!(error.kind, ErrorKind::InvalidKey);
}

fn band() -> Namespace {
    let mut artist = Model::new(names(&["Artist"]));
    artist.fields = vec![id_field(), Field::new("name")];
    artist.primary_index = names(&["id"]);
    let mut songs = Relation::new("songs", names(&["Song"]));
    songs.is_vec = true;
    songs.through = Some(names(&["Perform"]));
    songs.local = Some(s("artist"));
    songs.foreign = Some(s("song"));
    artist.relations = vec![songs];

    let mut song = Model::new(names(&["Song"]));
    song.fields = vec![id_field(), Field::new("title")];
    song.primary_index = names(&["id"]);
    let mut artists = Relation::new("artists", names(&["Artist"]));
    artists.is_vec = true;
    artists.through = Some(names(&["Perform"]));
    artists.local = Some(s("song"));
    artists.foreign = Some(s("artist"));
    song.relations = vec![artists];

    let mut perform = Model::new(names(&["Perform"]));
    let mut artist_id = Field::new("artistId");
    artist_id.foreign_key = true;
    let mut song_id = Field::new("songId");
    song_id.foreign_key = true;
    perform.fields = vec![artist_id, song_id];
    perform.primary_index = names(&["artistId", "songId"]);
    let mut to_artist = Relation::new("artist", names(&["Artist"]));
    to_artist.fields = names(&["artistId"]);
    to_artist.references = names(&["id"]);
    to_artist.has_foreign_key = true;
    let mut to_song = Relation::new("song", names(&["Song"]));
    to_song.fields = names(&["songId"]);
    to_song.references = names(&["id"]);
    to_song.has_foreign_key = true;
    perform.relations = vec![to_artist, to_song];

    let mut namespace = Namespace::new();
    namespace.models.push(finish(artist));
    namespace.models.push(finish(song));
    namespace.models.push(finish(perform));
    namespace
}

fn artist_with_songs(namespace: &Namespace, store: &mut Store) -> Object {
    let payload = dict(vec![
        ("name", text("duo")),
        (
            "songs",
            dict(vec![(
                "create",
                Value::Array(vec![dict(vec![("title", text("one"))]), dict(vec![("title", text("two"))])]),
            )]),
        ),
    ]);
    stored(namespace, 0, store, payload)
}

#[test]
fn records_are_linked_through_a_join_table() {
    let namespace = band();
    let mut store = Store::new();
    let artist = artist_with_songs(&namespace, &mut store);
    let artist_id = artist.get_value(&namespace.models[0], "id").unwrap();
    let songs = store.rows(&["Song"]);
    assert_eq!(songs.len(), 2);
    let joins = store.rows(&["Perform"]);
    assert_eq!(joins.len(), 2);
    assert_eq!(field_of(&joins[0], "artistId"), artist_id);
    assert_eq!(field_of(&joins[0], "songId"), field_of(&songs[0], "id"));
    assert_eq!(field_of(&joins[1], "artistId"), artist_id);
    assert_eq!(field_of(&joins[1], "songId"), field_of(&songs[1], "id"));
}

#[test]
fn records_are_fetched_through_a_join_table() {
    let namespace = band();
    let mut store = Store::new();
    let artist = artist_with_songs(&namespace, &mut store);
    let _other = stored(&namespace, 1, &mut store, dict(vec![("title", text("alone"))]));
    let mut operation = artist.fetch_relation_objects("songs", None);
    let found = match run(&mut operation, &namespace, &mut store) {
        Ok(Returned::Records(found)) => found,
        other => panic!("unexpected result {:?}", other),
    };
    assert_eq!(found.len(), 2);
    let records = operation.into_records();
    let song = &namespace.models[1];
    assert_eq!(records[found[0]].get_value(song, "title"), Ok(text("one")));
    assert_eq!(records[found[1]].get_value(song, "title"), Ok(text("two")));
}

#[test]
fn a_disconnect_through_a_join_table_drops_the_join_row() {
    let namespace = band();
    let mut store = Store::new();
    let artist = artist_with_songs(&namespace, &mut store);
    let first = field_of(&store.rows(&["Song"])[0], "id");
    let payload = dict(vec![("songs", dict(vec![("disconnect", dict(vec![("id", first.clone())]))]))]);
    let mut operation = artist.set_teon(&payload);
    assert_eq!(run(&mut operation, &namespace, &mut store), Ok(Returned::Done));
    let mut operation = operation.into_records().remove(0).save();
    assert_eq!(run(&mut operation, &namespace, &mut store), Ok(Returned::Done));
    assert_eq!(store.rows(&["Song"]).len(), 2);
    let joins = store.rows(&["Perform"]);
    assert_eq!(joins.len(), 1);
    assert_ne!(field_of(&joins[0], "songId"), first);
}

#[test]
fn a_connect_through_a_join_table_makes_a_join_row() {
    let namespace = band();
    let mut store = Store::new();
    let song = stored(&namespace, 1, &mut store, dict(vec![("title", text("old"))]));
    let song_id = song.get_value(&namespace.models[1], "id").unwrap();
    let payload = dict(vec![
        ("name", text("solo")),
        ("songs", dict(vec![("connect", dict(vec![("id", song_id.clone())]))])),
    ]);
    let artist = stored(&namespace, 0, &mut store, payload);
    let joins = store.rows(&["Perform"]);
    assert_eq!(joins.len(), 1);
    assert_eq!(field_of(&joins[0], "songId"), song_id);
    assert_eq!(field_of(&joins[0], "artistId"), artist.get_value(&namespace.models[0], "id").unwrap());
}

#[test]
fn connect_or_create_connects_what_is_there_and_creates_what_is_not() {
    let namespace = blog();
    let mut store = Store::new();
    let post = stored(&namespace, 1, &mut store, dict(vec![("title", text("there"))]));
    let post_id = post.get_value(&namespace.models[1], "id").unwrap();
    let item = |id: Value, title: &str| {
        dict(vec![("where", dict(vec![("id", id)])), ("create", dict(vec![("title", text(title))]))])
    };
    let payload = dict(vec![
        ("name", text("a")),
        (
            "posts",
            dict(vec![(
                "connectOrCreate",
                Value::Array(vec![item(post_id, "ignored"), item(Value::Int(77), "made")]),
            )]),
        ),
    ]);
    let user = stored(&namespace, 0, &mut store, payload);
    let user_id = user.get_value(&namespace.models[0], "id").unwrap();
    let posts = store.rows(&["Post"]);
    assert_eq!(posts.len(), 2);
    assert_eq!(field_of(&posts[0], "title"), text("there"));
    assert_eq!(field_of(&posts[0], "userId"), user_id);
    assert_eq!(field_of(&posts[1], "title"), text("made"));
    assert_eq!(field_of(&posts[1], "userId"), user_id);
}

#[test]
fn records_set_by_the_program_are_linked_by_the_save() {
    let namespace = blog();
    let mut store = Store::new();
    let user = stored(&namespace, 0, &mut store, dict(vec![("name", text("a"))]));
    let user_id = user.get_value(&namespace.models[0], "id").unwrap();
    let mut post = blank(&namespace.models[1]);
    post.set(&namespace.models[1], "title", text("by hand")).unwrap();
    let mut user = user;
    user.force_add_relation_objects("posts", vec![post]);
    user.set(&namespace.models[0], "name", text("b")).unwrap();
    let mut operation = user.save();
    assert_eq!(run(&mut operation, &namespace, &mut store), Ok(Returned::Done));
    let posts = store.rows(&["Post"]);
    assert_eq!(posts.len(), 1);
    assert_eq!(field_of(&posts[0], "title"), text("by hand"));
    assert_eq!(field_of(&posts[0], "userId"), user_id);
    let user = operation.into_records().remove(0);
    assert!(user.object_connect_map.is_empty());
}

#[test]
fn a_nested_update_through_a_join_table_changes_the_related_record() {
    let namespace = band();
    let mut store = Store::new();
    let artist = artist_with_songs(&namespace, &mut store);
    let payload = dict(vec![(
        "songs",
        dict(vec![(
            "update",
            dict(vec![
                ("where", dict(vec![("title", text("two"))])),
                ("update", dict(vec![("title", text("second"))])),
            ]),
        )]),
    )]);
    let mut operation = artist.set_teon(&payload);
    assert_eq!(run(&mut operation, &namespace, &mut store), Ok(Returned::Done));
    let mut operation = operation.into_records().remove(0).save();
    assert_eq!(run(&mut operation, &namespace, &mut store), Ok(Returned::Done));
    let songs = store.rows(&["Song"]);
    assert_eq!(field_of(&songs[0], "title"), text("one"));
    assert_eq!(field_of(&songs[1], "title"), text("second"));
    assert_eq!(store.rows(&["Perform"]).len(), 2);
}

#[test]
fn a_nested_delete_through_a_join_table_removes_the_record_and_its_join_row() {
    let namespace = band();
    let mut store = Store::new();
    let artist = artist_with_songs(&namespace, &mut store);
    let payload = dict(vec![("songs", dict(vec![("delete", dict(vec![("title", text("one"))]))]))]);
    let mut operation = artist.set_teon(&payload);
    assert_eq!(run(&mut operation, &namespace, &mut store), Ok(Returned::Done));
    let mut operation = operation.into_records().remove(0).save();
    assert_eq!(run(&mut operation, &namespace, &mut store), Ok(Returned::Done));
    let songs = store.rows(&["Song"]);
    assert_eq!(songs.len(), 1);
    assert_eq!(field_of(&songs[0], "title"), text("two"));
}

#[test]
fn a_selection_of_a_name_that_is_no_key_puts_out_nothing() {
    let mut namespace = Namespace::new();
    namespace.models.push(user_model());
    let model = &namespace.models[0];
    let mut store = Store::new();
    let mut record = stored(&namespace, 0, &mut store, dict(vec![("name", text("ada"))]));
    record.set_select(model, Some(&dict(vec![("nothing", Value::Bool(true))]))).unwrap();
    assert!(record.is_selected);
    assert!(record.selected_fields.is_empty());
    let mut operation = record.to_json(&KeyPath::new());
    assert_eq!(run(&mut operation, &namespace, &mut store), Ok(Returned::Value(dict(vec![]))));
}

#[test]
fn fetched_relations_pass_the_selection_too() {
    let namespace = library(Delete::Default);
    let model = &namespace.models[0];
    let mut store = Store::new();
    let author = author_with_books(&namespace, &mut store);
    let mut operation = author.fetch_relation_objects("books", None);
    assert!(run(&mut operation, &namespace, &mut store).is_ok());
    let mut author = operation.into_records().remove(0);

    author.set_select(model, Some(&dict(vec![("name", Value::Bool(true))]))).unwrap();
    let mut operation = author.to_json(&KeyPath::new());
    assert_eq!(
        run(&mut operation, &namespace, &mut store),
        Ok(Returned::Value(dict(vec![("name", text("ada"))])))
    );

    let mut author = operation.into_records().remove(0);
    author.set_select(model, Some(&dict(vec![("books", Value::Bool(true))]))).unwrap();
    assert_eq!(author.selected_fields, names(&["books"]));
    let mut operation = author.to_json(&KeyPath::new());
    let json = match run(&mut operation, &namespace, &mut store) {
        Ok(Returned::Value(json)) => json,
        other => panic!("unexpected result {:?}", other),
    };
    assert_eq!(entries_of(&json).len(), 1);
    assert!(matches!(field_of(&json, "books"), Value::Array(books) if books.len() == 2));
}

#[test]
fn an_atomic_updater_is_applied_by_the_store() {
    let mut namespace = Namespace::new();
    namespace.models.push(counter_model());
    let model = &namespace.models[0];
    let mut store = Store::new();
    let record = stored(&namespace, 0, &mut store, dict(vec![("count", Value::Int(1))]));
    let mut operation = record.set_teon(&dict(vec![("count", dict(vec![("increment", Value::Int(2))]))]));
    assert_eq!(run(&mut operation, &namespace, &mut store), Ok(Returned::Done));
    let mut operation = operation.into_records().remove(0).save();
    assert_eq!(run(&mut operation, &namespace, &mut store), Ok(Returned::Done));
    assert_eq!(field_of(&store.rows(&["Counter"])[0], "count"), Value::Int(3));
    let record = operation.into_records().remove(0);
    assert_eq!(record.get_value(model, "count"), Ok(Value::Int(3)));
    assert_eq!(record.get_atomic_updator("count"), None);
    assert!(record.atomic_updater_map.len() == 0);
}

#[test]
fn a_failure_of_the_store_ends_a_connect_or_create() {
    let namespace = blog();
    let mut records = vec![blank(&namespace.models[0])];
    let failure = Error::new(ErrorKind::StoreError, "connection lost");
    let waiting = |wait: Wait| Script { wait, ..Script::new(0, 0, KeyPath::new(), Vec::new(), None) };
    let step = waiting(Wait::FoundOr).after_found_or(&namespace, &mut records, Reply::Row(Err(failure.clone())));
    assert!(matches!(step, Step::Return(Err(error)) if error == failure));
    let step = waiting(Wait::Vacating).after_vacating(&namespace, &mut records, Reply::Row(Err(failure.clone())));
    assert!(matches!(step, Step::Return(Err(error)) if error == failure));
    let step = waiting(Wait::FoundOr).after_found_or(&namespace, &mut records, Reply::Row(Ok(None)));
    assert!(matches!(step, Step::Call(_, _)));
    let step = waiting(Wait::Vacating).after_vacating(&namespace, &mut records, Reply::Row(Ok(None)));
    assert!(matches!(step, Step::Again(_)));
    assert_eq!(records.len(), 1);
}

#[test]
fn records_named_by_the_program_replace_and_leave_a_to_many_relation() {
    let namespace = blog();
    let mut store = Store::new();
    let user = stored(
        &namespace,
        0,
        &mut store,
        dict(vec![
            ("name", text("a")),
            ("posts", dict(vec![("create", Value::Array(vec![dict(vec![("title", text("old"))])]))])),
        ]),
    );
    let user_id = user.get_value(&namespace.models[0], "id").unwrap();
    let mut fresh = blank(&namespace.models[1]);
    fresh.set(&namespace.models[1], "title", text("new")).unwrap();
    let mut user = user;
    user.force_set_relation_objects("posts", vec![fresh]);
    user.set(&namespace.models[0], "name", text("b")).unwrap();
    let mut operation = user.save();
    assert_eq!(run(&mut operation, &namespace, &mut store), Ok(Returned::Done));
    let posts = store.rows(&["Post"]);
    assert_eq!(posts.len(), 2);
    assert_eq!(field_of(&posts[0], "title"), text("old"));
    assert_eq!(field_of(&posts[0], "userId"), Value::Null);
    assert_eq!(field_of(&posts[1], "title"), text("new"));
    assert_eq!(field_of(&posts[1], "userId"), user_id);
    let user = operation.into_records().remove(0);
    assert!(user.object_set_many_map.is_empty());

    let mut leaving = blank(&namespace.models[1]);
    leaving.set_from_database_result_value(&namespace, &namespace.models[1], &posts[1], None, None);
    let mut user = user;
    user.force_remove_relation_objects("posts", vec![leaving]);
    user.set(&namespace.models[0], "name", text("c")).unwrap();
    let mut operation = user.save();
    assert_eq!(run(&mut operation, &namespace, &mut store), Ok(Returned::Done));
    let posts = store.rows(&["Post"]);
    assert_eq!(field_of(&posts[1], "userId"), Value::Null);
    assert!(operation.into_records().remove(0).object_disconnect_map.is_empty());
}
