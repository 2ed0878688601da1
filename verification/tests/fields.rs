use ptmp::components::{component_for_command, components};
use ptmp::cli::Commands;
use ptmp::fields::{
    component_fields_are_known, requests_for_component, requests_for_manifest, CollectError,
    FieldCollector, FieldValues,
};
use ptmp::manifest::{Field, FieldsManifest};

#[test]
fn field_values_insert_replaces() {
    let mut v = FieldValues::new();
    assert!(v.get("title").is_none());
    v.insert("title".to_string(), "A".to_string());
    v.insert("author".to_string(), "B".to_string());
    v.insert("title".to_string(), "C".to_string());
    assert_eq!(v.get("title").unwrap(), "C");
    assert_eq!(v.get("author").unwrap(), "B");
    assert!(v.get("year").is_none());
    assert_eq!(v.entries().len(), 2);
}

#[test]
fn component_requests_follow_known_fields() {
    let comp = component_for_command(&Commands::Taskfile).unwrap();
    let reqs = requests_for_component(&comp);
    assert_eq!(reqs.len(), 3);
    assert_eq!(reqs[0].name, "title");
    assert_eq!(reqs[0].prompt, "Project title");
    assert_eq!(reqs[0].default.as_deref(), Some("My Analysis"));
    assert_eq!(reqs[0].help.as_deref(), Some("Required"));
    assert!(reqs[0].required);
    assert_eq!(reqs[1].name, "main_file");
    assert_eq!(reqs[1].default.as_deref(), Some("main.tex"));
    assert_eq!(reqs[1].help, None);
    assert_eq!(reqs[2].name, "latex_engine");
    let latex = component_for_command(&Commands::Latex).unwrap();
    let reqs = requests_for_component(&latex);
    // an empty default is not offered
    assert_eq!(reqs[1].name, "author");
    assert_eq!(reqs[1].default, None);
    assert_eq!(reqs[2].name, "affiliation");
    assert_eq!(reqs[2].help, None);
}

#[test]
fn registry_components_have_known_fields() {
    for c in components() {
        assert!(component_fields_are_known(&c));
    }
}

fn manifest() -> FieldsManifest {
    FieldsManifest {
        fields: vec![
            Field {
                name: "title".to_string(),
                prompt: "Project title".to_string(),
                default: Some("My Analysis".to_string()),
                required: true,
            },
            Field {
                name: "author".to_string(),
                prompt: "Author name".to_string(),
                default: Some(String::new()),
                required: false,
            },
        ],
    }
}

#[test]
fn manifest_requests_keep_defaults() {
    let reqs = requests_for_manifest(&manifest());
    assert_eq!(reqs.len(), 2);
    assert_eq!(reqs[0].default.as_deref(), Some("My Analysis"));
    // a manifest default is offered even when empty
    assert_eq!(reqs[1].default.as_deref(), Some(""));
    assert_eq!(reqs[0].help.as_deref(), Some("Required"));
    assert_eq!(reqs[1].help, None);
}

#[test]
fn collector_accepts_answers_in_order() {
    let mut c = FieldCollector::new(requests_for_manifest(&manifest()));
    assert_eq!(c.next_request().unwrap().name, "title");
    c.answer("Study".to_string()).unwrap();
    assert_eq!(c.answered_count(), 1);
    assert_eq!(c.next_request().unwrap().name, "author");
    // blank answers to optional fields are kept
    c.answer("  ".to_string()).unwrap();
    assert!(c.next_request().is_none());
    let v = c.into_values();
    assert_eq!(v.get("title").unwrap(), "Study");
    assert_eq!(v.get("author").unwrap(), "  ");
}

#[test]
fn collector_refuses_blank_required() {
    let mut c = FieldCollector::new(requests_for_manifest(&manifest()));
    match c.answer(" \t ".to_string()) {
        Err(CollectError::RequiredFieldEmpty { name }) => assert_eq!(name, "title"),
        Ok(()) => panic!("blank answer to a required field was accepted"),
    }
    assert_eq!(c.answered_count(), 0);
    assert_eq!(c.next_request().unwrap().name, "title");
}
