use holodekk::subroutine::definition::{
    GetSubroutineDefinitionError, SubroutineDefinitionEntity, SubroutineDefinitions, SubroutineKind,
};

fn mock_subroutine_definition() -> SubroutineDefinitionEntity {
    SubroutineDefinitionEntity {
        id: "abc123".to_string(),
        name: "test-sub".to_string(),
        path: "/tmp/subroutines/test-sub".to_string(),
        kind: SubroutineKind::Ruby,
    }
}

fn service_with(defs: Vec<SubroutineDefinitionEntity>) -> SubroutineDefinitions {
    let mut service = SubroutineDefinitions::new();
    for d in defs {
        assert!(service.add(d));
    }
    service
}

#[test]
fn returns_existing() {
    let def = mock_subroutine_definition();
    let service = service_with(vec![def.clone()]);

    let definitions =
        service.find_subroutine_definitions(Some(def.name.as_str()), Some(def.path.as_str()), Some(def.kind));

    assert_eq!(definitions, vec![def]);
}

#[test]
fn returns_nothing_when_no_matches() {
    let def = mock_subroutine_definition();
    let service = service_with(vec![def.clone()]);

    let definitions = service.find_subroutine_definitions(
        Some(format!("{}bogus", def.name).as_str()),
        Some(def.path.as_str()),
        Some(def.kind),
    );
    assert!(definitions.is_empty());
}

#[test]
fn returns_error_for_nonexisting_subroutine_definition() {
    let service = service_with(vec![]);

    assert!(matches!(
        service.get_subroutine_definition("nonexistent").unwrap_err(),
        GetSubroutineDefinitionError::NotFound(..)
    ));
}

#[test]
fn returns_definition_for_existing_subroutine_definition() {
    let def = mock_subroutine_definition();
    let service = service_with(vec![def.clone()]);

    assert_eq!(service.get_subroutine_definition(&def.id).unwrap(), def);
}

#[test]
fn find_without_criteria_lists_all_and_duplicates_are_refused() {
    let a = mock_subroutine_definition();
    let mut b = mock_subroutine_definition();
    b.id = "def456".to_string();
    b.kind = SubroutineKind::Unknown;
    let mut service = service_with(vec![a.clone(), b.clone()]);
    assert!(!service.add(a.clone()));
    assert_eq!(service.find_subroutine_definitions(None, None, None), vec![a.clone(), b.clone()]);
    assert_eq!(
        service.find_subroutine_definitions(None, None, Some(SubroutineKind::Unknown)),
        vec![b]
    );
}
