use admin_server::containers::{
    list_service_names, resolve_by_service_label, service_label_key,
    services_of_listing, Container, ContainerListing, DirectoryError, LabelMap,
};

const SERVICE: &str = "com.docker.compose.service";

fn container(id: &str, labels: &[(&str, &str)]) -> Container {
    let mut map = LabelMap::new();
    for (key, value) in labels {
        map.insert(key.to_string(), value.to_string());
    }
    Container { id: Some(id.to_string()), labels: map }
}

#[test]
fn label_key_is_the_compose_service_label() {
    assert_eq!(service_label_key(), "com.docker.compose.service");
}

#[test]
fn label_map_gives_what_was_set() {
    let mut labels = LabelMap::new();
    assert_eq!(labels.get(&"a".to_string()), None);
    labels.insert("a".to_string(), "1".to_string());
    labels.insert("b".to_string(), "2".to_string());
    assert_eq!(labels.get(&"a".to_string()), Some(&"1".to_string()));
    assert_eq!(labels.get(&"b".to_string()), Some(&"2".to_string()));
    assert_eq!(labels.get(&"c".to_string()), None);
}

#[test]
fn label_map_keeps_the_last_value_of_a_key() {
    let mut labels = LabelMap::new();
    labels.insert("a".to_string(), "1".to_string());
    labels.insert("b".to_string(), "2".to_string());
    labels.insert("a".to_string(), "3".to_string());
    assert_eq!(labels.get(&"a".to_string()), Some(&"3".to_string()));
    assert_eq!(labels.get(&"b".to_string()), Some(&"2".to_string()));
}

#[test]
fn container_service_reads_the_service_label() {
    let web = container("c1", &[("other", "x"), (SERVICE, "web")]);
    assert_eq!(web.service(), Some(&"web".to_string()));
    let bare = container("c2", &[("other", "x")]);
    assert_eq!(bare.service(), None);
}

#[test]
fn resolve_gives_the_first_container_of_the_service() {
    let containers = vec![
        container("c0", &[]),
        container("c1", &[(SERVICE, "web")]),
        container("c2", &[(SERVICE, "worker")]),
        container("c3", &[(SERVICE, "worker")]),
    ];
    assert_eq!(resolve_by_service_label(&containers, "worker"), Ok("c2".to_string()));
    assert_eq!(resolve_by_service_label(&containers, "web"), Ok("c1".to_string()));
}

#[test]
fn resolve_of_an_unknown_service_is_not_found() {
    let containers =
        vec![container("c1", &[(SERVICE, "web")]), container("c2", &[(SERVICE, "worker")])];
    assert_eq!(resolve_by_service_label(&containers, "ghost"), Err(DirectoryError::NotFound));
    assert_eq!(resolve_by_service_label(&vec![], "web"), Err(DirectoryError::NotFound));
}

#[test]
fn resolve_compares_exactly() {
    let containers = vec![container("c1", &[(SERVICE, "Web")])];
    assert_eq!(resolve_by_service_label(&containers, "web"), Err(DirectoryError::NotFound));
    assert_eq!(resolve_by_service_label(&containers, "We"), Err(DirectoryError::NotFound));
    assert_eq!(resolve_by_service_label(&containers, "Web "), Err(DirectoryError::NotFound));
    assert_eq!(resolve_by_service_label(&containers, "Web"), Ok("c1".to_string()));
}

#[test]
fn resolve_stops_at_a_first_container_without_identifier() {
    let mut nameless = container("", &[(SERVICE, "web")]);
    nameless.id = None;
    let containers = vec![nameless, container("c2", &[(SERVICE, "web")])];
    assert_eq!(resolve_by_service_label(&containers, "web"), Err(DirectoryError::NotFound));
}

#[test]
fn service_names_are_distinct_and_in_first_seen_order() {
    let containers = vec![
        container("c1", &[(SERVICE, "web")]),
        container("c2", &[]),
        container("c3", &[(SERVICE, "worker")]),
        container("c4", &[(SERVICE, "web")]),
        container("c5", &[(SERVICE, "db")]),
        container("c6", &[(SERVICE, "worker")]),
    ];
    assert_eq!(list_service_names(&containers), vec!["web", "worker", "db"]);
    assert_eq!(list_service_names(&vec![]), Vec::<String>::new());
}

#[test]
fn services_of_a_listing() {
    let listed = ContainerListing::Listed {
        containers: vec![container("c1", &[(SERVICE, "web")]), container("c2", &[(SERVICE, "web")])],
    };
    assert_eq!(services_of_listing(listed), Ok(vec!["web".to_string()]));
    let failed = ContainerListing::Failed { error: "socket not found".to_string() };
    assert_eq!(
        services_of_listing(failed),
        Err(DirectoryError::RuntimeUnavailable { message: "socket not found".to_string() })
    );
}

#[test]
fn directory_error_statuses() {
    assert_eq!(DirectoryError::NotFound.status_code(), 404);
    assert_eq!(DirectoryError::NotFound.body(), "service not found");
    let down = DirectoryError::RuntimeUnavailable { message: "no socket".to_string() };
    assert_eq!(down.status_code(), 502);
    assert_eq!(down.body(), "no socket");
}
