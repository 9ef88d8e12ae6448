use myemma_core::{allow_methods, options_routes, RouteInfo};

fn route(path: &str, method: &str) -> RouteInfo {
    RouteInfo {
        path: path.to_string(),
        method: method.to_string(),
    }
}

#[test]
fn options_routes_group_methods_by_path() {
    let routes = vec![
        route("/users", "GET"),
        route("/users", "POST"),
        route("/items", "GET"),
        route("/users", "GET"),
        route("/admin", "GET"),
        route("/admin", "OPTIONS"),
    ];
    let plan = options_routes(&routes);
    assert_eq!(plan.len(), 2);
    assert_eq!(plan[0].path, "/users");
    assert_eq!(plan[0].methods, vec!["GET".to_string(), "POST".to_string()]);
    assert_eq!(plan[1].path, "/items");
    assert_eq!(plan[1].methods, vec!["GET".to_string()]);
}

#[test]
fn options_routes_of_nothing() {
    assert!(options_routes(&vec![]).is_empty());
}

#[test]
fn allow_methods_header() {
    assert_eq!(allow_methods(&vec![]), "");
    assert_eq!(allow_methods(&vec!["GET".to_string()]), "GET");
    assert_eq!(
        allow_methods(&vec!["GET".to_string(), "POST".to_string(), "PUT".to_string()]),
        "GET, POST, PUT"
    );
}
