use myemma_core::{
    collision_messages, join_with, launch_failure_message, sentinel_message, LaunchFailure,
};

#[test]
fn launch_messages() {
    assert_eq!(
        launch_failure_message(LaunchFailure::Bind),
        "Address/Port binding error."
    );
    assert_eq!(
        launch_failure_message(LaunchFailure::Collisions),
        "API Collision error."
    );
    assert_eq!(
        launch_failure_message(LaunchFailure::Unknown),
        "API Unknown error."
    );
}

#[test]
fn collision_report() {
    let a = vec!["GET /a".to_string(), "GET /b".to_string()];
    let b = vec!["GET /<x>".to_string(), "GET /<y>".to_string()];
    assert_eq!(
        collision_messages("routes", &a, &b),
        "Collision (routes) between: \nGET /a\nand\nGET /<x>\n\nCollision (routes) between: \nGET /b\nand\nGET /<y>\n"
    );
    assert_eq!(collision_messages("catchers", &vec![], &vec![]), "");
}

#[test]
fn sentinel_report() {
    assert_eq!(
        sentinel_message("State<Db>", "src/main.rs", 10, 5),
        "State<Db> (src/main.rs:10:5)"
    );
}

#[test]
fn joining_lines() {
    let items = vec!["a".to_string(), "b".to_string(), "c".to_string()];
    assert_eq!(join_with(&items, "\n"), "a\nb\nc");
    assert_eq!(join_with(&vec![], "\n"), "");
}
