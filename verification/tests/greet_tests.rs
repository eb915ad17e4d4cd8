use app_shell::greet::greet;

#[test]
fn greet_formats_name() {
    assert_eq!(greet("World"), "Hello, World! You've been greeted from Rust!");
}

#[test]
fn greet_empty_name() {
    assert_eq!(greet(""), "Hello, ! You've been greeted from Rust!");
}

#[test]
fn greet_embeds_input_verbatim() {
    let g = greet("Ada Lovelace");
    assert!(g.contains("Ada Lovelace"));
    assert!(g.starts_with("Hello, "));
    assert!(g.ends_with("! You've been greeted from Rust!"));
}

#[test]
fn greet_is_deterministic() {
    assert_eq!(greet("again"), greet("again"));
}
