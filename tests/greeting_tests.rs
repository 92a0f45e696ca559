use atuin_bar_lib::greet;

#[test]
fn test_greet() {
    let result = greet("World");
    assert_eq!(result, "Hello, World! You've been greeted from Rust!");
}

#[test]
fn test_greet_empty_string() {
    let result = greet("");
    assert_eq!(result, "Hello, ! You've been greeted from Rust!");
}
