use dual_greet::greeting::{HelloRequest, MyGreeter};

#[test]
fn greets_a_name() {
    let greeter = MyGreeter::default();
    let reply = greeter.say_hello(HelloRequest {
        name: String::from("world"),
    });
    assert_eq!(reply.message, "Hello world!");
}

#[test]
fn greets_the_empty_name() {
    let greeter = MyGreeter::default();
    let reply = greeter.say_hello(HelloRequest {
        name: String::new(),
    });
    assert_eq!(reply.message, "Hello !");
}

#[test]
fn passes_unicode_through_unchanged() {
    let greeter = MyGreeter::default();
    let name = "héllo wörld 世界 🌍";
    let reply = greeter.say_hello(HelloRequest {
        name: String::from(name),
    });
    assert_eq!(reply.message, format!("Hello {}!", name));
    assert!(reply.message.as_bytes()[6..].starts_with(name.as_bytes()));
}

#[test]
fn greets_whitespace_and_punctuation_as_given() {
    let greeter = MyGreeter::default();
    let reply = greeter.say_hello(HelloRequest {
        name: String::from("  a!b  "),
    });
    assert_eq!(reply.message, "Hello   a!b  !");
}
