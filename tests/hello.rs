use hello_service::{
    greeting, name_or_default, to_decimal, HelloWorld, RequestCounter, SequentialGreeter,
};
use std::sync::Arc;

#[test]
fn test_hello_world() {
    let srv = HelloWorld(Arc::new(RequestCounter::new(1)));
    let first_response_text = srv.invoke(None);
    assert!(
        first_response_text.contains("world"),
        "A request without name parameter should contain Hello World in the response. Got : \n {:?}",
        first_response_text
    );
    assert!(
        first_response_text.contains("invoked 1 times"),
        "The first request should claim the server has been invoked only one time. Got : \n {:?}",
        first_response_text
    );

    let name = "Jeremy";
    let second_response_text = srv.invoke(Some(name));
    assert!(
        second_response_text.contains(name),
        "A request with {} as name parameter should contain {} in the response. Got : \n {:?}",
        name,
        name,
        second_response_text
    );
    assert!(
        second_response_text.contains("invoked 2 times"),
        "The second request should claim the server has been invoked two times. Got : \n {:?}",
        second_response_text
    );
}

#[test]
fn greeting_is_exact() {
    assert_eq!(
        greeting("world", 1),
        "Hello world, welcome to the actix tower-service test ! I've been invoked 1 times so far :)"
    );
    assert_eq!(
        greeting("", 0),
        "Hello , welcome to the actix tower-service test ! I've been invoked 0 times so far :)"
    );
}

#[test]
fn decimal_rendering() {
    assert_eq!(to_decimal(0), "0");
    assert_eq!(to_decimal(7), "7");
    assert_eq!(to_decimal(10), "10");
    assert_eq!(to_decimal(1234567890), "1234567890");
    assert_eq!(to_decimal(usize::MAX), usize::MAX.to_string());
}

#[test]
fn default_name_is_world() {
    assert_eq!(name_or_default(None), "world");
    assert_eq!(name_or_default(Some("Jeremy")), "Jeremy");
    assert_eq!(name_or_default(Some("")), "");
}

#[test]
fn default_name_greeting() {
    let srv = HelloWorld(Arc::new(RequestCounter::new(1)));
    for _ in 0..3 {
        assert!(srv.invoke(None).starts_with("Hello world,"));
    }
}

#[test]
fn custom_name_greeting() {
    let mut greeter = SequentialGreeter::new(1);
    assert!(greeter.handle(Some("Jeremy")).starts_with("Hello Jeremy,"));
    let srv = HelloWorld(Arc::new(RequestCounter::new(0)));
    assert!(srv.invoke(Some("Jeremy")).starts_with("Hello Jeremy,"));
}

#[test]
fn sequential_counts_follow_initial_value() {
    let mut greeter = SequentialGreeter::new(1);
    for n in 1..=10usize {
        assert_eq!(greeter.current(), n);
        let body = greeter.handle(None);
        assert!(body.contains(&format!("invoked {} times", n)));
    }
    assert_eq!(greeter.current(), 11);
}

#[test]
fn identical_requests_report_different_counts() {
    let srv = HelloWorld(Arc::new(RequestCounter::new(1)));
    let a = srv.invoke(Some("Jeremy"));
    let b = srv.invoke(Some("Jeremy"));
    assert_ne!(a, b);
    assert!(a.contains("invoked 1 times"));
    assert!(b.contains("invoked 2 times"));
}

#[test]
fn counter_hands_out_contiguous_distinct_values() {
    let counter = RequestCounter::new(1);
    let mut seen: Vec<usize> = Vec::new();
    for _ in 0..100 {
        seen.push(counter.fetch_and_increment());
    }
    seen.sort();
    let expected: Vec<usize> = (1..=100).collect();
    assert_eq!(seen, expected);
    assert_eq!(counter.fetch_and_increment(), 101);
}

#[test]
fn shared_counter_counts_across_handlers() {
    let counter = Arc::new(RequestCounter::new(1));
    let first = HelloWorld(counter.clone());
    let second = HelloWorld(counter.clone());
    assert!(first.invoke(None).contains("invoked 1 times"));
    assert!(second.invoke(None).contains("invoked 2 times"));
    assert!(first.invoke(None).contains("invoked 3 times"));
    assert_eq!(counter.fetch_and_increment(), 4);
}

#[test]
fn counter_wraps_past_the_largest_value() {
    let counter = RequestCounter::new(usize::MAX);
    assert_eq!(counter.fetch_and_increment(), usize::MAX);
    assert_eq!(counter.fetch_and_increment(), 0);
    let mut greeter = SequentialGreeter::new(usize::MAX);
    let body = greeter.handle(None);
    assert!(body.contains(&format!("invoked {} times", usize::MAX)));
    assert_eq!(greeter.current(), 0);
}

#[test]
fn end_to_end_scenario() {
    let mut greeter = SequentialGreeter::new(1);
    let first = greeter.handle(None);
    assert!(first.contains("Hello world"));
    assert!(first.contains("invoked 1 times"));
    let second = greeter.handle(Some("Jeremy"));
    assert!(second.contains("Hello Jeremy"));
    assert!(second.contains("invoked 2 times"));
}
