use kash::key::{default_prefix, render};

#[test]
fn render_puts_nothing_between_the_parts() {
    assert_eq!(render("kash:", "fib", "20"), "kash:fib20");
    assert_eq!(render("", "", ""), "");
    assert_eq!(render("ns", "", "k"), "nsk");
    assert_eq!(render("", "p:", "k"), "p:k");
    assert_eq!(render("in-tests:", "1700000000:redis-cache-test", "1"), "in-tests:1700000000:redis-cache-test1");
}

#[test]
fn render_keeps_characters_outside_ascii() {
    assert_eq!(render("ключ:", "日本", "é"), "ключ:日本é");
}

#[test]
fn key_spaces_that_do_not_begin_one_another_never_meet() {
    // neither "a:x:" nor "a:y:" begins the other
    for k1 in ["", "1", "y:", "x:1"] {
        for k2 in ["", "1", "x:", "y:1"] {
            assert_ne!(render("a:", "x:", k1), render("a:", "y:", k2));
        }
    }
}

#[test]
fn key_spaces_that_begin_one_another_can_meet() {
    // ("a", "b") and ("ab", "") are different pairs with one key space
    assert_eq!(render("a", "b", "c"), render("ab", "", "c"));
    // "kash:f" begins "kash:fib"
    assert_eq!(render("kash:", "f", "ib1"), render("kash:", "fib", "1"));
}

#[test]
fn different_keys_in_one_key_space_differ() {
    assert_ne!(render("kash:", "f", "1"), render("kash:", "f", "2"));
    assert_ne!(render("kash:", "f", "1"), render("kash:", "f", "11"));
}

#[test]
fn default_prefix_is_made_of_the_cache_name() {
    assert_eq!(default_prefix("FIB"), "kash::FIB");
    assert_eq!(default_prefix(""), "kash::");
    assert_eq!(render("kash:", &default_prefix("FIB"), "20"), "kash:kash::FIB20");
}
