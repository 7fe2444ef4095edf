use should::ShouldBeEqExtension;
use should::ShouldBeIntoIterExtension;
use should::ShouldBePartialOrdExtension;
use should::ShouldBeStringExtension;
use should::ShouldSatisfyExtension;

#[derive(Debug, PartialEq, Eq, Clone)]
struct Object {
    internal_string: String,
    internal_u32: u32,
}

impl Object {
    pub fn new(some_string: &str, some_u32: u32) -> Self {
        Object {
            internal_string: some_string.to_string(),
            internal_u32: some_u32,
        }
    }
}

#[test]
fn should_be_basic() {
    let original = Object::new("object1", 1111);
    let cloned_original = original.clone();

    assert!(original.should_be_eq(&cloned_original).is_ok());
    assert!(cloned_original.should_be_eq(&original).is_ok());
}

#[test]
fn should_not_be_basic() {
    let original = Object::new("object1", 1111);
    let unique = Object::new("object2", 2222);

    assert!(original.should_not_be_eq(&unique).is_ok());
    assert!(unique.should_not_be_eq(&original).is_ok());
}

#[test]
fn eq_failure() {
    let original = Object::new("object1", 1111);
    let unique = Object::new("object2", 2222);

    let result = original.should_be_eq(&unique);
    assert!(result.is_err());
}

#[test]
fn basic_comparisons() {
    for first in 1..=3 {
        for second in 1..=3 {
            if first < second {
                assert!(first.should_be_lt(&second).is_ok());
                assert!(second.should_be_gt(&first).is_ok());
            } else {
                assert!(first.should_be_ge(&second).is_ok());
                assert!(second.should_be_le(&first).is_ok());
            }
        }
    }
}

#[test]
fn partial_ord_failure() {
    let result = 1f32.should_be_ge(&2f32);
    assert!(result.is_err());
}

#[test]
fn test_should_be_empty() {
    assert!(std::iter::empty::<i32>().should_be_empty().is_ok());

    let result = (0..3).should_be_empty();
    assert!(result.is_err());
}

#[test]
fn test_should_not_be_empty() {
    assert!((0..3).should_not_be_empty().is_ok());

    let result = std::iter::empty::<i32>().should_not_be_empty();
    assert!(result.is_err());
}

#[test]
fn test_should_be_size() {
    assert!((0..3).should_be_size(3).is_ok());

    let result = (0..3).should_be_size(2);
    let failure = result.unwrap_err();
    assert_eq!(failure.message, " should be size 2 but was size 3: 0..3");

    let result = (0..3).should_be_size(4);
    assert!(result.is_err());
}

#[test]
fn test_should_contain() {
    let vec: Vec<_> = (0..3).collect();
    assert!(vec.iter().should_contain(&&2).is_ok());

    let result = vec.iter().should_contain(&&10);
    assert!(result.is_err());
}

#[test]
fn test_should_contain_ownership() {
    // This test demonstrates the need for `should_contain` to take a
    // `&Item` rather than `Item`. In the case that the iterator owns its
    // generated elements, taking an `Item` would require taking ownership
    // of the element to check, which seems like poor ergonomics for the
    // test author.
    let mut vec = vec!["apple".to_string(), "banana".to_string()];

    let coconut = "coconut".to_string();

    vec.push(coconut.clone());

    assert!(vec.into_iter().should_contain(&coconut).is_ok());
}

#[test]
fn test_should_not_contain() {
    let vec: Vec<_> = (0..3).collect();
    assert!(vec.iter().should_not_contain(&&10).is_ok());

    let result = vec.iter().should_not_contain(&&2);
    assert!(result.is_err());
}

#[test]
fn test_should_any_satisfy() {
    assert!((0..3).should_any_satisfy(|x| x == 0, None).is_ok());

    let result = (0..3).should_any_satisfy(|x| x == 10, None);
    assert!(result.is_err());

    let result = (0..3).should_any_satisfy(
        |x| x == 10,
        Some("Expected at least one element to be 10".to_string()),
    );
    assert!(result.is_err());
    let message = result.unwrap_err().message;
    assert!(message.contains("Extra details: Expected at least one element to be 10"));
}

#[test]
fn test_should_all_satisfy() {
    assert!((0..3).should_all_satisfy(|x| x < 5, None).is_ok());

    let result = (0..3).should_all_satisfy(|x| x < 1, None);
    assert!(result.is_err());
}

#[test]
fn test_str_should_be_empty() {
    assert!("".should_be_empty().is_ok());

    let result = "nonempty".should_be_empty();
    assert!(result.is_err());
}

#[test]
fn test_str_should_not_be_empty() {
    assert!("nonempty".should_not_be_empty().is_ok());

    let result = "".should_not_be_empty();
    let failure = result.unwrap_err();
    assert!(failure.message.contains("should not be empty"));
}

#[test]
fn test_str_should_be_len() {
    assert!("hello".should_be_len(5).is_ok());

    let result = "hello".should_be_len(4);
    assert!(result.is_err());
}

#[test]
fn test_str_should_be_len_counts_bytes() {
    // A one-character string of two UTF-8 bytes: the length matcher
    // counts bytes, as str::len does.
    let accented = "\u{e9}";
    assert_eq!(accented.len(), 2);
    assert!(accented.should_be_len(2).is_ok());

    let result = accented.should_be_len(1);
    let failure = result.unwrap_err();
    assert_eq!(
        failure.message,
        format!(" should be length 1 1 but was length 2, actual={accented}")
    );
}

#[test]
fn test_str_should_contain() {
    assert!("hello world".should_contain("hello").is_ok());

    let result = "hello".should_contain("world");
    assert!(result.is_err());
}

#[test]
fn test_str_should_not_contain() {
    assert!("hello".should_not_contain("world").is_ok());

    let result = "hello world".should_not_contain("world");
    assert!(result.is_err());
}

#[test]
fn test_string_should_be_empty() {
    assert!("".to_string().should_be_empty().is_ok());

    let result = "nonempty".to_string().should_be_empty();
    assert!(result.is_err());
}

#[test]
fn test_string_should_not_be_empty() {
    assert!("nonempty".to_string().should_not_be_empty().is_ok());

    let result = "".to_string().should_not_be_empty();
    assert!(result.is_err());
}

#[test]
fn test_string_should_be_len() {
    let hello = "hello".to_string();
    assert!(hello.should_be_len(5).is_ok());

    let result = hello.should_be_len(4);
    let failure = result.unwrap_err();
    assert_eq!(
        failure.message,
        " should be length 4 4 but was length 5, actual=hello"
    );
}

#[test]
fn test_string_should_contain() {
    let hello = "hello".to_string();
    assert!(hello.should_contain(&hello[0..2]).is_ok());

    let result = hello.should_contain("world");
    assert!(result.is_err());
}

#[test]
fn test_string_should_not_contain() {
    let hello = "hello".to_string();
    assert!(hello.should_not_contain("world").is_ok());

    let result = hello.should_not_contain(&hello[0..2]);
    assert!(result.is_err());
}

#[test]
fn example1() {
    let points = 10;

    assert!(points.should_be_eq(&points).is_ok());
    assert!(points.should_not_be_eq(&50).is_ok());

    assert!(points.should_be_gt(&0).is_ok());
    assert!(points.should_be_lt(&100).is_ok());

    assert!(points
        .should_satisfy(
            |&x| x * x == 100,
            Some("Expected the square to be 100.".to_string()),
        )
        .is_ok());
}

#[test]
fn example2() {
    let mut fruits = vec!["apple", "banana", "cherry"];

    assert!(fruits.iter().should_be_size(3).is_ok());

    let dragonfruit = "dragonfruit";
    fruits.push(dragonfruit);

    assert!(fruits.iter().should_contain(&&dragonfruit).is_ok());

    assert!(fruits
        .iter()
        .should_all_satisfy(
            |&x| !x.is_empty(),
            Some("None of the elements should be empty".to_string()),
        )
        .is_ok());
}

#[test]
fn basic_test() {
    let x = 0;
    let y = 10;

    // Assert whatever you'd like to express:
    assert!(x.should_be_lt(&y).is_ok());
    assert!(y.should_be_ge(&x).is_ok());

    let my_str = "Hello, world!";
    assert!(my_str.should_contain("world").is_ok());

    let my_vec = vec![1, 3, 2];
    assert!(my_vec.iter().should_be_size(my_vec.len()).is_ok());
    assert!(my_vec.iter().should_contain(&&3).is_ok());
}
