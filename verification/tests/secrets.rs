use vector_components::secrets::test::{ReadError, TestBackend};

#[test]
fn every_key_is_replaced() {
    let mut backend = TestBackend {
        replacement: "hidden".to_string(),
    };
    let secrets = backend
        .retrieve(vec!["a".to_string(), "b".to_string(), "a".to_string()])
        .unwrap();
    assert_eq!(secrets.len(), 2);
    assert_eq!(secrets.get("a").map(String::as_str), Some("hidden"));
    assert_eq!(secrets.get("b").map(String::as_str), Some("hidden"));
    assert_eq!(secrets.get("c"), None);
    assert_eq!(backend.replacement, "hidden");
}

#[test]
fn no_keys_no_secrets() {
    let mut backend = TestBackend::default();
    assert_eq!(backend.replacement, "");
    assert!(backend.retrieve(vec![]).unwrap().is_empty());
}

#[test]
fn two_requests_make_one() {
    let mut backend = TestBackend {
        replacement: "r".to_string(),
    };
    let mut apart = backend.retrieve(vec!["x".to_string()]).unwrap();
    apart.union_prefer_right(backend.retrieve(vec!["y".to_string()]).unwrap());
    let together = backend
        .retrieve(vec!["x".to_string(), "y".to_string()])
        .unwrap();
    for key in ["x", "y", "z"] {
        assert_eq!(apart.get(key), together.get(key));
    }
    assert_eq!(apart.len(), together.len());
}

#[test]
fn generated_config_is_the_default() {
    let expected: toml::Value = toml::from_str("replacement = \"\"").unwrap();
    assert_eq!(TestBackend::generate_config(), expected);
}

#[test]
fn order_does_not_matter() {
    let mut backend = TestBackend {
        replacement: "r".to_string(),
    };
    let one = backend
        .retrieve(vec!["x".to_string(), "y".to_string()])
        .unwrap();
    let other = backend
        .retrieve(vec!["y".to_string(), "x".to_string(), "y".to_string()])
        .unwrap();
    for key in ["x", "y", "z"] {
        assert_eq!(one.get(key), other.get(key));
    }
    assert_eq!(one.len(), other.len());
}

#[test]
fn configurations_are_read() {
    assert_eq!(TestBackend::NAME, "test");
    let read = |text: &str| TestBackend::from_value(&toml::from_str(text).unwrap());
    assert_eq!(
        read("replacement = \"hidden\"\nother = 1").unwrap().replacement,
        "hidden"
    );
    assert_eq!(read("other = 1").unwrap_err(), ReadError::MissingReplacement);
    assert_eq!(
        read("replacement = 1").unwrap_err(),
        ReadError::InvalidReplacement
    );
    assert_eq!(
        TestBackend::from_value(&toml::Value::Boolean(true)).unwrap_err(),
        ReadError::NotATable
    );
    let generated = TestBackend::from_value(&TestBackend::generate_config()).unwrap();
    assert_eq!(generated.replacement, TestBackend::default().replacement);
}
