use botdispatch::dependencies::DependencyMap;

#[test]
fn container_holds_one_value_of_each_kind() {
    let deps: DependencyMap<String> = DependencyMap::new();
    assert!(deps.kinds().is_empty());
    assert_eq!(deps.get(1), None);
    let deps = deps.with(1, String::from("a")).with(2, String::from("b"));
    assert_eq!(deps.get(1), Some(&String::from("a")));
    assert_eq!(deps.get(2), Some(&String::from("b")));
    assert!(deps.contains(2));
    assert!(!deps.contains(3));
    assert_eq!(deps.kinds(), &vec![1, 2]);
    let deps = deps.with(1, String::from("c"));
    assert_eq!(deps.get(1), Some(&String::from("c")));
    assert_eq!(deps.kinds(), &vec![1, 2]);
}
