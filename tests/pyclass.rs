use autopyclass::{with_pyclass, ItemKind, PyclassError, PyclassOption};

#[test]
fn struct_gets_all_options() {
    assert_eq!(
        with_pyclass(ItemKind::Struct),
        Ok(vec![
            PyclassOption::Subclass,
            PyclassOption::Dict,
            PyclassOption::GetAll,
            PyclassOption::SetAll,
        ])
    );
}

#[test]
fn enum_gets_accessors_only() {
    assert_eq!(
        with_pyclass(ItemKind::Enum),
        Ok(vec![PyclassOption::GetAll, PyclassOption::SetAll])
    );
}

#[test]
fn other_items_are_refused() {
    let e = with_pyclass(ItemKind::Other).unwrap_err();
    assert_eq!(e, PyclassError::NotStructOrEnum);
    assert_eq!(e.message(), "with_pyclass can only be used with structs or enums");
}

#[test]
fn option_keywords() {
    let words: Vec<&str> = with_pyclass(ItemKind::Struct).unwrap().iter().map(|o| o.keyword()).collect();
    assert_eq!(words, vec!["subclass", "dict", "get_all", "set_all"]);
}
