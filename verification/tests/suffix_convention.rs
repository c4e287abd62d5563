use maybe_async::suffix::{ident_add_suffix, ident_try_remove_suffix};

#[test]
fn add_then_remove_returns_the_original() {
    let decorated = ident_add_suffix(&"fetch".to_string(), "_async");
    assert_eq!(decorated, "fetch_async".to_string());
    let stripped = ident_try_remove_suffix(&decorated, "_async");
    assert_eq!(stripped, Some("fetch".to_string()));
}

#[test]
fn remove_without_the_suffix_is_none() {
    assert_eq!(ident_try_remove_suffix(&"fetch".to_string(), "_async"), None);
    assert_eq!(ident_try_remove_suffix(&"async".to_string(), "_async"), None);
    assert_eq!(ident_try_remove_suffix(&"".to_string(), "_async"), None);
}

#[test]
fn remove_strips_one_occurrence_only() {
    let twice = ident_add_suffix(&"job_async".to_string(), "_async");
    assert_eq!(twice, "job_async_async".to_string());
    assert_eq!(
        ident_try_remove_suffix(&twice, "_async"),
        Some("job_async".to_string())
    );
}

#[test]
fn the_empty_suffix_is_always_removable() {
    assert_eq!(
        ident_try_remove_suffix(&"name".to_string(), ""),
        Some("name".to_string())
    );
}

#[test]
fn the_sync_tag_decorates_type_names() {
    assert_eq!(
        ident_add_suffix(&"ServiceClient".to_string(), "Sync"),
        "ServiceClientSync".to_string()
    );
    assert_eq!(
        ident_try_remove_suffix(&"ServiceClientSync".to_string(), "Sync"),
        Some("ServiceClient".to_string())
    );
}

#[test]
fn suffix_handling_is_not_fooled_by_short_names() {
    assert_eq!(ident_try_remove_suffix(&"_async".to_string(), "_async"), Some("".to_string()));
    assert_eq!(ident_try_remove_suffix(&"sync".to_string(), "_async"), None);
}
