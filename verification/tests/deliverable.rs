use addness::deliverable::{
    ensure_ids, filename_string, move_target, plan_add, read_content, split_ids, AddPlan,
    ContentSource,
};

#[test]
fn split_ids_trims_and_drops_empty_entries() {
    assert_eq!(split_ids(" d1, ,d2,"), vec!["d1", "d2"]);
    assert!(ensure_ids(&split_ids(" , ")).is_err());
    assert!(ensure_ids(&split_ids("d1")).is_ok());
}

#[test]
fn filename_string_takes_the_last_component() {
    assert_eq!(filename_string("docs/notes.md"), Some("notes.md".to_string()));
    assert_eq!(filename_string("/"), None);
}

#[test]
fn read_content_needs_exactly_one_source() {
    assert!(matches!(read_content(&Some("x".to_string()), &None), Ok(ContentSource::Inline(t)) if t == "x"));
    assert!(matches!(read_content(&None, &Some("f".to_string())), Ok(ContentSource::File(p)) if p == "f"));
    assert_eq!(
        read_content(&Some("x".to_string()), &Some("f".to_string())).unwrap_err(),
        "Specify only one of --content or --content-file"
    );
    assert_eq!(read_content(&None, &None).unwrap_err(), "Specify --content or --content-file");
}

#[test]
fn move_target_prefers_root() {
    assert_eq!(move_target(&Some("p".to_string()), true).unwrap(), None);
    assert_eq!(move_target(&Some("p".to_string()), false).unwrap(), Some("p".to_string()));
    assert_eq!(move_target(&None, false).unwrap_err(), "Specify --parent <ID> or --root.");
}

#[test]
fn plan_add_picks_the_first_source_given() {
    let name = Some("Spec".to_string());
    assert!(matches!(
        plan_add(&Some("body".to_string()), &None, &None, &None, &name),
        Ok(AddPlan::Document { name, content }) if name == "Spec" && content == "body"
    ));
    assert!(matches!(
        plan_add(&None, &Some("dir/plan.md".to_string()), &None, &None, &None),
        Ok(AddPlan::DocumentFromFile { name, path }) if name == "plan.md" && path == "dir/plan.md"
    ));
    assert_eq!(
        plan_add(&None, &None, &Some("https://x".to_string()), &None, &None).unwrap_err(),
        "--name is required when using --link-url"
    );
    assert!(matches!(
        plan_add(&None, &None, &None, &Some("a.pdf".to_string()), &None),
        Ok(AddPlan::File { path, name: None }) if path == "a.pdf"
    ));
    assert_eq!(
        plan_add(&None, &None, &None, &None, &None).unwrap_err(),
        "Specify one of --content, --content-file, --link-url, or --file"
    );
}
