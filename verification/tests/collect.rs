use wiki_to_md::Walk;

fn found(walk: Walk) -> Vec<String> {
    walk.finish()
}

#[test]
fn single_file_is_taken_whatever_its_extension() {
    let mut walk = Walk::start("notes.txt".to_string(), false);
    assert_eq!(walk.next_directory(), None);
    assert_eq!(found(walk), vec!["notes.txt".to_string()]);
}

#[test]
fn root_directory_is_listed_first() {
    let mut walk = Walk::start("in".to_string(), true);
    assert_eq!(walk.next_directory(), Some("in".to_string()));
    assert_eq!(walk.next_directory(), None);
    assert_eq!(found(walk), Vec::<String>::new());
}

#[test]
fn pages_are_kept_and_other_files_passed_over() {
    let mut walk = Walk::start("in".to_string(), true);
    assert_eq!(walk.next_directory(), Some("in".to_string()));
    walk.visit("in/a.html".to_string(), false);
    walk.visit("in/b.txt".to_string(), false);
    walk.visit("in/c.HTML".to_string(), false);
    walk.visit("in/_d.html".to_string(), false);
    walk.visit("in/html".to_string(), false);
    assert_eq!(walk.next_directory(), None);
    assert_eq!(found(walk), vec!["in/a.html".to_string(), "in/_d.html".to_string()]);
}

#[test]
fn directories_are_listed_to_any_depth() {
    let mut walk = Walk::start("in".to_string(), true);
    assert_eq!(walk.next_directory(), Some("in".to_string()));
    walk.visit("in/x".to_string(), true);
    walk.visit("in/a.html".to_string(), false);
    walk.visit("in/y.html".to_string(), true);
    assert_eq!(walk.next_directory(), Some("in/y.html".to_string()));
    walk.visit("in/y.html/b.html".to_string(), false);
    assert_eq!(walk.next_directory(), Some("in/x".to_string()));
    walk.visit("in/x/deep".to_string(), true);
    assert_eq!(walk.next_directory(), Some("in/x/deep".to_string()));
    walk.visit("in/x/deep/c.html".to_string(), false);
    walk.visit("in/x/deep/c.md".to_string(), false);
    assert_eq!(walk.next_directory(), None);
    assert_eq!(
        found(walk),
        vec![
            "in/a.html".to_string(),
            "in/y.html/b.html".to_string(),
            "in/x/deep/c.html".to_string(),
        ]
    );
}
