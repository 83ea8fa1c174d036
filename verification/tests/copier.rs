use std::collections::HashMap;

use katvan_homepage::copier::{copy_plan, TreeEntry};

fn file(name: &str, id: u64) -> TreeEntry {
    TreeEntry::File {
        name: String::from(name),
        id,
    }
}

fn dir(name: &str, entries: Vec<TreeEntry>) -> TreeEntry {
    TreeEntry::Dir {
        name: String::from(name),
        entries,
    }
}

fn run_plan(plan: &[(u64, String)]) -> HashMap<String, u64> {
    let mut dest = HashMap::new();
    for (id, name) in plan {
        dest.insert(name.clone(), *id);
    }
    dest
}

#[test]
fn plan_lists_files_in_visit_order() {
    let tree = dir(
        "src",
        vec![
            file("a.txt", 0),
            dir("sub", vec![file("b.txt", 1), dir("deep", vec![file("c.txt", 2)])]),
            file("d.txt", 3),
        ],
    );
    let plan = copy_plan(&tree);
    let got: Vec<(u64, &str)> = plan.iter().map(|(id, name)| (*id, name.as_str())).collect();
    assert_eq!(
        got,
        vec![(0, "a.txt"), (1, "b.txt"), (2, "c.txt"), (3, "d.txt")]
    );
}

#[test]
fn plan_flattens_nested_directories() {
    let tree = dir(
        "src",
        vec![file("a.txt", 0), dir("sub", vec![file("a.txt", 1)])],
    );
    let plan = copy_plan(&tree);
    let dest = run_plan(&plan);
    assert_eq!(dest.len(), 1);
    assert_eq!(dest["a.txt"], 1);
}

#[test]
fn flattening_collision_last_write_wins() {
    let visited_file_first = dir(
        "src",
        vec![file("a.txt", 0), dir("sub", vec![file("a.txt", 1)])],
    );
    let visited_dir_first = dir(
        "src",
        vec![dir("sub", vec![file("a.txt", 1)]), file("a.txt", 0)],
    );
    let first = run_plan(&copy_plan(&visited_file_first));
    let second = run_plan(&copy_plan(&visited_dir_first));
    assert_eq!(first["a.txt"], 1);
    assert_eq!(second["a.txt"], 0);
}

#[test]
fn copying_twice_equals_copying_once() {
    let tree = dir(
        "src",
        vec![
            file("a.txt", 0),
            dir("sub", vec![file("a.txt", 1), file("b.txt", 2)]),
        ],
    );
    let plan = copy_plan(&tree);
    let once = run_plan(&plan);
    let mut twice = run_plan(&plan);
    for (id, name) in &plan {
        twice.insert(name.clone(), *id);
    }
    assert_eq!(once, twice);
}

#[test]
fn plan_of_empty_directory_is_empty() {
    let tree = dir("src", vec![]);
    assert!(copy_plan(&tree).is_empty());
}

#[test]
fn plan_keeps_untouched_destination_entries() {
    let tree = dir("src", vec![file("new.txt", 5)]);
    let mut dest = HashMap::new();
    dest.insert(String::from("old.txt"), 9u64);
    for (id, name) in copy_plan(&tree) {
        dest.insert(name, id);
    }
    assert_eq!(dest.len(), 2);
    assert_eq!(dest["old.txt"], 9);
    assert_eq!(dest["new.txt"], 5);
}
