use zerp::path::{join_path, task_file_name, task_name};
use zerp::state::{confirms, contains, header, hint};
use zerp::model::Verb;
use zerp::protocol::copy_texts;
use zerp::text::{is_blank, trim_owned};

#[test]
fn joining_paths() {
    assert_eq!(join_path("/home/u", ".zerp"), "/home/u/.zerp");
    assert_eq!(join_path("/home/u/", ".zerp"), "/home/u/.zerp");
    assert_eq!(join_path("", "x.sh"), "x.sh");
    assert_eq!(join_path("/", "x.sh"), "/x.sh");
    assert_eq!(join_path("/home/u", "/etc/x.sh"), "/etc/x.sh");
    assert_eq!(join_path("/home/u", ""), "/home/u/");
    assert_eq!(join_path("rel", "a/b"), "rel/a/b");
    assert_eq!(join_path("/h\u{e9}", "\u{fc}.sh"), "/h\u{e9}/\u{fc}.sh");
}

#[test]
fn joining_paths_as_the_standard_library_does() {
    for (base, child) in [
        ("/home/u", ".zerp"),
        ("/home/u/", ".zerp"),
        ("", "x.sh"),
        ("/", "x.sh"),
        ("/home/u", "/etc/x.sh"),
        ("/home/u", ""),
        ("rel", "a/b"),
        ("", ""),
    ] {
        let expected = std::path::Path::new(base).join(child);
        assert_eq!(Some(join_path(base, child).as_str()), expected.to_str());
    }
}

#[test]
fn task_files_are_named_after_their_tasks() {
    assert_eq!(task_file_name("deploy"), "deploy.sh");
    assert_eq!(task_file_name(""), ".sh");
    assert_eq!(task_file_name("a.b"), "a.b.sh");
}

#[test]
fn tasks_are_named_after_their_files() {
    assert_eq!(task_name("deploy.sh"), Some("deploy".to_string()));
    assert_eq!(task_name("a.b.sh"), Some("a.b".to_string()));
    assert_eq!(task_name("..sh"), Some(".".to_string()));
    assert_eq!(task_name("\u{fc}ber.sh"), Some("\u{fc}ber".to_string()));
    assert_eq!(task_name(".sh"), None);
    assert_eq!(task_name("sh"), None);
    assert_eq!(task_name(""), None);
    assert_eq!(task_name("deploy"), None);
    assert_eq!(task_name("deploy.txt"), None);
    assert_eq!(task_name("deploy.SH"), None);
    assert_eq!(task_name("deploy.sh "), None);
    assert_eq!(task_name("deploy.bash"), None);
    assert_eq!(task_name("deploysh"), None);
}

#[test]
fn task_names_as_the_standard_library_derives_them() {
    for file in ["deploy.sh", "a.b.sh", "..sh", ".sh", "sh", "deploy", "deploy.txt", "x.sh.bak"] {
        let path = std::path::Path::new(file);
        let expected = if path.extension().and_then(|e| e.to_str()) == Some("sh") {
            path.file_stem().and_then(|s| s.to_str()).map(|s| s.to_string())
        } else {
            None
        };
        assert_eq!(task_name(file), expected);
    }
}

#[test]
fn a_task_is_found_again_under_its_name() {
    for name in ["deploy", "a.b", "x", "with space", ".hidden"] {
        assert_eq!(task_name(&task_file_name(name)), Some(name.to_string()));
    }
    assert_eq!(task_name(&task_file_name("")), None);
}

#[test]
fn blank_strings() {
    assert!(is_blank(""));
    assert!(is_blank(" "));
    assert!(is_blank(" \t\r\n\u{b}\u{c}"));
    assert!(is_blank("\u{85}\u{a0}\u{1680}\u{2000}\u{200a}\u{2028}\u{2029}\u{202f}\u{205f}\u{3000}"));
    assert!(!is_blank("a"));
    assert!(!is_blank("  a  "));
    assert!(!is_blank("\u{200b}"));
    assert!(!is_blank("\u{feff}"));
    assert!(!is_blank("\u{1c}"));
}

#[test]
fn trimming() {
    assert_eq!(trim_owned("  echo hi \n"), "echo hi");
    assert_eq!(trim_owned("echo hi"), "echo hi");
    assert_eq!(trim_owned("\u{3000}a b\u{2003}"), "a b");
    assert_eq!(trim_owned(" \n "), "");
    assert_eq!(trim_owned(""), "");
    assert_eq!(trim_owned("\u{200b} a"), "\u{200b} a");
}

#[test]
fn answers_to_a_deletion() {
    assert!(confirms("y"));
    assert!(confirms("Y"));
    assert!(confirms("y\n"));
    assert!(confirms(" Y \r\n"));
    assert!(!confirms("n"));
    assert!(!confirms(""));
    assert!(!confirms("\n"));
    assert!(!confirms("yes"));
    assert!(!confirms("y y"));
}

#[test]
fn membership_among_tasks() {
    let tasks = vec!["deploy".to_string(), "build".to_string()];
    assert!(contains(&tasks, &"deploy".to_string()));
    assert!(contains(&tasks, &"build".to_string()));
    assert!(!contains(&tasks, &"Deploy".to_string()));
    assert!(!contains(&tasks, &String::new()));
    assert!(!contains(&vec![], &"deploy".to_string()));
}

#[test]
fn headers_and_hints() {
    assert_eq!(header(Verb::Run), "Select a command to run");
    assert_eq!(header(Verb::Edit), "Select a command to edit");
    assert_eq!(header(Verb::Delete), "Select a command to delete");
    assert_eq!(hint(false), vec!["No commands found.".to_string()]);
    assert_eq!(
        hint(true),
        vec![
            "No commands found.".to_string(),
            "Use `zerp add <name>` to add a new command.".to_string()
        ]
    );
}

#[test]
fn copies_of_lists() {
    let tasks = vec!["deploy".to_string(), String::new(), "build".to_string()];
    assert_eq!(copy_texts(&tasks), tasks);
    assert_eq!(copy_texts(&vec![]), Vec::<String>::new());
}
