use supervisor::studio::{
    display_args, has_docker_group, is_docker_studio, is_windows_studio,
    rerun_with_sudo_if_needed, SudoStep,
};

fn words(list: &[&str]) -> Vec<String> {
    list.iter().map(|word| word.to_string()).collect()
}

#[test]
fn docker_studio_is_asked_for_with_capital_d() {
    assert!(is_docker_studio(&words(&["enter", "-D"])));
    assert!(is_docker_studio(&words(&["-D"])));
    assert!(is_docker_studio(&words(&["-k", "core", "-D", "build"])));
    assert!(!is_docker_studio(&words(&["enter"])));
    assert!(!is_docker_studio(&words(&[])));
    assert!(!is_docker_studio(&words(&["-d", "--D", "-DD", " -D"])));
}

#[test]
fn windows_studio_is_the_rule_on_windows_only() {
    assert!(is_windows_studio(&words(&["enter"]), true));
    assert!(is_windows_studio(&words(&["enter", "-w"]), true));
    assert!(is_windows_studio(&words(&[]), true));
    assert!(!is_windows_studio(&words(&["enter", "-D"]), true));
    assert!(!is_windows_studio(&words(&["-D", "--windows"]), true));
    assert!(!is_windows_studio(&words(&["enter"]), false));
    assert!(!is_windows_studio(&words(&["enter", "-w"]), false));
    assert!(!is_windows_studio(&words(&["enter", "-D"]), false));
}

#[test]
fn docker_group_membership_is_by_name() {
    let members = words(&["root", "alice", "bob"]);
    assert!(has_docker_group("alice", Some(&members)));
    assert!(has_docker_group("bob", Some(&members)));
    assert!(!has_docker_group("carol", Some(&members)));
    assert!(!has_docker_group("Alice", Some(&members)));
    assert!(!has_docker_group("alice", Some(&words(&[]))));
    assert!(!has_docker_group("alice", None));
}

#[test]
fn root_and_docker_group_members_go_on_without_sudo() {
    let args = words(&["hab", "studio", "enter"]);
    assert!(matches!(rerun_with_sudo_if_needed(true, false, false, false, args.clone()), SudoStep::Proceed));
    assert!(matches!(rerun_with_sudo_if_needed(true, true, true, true, args.clone()), SudoStep::Proceed));
    assert!(matches!(rerun_with_sudo_if_needed(false, true, true, false, args.clone()), SudoStep::Proceed));
    assert!(matches!(rerun_with_sudo_if_needed(false, true, true, true, args), SudoStep::Proceed));
}

#[test]
fn others_are_run_again_through_sudo() {
    let args = words(&["hab", "studio", "enter"]);
    for (docker_studio, docker_group) in [(false, false), (false, true), (true, false)] {
        match rerun_with_sudo_if_needed(false, docker_studio, docker_group, true, args.clone()) {
            SudoStep::Rerun(sudo_args) => assert_eq!(
                sudo_args,
                words(&["-p", "[sudo hab-studio] password for %u: ", "-E", "hab", "studio", "enter"])
            ),
            _ => panic!("a rerun through sudo was expected"),
        }
    }
    match rerun_with_sudo_if_needed(false, false, false, true, Vec::new()) {
        SudoStep::Rerun(sudo_args) => {
            assert_eq!(sudo_args, words(&["-p", "[sudo hab-studio] password for %u: ", "-E"]))
        }
        _ => panic!("a rerun through sudo was expected"),
    }
}

#[test]
fn without_sudo_root_is_required() {
    let args = words(&["hab", "studio", "enter"]);
    assert!(matches!(rerun_with_sudo_if_needed(false, false, false, false, args.clone()), SudoStep::RootRequired));
    assert!(matches!(rerun_with_sudo_if_needed(false, true, false, false, args.clone()), SudoStep::RootRequired));
    assert!(matches!(rerun_with_sudo_if_needed(false, false, true, false, args), SudoStep::RootRequired));
}

#[test]
fn display_args_puts_a_space_before_each_argument() {
    assert_eq!(display_args("/bin/hab-studio", &words(&["enter", "-k", "core"])), "/bin/hab-studio enter -k core");
    assert_eq!(display_args("/bin/hab-studio", &words(&[])), "/bin/hab-studio");
    assert_eq!(display_args("", &words(&["", "x"])), "  x");
}
