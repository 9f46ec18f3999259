use ettac::context::Host;
use ettac::deploy::{contains_name, names_of, plan_deployment, select_hosts, unknown_hosts};
use ettac::error::Error;

fn s(text: &str) -> String {
    text.to_string()
}

fn host(recipe: u32) -> Host<u32> {
    Host {
        recipe,
        repository: s("repo"),
        keep_releases: 0,
        persistent_files: vec![],
        persistent_dirs: vec![],
        labels: vec![],
        ssh: None,
        path: s("/srv"),
    }
}

fn names(list: &[&str]) -> Vec<String> {
    list.iter().map(|n| n.to_string()).collect()
}

#[test]
fn test_unknown_host() {
    let requested = names(&["somethingthadoesntexist", "prod", "staging"]);
    let hosts = vec![(s("prod"), host(1))];
    let err = plan_deployment(&requested, hosts).unwrap_err();
    assert_eq!(err, Error::UnknownHosts(names(&["somethingthadoesntexist", "staging"])));
    if let Error::UnknownHosts(unknown) = err {
        assert_eq!(
            format!("hosts `{:?}` not found\n", unknown),
            "hosts `[\"somethingthadoesntexist\", \"staging\"]` not found\n"
        );
    }
}

#[test]
fn test_symfony_recipe() {
    let requested = names(&["prod", "staging"]);
    let hosts = vec![(s("staging"), host(2)), (s("prod"), host(1))];
    let planned = plan_deployment(&requested, hosts).unwrap();
    let deployed: Vec<String> =
        planned.iter().map(|(name, _)| format!("Deploying host {}", name)).collect();
    assert!(deployed.contains(&s("Deploying host prod")));
    assert!(deployed.contains(&s("Deploying host staging")));
    assert_eq!(planned.len(), 2);
}

#[test]
fn plan_skips_hosts_not_requested() {
    let requested = names(&["prod", "prod"]);
    let hosts = vec![(s("dev"), host(3)), (s("prod"), host(1))];
    let planned = plan_deployment(&requested, hosts).unwrap();
    assert_eq!(planned, vec![(s("prod"), host(1))]);
}

#[test]
fn plan_of_nothing_is_empty() {
    let planned = plan_deployment::<u32>(&vec![], vec![(s("a"), host(1))]).unwrap();
    assert!(planned.is_empty());
}

#[test]
fn unknown_hosts_keep_request_order_and_repeats() {
    assert_eq!(
        unknown_hosts(&names(&["b", "x", "a", "x"]), &names(&["a", "b"])),
        names(&["x", "x"])
    );
    assert!(unknown_hosts(&names(&["a"]), &names(&["a"])).is_empty());
}

#[test]
fn select_keeps_host_order() {
    let hosts = vec![(s("a"), host(1)), (s("b"), host(2)), (s("c"), host(3))];
    let picked = select_hosts(hosts, &names(&["c", "a"]));
    assert_eq!(picked, vec![(s("a"), host(1)), (s("c"), host(3))]);
}

#[test]
fn names_and_membership() {
    let hosts = vec![(s("a"), host(1)), (s("b"), host(2))];
    assert_eq!(names_of(&hosts), names(&["a", "b"]));
    assert!(contains_name(&names(&["a", "b"]), &s("b")));
    assert!(!contains_name(&names(&["a", "b"]), &s("c")));
}
