use toy_container::child::{Child, ChildAction, ChildEvent, ChildPhase};
use toy_container::child::child_plan;
use toy_container::container::LaunchConfig;
use toy_container::fs::DirEntry;
use toy_container::net::{address_from_octets, Ipv4Network};

fn config() -> LaunchConfig {
    LaunchConfig {
        command: "/bin/sh".to_string(),
        args: vec!["-c".to_string(), "echo $$".to_string()],
        cpu_quota: None,
        memory_limit: None,
        hostname: Some("box".to_string()),
        drop_caps: false,
        fs_root: "fs".to_string(),
        container_cidr: Ipv4Network::new(address_from_octets(192, 168, 200, 0), 24)
            .expect("a /24 network"),
    }
}

fn entries() -> Vec<DirEntry> {
    vec![
        DirEntry { name: "rootfs".to_string(), is_dir: true },
        DirEntry { name: "layer00".to_string(), is_dir: true },
    ]
}

fn released(parent_is_root: bool) -> Child {
    let mut child = Child::new(config(), parent_is_root);
    assert_eq!(child.phase(), ChildPhase::Start);
    assert_eq!(child.step(ChildEvent::Done), ChildAction::CloseWriteEnd);
    assert_eq!(child.step(ChildEvent::Done), ChildAction::ReadRelease);
    assert_eq!(child.phase(), ChildPhase::AwaitingRelease);
    assert_eq!(
        child.step(ChildEvent::Read { bytes: 1 }),
        ChildAction::ListRoot { path: "fs".to_string() }
    );
    child
}

fn prepared(parent_is_root: bool) -> Child {
    let mut child = released(parent_is_root);
    let plan = child_plan(&config(), parent_is_root, &entries()).expect("a plan");
    let mut event = ChildEvent::Listed { entries: entries() };
    for step in plan {
        assert_eq!(child.step(event), ChildAction::Perform(step));
        assert_eq!(child.phase(), ChildPhase::Preparing);
        event = ChildEvent::Done;
    }
    assert_eq!(child.step(event), ChildAction::Fork);
    child
}

#[test]
fn the_child_does_nothing_before_it_is_released() {
    let mut child = Child::new(config(), true);
    child.step(ChildEvent::Done);
    child.step(ChildEvent::Done);
    assert_eq!(child.step(ChildEvent::Read { bytes: 0 }), ChildAction::Exit { code: 1 });
    assert_eq!(child.phase(), ChildPhase::Finished);

    let mut child = Child::new(config(), true);
    child.step(ChildEvent::Done);
    child.step(ChildEvent::Done);
    assert_eq!(child.step(ChildEvent::Failed), ChildAction::Exit { code: 1 });

    let mut child = Child::new(config(), true);
    child.step(ChildEvent::Done);
    child.step(ChildEvent::Done);
    assert_eq!(child.step(ChildEvent::Done), ChildAction::Exit { code: 1 });

    let mut child = Child::new(config(), true);
    child.step(ChildEvent::Done);
    assert_eq!(child.step(ChildEvent::Failed), ChildAction::Exit { code: 1 });
}

#[test]
fn the_released_child_makes_the_container_and_forks() {
    prepared(true);
    prepared(false);
}

#[test]
fn the_old_process_supervises_the_new_one() {
    let mut child = prepared(true);
    assert_eq!(child.step(ChildEvent::Forked { pid: 2 }), ChildAction::Supervise { workload: 2 });
    assert_eq!(child.phase(), ChildPhase::Supervising);
    assert_eq!(child.step(ChildEvent::Supervised { code: 143 }), ChildAction::Exit { code: 143 });
    assert_eq!(child.step(ChildEvent::Done), ChildAction::Exit { code: 143 });
}

#[test]
fn the_new_process_becomes_the_command() {
    let mut child = prepared(true);
    assert_eq!(
        child.step(ChildEvent::InWorkload),
        ChildAction::Exec {
            argv: vec!["/bin/sh".to_string(), "-c".to_string(), "echo $$".to_string()],
            search_path: "/bin:/sbin:/usr/bin:/usr/sbin".to_string(),
        }
    );
    assert_eq!(child.phase(), ChildPhase::Starting);
    assert_eq!(child.step(ChildEvent::Failed), ChildAction::Exit { code: 1 });
}

#[test]
fn a_failed_step_ends_the_child() {
    let mut child = released(true);
    let plan = child_plan(&config(), true, &entries()).expect("a plan");
    assert_eq!(
        child.step(ChildEvent::Listed { entries: entries() }),
        ChildAction::Perform(plan[0].clone())
    );
    assert_eq!(child.step(ChildEvent::Done), ChildAction::Perform(plan[1].clone()));
    assert_eq!(child.step(ChildEvent::Failed), ChildAction::Exit { code: 1 });
}

#[test]
fn the_mount_point_of_the_old_root_may_stay() {
    let mut child = released(true);
    let plan = child_plan(&config(), true, &entries()).expect("a plan");
    let mut event = ChildEvent::Listed { entries: entries() };
    for step in &plan[..9] {
        assert_eq!(child.step(event), ChildAction::Perform(step.clone()));
        event = ChildEvent::Done;
    }
    assert!(!plan[8].required);
    assert_eq!(child.step(ChildEvent::Failed), ChildAction::Perform(plan[9].clone()));
}

#[test]
fn a_failed_listing_or_fork_ends_the_child() {
    let mut child = released(false);
    assert_eq!(child.step(ChildEvent::Failed), ChildAction::Exit { code: 1 });
    let mut child = prepared(false);
    assert_eq!(child.step(ChildEvent::Failed), ChildAction::Exit { code: 1 });
    let mut child = prepared(false);
    child.step(ChildEvent::Forked { pid: 2 });
    assert_eq!(child.step(ChildEvent::Failed), ChildAction::Exit { code: 1 });
}

#[test]
fn a_child_without_addresses_gives_up() {
    let mut c = config();
    c.container_cidr = Ipv4Network::new(address_from_octets(10, 0, 0, 0), 31).unwrap();
    let mut child = Child::new(c, false);
    child.step(ChildEvent::Done);
    child.step(ChildEvent::Done);
    child.step(ChildEvent::Read { bytes: 1 });
    assert_eq!(
        child.step(ChildEvent::Listed { entries: entries() }),
        ChildAction::Exit { code: 1 }
    );
}
