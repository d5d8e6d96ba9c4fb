use toy_container::fs::{
    create_container_filesystem, create_overlay_dirs, find_lower_layers, get_overlay_dirs,
    layer_number_of, recreate_dir, DirEntry, MS_PRIVATE, MS_REC,
};
use toy_container::plan::{Op, Step};

fn dir(name: &str) -> DirEntry {
    DirEntry { name: name.to_string(), is_dir: true }
}

fn file(name: &str) -> DirEntry {
    DirEntry { name: name.to_string(), is_dir: false }
}

fn must(op: Op) -> Step {
    Step { op, required: true }
}

fn s(text: &str) -> String {
    text.to_string()
}

#[test]
fn layers_are_found_sorted_and_two_digit_only() {
    let entries = vec![
        dir("rootfs"),
        dir("layer10"),
        dir("layer00"),
        dir("layerAA"),
        dir("layer02"),
        dir("layer1"),
    ];
    assert_eq!(
        find_lower_layers("/srv/c", &entries),
        "/srv/c/layer00:/srv/c/layer02:/srv/c/layer10"
    );
}

#[test]
fn layers_in_listing_order_come_out_the_same() {
    let entries = vec![
        dir("rootfs"),
        dir("layer00"),
        dir("layer02"),
        dir("layer10"),
        dir("layerAA"),
        dir("layer1"),
    ];
    assert_eq!(find_lower_layers("fs", &entries), "fs/layer00:fs/layer02:fs/layer10");
}

#[test]
fn only_directories_are_layers() {
    let entries = vec![file("layer00"), dir("layer01"), file("layer02")];
    assert_eq!(find_lower_layers("fs", &entries), "fs/layer01");
}

#[test]
fn no_layers_give_the_empty_string() {
    assert_eq!(find_lower_layers("fs", &Vec::new()), "");
    let entries = vec![dir("rootfs"), dir("upper"), dir("layer"), dir("layer123"), dir("Layer01")];
    assert_eq!(find_lower_layers("fs", &entries), "");
}

#[test]
fn layer_names() {
    assert_eq!(layer_number_of("layer00"), Some(0));
    assert_eq!(layer_number_of("layer07"), Some(7));
    assert_eq!(layer_number_of("layer99"), Some(99));
    for bad in [
        "", "layer", "layer1", "layer001", "layer0a", "layera0", "layer-1", "layer 1", "LAYER01",
        "xlayer01", "layer٠١", "layer1é", "rootfs",
    ] {
        assert_eq!(layer_number_of(bad), None, "{:?}", bad);
    }
}

#[test]
fn every_number_has_its_place() {
    let mut entries: Vec<DirEntry> = Vec::new();
    for n in (0..100).rev() {
        entries.push(dir(&format!("layer{:02}", n)));
    }
    let mut expected: Vec<String> = Vec::new();
    for n in 0..100 {
        expected.push(format!("r/layer{:02}", n));
    }
    let found = find_lower_layers("r", &entries);
    assert_eq!(found, expected.join(":"));
    let mut sorted = expected.clone();
    sorted.sort();
    assert_eq!(sorted, expected);
}

#[test]
fn a_name_listed_twice_is_stacked_twice() {
    let entries = vec![dir("layer03"), dir("layer01"), dir("layer03")];
    assert_eq!(find_lower_layers("r", &entries), "r/layer01:r/layer03:r/layer03");
}

#[test]
fn overlay_dirs_with_layers() {
    let entries = vec![dir("layer01"), dir("rootfs"), dir("layer00")];
    assert_eq!(
        get_overlay_dirs("fs", &entries),
        (s("fs/rootfs:fs/layer00:fs/layer01"), s("fs/upper"), s("fs/workdir"), s("fs/mount"))
    );
}

#[test]
fn overlay_dirs_without_layers() {
    assert_eq!(
        get_overlay_dirs("/var/lib/c", &vec![dir("rootfs")]),
        (s("/var/lib/c/rootfs"), s("/var/lib/c/upper"), s("/var/lib/c/workdir"), s("/var/lib/c/mount"))
    );
}

#[test]
fn overlay_dirs_of_a_root_that_ends_in_a_slash() {
    assert_eq!(
        get_overlay_dirs("fs/", &Vec::new()),
        (s("fs//rootfs"), s("fs//upper"), s("fs/workdir"), s("fs/mount"))
    );
}

#[test]
fn recreate_removes_then_creates() {
    assert_eq!(
        recreate_dir("fs/upper"),
        vec![
            must(Op::RemoveTree { path: s("fs/upper") }),
            must(Op::CreateDirAll { path: s("fs/upper") }),
        ]
    );
}

#[test]
fn scratch_directories_are_reset_in_order() {
    assert_eq!(
        create_overlay_dirs("fs"),
        vec![
            must(Op::RemoveTree { path: s("fs/upper") }),
            must(Op::CreateDirAll { path: s("fs/upper") }),
            must(Op::RemoveTree { path: s("fs/workdir") }),
            must(Op::CreateDirAll { path: s("fs/workdir") }),
            must(Op::RemoveTree { path: s("fs/mount") }),
            must(Op::CreateDirAll { path: s("fs/mount") }),
        ]
    );
}

#[test]
fn scratch_reset_does_not_depend_on_what_was_there() {
    assert_eq!(create_overlay_dirs("fs"), create_overlay_dirs("fs"));
}

#[test]
fn filesystem_is_built_in_order() {
    let entries = vec![dir("rootfs"), dir("layer00"), dir("mount"), dir("upper"), dir("workdir")];
    assert_eq!(
        create_container_filesystem("fs", &entries),
        vec![
            must(Op::Mount {
                source: None,
                target: s("/"),
                fstype: None,
                flags: MS_REC | MS_PRIVATE,
                data: None,
            }),
            must(Op::Mount {
                source: Some(s("overlay")),
                target: s("fs/mount"),
                fstype: Some(s("overlay")),
                flags: 0,
                data: Some(s("lowerdir=fs/rootfs:fs/layer00,upperdir=fs/upper,workdir=fs/workdir")),
            }),
            must(Op::Mount {
                source: Some(s("proc")),
                target: s("fs/mount/proc"),
                fstype: Some(s("proc")),
                flags: 0,
                data: None,
            }),
            must(Op::RemoveTree { path: s("fs/mount/.old_root") }),
            must(Op::CreateDirAll { path: s("fs/mount/.old_root") }),
            must(Op::PivotRoot { new_root: s("fs/mount"), put_old: s("fs/mount/.old_root") }),
            must(Op::ChangeDir { path: s("/") }),
            must(Op::Unmount { mount_point: s("/.old_root"), detach: true }),
            Step { op: Op::RemoveDir { path: s("/.old_root") }, required: false },
        ]
    );
}

#[test]
fn mount_flags_are_the_kernels() {
    assert_eq!(MS_REC, 16384);
    assert_eq!(MS_PRIVATE, 1 << 18);
}
