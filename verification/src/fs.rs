//! The container's root filesystem: which layers are stacked, which
//! scratch directories are made anew, and the mounts that turn the stack
//! into the new root.

use crate::plan::{best_effort, required, Op, OpModel, Step, StepModel};
use crate::text::{
    chars_of, digit_value, followed_by, is_digit, is_digit_char, join_path, join_strings, joined,
    lemma_joined_first, path_join,
};
use vstd::prelude::*;
use vstd::string::*;

verus! {

/// Mount flag: apply to the whole subtree.
pub const MS_REC: u64 = 0x4000;

/// Mount flag: stop mount events from spreading to and from the subtree.
pub const MS_PRIVATE: u64 = 0x4_0000;

/// One entry of a directory listing.
#[derive(Clone, Debug, PartialEq, Eq)]
pub struct DirEntry {
    /// The entry's file name, without any directory part.
    pub name: String,
    /// Whether the entry is a directory.
    pub is_dir: bool,
}

/// What a `DirEntry` says, as mathematical values.
pub struct DirEntryModel {
    pub name: Seq<char>,
    pub is_dir: bool,
}

impl DeepView for DirEntry {
    type V = DirEntryModel;

    open spec fn deep_view(&self) -> DirEntryModel {
        DirEntryModel { name: self.name@, is_dir: self.is_dir }
    }
}

/// Whether `name` is `layer` followed by exactly two ASCII digits.
pub open spec fn is_layer_name(name: Seq<char>) -> bool {
    &&& name.len() == 7
    &&& name.take(5) == "layer"@
    &&& is_digit(name[5])
    &&& is_digit(name[6])
}

/// The number that the two digits of a layer name write.
pub open spec fn layer_number(name: Seq<char>) -> int
    recommends
        is_layer_name(name),
{
    digit_value(name[5]) * 10 + digit_value(name[6])
}

/// Whether the entry is an additional lower layer: a directory with a layer name.
pub open spec fn is_layer(entry: DirEntryModel) -> bool {
    entry.is_dir && is_layer_name(entry.name)
}

/// The path of the entry `name` of `root`, as the layer stack writes it.
pub open spec fn layer_path(root: Seq<char>, name: Seq<char>) -> Seq<char> {
    root + seq!['/'] + name
}

/// The paths of the layers among `entries` whose number is `n`, one for
/// each such entry.
pub open spec fn layers_numbered(root: Seq<char>, entries: Seq<DirEntryModel>, n: int) -> Seq<
    Seq<char>,
>
    decreases entries.len(),
{
    if entries.len() == 0 {
        Seq::empty()
    } else {
        let before = layers_numbered(root, entries.drop_last(), n);
        let entry = entries.last();
        if is_layer(entry) && layer_number(entry.name) == n {
            before.push(layer_path(root, entry.name))
        } else {
            before
        }
    }
}

/// The paths of the layers among `entries` whose number is below `n`, in
/// ascending order of their numbers.
pub open spec fn layers_below(root: Seq<char>, entries: Seq<DirEntryModel>, n: nat) -> Seq<
    Seq<char>,
>
    decreases n,
{
    if n == 0 {
        Seq::empty()
    } else {
        layers_below(root, entries, (n - 1) as nat) + layers_numbered(root, entries, n - 1)
    }
}

/// The paths of all additional lower layers among `entries`, from
/// `layer00` upwards. As a layer's number is written with two digits, this
/// is also the order of the paths as strings.
pub open spec fn lower_layers(root: Seq<char>, entries: Seq<DirEntryModel>) -> Seq<Seq<char>> {
    layers_below(root, entries, 100)
}

/// The number of the layer that `name` names, if it names one.
pub fn layer_number_of(name: &str) -> (n: Option<u8>)
    ensures
        n is Some <==> is_layer_name(name@),
        n matches Some(k) ==> k == layer_number(name@) && k < 100,
{
    let chars = chars_of(name);
    proof {
        reveal_strlit("layer");
    }
    if chars.len() != 7 {
        return None;
    }
    if chars[0] != 'l' || chars[1] != 'a' || chars[2] != 'y' || chars[3] != 'e' || chars[4]
        != 'r' {
        assert(name@.take(5)[0] == name@[0]);
        assert(name@.take(5)[1] == name@[1]);
        assert(name@.take(5)[2] == name@[2]);
        assert(name@.take(5)[3] == name@[3]);
        assert(name@.take(5)[4] == name@[4]);
        return None;
    }
    assert(name@.take(5) =~= "layer"@);
    if !is_digit_char(chars[5]) || !is_digit_char(chars[6]) {
        return None;
    }
    let tens: u8 = (chars[5] as u32 - '0' as u32) as u8;
    let units: u8 = (chars[6] as u32 - '0' as u32) as u8;
    Some(tens * 10 + units)
}

/// Finds the additional lower layers among the entries of `root`: the
/// directories named `layer` and two digits. Returns their paths in
/// ascending order, joined by `:`.
pub fn find_lower_layers(root: &str, entries: &Vec<DirEntry>) -> (layers: String)
    ensures
        layers@ == joined(lower_layers(root@, entries.deep_view()), ":"@),
{
    let ghost all = entries.deep_view();
    let mut numbers: Vec<Option<u8>> = Vec::new();
    let mut i: usize = 0;
    while i < entries.len()
        invariant
            i <= entries.len(),
            all == entries.deep_view(),
            numbers.len() == i,
            forall|k: int|
                0 <= k < i ==> (#[trigger] numbers[k] is Some <==> is_layer(all[k])),
            forall|k: int|
                0 <= k < i && numbers[k] is Some ==> (#[trigger] numbers[k])->0 == layer_number(
                    all[k].name,
                ),
        decreases entries.len() - i,
    {
        let number = if entries[i].is_dir {
            layer_number_of(entries[i].name.as_str())
        } else {
            None
        };
        numbers.push(number);
        i += 1;
    }
    let mut paths: Vec<String> = Vec::new();
    let mut n: u8 = 0;
    while n < 100
        invariant
            n <= 100,
            all == entries.deep_view(),
            numbers.len() == entries.len(),
            forall|k: int|
                0 <= k < numbers.len() ==> (#[trigger] numbers[k] is Some <==> is_layer(all[k])),
            forall|k: int|
                0 <= k < numbers.len() && numbers[k] is Some ==> (#[trigger] numbers[k])->0
                    == layer_number(all[k].name),
            paths.deep_view() == layers_below(root@, all, n as nat),
        decreases 100 - n,
    {
        let ghost below = paths.deep_view();
        let mut j: usize = 0;
        while j < entries.len()
            invariant
                j <= entries.len(),
                n < 100,
                all == entries.deep_view(),
                numbers.len() == entries.len(),
                forall|k: int|
                    0 <= k < numbers.len() ==> (#[trigger] numbers[k] is Some <==> is_layer(
                        all[k],
                    )),
                forall|k: int|
                    0 <= k < numbers.len() && numbers[k] is Some ==> (#[trigger] numbers[k])->0
                        == layer_number(all[k].name),
                paths.deep_view() == below + layers_numbered(root@, all.take(j as int), n as int),
            decreases entries.len() - j,
        {
            let ghost seen = paths.deep_view();
            proof {
                assert(all.take(j + 1).drop_last() =~= all.take(j as int));
            }
            if numbers[j] == Some(n) {
                let mut path = followed_by(root, "/");
                path.append(entries[j].name.as_str());
                proof {
                    reveal_strlit("/");
                    assert(path@ =~= layer_path(root@, all[j as int].name));
                }
                paths.push(path);
                assert(paths.deep_view() =~= seen.push(path@));
            }
            j += 1;
        }
        assert(all.take(j as int) =~= all);
        n += 1;
    }
    join_strings(&paths, ":")
}

/// The lower directories of the overlay, bottom first: the base layer
/// `rootfs`, then the additional layers in ascending order.
pub open spec fn lower_stack(root: Seq<char>, entries: Seq<DirEntryModel>) -> Seq<Seq<char>> {
    seq![root + "/rootfs"@] + lower_layers(root, entries)
}

/// The upper directory of the overlay.
pub open spec fn upper_dir(root: Seq<char>) -> Seq<char> {
    root + "/upper"@
}

/// The work directory of the overlay.
pub open spec fn work_dir(root: Seq<char>) -> Seq<char> {
    path_join(root, "workdir"@)
}

/// The directory on which the overlay is mounted, and which becomes the new root.
pub open spec fn mount_dir(root: Seq<char>) -> Seq<char> {
    path_join(root, "mount"@)
}

/// The option string of the overlay mount.
pub open spec fn overlay_options(root: Seq<char>, entries: Seq<DirEntryModel>) -> Seq<char> {
    "lowerdir="@ + joined(lower_stack(root, entries), ":"@) + ",upperdir="@ + upper_dir(root)
        + ",workdir="@ + work_dir(root)
}

/// The steps that leave `dir` as an empty directory: remove what is there,
/// then create it.
pub open spec fn recreate_plan(dir: Seq<char>) -> Seq<StepModel> {
    seq![
        required(OpModel::RemoveTree { path: dir }),
        required(OpModel::CreateDirAll { path: dir }),
    ]
}

/// The steps that reset the three scratch directories of the overlay.
pub open spec fn overlay_dirs_plan(root: Seq<char>) -> Seq<StepModel> {
    recreate_plan(upper_dir(root)) + recreate_plan(work_dir(root)) + recreate_plan(
        mount_dir(root),
    )
}

/// The steps that build the container's filesystem and make it the root:
/// detach mount propagation below `/`, mount the overlay, mount procfs
/// inside it, prepare the place for the old root, pivot, leave the old
/// root, unmount it lazily and remove its mount point. Only the last
/// removal may fail without ending the plan.
pub open spec fn filesystem_plan(root: Seq<char>, entries: Seq<DirEntryModel>) -> Seq<StepModel> {
    let new_root = mount_dir(root);
    let old_root = path_join(new_root, ".old_root"@);
    seq![
        required(
            OpModel::Mount {
                source: None,
                target: "/"@,
                fstype: None,
                flags: MS_REC | MS_PRIVATE,
                data: None,
            },
        ),
        required(
            OpModel::Mount {
                source: Some("overlay"@),
                target: new_root,
                fstype: Some("overlay"@),
                flags: 0,
                data: Some(overlay_options(root, entries)),
            },
        ),
        required(
            OpModel::Mount {
                source: Some("proc"@),
                target: path_join(new_root, "proc"@),
                fstype: Some("proc"@),
                flags: 0,
                data: None,
            },
        ),
        required(OpModel::RemoveTree { path: old_root }),
        required(OpModel::CreateDirAll { path: old_root }),
        required(OpModel::PivotRoot { new_root, put_old: old_root }),
        required(OpModel::ChangeDir { path: "/"@ }),
        required(OpModel::Unmount { mount_point: "/.old_root"@, detach: true }),
        best_effort(OpModel::RemoveDir { path: "/.old_root"@ }),
    ]
}

/// The four directories of the overlay: the lower stack joined by `:`,
/// the upper directory, the work directory and the mount point.
pub fn get_overlay_dirs(root: &str, entries: &Vec<DirEntry>) -> (dirs: (
    String,
    String,
    String,
    String,
))
    ensures
        dirs.0@ == joined(lower_stack(root@, entries.deep_view()), ":"@),
        dirs.1@ == upper_dir(root@),
        dirs.2@ == work_dir(root@),
        dirs.3@ == mount_dir(root@),
{
    let lower_dirs = find_lower_layers(root, entries);
    let upper = followed_by(root, "/upper");
    let lower = if lower_dirs.as_str().is_empty() {
        followed_by(root, "/rootfs")
    } else {
        let mut lower = followed_by(root, "/rootfs:");
        lower.append(lower_dirs.as_str());
        lower
    };
    proof {
        let layers = lower_layers(root@, entries.deep_view());
        lemma_joined_first(root@ + "/rootfs"@, layers, ":"@);
        reveal_strlit("/rootfs");
        reveal_strlit("/rootfs:");
        reveal_strlit(":");
        reveal_strlit("/");
        if layers.len() > 0 {
            lemma_layers_joined_nonempty(root@, entries.deep_view());
        }
    }
    let workdir = join_path(root, "workdir");
    let rootfs = join_path(root, "mount");
    (lower, upper, workdir, rootfs)
}

/// Whether no item of `paths` is the empty string.
spec fn each_nonempty(paths: Seq<Seq<char>>) -> bool {
    forall|i: int| 0 <= i < paths.len() ==> (#[trigger] paths[i]).len() > 0
}

/// No path among the layers numbered `n` is empty.
proof fn lemma_numbered_paths_nonempty(root: Seq<char>, entries: Seq<DirEntryModel>, n: int)
    ensures
        each_nonempty(layers_numbered(root, entries, n)),
    decreases entries.len(),
{
    if entries.len() > 0 {
        lemma_numbered_paths_nonempty(root, entries.drop_last(), n);
        let now = layers_numbered(root, entries, n);
        assert forall|i: int| 0 <= i < now.len() implies (#[trigger] now[i]).len() > 0 by {
        }
    }
}

/// No path among the layers below `n` is empty.
proof fn lemma_layer_paths_nonempty(root: Seq<char>, entries: Seq<DirEntryModel>, n: nat)
    ensures
        each_nonempty(layers_below(root, entries, n)),
    decreases n,
{
    if n > 0 {
        lemma_layer_paths_nonempty(root, entries, (n - 1) as nat);
        lemma_numbered_paths_nonempty(root, entries, n - 1);
        let now = layers_below(root, entries, n);
        assert forall|i: int| 0 <= i < now.len() implies (#[trigger] now[i]).len() > 0 by {
        }
    }
}

/// The joined list of a stack that has layers is not empty.
proof fn lemma_layers_joined_nonempty(root: Seq<char>, entries: Seq<DirEntryModel>)
    requires
        lower_layers(root, entries).len() > 0,
    ensures
        joined(lower_layers(root, entries), ":"@).len() > 0,
{
    lemma_layer_paths_nonempty(root, entries, 100);
}

/// Leaves `dir` as an empty directory.
pub fn recreate_dir(dir: &str) -> (plan: Vec<Step>)
    ensures
        plan.deep_view() == recreate_plan(dir@),
{
    let mut plan: Vec<Step> = Vec::new();
    plan.push(Step::required(Op::RemoveTree { path: dir.to_owned() }));
    plan.push(Step::required(Op::CreateDirAll { path: dir.to_owned() }));
    plan
}

/// Resets the scratch directories of the overlay under `root`: `upper`,
/// `workdir` and `mount`, in this order.
pub fn create_overlay_dirs(root: &str) -> (plan: Vec<Step>)
    ensures
        plan.deep_view() == overlay_dirs_plan(root@),
{
    let upper_dir = followed_by(root, "/upper");
    let workdir = join_path(root, "workdir");
    let rootfs = join_path(root, "mount");
    let mut plan = recreate_dir(upper_dir.as_str());
    let mut second = recreate_dir(workdir.as_str());
    let mut third = recreate_dir(rootfs.as_str());
    plan.append(&mut second);
    plan.append(&mut third);
    plan
}

/// Builds the container's filesystem under `root`, whose directory
/// listing is `entries`, and makes it the root of the mount tree.
pub fn create_container_filesystem(root: &str, entries: &Vec<DirEntry>) -> (plan: Vec<Step>)
    ensures
        plan.deep_view() == filesystem_plan(root@, entries.deep_view()),
{
    let (lower, upper, workdir, rootdir) = get_overlay_dirs(root, entries);
    let mut mount_opts = followed_by("lowerdir=", lower.as_str());
    mount_opts.append(",upperdir=");
    mount_opts.append(upper.as_str());
    mount_opts.append(",workdir=");
    mount_opts.append(workdir.as_str());
    let proc = join_path(rootdir.as_str(), "proc");
    let old_root = join_path(rootdir.as_str(), ".old_root");
    let mut plan: Vec<Step> = Vec::new();
    plan.push(
        Step::required(
            Op::Mount {
                source: None,
                target: "/".to_owned(),
                fstype: None,
                flags: MS_REC | MS_PRIVATE,
                data: None,
            },
        ),
    );
    plan.push(
        Step::required(
            Op::Mount {
                source: Some("overlay".to_owned()),
                target: rootdir.clone(),
                fstype: Some("overlay".to_owned()),
                flags: 0,
                data: Some(mount_opts),
            },
        ),
    );
    plan.push(
        Step::required(
            Op::Mount {
                source: Some("proc".to_owned()),
                target: proc,
                fstype: Some("proc".to_owned()),
                flags: 0,
                data: None,
            },
        ),
    );
    plan.push(Step::required(Op::RemoveTree { path: old_root.clone() }));
    plan.push(Step::required(Op::CreateDirAll { path: old_root.clone() }));
    plan.push(Step::required(Op::PivotRoot { new_root: rootdir, put_old: old_root }));
    plan.push(Step::required(Op::ChangeDir { path: "/".to_owned() }));
    plan.push(Step::required(Op::Unmount { mount_point: "/.old_root".to_owned(), detach: true }));
    plan.push(Step::best_effort(Op::RemoveDir { path: "/.old_root".to_owned() }));
    plan
}

} // verus!
