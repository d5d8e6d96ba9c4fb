//! The resource budget of a container: the syntax of its CPU and memory
//! limits, and the files of the cgroup-v2 hierarchy through which the
//! limits take effect.

use crate::decimal::{
    all_digits, capped_value, digits_end, digits_value, frac_digits, has_point,
    int_digits, int_end, is_decimal, is_negative, is_positive, lemma_digits_run,
    lemma_digits_value_bound, lemma_pow10_adds, lemma_value_of_two_parts, lemma_zeros_value,
    pow10, scan_digits, sign_len,
};
use crate::plan::{best_effort, required, Op, OpModel, Step, StepModel};
use crate::text::{
    chars_of, decimal, decimal_string, is_digit, join_path, path_join, signed_decimal,
    signed_decimal_string,
};
use vstd::prelude::*;
use vstd::string::*;

verus! {

/// Why a resource limit was refused.
#[derive(Clone, Copy, Debug, PartialEq, Eq, Structural)]
pub enum CgroupError {
    /// The CPU quota is not a decimal number.
    InvalidCpuQuota,
    /// The CPU quota is a decimal number, but not greater than zero.
    NonPositiveCpuQuota,
    /// The memory limit is neither `max` nor a positive number of bytes
    /// with an optional unit.
    UnsupportedMemoryLimit,
}

/// Length of the scheduling period, in microseconds, against which a CPU
/// quota is measured.
pub const PERIOD: u64 = 100_000;

/// The largest quota that is written; greater ones are cut down to it.
pub const QUOTA_MAX: u64 = 9_223_372_036_854_775_807;

/// The first five of the digits `frac`, filled up with zeros where `frac`
/// has fewer.
pub open spec fn first_five(frac: Seq<char>) -> Seq<char> {
    (frac + seq!['0', '0', '0', '0', '0']).take(5)
}

/// The non-negative decimal `s` times one hundred thousand, with what
/// remains after the decimal point cut off.
pub open spec fn quota_micros(s: Seq<char>) -> nat {
    digits_value(int_digits(s)) * 100_000 + digits_value(first_five(frac_digits(s)))
}

/// The line that sets the CPU limit `s`: the quota in microseconds, at
/// most `QUOTA_MAX`, a blank and the period.
pub open spec fn cpu_max_line(s: Seq<char>) -> Seq<char> {
    let quota = if quota_micros(s) <= QUOTA_MAX {
        quota_micros(s)
    } else {
        QUOTA_MAX as nat
    };
    decimal(quota) + seq![' '] + decimal(PERIOD as nat)
}

/// Parses a CPU quota, a decimal fraction of one core such as `0.5`, into
/// the line that sets it: the quota in microseconds per period, a blank,
/// and the period.
pub fn parse_cpu_quota(cpu: &str) -> (r: Result<String, CgroupError>)
    ensures
        match r {
            Ok(line) => is_decimal(cpu@) && is_positive(cpu@) && line@ == cpu_max_line(cpu@),
            Err(CgroupError::InvalidCpuQuota) => !is_decimal(cpu@),
            Err(CgroupError::NonPositiveCpuQuota) => is_decimal(cpu@) && !is_positive(cpu@),
            Err(CgroupError::UnsupportedMemoryLimit) => false,
        },
{
    let s = chars_of(cpu);
    let start: usize = if s.len() > 0 && (s[0] == '+' || s[0] == '-') {
        1
    } else {
        0
    };
    let negative = s.len() > 0 && s[0] == '-';
    let int_end = scan_digits(&s, start);
    let point = int_end < s.len() && s[int_end] == '.';
    let frac_start: usize = if point {
        int_end + 1
    } else {
        int_end
    };
    let end = if point {
        scan_digits(&s, frac_start)
    } else {
        int_end
    };
    if end != s.len() || (int_end - start) + (end - frac_start) == 0 {
        return Err(CgroupError::InvalidCpuQuota);
    }
    let ghost frac = frac_digits(cpu@);
    assert(frac =~= s@.subrange(frac_start as int, end as int));
    let whole = capped_value(&s, start, int_end, 100_000_000_000_000);
    let all_frac = capped_value(&s, frac_start, end, 1);
    let shown: usize = if end - frac_start < 5 {
        end
    } else {
        frac_start + 5
    };
    let mut part = capped_value(&s, frac_start, shown, 100_000);
    let mut count: usize = shown - frac_start;
    let ghost padded = frac + seq!['0', '0', '0', '0', '0'];
    assert(padded.take(count as int) =~= s@.subrange(frac_start as int, shown as int));
    proof {
        lemma_digits_value_bound(padded.take(count as int));
        reveal_with_fuel(pow10, 6);
    }
    while count < 5
        invariant
            count <= 5,
            padded == frac + seq!['0', '0', '0', '0', '0'],
            count >= frac.len() || count == 5,
            part == digits_value(padded.take(count as int)),
            part < pow10(count as nat),
        decreases 5 - count,
    {
        proof {
            assert(padded.take(count + 1).drop_last() =~= padded.take(count as int));
            reveal_with_fuel(pow10, 6);
        }
        part = part * 10;
        count += 1;
    }
    proof {
        reveal_with_fuel(pow10, 6);
    }
    if negative || (whole == 0 && all_frac == 0) {
        return Err(CgroupError::NonPositiveCpuQuota);
    }
    let total = whole * 100_000 + part;
    let quota = if total > QUOTA_MAX {
        QUOTA_MAX
    } else {
        total
    };
    let mut line = decimal_string(quota);
    line.append(" ");
    line.append(decimal_string(PERIOD).as_str());
    proof {
        reveal_strlit(" ");
    }
    Ok(line)
}

/// Whether `c` is the letter `lower` in either case; `lower` is the small letter.
pub open spec fn is_letter(c: char, lower: char, upper: char) -> bool {
    c == lower || c == upper
}

/// Whether `s` is the word `max`, in any mix of cases.
pub open spec fn is_max(s: Seq<char>) -> bool {
    &&& s.len() == 3
    &&& is_letter(s[0], 'm', 'M')
    &&& is_letter(s[1], 'a', 'A')
    &&& is_letter(s[2], 'x', 'X')
}

/// Whether `u` is one of the units `K`, `M`, `G`, `Ki`, `Mi`, `Gi`, in any
/// mix of cases.
pub open spec fn is_unit(u: Seq<char>) -> bool {
    &&& u.len() == 1 || (u.len() == 2 && is_letter(u[1], 'i', 'I'))
    &&& is_letter(u[0], 'k', 'K') || is_letter(u[0], 'm', 'M') || is_letter(u[0], 'g', 'G')
}

/// Whether `s` is a memory limit: the word `max`, or a number of bytes
/// written in ASCII digits, alone or followed by a unit. The numeral `0`
/// is no limit, with or without a unit.
pub open spec fn is_memory_limit(s: Seq<char>) -> bool {
    ||| is_max(s)
    ||| {
        let digits = digits_end(s, 0);
        &&& digits > 0
        &&& digits == s.len() || is_unit(s.skip(digits))
        &&& s.take(digits) != seq!['0']
    }
}

/// Validates a memory limit for `memory.max`: `max`, a number of bytes, or
/// a number with one of the units K, M, G, Ki, Mi, Gi.
pub fn validate_memory_limit(limit: &str) -> (r: Result<(), CgroupError>)
    ensures
        r is Ok <==> is_memory_limit(limit@),
        r is Err ==> r == Err::<(), CgroupError>(CgroupError::UnsupportedMemoryLimit),
{
    let s = chars_of(limit);
    let n = s.len();
    if n == 3 && (s[0] == 'm' || s[0] == 'M') && (s[1] == 'a' || s[1] == 'A') && (s[2] == 'x'
        || s[2] == 'X') {
        return Ok(());
    }
    let digits = scan_digits(&s, 0);
    if digits == 0 {
        return Err(CgroupError::UnsupportedMemoryLimit);
    }
    if digits == 1 && s[0] == '0' {
        assert(s@.take(1) =~= seq!['0']);
        return Err(CgroupError::UnsupportedMemoryLimit);
    }
    assert(s@.take(digits as int) != seq!['0']) by {
        if digits == 1 {
            assert(s@.take(digits as int)[0] == s[0]);
        } else {
            assert(s@.take(digits as int).len() == digits);
        }
    }
    if digits == n {
        return Ok(());
    }
    let scale = s[digits];
    if !(scale == 'k' || scale == 'K' || scale == 'm' || scale == 'M' || scale == 'g' || scale
        == 'G') {
        return Err(CgroupError::UnsupportedMemoryLimit);
    }
    if n - digits == 1 {
        return Ok(());
    }
    if n - digits == 2 && (s[digits + 1] == 'i' || s[digits + 1] == 'I') {
        return Ok(());
    }
    Err(CgroupError::UnsupportedMemoryLimit)
}

/// Mount point of the cgroup-v2 hierarchy.
pub const CGROUP_PATH: &'static str = "/sys/fs/cgroup/";

/// A cgroup that limits the CPU and memory of the processes in it. The
/// processes live in a leaf below the group's own directory, so that the
/// group can hand its controllers down to the leaf.
#[derive(Clone, Debug, PartialEq, Eq)]
pub struct Cgroup {
    path: String,
    cgroup: String,
    memory: Option<String>,
    cpu_max: Option<String>,
}

/// What a `Cgroup` says, as mathematical values.
pub struct CgroupModel {
    /// The group's directory.
    pub path: Seq<char>,
    /// The name of the leaf below it.
    pub cgroup: Seq<char>,
    /// The memory limit, as it is written to `memory.max`.
    pub memory: Option<Seq<char>>,
    /// The CPU limit, as it is written to `cpu.max`.
    pub cpu_max: Option<Seq<char>>,
}

impl DeepView for Cgroup {
    type V = CgroupModel;

    closed spec fn deep_view(&self) -> CgroupModel {
        CgroupModel {
            path: self.path@,
            cgroup: self.cgroup@,
            memory: self.memory.deep_view(),
            cpu_max: self.cpu_max.deep_view(),
        }
    }
}

/// The controllers to enable, each with a leading `+`.
pub open spec fn controller_list(need_memory: bool, need_cpu: bool) -> Seq<Seq<char>> {
    let memory = if need_memory {
        seq!["+memory"@]
    } else {
        Seq::empty()
    };
    let cpu = if need_cpu {
        seq!["+cpu"@]
    } else {
        Seq::empty()
    };
    memory + cpu
}

/// The step that writes `contents` to `path`, and must succeed.
pub open spec fn write(path: Seq<char>, contents: Seq<char>) -> StepModel {
    required(OpModel::WriteFile { path, contents })
}

impl CgroupModel {
    /// The directory of the leaf.
    pub open spec fn leaf_dir(self) -> Seq<char> {
        path_join(self.path, self.cgroup)
    }

    /// The control file `name` of the leaf.
    pub open spec fn leaf_file(self, name: Seq<char>) -> Seq<char> {
        path_join(self.leaf_dir(), name)
    }

    /// The steps that create the leaf and hand the needed controllers down
    /// to it: the leaf directory with its parents, then, where a
    /// controller is needed, one write to `cgroup.subtree_control` of the
    /// hierarchy's root and one to that of the group. The two writes may
    /// fail.
    pub open spec fn base_plan(self, need_memory: bool, need_cpu: bool) -> Seq<StepModel> {
        let create = seq![required(OpModel::CreateDirAll { path: self.leaf_dir() })];
        let controllers = joined_controllers(need_memory, need_cpu);
        if need_memory || need_cpu {
            create + seq![
                best_effort(
                    OpModel::WriteFile {
                        path: path_join(CGROUP_PATH@, "cgroup.subtree_control"@),
                        contents: controllers,
                    },
                ),
                best_effort(
                    OpModel::WriteFile {
                        path: path_join(self.path, "cgroup.subtree_control"@),
                        contents: controllers,
                    },
                ),
            ]
        } else {
            create
        }
    }

    /// The steps that write the limits of the group to the leaf.
    pub open spec fn limits_plan(self) -> Seq<StepModel> {
        let memory = match self.memory {
            Some(limit) => seq![write(self.leaf_file("memory.max"@), limit)],
            None => Seq::empty(),
        };
        let cpu = match self.cpu_max {
            Some(line) => seq![write(self.leaf_file("cpu.max"@), line)],
            None => Seq::empty(),
        };
        memory + cpu
    }

    /// The steps that set the group up: the leaf and its controllers,
    /// then the limits.
    pub open spec fn setup_plan(self) -> Seq<StepModel> {
        self.base_plan(self.memory is Some, self.cpu_max is Some) + self.limits_plan()
    }

    /// The steps that remove the group: the leaf, then the group's own
    /// directory. Both may fail.
    pub open spec fn cleanup_plan(self) -> Seq<StepModel> {
        seq![
            best_effort(OpModel::RemoveDir { path: self.leaf_dir() }),
            best_effort(OpModel::RemoveDir { path: self.path }),
        ]
    }
}

/// The controllers to enable, as they are written to `cgroup.subtree_control`.
pub open spec fn joined_controllers(need_memory: bool, need_cpu: bool) -> Seq<char> {
    crate::text::joined(controller_list(need_memory, need_cpu), " "@)
}

/// The CPU limit line of an optional quota.
pub open spec fn cpu_max_of(cpu: Option<Seq<char>>) -> Option<Seq<char>> {
    match cpu {
        Some(quota) => Some(cpu_max_line(quota)),
        None => None,
    }
}

/// The first fault among the limits of a container, if there is one. The
/// memory limit is looked at before the CPU quota.
pub open spec fn limits_fault(cpu: Option<Seq<char>>, memory: Option<Seq<char>>) -> Option<
    CgroupError,
> {
    if memory matches Some(limit) && !is_memory_limit(limit) {
        Some(CgroupError::UnsupportedMemoryLimit)
    } else if cpu matches Some(quota) && !is_decimal(quota) {
        Some(CgroupError::InvalidCpuQuota)
    } else if cpu matches Some(quota) && !is_positive(quota) {
        Some(CgroupError::NonPositiveCpuQuota)
    } else {
        None
    }
}

/// The cgroup of the container: the group `toy_container` below the
/// mount point of the hierarchy, with the leaf `leaf`, the memory limit
/// as it was given and the CPU quota as the line that sets it.
pub open spec fn container_cgroup(
    cpu: Option<Seq<char>>,
    memory: Option<Seq<char>>,
) -> CgroupModel {
    CgroupModel {
        path: path_join(CGROUP_PATH@, "toy_container"@),
        cgroup: "leaf"@,
        memory,
        cpu_max: cpu_max_of(cpu),
    }
}

impl Cgroup {
    /// The cgroup `toy_container` with the given limits: `cpu` is a
    /// decimal fraction of one core, `memory` a memory limit. Limits that
    /// are not well formed are refused, the memory limit first.
    pub fn new(cpu: &Option<String>, memory: &Option<String>) -> (r: Result<Cgroup, CgroupError>)
        ensures
            match r {
                Ok(group) => {
                    &&& limits_fault(cpu.deep_view(), memory.deep_view()) is None
                    &&& group.deep_view() == container_cgroup(cpu.deep_view(), memory.deep_view())
                },
                Err(e) => limits_fault(cpu.deep_view(), memory.deep_view()) == Some(e),
            },
    {
        let memory_limit = match memory {
            Some(limit) => {
                match validate_memory_limit(limit.as_str()) {
                    Ok(()) => Some(limit.clone()),
                    Err(e) => {
                        return Err(e);
                    },
                }
            },
            None => None,
        };
        let cpu_max = match cpu {
            Some(quota) => {
                match parse_cpu_quota(quota.as_str()) {
                    Ok(line) => Some(line),
                    Err(e) => {
                        return Err(e);
                    },
                }
            },
            None => None,
        };
        Ok(
            Cgroup {
                path: join_path(CGROUP_PATH, "toy_container"),
                cgroup: "leaf".to_owned(),
                memory: memory_limit,
                cpu_max,
            },
        )
    }

    /// The step that adds the process `pid` to the cgroup.
    pub fn add_process(&self, pid: i32) -> (step: Step)
        ensures
            step.deep_view() == write(
                self.deep_view().leaf_file("cgroup.procs"@),
                signed_decimal(pid as int),
            ),
    {
        let leaf = join_path(self.path.as_str(), self.cgroup.as_str());
        let procs_file = join_path(leaf.as_str(), "cgroup.procs");
        Step::required(
            Op::WriteFile { path: procs_file, contents: signed_decimal_string(pid as i64) },
        )
    }

    /// The step that sets the memory limit of the cgroup to `limit`.
    pub fn set_memory_limit(&self, limit: &str) -> (step: Step)
        ensures
            step.deep_view() == write(self.deep_view().leaf_file("memory.max"@), limit@),
    {
        let leaf = join_path(self.path.as_str(), self.cgroup.as_str());
        let memory_max = join_path(leaf.as_str(), "memory.max");
        Step::required(Op::WriteFile { path: memory_max, contents: limit.to_owned() })
    }

    /// The step that sets the CPU limit of the cgroup to `quota`, a
    /// decimal fraction of one core.
    pub fn set_cpu_limit(&self, quota: &str) -> (r: Result<Step, CgroupError>)
        ensures
            match r {
                Ok(step) => {
                    &&& is_decimal(quota@) && is_positive(quota@)
                    &&& step.deep_view() == write(
                        self.deep_view().leaf_file("cpu.max"@),
                        cpu_max_line(quota@),
                    )
                },
                Err(CgroupError::InvalidCpuQuota) => !is_decimal(quota@),
                Err(CgroupError::NonPositiveCpuQuota) => is_decimal(quota@) && !is_positive(
                    quota@,
                ),
                Err(CgroupError::UnsupportedMemoryLimit) => false,
            },
    {
        let cpu_quota_str = match parse_cpu_quota(quota) {
            Ok(line) => line,
            Err(e) => {
                return Err(e);
            },
        };
        let leaf = join_path(self.path.as_str(), self.cgroup.as_str());
        let cpu_max = join_path(leaf.as_str(), "cpu.max");
        Ok(Step::required(Op::WriteFile { path: cpu_max, contents: cpu_quota_str }))
    }

    /// The steps that make sure the leaf exists and the needed controllers
    /// are enabled for it.
    pub fn ensure_base_cgroup(&self, need_memory: bool, need_cpu: bool) -> (plan: Vec<Step>)
        ensures
            plan.deep_view() == self.deep_view().base_plan(need_memory, need_cpu),
    {
        let cgroup_dir = join_path(self.path.as_str(), self.cgroup.as_str());
        let mut plan: Vec<Step> = Vec::new();
        plan.push(Step::required(Op::CreateDirAll { path: cgroup_dir }));
        let mut controllers: Vec<String> = Vec::new();
        if need_memory {
            controllers.push("+memory".to_owned());
        }
        if need_cpu {
            controllers.push("+cpu".to_owned());
        }
        assert(controllers.deep_view() =~= controller_list(need_memory, need_cpu));
        if controllers.len() > 0 {
            let controller_str = crate::text::join_strings(&controllers, " ");
            let root_subtree_control = join_path(CGROUP_PATH, "cgroup.subtree_control");
            plan.push(
                Step::best_effort(
                    Op::WriteFile { path: root_subtree_control, contents: controller_str.clone() },
                ),
            );
            let base_subtree_control = join_path(self.path.as_str(), "cgroup.subtree_control");
            plan.push(
                Step::best_effort(
                    Op::WriteFile { path: base_subtree_control, contents: controller_str },
                ),
            );
        }
        plan
    }

    /// The steps that set the cgroup up with its limits.
    pub fn setup(&self) -> (plan: Vec<Step>)
        ensures
            plan.deep_view() == self.deep_view().setup_plan(),
    {
        let mut plan = self.ensure_base_cgroup(self.memory.is_some(), self.cpu_max.is_some());
        let leaf = join_path(self.path.as_str(), self.cgroup.as_str());
        match &self.memory {
            Some(limit) => {
                plan.push(self.set_memory_limit(limit.as_str()));
            },
            None => {},
        }
        match &self.cpu_max {
            Some(line) => {
                let cpu_max = join_path(leaf.as_str(), "cpu.max");
                plan.push(Step::required(Op::WriteFile { path: cpu_max, contents: line.clone() }));
            },
            None => {},
        }
        plan
    }

    /// The steps that remove the cgroup again.
    pub fn cleanup(&self) -> (plan: Vec<Step>)
        ensures
            plan.deep_view() == self.deep_view().cleanup_plan(),
    {
        let leaf_cgroup = join_path(self.path.as_str(), self.cgroup.as_str());
        let mut plan: Vec<Step> = Vec::new();
        plan.push(Step::best_effort(Op::RemoveDir { path: leaf_cgroup }));
        plan.push(Step::best_effort(Op::RemoveDir { path: self.path.clone() }));
        plan
    }
}

/// The places of the scaled quota: one hundred thousand is the fifth power of ten.
proof fn lemma_pow10_five()
    ensures
        pow10(5) == 100_000,
{
    reveal_with_fuel(pow10, 6);
}

/// The quota of a decimal is its value times one hundred thousand,
/// rounded down. With all digits of the decimal read as one whole number,
/// its mantissa, and with `n` digits after the point, the decimal's value
/// is the mantissa divided by the `n`-th power of ten. The decimal is
/// greater than zero just when it has no `-` and its mantissa is not zero.
pub proof fn lemma_quota_is_scaled_value(s: Seq<char>)
    ensures
        quota_micros(s) == (digits_value(int_digits(s) + frac_digits(s)) * 100_000) as int
            / pow10(frac_digits(s).len()) as int,
        is_positive(s) <==> !is_negative(s) && digits_value(int_digits(s) + frac_digits(s)) > 0,
{
    let whole = int_digits(s);
    let frac = frac_digits(s);
    let m = frac.len();
    lemma_digits_run(s, sign_len(s));
    if has_point(s) {
        lemma_digits_run(s, int_end(s) + 1);
    }
    lemma_value_of_two_parts(whole, frac);
    lemma_digits_value_bound(frac);
    lemma_pow10_five();
    let vi = digits_value(whole) as int;
    let vf = digits_value(frac) as int;
    let pm = pow10(m) as int;
    let mantissa = digits_value(whole + frac) as int;
    lemma_pow10_adds(m, 0);
    assert(mantissa > 0 <==> vi > 0 || vf > 0) by (nonlinear_arith)
        requires
            mantissa == vi * pm + vf,
            pm > 0,
            vi >= 0,
            vf >= 0,
    ;
    let zeros = seq!['0', '0', '0', '0', '0'];
    if m <= 5 {
        let fill = zeros.take(5 - m);
        assert(first_five(frac) =~= frac + fill);
        lemma_value_of_two_parts(frac, fill);
        lemma_zeros_value(fill);
        lemma_pow10_adds(m, (5 - m) as nat);
        let rest = pow10((5 - m) as nat) as int;
        let q = vi * 100_000 + vf * rest;
        assert(mantissa * 100_000 == q * pm) by (nonlinear_arith)
            requires
                mantissa == vi * pm + vf,
                pm * rest == 100_000,
                q == vi * 100_000 + vf * rest,
        ;
        vstd::arithmetic::div_mod::lemma_fundamental_div_mod_converse(
            mantissa * 100_000,
            pm,
            q,
            0,
        );
    } else {
        let shown = frac.take(5);
        let cut = frac.skip(5);
        assert(first_five(frac) =~= shown);
        assert(frac =~= shown + cut);
        lemma_value_of_two_parts(shown, cut);
        lemma_digits_value_bound(cut);
        lemma_pow10_adds(5, (m - 5) as nat);
        let pc = pow10((m - 5) as nat) as int;
        let vs = digits_value(shown) as int;
        let vc = digits_value(cut) as int;
        let q = vi * 100_000 + vs;
        let r = vc * 100_000;
        assert(mantissa * 100_000 == q * pm + r && 0 <= r < pm) by (nonlinear_arith)
            requires
                mantissa == vi * pm + vf,
                vf == vs * pc + vc,
                pm == 100_000 * pc,
                0 <= vc < pc,
                q == vi * 100_000 + vs,
                r == vc * 100_000,
        ;
        vstd::arithmetic::div_mod::lemma_fundamental_div_mod_converse(
            mantissa * 100_000,
            pm,
            q,
            r,
        );
    }
}

/// Before a limit is written to the leaf, the controller that enforces
/// it is handed down to the leaf: in the setup of a cgroup with a limit,
/// the leaf is created first, then `cgroup.subtree_control` is written in
/// the root of the hierarchy and in the group, naming just the
/// controllers of the limits that are set, and only then the limits
/// follow. A cgroup without limits only gets its leaf.
pub proof fn lemma_controllers_first(group: CgroupModel)
    ensures
        ({
            let plan = group.setup_plan();
            let controllers = joined_controllers(group.memory is Some, group.cpu_max is Some);
            &&& plan.len() >= 1
            &&& plan[0] == required(OpModel::CreateDirAll { path: group.leaf_dir() })
            &&& group.memory is None && group.cpu_max is None ==> plan.len() == 1
            &&& group.memory is Some || group.cpu_max is Some ==> {
                &&& plan.len() >= 4
                &&& plan[1] == best_effort(
                    OpModel::WriteFile {
                        path: path_join(CGROUP_PATH@, "cgroup.subtree_control"@),
                        contents: controllers,
                    },
                )
                &&& plan[2] == best_effort(
                    OpModel::WriteFile {
                        path: path_join(group.path, "cgroup.subtree_control"@),
                        contents: controllers,
                    },
                )
                &&& plan.skip(3) == group.limits_plan()
            }
        }),
{
}

/// The files of the container's cgroup, written out: the controllers
/// are enabled in `/sys/fs/cgroup/cgroup.subtree_control` and in
/// `/sys/fs/cgroup/toy_container/cgroup.subtree_control`, and the leaf
/// `/sys/fs/cgroup/toy_container/leaf` holds `memory.max`, `cpu.max` and
/// `cgroup.procs`.
pub proof fn lemma_cgroup_paths(cpu: Option<Seq<char>>, memory: Option<Seq<char>>)
    ensures
        ({
            let group = container_cgroup(cpu, memory);
            &&& path_join(CGROUP_PATH@, "cgroup.subtree_control"@)
                == "/sys/fs/cgroup/cgroup.subtree_control"@
            &&& group.path == "/sys/fs/cgroup/toy_container"@
            &&& path_join(group.path, "cgroup.subtree_control"@)
                == "/sys/fs/cgroup/toy_container/cgroup.subtree_control"@
            &&& group.leaf_dir() == "/sys/fs/cgroup/toy_container/leaf"@
            &&& group.leaf_file("memory.max"@) == "/sys/fs/cgroup/toy_container/leaf/memory.max"@
            &&& group.leaf_file("cpu.max"@) == "/sys/fs/cgroup/toy_container/leaf/cpu.max"@
            &&& group.leaf_file("cgroup.procs"@)
                == "/sys/fs/cgroup/toy_container/leaf/cgroup.procs"@
        }),
{
    reveal_strlit("/sys/fs/cgroup/");
    reveal_strlit("toy_container");
    reveal_strlit("leaf");
    reveal_strlit("cgroup.subtree_control");
    reveal_strlit("memory.max");
    reveal_strlit("cpu.max");
    reveal_strlit("cgroup.procs");
    reveal_strlit("/sys/fs/cgroup/cgroup.subtree_control");
    reveal_strlit("/sys/fs/cgroup/toy_container");
    reveal_strlit("/sys/fs/cgroup/toy_container/cgroup.subtree_control");
    reveal_strlit("/sys/fs/cgroup/toy_container/leaf");
    reveal_strlit("/sys/fs/cgroup/toy_container/leaf/memory.max");
    reveal_strlit("/sys/fs/cgroup/toy_container/leaf/cpu.max");
    reveal_strlit("/sys/fs/cgroup/toy_container/leaf/cgroup.procs");
}

} // verus!
