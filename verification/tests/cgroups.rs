use toy_container::cgroups::{parse_cpu_quota, validate_memory_limit, Cgroup, CgroupError};
use toy_container::plan::{Op, Step};

fn write(path: &str, contents: &str, required: bool) -> Step {
    Step {
        op: Op::WriteFile {
            path: path.to_string(),
            contents: contents.to_string(),
        },
        required,
    }
}

fn group(cpu: Option<&str>, memory: Option<&str>) -> Result<Cgroup, CgroupError> {
    Cgroup::new(&cpu.map(|s| s.to_string()), &memory.map(|s| s.to_string()))
}

#[test]
fn test_parse_cpu_quota() {
    assert_eq!(parse_cpu_quota("0.5").unwrap(), "50000 100000");
    assert_eq!(parse_cpu_quota("1.0").unwrap(), "100000 100000");
    assert_eq!(parse_cpu_quota("2.0").unwrap(), "200000 100000");
    assert_eq!(parse_cpu_quota("0.25").unwrap(), "25000 100000");
}

#[test]
fn test_parse_cpu_quota_invalid() {
    assert!(parse_cpu_quota("invalid").is_err());
    assert!(parse_cpu_quota("0").is_err());
    assert!(parse_cpu_quota("-0.5").is_err());
}

#[test]
fn test_validate_memory_limit_valid() {
    // max and pure bytes
    assert!(validate_memory_limit("max").is_ok());
    assert!(validate_memory_limit("0").is_err()); // zero not allowed
    assert!(validate_memory_limit("1024").is_ok());

    // decimal units
    assert!(validate_memory_limit("1K").is_ok());
    assert!(validate_memory_limit("10M").is_ok());
    assert!(validate_memory_limit("2G").is_ok());

    // IEC units
    assert!(validate_memory_limit("1Ki").is_ok());
    assert!(validate_memory_limit("10Mi").is_ok());
    assert!(validate_memory_limit("2Gi").is_ok());

    // Case-insensitive units
    assert!(validate_memory_limit("5m").is_ok());
    assert!(validate_memory_limit("3gi").is_ok());
}

#[test]
fn test_validate_memory_limit_invalid() {
    // Empty and non-numeric start
    assert!(validate_memory_limit("").is_err());
    assert!(validate_memory_limit("K100").is_err());

    // Missing unit value
    assert!(validate_memory_limit("K").is_err());

    // Unsupported units
    assert!(validate_memory_limit("100KB").is_err());
    assert!(validate_memory_limit("1TB").is_err());
    assert!(validate_memory_limit("1TiB").is_err());

    // Non-digit numeric part
    assert!(validate_memory_limit("1.5G").is_err());
    assert!(validate_memory_limit("abc").is_err());

    // Zero with unit
    assert!(validate_memory_limit("0M").is_err());
}

#[test]
fn cpu_quota_is_cut_off_not_rounded() {
    assert_eq!(parse_cpu_quota("0.123456789").unwrap(), "12345 100000");
    assert_eq!(parse_cpu_quota("0.999999").unwrap(), "99999 100000");
    assert_eq!(parse_cpu_quota("1.5").unwrap(), "150000 100000");
    assert_eq!(parse_cpu_quota("0.29").unwrap(), "29000 100000");
    assert_eq!(parse_cpu_quota("12.00001").unwrap(), "1200001 100000");
}

#[test]
fn cpu_quota_takes_every_form_of_a_decimal() {
    assert_eq!(parse_cpu_quota("1").unwrap(), "100000 100000");
    assert_eq!(parse_cpu_quota("+0.5").unwrap(), "50000 100000");
    assert_eq!(parse_cpu_quota(".5").unwrap(), "50000 100000");
    assert_eq!(parse_cpu_quota("5.").unwrap(), "500000 100000");
    assert_eq!(parse_cpu_quota("007").unwrap(), "700000 100000");
    assert_eq!(parse_cpu_quota("0.000001").unwrap(), "0 100000");
}

#[test]
fn cpu_quota_has_an_upper_end() {
    assert_eq!(
        parse_cpu_quota("92233720368547.75807").unwrap(),
        "9223372036854775807 100000"
    );
    assert_eq!(
        parse_cpu_quota("92233720368547.75806").unwrap(),
        "9223372036854775806 100000"
    );
    assert_eq!(
        parse_cpu_quota("92233720368547.75808").unwrap(),
        "9223372036854775807 100000"
    );
    assert_eq!(
        parse_cpu_quota("123456789012345678901234567890").unwrap(),
        "9223372036854775807 100000"
    );
}

#[test]
fn cpu_quota_says_why_it_refuses() {
    for bad in [
        "", "+", "-", ".", "+.", "invalid", "1e3", "0x10", "1.2.3", " 0.5", "0.5 ", "0,5", "inf",
        "NaN", "--1", "1-", "٠.٥",
    ] {
        assert_eq!(parse_cpu_quota(bad), Err(CgroupError::InvalidCpuQuota), "{:?}", bad);
    }
    for not_positive in ["0", "0.0", "-0.5", "-0", "+0", "000.000", "-3", ".0", "0."] {
        assert_eq!(
            parse_cpu_quota(not_positive),
            Err(CgroupError::NonPositiveCpuQuota),
            "{:?}",
            not_positive
        );
    }
}

#[test]
fn memory_limit_in_any_case() {
    for good in ["MAX", "Max", "mAx", "1k", "1kI", "7GI", "12mi", "18446744073709551616G"] {
        assert_eq!(validate_memory_limit(good), Ok(()), "{:?}", good);
    }
}

#[test]
fn memory_limit_refuses_what_is_no_limit() {
    for bad in [
        "0", "0K", "0k", "0Gi", "0mi", "maxi", "ma", "maxK", "1 K", " 1K", "1K ", "1Kib", "1i",
        "1Ti", "-1", "+1", "1.0", "Ki", "1B", "1KK", "１２３", "1Ｋ",
    ] {
        assert_eq!(
            validate_memory_limit(bad),
            Err(CgroupError::UnsupportedMemoryLimit),
            "{:?}",
            bad
        );
    }
}

#[test]
fn memory_limit_with_leading_zeros_is_a_number() {
    assert_eq!(validate_memory_limit("00"), Ok(()));
    assert_eq!(validate_memory_limit("0064M"), Ok(()));
}

#[test]
fn memory_limit_agrees_with_its_pattern() {
    let pattern =
        regex::Regex::new(r"^(?i:max|[0-9]+|[0-9]+(?:K|M|G|Ki|Mi|Gi))$").expect("a pattern");
    let zero = regex::Regex::new(r"^0(?i:K|M|G|Ki|Mi|Gi)?$").expect("a pattern");
    let alphabet = ["0", "1", "9", "k", "K", "m", "G", "i", "I", "a", "x", "X", "M", ".", "B"];
    let mut words: Vec<String> = vec![String::new()];
    let mut from = 0;
    for _ in 0..4 {
        let upto = words.len();
        for w in from..upto {
            for letter in alphabet {
                words.push(format!("{}{}", words[w], letter));
            }
        }
        from = upto;
    }
    assert_eq!(words.len(), 1 + 15 + 225 + 3375 + 50625);
    for word in &words {
        let expected = pattern.is_match(word) && !zero.is_match(word);
        assert_eq!(validate_memory_limit(word).is_ok(), expected, "{:?}", word);
    }
}

#[test]
fn new_looks_at_the_memory_limit_first() {
    assert_eq!(
        group(Some("nope"), Some("nope")).unwrap_err(),
        CgroupError::UnsupportedMemoryLimit
    );
    assert_eq!(group(Some("nope"), Some("1G")).unwrap_err(), CgroupError::InvalidCpuQuota);
    assert_eq!(group(Some("0"), Some("1G")).unwrap_err(), CgroupError::NonPositiveCpuQuota);
    assert_eq!(group(Some("0"), None).unwrap_err(), CgroupError::NonPositiveCpuQuota);
    assert_eq!(group(None, Some("0")).unwrap_err(), CgroupError::UnsupportedMemoryLimit);
    assert!(group(None, None).is_ok());
    assert!(group(Some("0.5"), Some("64M")).is_ok());
}

#[test]
fn setup_without_limits_only_makes_the_leaf() {
    let plan = group(None, None).unwrap().setup();
    assert_eq!(
        plan,
        vec![Step {
            op: Op::CreateDirAll { path: "/sys/fs/cgroup/toy_container/leaf".to_string() },
            required: true,
        }]
    );
}

#[test]
fn setup_enables_controllers_before_it_writes_limits() {
    let plan = group(Some("0.5"), Some("100M")).unwrap().setup();
    assert_eq!(
        plan,
        vec![
            Step {
                op: Op::CreateDirAll { path: "/sys/fs/cgroup/toy_container/leaf".to_string() },
                required: true,
            },
            write("/sys/fs/cgroup/cgroup.subtree_control", "+memory +cpu", false),
            write("/sys/fs/cgroup/toy_container/cgroup.subtree_control", "+memory +cpu", false),
            write("/sys/fs/cgroup/toy_container/leaf/memory.max", "100M", true),
            write("/sys/fs/cgroup/toy_container/leaf/cpu.max", "50000 100000", true),
        ]
    );
}

#[test]
fn setup_enables_only_what_is_asked_for() {
    let memory_only = group(None, Some("max")).unwrap().setup();
    assert_eq!(memory_only.len(), 4);
    assert_eq!(memory_only[1], write("/sys/fs/cgroup/cgroup.subtree_control", "+memory", false));
    assert_eq!(
        memory_only[2],
        write("/sys/fs/cgroup/toy_container/cgroup.subtree_control", "+memory", false)
    );
    assert_eq!(
        memory_only[3],
        write("/sys/fs/cgroup/toy_container/leaf/memory.max", "max", true)
    );
    let cpu_only = group(Some("2"), None).unwrap().setup();
    assert_eq!(cpu_only.len(), 4);
    assert_eq!(cpu_only[1], write("/sys/fs/cgroup/cgroup.subtree_control", "+cpu", false));
    assert_eq!(
        cpu_only[2],
        write("/sys/fs/cgroup/toy_container/cgroup.subtree_control", "+cpu", false)
    );
    assert_eq!(
        cpu_only[3],
        write("/sys/fs/cgroup/toy_container/leaf/cpu.max", "200000 100000", true)
    );
}

#[test]
fn ensure_base_cgroup_by_itself() {
    let g = group(None, None).unwrap();
    assert_eq!(g.ensure_base_cgroup(false, false).len(), 1);
    let both = g.ensure_base_cgroup(true, true);
    assert_eq!(both.len(), 3);
    assert_eq!(both[1], write("/sys/fs/cgroup/cgroup.subtree_control", "+memory +cpu", false));
}

#[test]
fn single_writes() {
    let g = group(None, None).unwrap();
    assert_eq!(
        g.add_process(4711),
        write("/sys/fs/cgroup/toy_container/leaf/cgroup.procs", "4711", true)
    );
    assert_eq!(
        g.set_memory_limit("1G"),
        write("/sys/fs/cgroup/toy_container/leaf/memory.max", "1G", true)
    );
    assert_eq!(
        g.set_cpu_limit("0.25"),
        Ok(write("/sys/fs/cgroup/toy_container/leaf/cpu.max", "25000 100000", true))
    );
    assert_eq!(g.set_cpu_limit("a quarter"), Err(CgroupError::InvalidCpuQuota));
    assert_eq!(g.set_cpu_limit("-1"), Err(CgroupError::NonPositiveCpuQuota));
}

#[test]
fn cleanup_removes_the_leaf_first() {
    let plan = group(Some("1"), None).unwrap().cleanup();
    assert_eq!(
        plan,
        vec![
            Step {
                op: Op::RemoveDir { path: "/sys/fs/cgroup/toy_container/leaf".to_string() },
                required: false,
            },
            Step {
                op: Op::RemoveDir { path: "/sys/fs/cgroup/toy_container".to_string() },
                required: false,
            },
        ]
    );
}
