use cuenv::enforce::{enforcement_verdict, path_rule_grant, port_rule_grant, EnforcementError};
use cuenv::kernel::Enforcement;
use cuenv::plan::{
    PathAccess, PathRule, PortAccess, PortRule, RulesetPlan, BIND_TCP, CONNECT_TCP, EXECUTE,
    INTERFACE_LEVEL, READ_DIR, READ_FILE,
};
use cuenv::AccessRestrictions;
use landlock::{Access, AccessFs, AccessNet, BitFlags, ABI};

#[test]
fn rights_are_landlocks() {
    assert_eq!(BitFlags::from(AccessFs::Execute).bits(), EXECUTE);
    assert_eq!(BitFlags::from(AccessFs::ReadFile).bits(), READ_FILE);
    assert_eq!(BitFlags::from(AccessFs::ReadDir).bits(), READ_DIR);
    assert_eq!(BitFlags::from(AccessNet::BindTcp).bits(), BIND_TCP);
    assert_eq!(BitFlags::from(AccessNet::ConnectTcp).bits(), CONNECT_TCP);
    assert_eq!((AccessFs::ReadFile | AccessFs::ReadDir | AccessFs::Execute).bits(), 13);
    assert_eq!(INTERFACE_LEVEL, 4);
    assert_eq!(AccessFs::from_all(ABI::V4).bits(), 0x7fff);
}

#[test]
fn plan_handles_every_right_of_the_level() {
    let policy = AccessRestrictions::new(true, true);
    let plan = RulesetPlan::for_policy(&policy);
    assert_eq!(plan.filesystem_rights, Some(AccessFs::from_all(ABI::V4).bits()));
    assert_eq!(plan.filesystem_rights, Some(0x7fff));
    assert_eq!(plan.network_rights, Some((AccessNet::BindTcp | AccessNet::ConnectTcp).bits()));
    assert_eq!(plan.network_rights, Some(3));
    assert!(plan.path_rules.is_empty());
    assert!(plan.port_rules.is_empty());
}

#[test]
fn plan_of_no_restriction_is_empty() {
    let mut policy = AccessRestrictions::new(false, false);
    policy.add_read_only_path("/usr");
    policy.add_read_write_path("/tmp");
    policy.add_allowed_host("80");
    let plan = RulesetPlan::for_policy(&policy);
    assert_eq!(plan.filesystem_rights, None);
    assert_eq!(plan.network_rights, None);
    assert!(plan.path_rules.is_empty());
    assert!(plan.port_rules.is_empty());
}

#[test]
fn plan_lists_read_only_before_read_write_and_skips_denied() {
    let mut policy = AccessRestrictions::new(true, false);
    policy.add_read_write_path("/tmp");
    policy.add_read_only_path("/usr");
    policy.add_deny_path("/etc/shadow");
    policy.add_read_only_path("/lib");
    policy.add_allowed_host("80");
    let plan = RulesetPlan::for_policy(&policy);
    let rules: Vec<(&str, PathAccess)> =
        plan.path_rules.iter().map(|r| (r.path.as_str(), r.access)).collect();
    assert_eq!(
        rules,
        vec![
            ("/usr", PathAccess::ReadOnly),
            ("/lib", PathAccess::ReadOnly),
            ("/tmp", PathAccess::ReadWrite)
        ]
    );
    assert!(plan.port_rules.is_empty());
    assert_eq!(plan.network_rights, None);
}

#[test]
fn verdict_fails_only_where_nothing_is_enforced() {
    assert!(enforcement_verdict(Enforcement::Full).is_ok());
    assert!(enforcement_verdict(Enforcement::Partial).is_ok());
    let error = enforcement_verdict(Enforcement::Nothing).unwrap_err();
    assert!(matches!(error, EnforcementError::NotEnforced));
    assert_eq!(error.message(), "Landlock is not supported by the running kernel.");
}

#[test]
fn messages_name_the_step() {
    let d = || "boom".to_string();
    assert_eq!(
        EnforcementError::HandleFilesystem { detail: d() }.message(),
        "Failed to configure filesystem access handling: boom"
    );
    assert_eq!(
        EnforcementError::HandleNetwork { detail: d() }.message(),
        "Failed to configure network access handling: boom"
    );
    assert_eq!(
        EnforcementError::CreateRuleset { detail: d() }.message(),
        "Failed to create Landlock ruleset: boom"
    );
    assert_eq!(
        EnforcementError::AddPathRule {
            path: "/usr".to_string(),
            access: PathAccess::ReadOnly,
            detail: d()
        }
        .message(),
        "Failed to add read-only rule for /usr: boom"
    );
    assert_eq!(
        EnforcementError::AddPathRule {
            path: "/tmp".to_string(),
            access: PathAccess::ReadWrite,
            detail: d()
        }
        .message(),
        "Failed to add read-write rule for /tmp: boom"
    );
    assert_eq!(
        EnforcementError::AddPortRule { port: 8080, kind: PortAccess::Bind, detail: d() }.message(),
        "Failed to add bind rule for port 8080: boom"
    );
    assert_eq!(
        EnforcementError::AddPortRule { port: 0, kind: PortAccess::Connect, detail: d() }
            .message(),
        "Failed to add connect rule for port 0: boom"
    );
    assert_eq!(
        EnforcementError::RestrictSelf { detail: d() }.message(),
        "Failed to apply Landlock restrictions: boom"
    );
}

#[test]
fn build_passes_over_paths_that_cannot_be_opened() {
    let plan = RulesetPlan {
        filesystem_rights: Some(0x7fff),
        network_rights: None,
        path_rules: vec![
            PathRule { path: "/this/path/does/not/exist".to_string(), access: PathAccess::ReadOnly },
            PathRule { path: "/".to_string(), access: PathAccess::ReadWrite },
        ],
        port_rules: Vec::new(),
    };
    match plan.build() {
        Ok(_) => {}
        Err(e) => panic!("{}", e.message()),
    }
}

#[test]
fn build_accepts_port_rules() {
    let plan = RulesetPlan {
        filesystem_rights: None,
        network_rights: Some(3),
        path_rules: Vec::new(),
        port_rules: vec![
            PortRule { port: 443, access: PortAccess::Bind },
            PortRule { port: 443, access: PortAccess::Connect },
        ],
    };
    match plan.build() {
        Ok(_) => {}
        Err(e) => panic!("{}", e.message()),
    }
}

#[test]
fn build_without_handled_rights_cannot_create() {
    let plan = RulesetPlan {
        filesystem_rights: None,
        network_rights: None,
        path_rules: vec![PathRule { path: "/".to_string(), access: PathAccess::ReadOnly }],
        port_rules: vec![PortRule { port: 1, access: PortAccess::Bind }],
    };
    match plan.build() {
        Err(EnforcementError::CreateRuleset { detail }) => assert!(!detail.is_empty()),
        Err(e) => panic!("{}", e.message()),
        Ok(_) => panic!("a ruleset that handles nothing was created"),
    }
}

#[test]
fn a_rule_beyond_the_handled_rights_is_refused() {
    let plan = RulesetPlan {
        filesystem_rights: Some(READ_FILE),
        network_rights: None,
        path_rules: vec![PathRule { path: "/".to_string(), access: PathAccess::ReadOnly }],
        port_rules: Vec::new(),
    };
    match plan.build() {
        Err(EnforcementError::AddPathRule { path, access, .. }) => {
            assert_eq!(path, "/");
            assert_eq!(access, PathAccess::ReadOnly);
        }
        Err(e) => panic!("{}", e.message()),
        Ok(_) => panic!("a rule that grants unhandled rights was added"),
    }
}

#[test]
fn handling_no_filesystem_right_is_refused() {
    let plan = RulesetPlan {
        filesystem_rights: Some(0),
        network_rights: Some(3),
        path_rules: Vec::new(),
        port_rules: Vec::new(),
    };
    match plan.build() {
        Err(e @ EnforcementError::HandleFilesystem { .. }) => {
            assert!(e.message().starts_with("Failed to configure filesystem access handling: "));
        }
        Err(e) => panic!("{}", e.message()),
        Ok(_) => panic!("a ruleset that handles an empty set of rights was built"),
    }
}

#[test]
fn handling_no_network_right_is_refused() {
    let plan = RulesetPlan {
        filesystem_rights: Some(0x7fff),
        network_rights: Some(0),
        path_rules: Vec::new(),
        port_rules: Vec::new(),
    };
    match plan.build() {
        Err(e @ EnforcementError::HandleNetwork { .. }) => {
            assert!(e.message().starts_with("Failed to configure network access handling: "));
        }
        Err(e) => panic!("{}", e.message()),
        Ok(_) => panic!("a ruleset that handles an empty set of rights was built"),
    }
}

#[test]
fn a_port_rule_beyond_the_handled_rights_is_refused() {
    let plan = RulesetPlan {
        filesystem_rights: None,
        network_rights: Some(BIND_TCP),
        path_rules: Vec::new(),
        port_rules: vec![
            PortRule { port: 80, access: PortAccess::Bind },
            PortRule { port: 81, access: PortAccess::Connect },
        ],
    };
    match plan.build() {
        Err(EnforcementError::AddPortRule { port, kind, detail }) => {
            assert_eq!(port, 81);
            assert_eq!(kind, PortAccess::Connect);
            assert!(!detail.is_empty());
        }
        Err(e) => panic!("{}", e.message()),
        Ok(_) => panic!("a rule that grants unhandled rights was added"),
    }
}

#[test]
fn path_rules_are_left_alone_without_filesystem_rights() {
    let plan = RulesetPlan {
        filesystem_rights: None,
        network_rights: Some(3),
        path_rules: vec![PathRule { path: "/".to_string(), access: PathAccess::ReadOnly }],
        port_rules: Vec::new(),
    };
    assert!(plan.build().is_ok());
}

#[test]
fn probe_answers_the_same_twice_and_restricts_nothing() {
    let first = AccessRestrictions::is_landlock_supported();
    let second = AccessRestrictions::is_landlock_supported();
    assert_eq!(first, second);
    // The process is as free as before: a path can still be opened.
    let plan = RulesetPlan {
        filesystem_rights: Some(0x7fff),
        network_rights: None,
        path_rules: vec![PathRule { path: "/".to_string(), access: PathAccess::ReadWrite }],
        port_rules: Vec::new(),
    };
    assert!(plan.build().is_ok());
}

#[test]
fn a_capable_system_builds_the_plan_of_a_policy() {
    if AccessRestrictions::is_landlock_supported() {
        let mut policy = AccessRestrictions::new(true, false);
        policy.add_read_only_path("/");
        assert!(RulesetPlan::for_policy(&policy).build().is_ok());
    }
}

#[test]
fn a_path_that_did_not_open_is_granted_nothing() {
    let read_only = PathRule { path: "/usr".to_string(), access: PathAccess::ReadOnly };
    let read_write = PathRule { path: "/tmp".to_string(), access: PathAccess::ReadWrite };
    for handled in [0u64, 13, 0x7fff, u64::MAX] {
        assert_eq!(path_rule_grant(&read_only, handled, false), None);
        assert_eq!(path_rule_grant(&read_write, handled, false), None);
        assert_eq!(path_rule_grant(&read_only, handled, true), Some(13));
        assert_eq!(path_rule_grant(&read_write, handled, true), Some(handled));
    }
    assert_eq!(
        path_rule_grant(&read_only, 0x7fff, true),
        Some((AccessFs::ReadFile | AccessFs::ReadDir | AccessFs::Execute).bits())
    );
}

#[test]
fn a_port_rule_grants_its_one_right() {
    let bind = PortRule { port: 80, access: PortAccess::Bind };
    let connect = PortRule { port: 80, access: PortAccess::Connect };
    assert_eq!(port_rule_grant(&bind), BitFlags::from(AccessNet::BindTcp).bits());
    assert_eq!(port_rule_grant(&connect), BitFlags::from(AccessNet::ConnectTcp).bits());
    assert_eq!(port_rule_grant(&bind), 1);
    assert_eq!(port_rule_grant(&connect), 2);
}

#[test]
fn rights_that_landlock_does_not_know_count_as_none() {
    let plan = RulesetPlan {
        filesystem_rights: Some(1 << 20),
        network_rights: Some(3),
        path_rules: Vec::new(),
        port_rules: Vec::new(),
    };
    assert!(matches!(plan.build(), Err(EnforcementError::HandleFilesystem { .. })));
    let plan = RulesetPlan {
        filesystem_rights: None,
        network_rights: Some(4),
        path_rules: Vec::new(),
        port_rules: Vec::new(),
    };
    assert!(matches!(plan.build(), Err(EnforcementError::HandleNetwork { .. })));
}

#[test]
fn a_refused_plan_restricts_nothing() {
    let nothing = RulesetPlan {
        filesystem_rights: None,
        network_rights: None,
        path_rules: Vec::new(),
        port_rules: Vec::new(),
    };
    assert!(matches!(
        nothing.restrict_current_process(),
        Err(EnforcementError::CreateRuleset { .. })
    ));
    let no_right = RulesetPlan {
        filesystem_rights: Some(0),
        network_rights: None,
        path_rules: Vec::new(),
        port_rules: Vec::new(),
    };
    assert!(matches!(
        no_right.restrict_current_process(),
        Err(EnforcementError::HandleFilesystem { .. })
    ));
    let no_network_right = RulesetPlan {
        filesystem_rights: None,
        network_rights: Some(0),
        path_rules: Vec::new(),
        port_rules: Vec::new(),
    };
    assert!(matches!(
        no_network_right.restrict_current_process(),
        Err(EnforcementError::HandleNetwork { .. })
    ));
}

#[test]
fn plans_of_policies_are_built() {
    for (disk, network) in [(true, false), (false, true), (true, true)] {
        let mut policy = AccessRestrictions::new(disk, network);
        policy.add_read_only_path("/usr");
        policy.add_read_write_path("/tmp");
        policy.add_read_only_path("/this/path/does/not/exist");
        policy.add_allowed_host("443");
        policy.add_allowed_host("example.com");
        let plan = RulesetPlan::for_policy(&policy);
        match plan.build() {
            Ok(_) => {}
            Err(e) => panic!("{}", e.message()),
        }
    }
}
