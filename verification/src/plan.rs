//! The kernel ruleset that a policy stands for: the rights it handles and
//! the rules that give some of them back.

use vstd::prelude::*;
use crate::kernel::{bind_tcp_right, connect_tcp_right, filesystem_rights_known_to};
use crate::policy::{AccessRestrictions, PolicyModel};
use crate::text::{chars_of, parse_port, port_of, texts};

verus! {

/// Landlock's bit for the right to execute a file.
pub const EXECUTE: u64 = 1;

/// Landlock's bit for the right to open a file for reading.
pub const READ_FILE: u64 = 4;

/// Landlock's bit for the right to open a directory or list it.
pub const READ_DIR: u64 = 8;

/// Landlock's bit for the right to bind to a TCP port.
pub const BIND_TCP: u64 = 1;

/// Landlock's bit for the right to connect to a TCP port.
pub const CONNECT_TCP: u64 = 2;

/// The level of the kernel interface that rulesets are written for.
pub const INTERFACE_LEVEL: i32 = 4;

/// The filesystem rights that a level of the kernel interface knows, as a bit
/// mask: thirteen rights at level 1, then one more at each of the levels 2,
/// 3, 5 and 9.
pub open spec fn filesystem_rights_of(level: int) -> u64 {
    if level <= 0 {
        0
    } else if level == 1 {
        0x1fff
    } else if level == 2 {
        0x3fff
    } else if level <= 4 {
        0x7fff
    } else if level <= 8 {
        0xffff
    } else {
        0x1_ffff
    }
}

/// The rights that a path rule may grant.
#[derive(Debug, Clone, Copy, PartialEq, Eq, Structural)]
pub enum PathAccess {
    /// Read files, list directories, execute.
    ReadOnly,
    /// Every filesystem right that the ruleset handles.
    ReadWrite,
}

/// The rights that a port rule may grant.
#[derive(Debug, Clone, Copy, PartialEq, Eq, Structural)]
pub enum PortAccess {
    /// Bind to the port.
    Bind,
    /// Connect to the port.
    Connect,
}

/// The bit mask of a path rule, in a ruleset that handles `handled`.
pub open spec fn path_rights(access: PathAccess, handled: u64) -> u64 {
    match access {
        PathAccess::ReadOnly => EXECUTE | READ_FILE | READ_DIR,
        PathAccess::ReadWrite => handled,
    }
}

/// The bit mask of a port rule.
pub open spec fn port_rights(access: PortAccess) -> u64 {
    match access {
        PortAccess::Bind => BIND_TCP,
        PortAccess::Connect => CONNECT_TCP,
    }
}

/// One filesystem rule: `access` on `path` and on everything beneath it.
#[derive(Debug, Clone)]
pub struct PathRule {
    pub path: String,
    pub access: PathAccess,
}

/// One network rule: `access` on the TCP port `port`.
#[derive(Debug, Clone, Copy)]
pub struct PortRule {
    pub port: u16,
    pub access: PortAccess,
}

/// The ruleset that a policy stands for: which rights it handles, and the
/// rules that give some of them back.
#[derive(Debug, Clone)]
pub struct RulesetPlan {
    /// The filesystem rights to handle; `None` leaves the filesystem alone.
    pub filesystem_rights: Option<u64>,
    /// The network rights to handle; `None` leaves the network alone.
    pub network_rights: Option<u64>,
    pub path_rules: Vec<PathRule>,
    pub port_rules: Vec<PortRule>,
}

/// A plan as plain values.
pub struct PlanModel {
    pub filesystem_rights: Option<u64>,
    pub network_rights: Option<u64>,
    pub path_rules: Seq<(Seq<char>, PathAccess)>,
    pub port_rules: Seq<(u16, PortAccess)>,
}

impl View for PathRule {
    type V = (Seq<char>, PathAccess);

    open spec fn view(&self) -> (Seq<char>, PathAccess) {
        (self.path@, self.access)
    }
}

impl View for PortRule {
    type V = (u16, PortAccess);

    open spec fn view(&self) -> (u16, PortAccess) {
        (self.port, self.access)
    }
}

/// The view of each path rule.
pub open spec fn path_rule_views(rules: Seq<PathRule>) -> Seq<(Seq<char>, PathAccess)> {
    Seq::new(rules.len(), |i: int| rules[i]@)
}

/// The view of each port rule.
pub open spec fn port_rule_views(rules: Seq<PortRule>) -> Seq<(u16, PortAccess)> {
    Seq::new(rules.len(), |i: int| rules[i]@)
}

impl View for RulesetPlan {
    type V = PlanModel;

    open spec fn view(&self) -> PlanModel {
        PlanModel {
            filesystem_rights: self.filesystem_rights,
            network_rights: self.network_rights,
            path_rules: path_rule_views(self.path_rules@),
            port_rules: port_rule_views(self.port_rules@),
        }
    }
}

/// One rule with the given access for each path, in order.
pub open spec fn path_rules_for(paths: Seq<Seq<char>>, access: PathAccess) -> Seq<
    (Seq<char>, PathAccess),
> {
    Seq::new(paths.len(), |i: int| (paths[i], access))
}

/// The port rules of a list of allowed hosts: a host that writes a port
/// gives a bind rule and a connect rule for it, in that order; any other
/// host gives none.
pub open spec fn port_rules_for(hosts: Seq<Seq<char>>) -> Seq<(u16, PortAccess)>
    decreases hosts.len(),
{
    if hosts.len() == 0 {
        Seq::empty()
    } else {
        let before = port_rules_for(hosts.drop_last());
        match port_of(hosts.last()) {
            Some(port) => before.push((port, PortAccess::Bind)).push((port, PortAccess::Connect)),
            None => before,
        }
    }
}

/// The ruleset that `policy` stands for. Disk rules exist only under
/// `restrict_disk`, network rules only under `restrict_network`, and denied
/// paths give no rule.
pub open spec fn plan_of(policy: PolicyModel) -> PlanModel {
    PlanModel {
        filesystem_rights: if policy.restrict_disk {
            Some(filesystem_rights_of(INTERFACE_LEVEL as int))
        } else {
            None
        },
        network_rights: if policy.restrict_network {
            Some(BIND_TCP | CONNECT_TCP)
        } else {
            None
        },
        path_rules: if policy.restrict_disk {
            path_rules_for(policy.read_only_paths, PathAccess::ReadOnly) + path_rules_for(
                policy.read_write_paths,
                PathAccess::ReadWrite,
            )
        } else {
            Seq::empty()
        },
        port_rules: if policy.restrict_network {
            port_rules_for(policy.allowed_hosts)
        } else {
            Seq::empty()
        },
    }
}

/// Appends one rule with the given access for each path.
fn push_path_rules(rules: &mut Vec<PathRule>, paths: &Vec<String>, access: PathAccess)
    ensures
        path_rule_views(final(rules)@) == path_rule_views(old(rules)@) + path_rules_for(
            texts(paths@),
            access,
        ),
{
    let mut i: usize = 0;
    while i < paths.len()
        invariant
            i <= paths@.len(),
            path_rule_views(rules@) == path_rule_views(old(rules)@) + path_rules_for(
                texts(paths@),
                access,
            ).take(i as int),
        decreases paths@.len() - i,
    {
        let ghost before = rules@;
        let rule = PathRule { path: paths[i].clone(), access };
        rules.push(rule);
        assert(path_rule_views(rules@) =~= path_rule_views(before).push(rule@));
        assert(path_rule_views(rules@) =~= path_rule_views(old(rules)@) + path_rules_for(
            texts(paths@),
            access,
        ).take(i + 1));
        i += 1;
    }
    assert(path_rules_for(texts(paths@), access).take(i as int) =~= path_rules_for(
        texts(paths@),
        access,
    ));
}

/// The port rules of a list of allowed hosts.
fn port_rules(hosts: &Vec<String>) -> (rules: Vec<PortRule>)
    ensures
        port_rule_views(rules@) == port_rules_for(texts(hosts@)),
{
    let mut rules: Vec<PortRule> = Vec::new();
    let mut i: usize = 0;
    assert(port_rule_views(rules@) =~= port_rules_for(texts(hosts@).take(0)));
    while i < hosts.len()
        invariant
            i <= hosts@.len(),
            port_rule_views(rules@) == port_rules_for(texts(hosts@).take(i as int)),
        decreases hosts@.len() - i,
    {
        let ghost before = rules@;
        let ghost upto = texts(hosts@).take(i + 1);
        assert(upto.drop_last() =~= texts(hosts@).take(i as int));
        assert(upto.last() == hosts@[i as int]@);
        let host = chars_of(hosts[i].as_str());
        match parse_port(&host) {
            Some(port) => {
                let bind = PortRule { port, access: PortAccess::Bind };
                let connect = PortRule { port, access: PortAccess::Connect };
                rules.push(bind);
                rules.push(connect);
                assert(port_rule_views(rules@) =~= port_rule_views(before).push(bind@).push(
                    connect@,
                ));
            },
            None => {},
        }
        i += 1;
    }
    assert(texts(hosts@).take(i as int) =~= texts(hosts@));
    rules
}

impl RulesetPlan {
    /// The ruleset that `policy` stands for.
    pub fn for_policy(policy: &AccessRestrictions) -> (plan: RulesetPlan)
        ensures
            plan@ == plan_of(policy@),
    {
        let mut path_rules: Vec<PathRule> = Vec::new();
        assert(path_rule_views(path_rules@) =~= Seq::empty());
        let mut filesystem_rights: Option<u64> = None;
        if policy.restrict_disk {
            filesystem_rights = Some(filesystem_rights_known_to(INTERFACE_LEVEL));
            push_path_rules(&mut path_rules, &policy.read_only_paths, PathAccess::ReadOnly);
            push_path_rules(&mut path_rules, &policy.read_write_paths, PathAccess::ReadWrite);
            assert(path_rule_views(path_rules@) =~= plan_of(policy@).path_rules);
        }
        let mut port_rules: Vec<PortRule> = Vec::new();
        assert(port_rule_views(port_rules@) =~= Seq::empty());
        let mut network_rights: Option<u64> = None;
        if policy.restrict_network {
            network_rights = Some(bind_tcp_right() | connect_tcp_right());
            port_rules = self::port_rules(&policy.allowed_hosts);
        }
        RulesetPlan { filesystem_rights, network_rights, path_rules, port_rules }
    }
}

/// `rights` holds no right outside `handled`, and something is handled.
pub open spec fn within_handled(rights: u64, handled: Option<u64>) -> bool {
    match handled {
        Some(h) => rights & !h == 0,
        None => false,
    }
}

/// The bit mask of a path rule of `plan`.
pub open spec fn rule_rights(plan: PlanModel, access: PathAccess) -> u64 {
    match plan.filesystem_rights {
        Some(h) => path_rights(access, h),
        None => 0,
    }
}

/// Every rule of a policy's plan grants only rights that the plan handles,
/// so no rule is refused for granting an unhandled right.
pub proof fn law_rules_within_handled_rights(policy: PolicyModel)
    ensures
        forall|i: int|
            0 <= i < plan_of(policy).path_rules.len() ==> within_handled(
                rule_rights(plan_of(policy), (#[trigger] plan_of(policy).path_rules[i]).1),
                plan_of(policy).filesystem_rights,
            ),
        forall|i: int|
            0 <= i < plan_of(policy).port_rules.len() ==> within_handled(
                port_rights((#[trigger] plan_of(policy).port_rules[i]).1),
                plan_of(policy).network_rights,
            ),
{
    assert((1u64 | 4u64 | 8u64) & !0x7fffu64 == 0) by (bit_vector);
    assert(0x7fffu64 & !0x7fffu64 == 0) by (bit_vector);
    assert(1u64 & !(1u64 | 2u64) == 0) by (bit_vector);
    assert(2u64 & !(1u64 | 2u64) == 0) by (bit_vector);
}

/// Denied paths are recorded and give no rule: the plan does not depend on
/// them.
pub proof fn law_denied_paths_give_no_rule(policy: PolicyModel, denied: Seq<Seq<char>>)
    ensures
        plan_of(PolicyModel { deny_paths: denied, ..policy }) == plan_of(policy),
{
}

/// An allowed host that does not write a port gives no rule; one that does
/// gives a bind rule and a connect rule for that port.
pub proof fn law_host_rules(hosts: Seq<Seq<char>>, host: Seq<char>)
    ensures
        port_of(host) is None ==> port_rules_for(hosts.push(host)) == port_rules_for(hosts),
        port_of(host) matches Some(port) ==> port_rules_for(hosts.push(host)) == port_rules_for(
            hosts,
        ) + seq![(port, PortAccess::Bind), (port, PortAccess::Connect)],
{
    assert(hosts.push(host).drop_last() =~= hosts);
    assert(hosts.push(host).last() == host);
    if let Some(port) = port_of(host) {
        assert(port_rules_for(hosts).push((port, PortAccess::Bind)).push(
            (port, PortAccess::Connect),
        ) =~= port_rules_for(hosts) + seq![(port, PortAccess::Bind), (port, PortAccess::Connect)]);
    }
}

/// Without `restrict_disk` a plan holds no path rule, and without
/// `restrict_network` no port rule, whatever the lists hold.
pub proof fn law_rules_follow_flags(policy: PolicyModel)
    ensures
        !policy.restrict_disk ==> plan_of(policy).path_rules.len() == 0 && plan_of(
            policy,
        ).filesystem_rights is None,
        !policy.restrict_network ==> plan_of(policy).port_rules.len() == 0 && plan_of(
            policy,
        ).network_rights is None,
{
}

} // verus!
