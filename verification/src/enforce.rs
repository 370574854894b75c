//! Enforcement: what is to be done to a command under a policy, and the
//! step that installs a plan on the calling process through Landlock.

use vstd::prelude::*;
use vstd::string::StringExecFns;
use crate::error::Error;
use crate::kernel::{
    allow_beneath, allow_port, bind_tcp_right, connect_tcp_right, create_ruleset, enforcement,
    enforcement_of, error_text, execute_right, handle_filesystem, handle_network,
    known_filesystem, known_network, masks, new_ruleset, open_path, read_dir_right,
    read_file_right, requested, restrict_self, set_compatibility, Enforcement, Requirement,
};
use crate::plan::{
    path_rights, plan_of, port_rights, PathAccess, PathRule, PlanModel, PortAccess, PortRule,
    RulesetPlan,
};
use crate::policy::{AccessRestrictions, Platform, PolicyModel};
use crate::text::{contains, decimal, occurs_at, push_decimal};

verus! {

/// Where installing a ruleset failed.
#[derive(Debug, Clone)]
pub enum EnforcementError {
    /// The filesystem rights could not be declared as handled.
    HandleFilesystem { detail: String },
    /// The network rights could not be declared as handled.
    HandleNetwork { detail: String },
    /// The ruleset could not be created.
    CreateRuleset { detail: String },
    /// A path rule could not be added.
    AddPathRule { path: String, access: PathAccess, detail: String },
    /// A port rule could not be added.
    AddPortRule { port: u16, kind: PortAccess, detail: String },
    /// The ruleset could not be applied to the process.
    RestrictSelf { detail: String },
    /// The ruleset was applied and the kernel enforces none of it.
    NotEnforced,
}

/// The word for a path access in a message.
pub open spec fn path_access_word(access: PathAccess) -> Seq<char> {
    match access {
        PathAccess::ReadOnly => "read-only"@,
        PathAccess::ReadWrite => "read-write"@,
    }
}

/// The word for a port access in a message.
pub open spec fn port_access_word(access: PortAccess) -> Seq<char> {
    match access {
        PortAccess::Bind => "bind"@,
        PortAccess::Connect => "connect"@,
    }
}

impl EnforcementError {
    /// The text of the error's message.
    pub open spec fn message_text(self) -> Seq<char> {
        match self {
            EnforcementError::HandleFilesystem { detail } =>
                "Failed to configure filesystem access handling: "@ + detail@,
            EnforcementError::HandleNetwork { detail } =>
                "Failed to configure network access handling: "@ + detail@,
            EnforcementError::CreateRuleset { detail } => "Failed to create Landlock ruleset: "@
                + detail@,
            EnforcementError::AddPathRule { path, access, detail } => "Failed to add "@
                + path_access_word(access) + " rule for "@ + path@ + ": "@ + detail@,
            EnforcementError::AddPortRule { port, kind, detail } => "Failed to add "@
                + port_access_word(kind) + " rule for port "@ + decimal(port as nat) + ": "@
                + detail@,
            EnforcementError::RestrictSelf { detail } => "Failed to apply Landlock restrictions: "@
                + detail@,
            EnforcementError::NotEnforced => "Landlock is not supported by the running kernel."@,
        }
    }

    /// The error's message.
    pub fn message(&self) -> (m: String)
        ensures
            m@ == self.message_text(),
    {
        match self {
            EnforcementError::HandleFilesystem { detail } => String::from_str(
                "Failed to configure filesystem access handling: ",
            ).concat(detail.as_str()),
            EnforcementError::HandleNetwork { detail } => String::from_str(
                "Failed to configure network access handling: ",
            ).concat(detail.as_str()),
            EnforcementError::CreateRuleset { detail } => String::from_str(
                "Failed to create Landlock ruleset: ",
            ).concat(detail.as_str()),
            EnforcementError::AddPathRule { path, access, detail } => {
                let mut m = String::from_str("Failed to add ");
                match access {
                    PathAccess::ReadOnly => m.append("read-only"),
                    PathAccess::ReadWrite => m.append("read-write"),
                }
                m.append(" rule for ");
                m.append(path.as_str());
                m.append(": ");
                m.append(detail.as_str());
                assert(m@ =~= self.message_text());
                m
            },
            EnforcementError::AddPortRule { port, kind, detail } => {
                let mut m = String::from_str("Failed to add ");
                match kind {
                    PortAccess::Bind => m.append("bind"),
                    PortAccess::Connect => m.append("connect"),
                }
                m.append(" rule for port ");
                push_decimal(&mut m, *port as usize);
                m.append(": ");
                m.append(detail.as_str());
                assert(m@ =~= self.message_text());
                m
            },
            EnforcementError::RestrictSelf { detail } => String::from_str(
                "Failed to apply Landlock restrictions: ",
            ).concat(detail.as_str()),
            EnforcementError::NotEnforced => String::from_str(
                "Landlock is not supported by the running kernel.",
            ),
        }
    }
}

impl PlanModel {
    /// The filesystem rights that Landlock is asked to handle: those of the
    /// plan that Landlock knows, and none where the plan leaves the
    /// filesystem alone.
    pub open spec fn declared_filesystem(self) -> u64 {
        match self.filesystem_rights {
            Some(rights) => known_filesystem(rights),
            None => 0,
        }
    }

    /// The network rights that Landlock is asked to handle: those of the
    /// plan that Landlock knows, and none where the plan leaves the network
    /// alone.
    pub open spec fn declared_network(self) -> u64 {
        match self.network_rights {
            Some(rights) => known_network(rights),
            None => 0,
        }
    }

    /// The plan asks to handle the filesystem and names no right to handle.
    /// Landlock refuses that on every machine.
    pub open spec fn names_no_filesystem_right(self) -> bool {
        self.filesystem_rights is Some && self.declared_filesystem() == 0
    }

    /// The plan asks to handle the network and names no right to handle.
    /// Landlock refuses that on every machine.
    pub open spec fn names_no_network_right(self) -> bool {
        self.network_rights is Some && self.declared_network() == 0
    }

    /// The plan handles neither the filesystem nor the network. Landlock
    /// creates no ruleset for it, on any machine.
    pub open spec fn handles_nothing(self) -> bool {
        self.filesystem_rights is None && self.network_rights is None
    }

    /// Every port rule grants only rights among `handled`.
    pub open spec fn port_rules_within(self, handled: u64) -> bool {
        forall|i: int|
            0 <= i < self.port_rules.len() ==> port_rights((#[trigger] self.port_rules[i]).1)
                & !handled == 0
    }

    /// The plan handles the network and holds a port rule that grants a
    /// right which it does not handle. Landlock takes no such rule, on any
    /// machine.
    pub open spec fn has_port_rule_beyond(self) -> bool {
        self.network_rights is Some && !self.port_rules_within(self.declared_network())
    }

    /// What holds of the failure `e` where Landlock refuses this plan on
    /// every machine: it comes at the step that Landlock refuses, or at the
    /// one step that can come before it.
    pub open spec fn refused_as(self, e: EnforcementError) -> bool {
        if self.names_no_filesystem_right() {
            e is HandleFilesystem
        } else if self.names_no_network_right() {
            e is HandleFilesystem || e is HandleNetwork
        } else if self.handles_nothing() {
            e is CreateRuleset
        } else {
            true
        }
    }

    /// Landlock refuses this plan on every machine, whatever the kernel is.
    pub open spec fn is_refused(self) -> bool {
        ||| self.names_no_filesystem_right()
        ||| self.names_no_network_right()
        ||| self.handles_nothing()
        ||| self.has_port_rule_beyond()
    }

    /// The failures that installing this plan can end in: each names a step
    /// that the plan holds.
    pub open spec fn can_fail_with(self, e: EnforcementError) -> bool {
        match e {
            EnforcementError::HandleFilesystem { .. } => self.filesystem_rights is Some,
            EnforcementError::HandleNetwork { .. } => self.network_rights is Some,
            EnforcementError::CreateRuleset { .. } => true,
            EnforcementError::AddPathRule { path, access, .. } => self.filesystem_rights is Some
                && self.path_rules.contains((path@, access)),
            EnforcementError::AddPortRule { port, kind, .. } => self.network_rights is Some
                && self.port_rules.contains((port, kind)),
            EnforcementError::RestrictSelf { .. } => true,
            EnforcementError::NotEnforced => true,
        }
    }
}

/// What an enforcement status means for the process: a ruleset of which the
/// kernel enforces nothing is a failure, never a silent pass.
pub fn enforcement_verdict(status: Enforcement) -> (r: Result<(), EnforcementError>)
    ensures
        r is Err <==> status == Enforcement::Nothing,
        r matches Err(e) ==> e is NotEnforced,
{
    match status {
        Enforcement::Nothing => Err(EnforcementError::NotEnforced),
        _ => Ok(()),
    }
}

/// What one path rule comes to once its path was tried: the rights to grant
/// on the path and beneath it, or nothing where the path could not be
/// opened. Such a path is passed over, and the rule with it.
pub fn path_rule_grant(rule: &PathRule, handled: u64, opened: bool) -> (grant: Option<u64>)
    ensures
        grant == if opened {
            Some(path_rights(rule.access, handled))
        } else {
            None::<u64>
        },
{
    if opened {
        Some(
            match rule.access {
                PathAccess::ReadOnly => execute_right() | read_file_right() | read_dir_right(),
                PathAccess::ReadWrite => handled,
            },
        )
    } else {
        None
    }
}

/// The rights that one port rule grants on its port.
pub fn port_rule_grant(rule: &PortRule) -> (grant: u64)
    ensures
        grant == port_rights(rule.access),
{
    match rule.access {
        PortAccess::Bind => bind_tcp_right(),
        PortAccess::Connect => connect_tcp_right(),
    }
}

/// Adds the path rules of `plan` to `ruleset`, in order: each path is tried,
/// and `path_rule_grant` says what is granted on it. The first rule that
/// Landlock does not take ends it. A plan without path rules gives the
/// ruleset back as it came, and a ruleset that comes back was asked to handle
/// what it was before.
fn add_path_rules(ruleset: landlock::RulesetCreated, plan: &RulesetPlan, handled: u64) -> (r:
    Result<landlock::RulesetCreated, EnforcementError>)
    requires
        plan.filesystem_rights is Some,
    ensures
        r matches Err(e) ==> e is AddPathRule && plan@.can_fail_with(e),
        r matches Ok(next) ==> requested(next) == requested(ruleset),
        plan@.path_rules.len() == 0 ==> r == Ok::<landlock::RulesetCreated, EnforcementError>(
            ruleset,
        ),
{
    let mut current = ruleset;
    let mut i: usize = 0;
    while i < plan.path_rules.len()
        invariant
            i <= plan.path_rules@.len(),
            plan.filesystem_rights is Some,
            requested(current) == requested(ruleset),
            i == 0 ==> current == ruleset,
        decreases plan.path_rules@.len() - i,
    {
        let rule = &plan.path_rules[i];
        let path = open_path(rule.path.as_str());
        match path_rule_grant(rule, handled, path.is_some()) {
            Some(rights) => {
                match allow_beneath(current, path.unwrap(), rights) {
                    Ok(next) => {
                        current = next;
                    },
                    Err(e) => {
                        let failure = EnforcementError::AddPathRule {
                            path: rule.path.clone(),
                            access: rule.access,
                            detail: error_text(&e),
                        };
                        assert(plan@.path_rules[i as int] == (rule.path@, rule.access));
                        return Err(failure);
                    },
                }
            },
            None => {},
        }
        i += 1;
    }
    Ok(current)
}

/// Adds the port rules of `plan` to `ruleset`, in order. The first rule that
/// Landlock does not take ends it, and Landlock takes no rule that grants a
/// right which the ruleset was not asked to handle. A plan without port
/// rules gives the ruleset back as it came, and a ruleset that comes back was
/// asked to handle what it was before.
fn add_port_rules(ruleset: landlock::RulesetCreated, plan: &RulesetPlan) -> (r: Result<
    landlock::RulesetCreated,
    EnforcementError,
>)
    requires
        plan.network_rights is Some,
    ensures
        r matches Err(e) ==> e is AddPortRule && plan@.can_fail_with(e),
        r matches Ok(next) ==> requested(next) == requested(ruleset) && plan@.port_rules_within(
            requested(ruleset)[1],
        ),
        plan@.port_rules.len() == 0 ==> r == Ok::<landlock::RulesetCreated, EnforcementError>(
            ruleset,
        ),
{
    let mut current = ruleset;
    let mut i: usize = 0;
    assert(known_network(1) == 1 && known_network(2) == 2) by {
        assert(1u64 & 3u64 == 1u64 && 2u64 & 3u64 == 2u64) by (bit_vector);
    }
    while i < plan.port_rules.len()
        invariant
            i <= plan.port_rules@.len(),
            plan.network_rights is Some,
            requested(current) == requested(ruleset),
            i == 0 ==> current == ruleset,
            known_network(1) == 1 && known_network(2) == 2,
            forall|j: int|
                0 <= j < i ==> port_rights((#[trigger] plan@.port_rules[j]).1) & !requested(
                    ruleset,
                )[1] == 0,
        decreases plan.port_rules@.len() - i,
    {
        let rule = plan.port_rules[i];
        assert(plan@.port_rules[i as int] == (rule.port, rule.access));
        match allow_port(current, rule.port, port_rule_grant(&rule)) {
            Ok(next) => {
                current = next;
            },
            Err(e) => {
                return Err(
                    EnforcementError::AddPortRule {
                        port: rule.port,
                        kind: rule.access,
                        detail: error_text(&e),
                    },
                );
            },
        }
        i += 1;
    }
    Ok(current)
}

impl RulesetPlan {
    /// Builds the kernel ruleset of this plan: declares the handled rights,
    /// creates the ruleset, then adds the path rules and the port rules in
    /// order. The first step that fails ends it, and the failure names that
    /// step. A plan that names no right to handle, handles nothing, or
    /// holds a port rule beyond the rights it handles fails on every
    /// machine. A ruleset that is built was asked to handle the rights of
    /// the plan and no other.
    pub fn build(&self) -> (r: Result<landlock::RulesetCreated, EnforcementError>)
        ensures
            r matches Err(e) ==> self@.can_fail_with(e) && self@.refused_as(e) && !(e
                is RestrictSelf) && !(e is NotEnforced),
            self@.is_refused() ==> r is Err,
            r matches Ok(ruleset) ==> requested(ruleset) == masks(
                self@.declared_filesystem(),
                self@.declared_network(),
            ),
    {
        let mut ruleset = new_ruleset();
        assert(forall|k: u64| 0u64 | k == k) by (bit_vector);
        match self.filesystem_rights {
            Some(rights) => {
                match handle_filesystem(ruleset, rights) {
                    Ok(next) => {
                        ruleset = next;
                    },
                    Err(e) => {
                        return Err(EnforcementError::HandleFilesystem { detail: error_text(&e) });
                    },
                }
            },
            None => {},
        }
        match self.network_rights {
            Some(rights) => {
                match handle_network(ruleset, rights) {
                    Ok(next) => {
                        ruleset = next;
                    },
                    Err(e) => {
                        return Err(EnforcementError::HandleNetwork { detail: error_text(&e) });
                    },
                }
            },
            None => {},
        }
        let mut created = match create_ruleset(ruleset) {
            Ok(created) => created,
            Err(e) => {
                return Err(EnforcementError::CreateRuleset { detail: error_text(&e) });
            },
        };
        match self.filesystem_rights {
            Some(handled) => {
                created = add_path_rules(created, self, handled)?;
            },
            None => {},
        }
        match self.network_rights {
            Some(_) => {
                created = add_port_rules(created, self)?;
            },
            None => {},
        }
        Ok(created)
    }

    /// Restricts the calling process to this plan, for the rest of its life,
    /// and gives Landlock's status of it. Meant for the child between its
    /// duplication and the replacement of its image: on `Err` the child must
    /// end there, unsandboxed as it is. A status that says that nothing is
    /// enforced is a failure, so the status of a success says that the
    /// ruleset is enforced, in full or in part. A plan that Landlock refuses
    /// on every machine fails before anything is applied to the process.
    pub fn restrict_current_process(&self) -> (r: Result<
        landlock::RestrictionStatus,
        EnforcementError,
    >)
        ensures
            r matches Err(e) ==> self@.can_fail_with(e) && (self@.is_refused()
                ==> self@.refused_as(e) && !(e is RestrictSelf) && !(e is NotEnforced)),
            self@.is_refused() ==> r is Err,
            r matches Ok(status) ==> enforcement_of(status) != Enforcement::Nothing,
    {
        let ruleset = self.build()?;
        match restrict_self(ruleset) {
            Ok(status) => {
                match enforcement_verdict(enforcement(&status)) {
                    Ok(()) => Ok(status),
                    Err(e) => Err(e),
                }
            },
            Err(e) => Err(EnforcementError::RestrictSelf { detail: error_text(&e) }),
        }
    }
}

/// What is to be done to a command before it is launched.
#[derive(Debug, Clone)]
pub enum CommandSetup {
    /// Nothing: the command runs as it is.
    Unchanged,
    /// The child restricts itself to this plan after it is duplicated and
    /// before its image is replaced.
    Restrict(RulesetPlan),
}

/// The message of the error that refuses restrictions on a platform that
/// cannot enforce them.
pub open spec fn unsupported_platform_message() -> Seq<char> {
    "Access restrictions are only supported on Linux with Landlock. Please use a Linux system with kernel 5.13+ for sandboxing support."@
}

/// What applying `policy` to a command on `platform` comes to: nothing
/// without an active restriction; with one, the plan of the policy on
/// Linux, and a refusal anywhere else.
pub open spec fn setup_of(policy: PolicyModel, platform: Platform) -> Result<
    Option<PlanModel>,
    Seq<char>,
> {
    if !policy.has_any_restrictions() {
        Ok(None)
    } else if platform == Platform::Linux {
        Ok(Some(plan_of(policy)))
    } else {
        Err(unsupported_platform_message())
    }
}

impl CommandSetup {
    /// The plan to install, if any.
    pub open spec fn plan(self) -> Option<PlanModel> {
        match self {
            CommandSetup::Unchanged => None,
            CommandSetup::Restrict(plan) => Some(plan@),
        }
    }
}

impl AccessRestrictions {
    /// Whether this system can enforce restrictions at all. Asks Landlock,
    /// under the requirement that the kernel meet the request, for a ruleset
    /// that handles the one right to execute a file, which every version of
    /// the kernel interface knows. The answer is the kernel's: nothing is
    /// stated of it. A negative answer is for information and is no error,
    /// and the calling process is not restricted either way.
    pub fn is_landlock_supported() -> bool {
        let ruleset = set_compatibility(new_ruleset(), Requirement::Hard);
        match handle_filesystem(ruleset, execute_right()) {
            Ok(declared) => create_ruleset(declared).is_ok(),
            Err(_) => false,
        }
    }

    /// Decides what is to be done to a command before it is launched under
    /// this policy. A policy without restrictions leaves it unchanged. With
    /// a restriction, Linux gets the plan to install in the child; any other
    /// platform gets a configuration error, so that the command never runs
    /// unsandboxed after a restriction was asked for.
    pub fn apply_to_command(&self, platform: Platform) -> (r: Result<CommandSetup, Error>)
        ensures
            match setup_of(self@, platform) {
                Ok(plan) => r matches Ok(setup) && setup.plan() == plan && (setup is Unchanged
                    <==> plan is None),
                Err(message) => r matches Err(e) && e is Configuration && e.message_text()
                    == message,
            },
    {
        if !self.has_any_restrictions() {
            return Ok(CommandSetup::Unchanged);
        }
        match platform {
            Platform::Linux => Ok(CommandSetup::Restrict(RulesetPlan::for_policy(self))),
            Platform::Other => Err(
                Error::configuration(
                    String::from_str(
                        "Access restrictions are only supported on Linux with Landlock. Please use a Linux system with kernel 5.13+ for sandboxing support.",
                    ),
                ),
            ),
        }
    }
}

/// The plan of a policy that restricts the disk or the network is none of
/// those that Landlock refuses on every machine: whether it is installed is
/// for the kernel to say.
pub proof fn law_policy_plans_are_not_refused(policy: PolicyModel)
    requires
        policy.restrict_disk || policy.restrict_network,
    ensures
        !plan_of(policy).is_refused(),
{
    assert(0x7fffu64 & 0x1_ffffu64 != 0) by (bit_vector);
    assert((1u64 | 2u64) & 3u64 != 0) by (bit_vector);
    assert(1u64 & !((1u64 | 2u64) & 3u64) == 0) by (bit_vector);
    assert(2u64 & !((1u64 | 2u64) & 3u64) == 0) by (bit_vector);
}

/// A policy without an active restriction leaves the command unchanged and
/// never fails, on every platform.
pub proof fn law_no_restriction_no_change(policy: PolicyModel, platform: Platform)
    requires
        !policy.restrict_disk,
        !policy.restrict_network,
    ensures
        setup_of(policy, platform) == Ok::<Option<PlanModel>, Seq<char>>(None),
{
}

/// On a platform that cannot enforce, a policy that restricts the disk or
/// the network is refused, and the refusal says that restrictions are only
/// supported on Linux.
pub proof fn law_unsupported_platform_refuses(policy: PolicyModel)
    requires
        policy.restrict_disk || policy.restrict_network,
    ensures
        setup_of(policy, Platform::Other) == Err::<Option<PlanModel>, Seq<char>>(
            unsupported_platform_message(),
        ),
        contains(unsupported_platform_message(), "only supported on Linux"@),
{
    reveal_strlit(
        "Access restrictions are only supported on Linux with Landlock. Please use a Linux system with kernel 5.13+ for sandboxing support.",
    );
    reveal_strlit("only supported on Linux");
    let message = unsupported_platform_message();
    let part = "only supported on Linux"@;
    assert(message.subrange(24, 24 + part.len() as int) =~= part);
    assert(occurs_at(message, part, 24));
}

} // verus!
