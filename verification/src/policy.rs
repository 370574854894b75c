//! The policy model: which restrictions a command is to run under, and how a
//! policy is derived from configuration.

use vstd::prelude::*;
use crate::text::{lemma_texts_push, texts};

verus! {

/// The kind of system that a command is about to run on.
#[derive(Debug, Clone, Copy, PartialEq, Eq, Structural)]
pub enum Platform {
    /// Linux, where Landlock can enforce a ruleset.
    Linux,
    /// Any other system: nothing there enforces a ruleset.
    Other,
}

/// The security section of a task's configuration. An absent field asks for
/// no restriction.
#[derive(Debug, Clone)]
pub struct SecurityConfig {
    pub restrict_disk: Option<bool>,
    pub restrict_network: Option<bool>,
    pub read_only_paths: Option<Vec<String>>,
    pub read_write_paths: Option<Vec<String>>,
    pub deny_paths: Option<Vec<String>>,
    pub allowed_hosts: Option<Vec<String>>,
    pub infer_from_inputs_outputs: Option<bool>,
}

/// The paths that a task declares it reads and writes.
#[derive(Debug, Clone)]
pub struct TaskConfig {
    pub inputs: Option<Vec<String>>,
    pub outputs: Option<Vec<String>>,
}

/// The restrictions under which a command is to run.
#[derive(Debug, Clone)]
pub struct AccessRestrictions {
    /// Restrict access to the filesystem.
    pub restrict_disk: bool,
    /// Restrict access to the network.
    pub restrict_network: bool,
    /// Paths that may be read.
    pub read_only_paths: Vec<String>,
    /// Paths that may be read and written.
    pub read_write_paths: Vec<String>,
    /// Paths that are refused. Recorded, and not enforced.
    pub deny_paths: Vec<String>,
    /// Allowed hosts: a TCP port in decimal is enforced; any other text is
    /// recorded and not enforced.
    pub allowed_hosts: Vec<String>,
    /// Observe what the command accesses in place of restricting it.
    pub audit_mode: bool,
}

/// A policy as plain values.
pub struct PolicyModel {
    pub restrict_disk: bool,
    pub restrict_network: bool,
    pub read_only_paths: Seq<Seq<char>>,
    pub read_write_paths: Seq<Seq<char>>,
    pub deny_paths: Seq<Seq<char>>,
    pub allowed_hosts: Seq<Seq<char>>,
    pub audit_mode: bool,
}

impl PolicyModel {
    /// Whether any restriction is active.
    pub open spec fn has_any_restrictions(self) -> bool {
        self.restrict_disk || self.restrict_network
    }

    /// The policy with the given flags and nothing else.
    pub open spec fn bare(restrict_disk: bool, restrict_network: bool) -> PolicyModel {
        PolicyModel {
            restrict_disk,
            restrict_network,
            read_only_paths: Seq::empty(),
            read_write_paths: Seq::empty(),
            deny_paths: Seq::empty(),
            allowed_hosts: Seq::empty(),
            audit_mode: false,
        }
    }
}

impl View for AccessRestrictions {
    type V = PolicyModel;

    open spec fn view(&self) -> PolicyModel {
        PolicyModel {
            restrict_disk: self.restrict_disk,
            restrict_network: self.restrict_network,
            read_only_paths: texts(self.read_only_paths@),
            read_write_paths: texts(self.read_write_paths@),
            deny_paths: texts(self.deny_paths@),
            allowed_hosts: texts(self.allowed_hosts@),
            audit_mode: self.audit_mode,
        }
    }
}

/// The texts of an optional list; none where the list is absent.
pub open spec fn texts_or_none(list: Option<Vec<String>>) -> Seq<Seq<char>> {
    match list {
        Some(v) => texts(v@),
        None => Seq::empty(),
    }
}

/// The flag, or `false` where it is absent.
pub open spec fn flag_or_false(flag: Option<bool>) -> bool {
    match flag {
        Some(b) => b,
        None => false,
    }
}

impl SecurityConfig {
    /// The policy that this configuration asks for by itself.
    pub open spec fn policy(&self) -> PolicyModel {
        PolicyModel {
            restrict_disk: flag_or_false(self.restrict_disk),
            restrict_network: flag_or_false(self.restrict_network),
            read_only_paths: texts_or_none(self.read_only_paths),
            read_write_paths: texts_or_none(self.read_write_paths),
            deny_paths: texts_or_none(self.deny_paths),
            allowed_hosts: texts_or_none(self.allowed_hosts),
            audit_mode: false,
        }
    }

    /// The policy that this configuration asks for, given what the task
    /// declares. With inference switched on, each input may be read, each
    /// output may be read and written, and the disk is restricted as soon as
    /// the task declares one path.
    pub open spec fn policy_for(&self, task: &TaskConfig) -> PolicyModel {
        let base = self.policy();
        if flag_or_false(self.infer_from_inputs_outputs) {
            PolicyModel {
                restrict_disk: base.restrict_disk || task.declares_paths(),
                read_only_paths: base.read_only_paths + texts_or_none(task.inputs),
                read_write_paths: base.read_write_paths + texts_or_none(task.outputs),
                ..base
            }
        } else {
            base
        }
    }
}

impl TaskConfig {
    /// Whether the task declares at least one input or output.
    pub open spec fn declares_paths(&self) -> bool {
        texts_or_none(self.inputs).len() > 0 || texts_or_none(self.outputs).len() > 0
    }
}

/// A copy of `list`.
fn copy_texts(list: &Vec<String>) -> (r: Vec<String>)
    ensures
        texts(r@) == texts(list@),
{
    let mut r: Vec<String> = Vec::new();
    let mut i: usize = 0;
    while i < list.len()
        invariant
            i <= list@.len(),
            texts(r@) == texts(list@).take(i as int),
        decreases list@.len() - i,
    {
        let ghost before = r@;
        let item = list[i].clone();
        assert(item@ == list@[i as int]@);
        r.push(item);
        proof {
            lemma_texts_push(before, item);
        }
        assert(texts(r@) =~= texts(list@).take(i + 1));
        i += 1;
    }
    assert(texts(list@).take(i as int) =~= texts(list@));
    r
}

/// A copy of `list`, empty where it is absent.
fn copy_or_empty(list: &Option<Vec<String>>) -> (r: Vec<String>)
    ensures
        texts(r@) == texts_or_none(*list),
{
    match list {
        Some(v) => copy_texts(v),
        None => {
            let r: Vec<String> = Vec::new();
            assert(texts(r@) =~= Seq::<Seq<char>>::empty());
            r
        },
    }
}

/// Appends a copy of each text of `list` to `to`.
fn append_texts(to: &mut Vec<String>, list: &Option<Vec<String>>)
    ensures
        texts(final(to)@) == texts(old(to)@) + texts_or_none(*list),
{
    match list {
        Some(v) => {
            let mut i: usize = 0;
            assert(texts(to@) =~= texts(old(to)@) + texts(v@).take(0));
            while i < v.len()
                invariant
                    i <= v@.len(),
                    texts(to@) == texts(old(to)@) + texts(v@).take(i as int),
                decreases v@.len() - i,
            {
                let ghost before = to@;
                let item = v[i].clone();
                to.push(item);
                proof {
                    lemma_texts_push(before, item);
                }
                assert(texts(to@) =~= texts(old(to)@) + texts(v@).take(i + 1));
                i += 1;
            }
            assert(texts(v@).take(i as int) =~= texts(v@));
        },
        None => {
            assert(texts(to@) =~= texts(old(to)@) + Seq::<Seq<char>>::empty());
        },
    }
}

impl AccessRestrictions {
    /// A policy with the given flags and no paths or hosts.
    pub fn new(restrict_disk: bool, restrict_network: bool) -> (r: AccessRestrictions)
        ensures
            r@ == PolicyModel::bare(restrict_disk, restrict_network),
    {
        let r = AccessRestrictions {
            restrict_disk,
            restrict_network,
            read_only_paths: Vec::new(),
            read_write_paths: Vec::new(),
            deny_paths: Vec::new(),
            allowed_hosts: Vec::new(),
            audit_mode: false,
        };
        assert(r@.read_only_paths =~= Seq::empty());
        assert(r@.read_write_paths =~= Seq::empty());
        assert(r@.deny_paths =~= Seq::empty());
        assert(r@.allowed_hosts =~= Seq::empty());
        r
    }

    /// A policy with the given flags and lists.
    pub fn with_allowlists(
        restrict_disk: bool,
        restrict_network: bool,
        read_only_paths: Vec<String>,
        read_write_paths: Vec<String>,
        deny_paths: Vec<String>,
        allowed_hosts: Vec<String>,
    ) -> (r: AccessRestrictions)
        ensures
            r@ == (PolicyModel {
                restrict_disk,
                restrict_network,
                read_only_paths: texts(read_only_paths@),
                read_write_paths: texts(read_write_paths@),
                deny_paths: texts(deny_paths@),
                allowed_hosts: texts(allowed_hosts@),
                audit_mode: false,
            }),
    {
        AccessRestrictions {
            restrict_disk,
            restrict_network,
            read_only_paths,
            read_write_paths,
            deny_paths,
            allowed_hosts,
            audit_mode: false,
        }
    }

    /// Allows reading `path` and what lies beneath it.
    pub fn add_read_only_path(&mut self, path: &str)
        ensures
            final(self)@ == (PolicyModel {
                read_only_paths: old(self)@.read_only_paths.push(path@),
                ..old(self)@
            }),
    {
        self.read_only_paths.push(path.to_owned());
        assert(self@.read_only_paths =~= old(self)@.read_only_paths.push(path@));
    }

    /// Allows reading and writing `path` and what lies beneath it.
    pub fn add_read_write_path(&mut self, path: &str)
        ensures
            final(self)@ == (PolicyModel {
                read_write_paths: old(self)@.read_write_paths.push(path@),
                ..old(self)@
            }),
    {
        self.read_write_paths.push(path.to_owned());
        assert(self@.read_write_paths =~= old(self)@.read_write_paths.push(path@));
    }

    /// Records `path` as refused.
    pub fn add_deny_path(&mut self, path: &str)
        ensures
            final(self)@ == (PolicyModel {
                deny_paths: old(self)@.deny_paths.push(path@),
                ..old(self)@
            }),
    {
        self.deny_paths.push(path.to_owned());
        assert(self@.deny_paths =~= old(self)@.deny_paths.push(path@));
    }

    /// Allows the network host `host`.
    pub fn add_allowed_host(&mut self, host: &str)
        ensures
            final(self)@ == (PolicyModel {
                allowed_hosts: old(self)@.allowed_hosts.push(host@),
                ..old(self)@
            }),
    {
        self.allowed_hosts.push(host.to_owned());
        assert(self@.allowed_hosts =~= old(self)@.allowed_hosts.push(host@));
    }

    /// Switches audit mode on.
    pub fn enable_audit_mode(&mut self)
        ensures
            final(self)@ == (PolicyModel { audit_mode: true, ..old(self)@ }),
    {
        self.audit_mode = true;
    }

    /// Whether any restriction is active.
    pub fn has_any_restrictions(&self) -> (b: bool)
        ensures
            b == (self.restrict_disk || self.restrict_network),
            b == self@.has_any_restrictions(),
    {
        self.restrict_disk || self.restrict_network
    }

    /// The policy that `security` asks for by itself.
    pub fn from_security_config(security: &SecurityConfig) -> (r: AccessRestrictions)
        ensures
            r@ == security.policy(),
    {
        AccessRestrictions {
            restrict_disk: match security.restrict_disk {
                Some(b) => b,
                None => false,
            },
            restrict_network: match security.restrict_network {
                Some(b) => b,
                None => false,
            },
            read_only_paths: copy_or_empty(&security.read_only_paths),
            read_write_paths: copy_or_empty(&security.read_write_paths),
            deny_paths: copy_or_empty(&security.deny_paths),
            allowed_hosts: copy_or_empty(&security.allowed_hosts),
            audit_mode: false,
        }
    }

    /// The policy that `security` asks for, given what the task declares.
    pub fn from_security_config_with_task(security: &SecurityConfig, task_config: &TaskConfig) -> (r:
        AccessRestrictions)
        ensures
            r@ == security.policy_for(task_config),
    {
        let mut restrictions = Self::from_security_config(security);
        let infer = match security.infer_from_inputs_outputs {
            Some(b) => b,
            None => false,
        };
        if infer {
            append_texts(&mut restrictions.read_only_paths, &task_config.inputs);
            append_texts(&mut restrictions.read_write_paths, &task_config.outputs);
            if declares_any(&task_config.inputs) || declares_any(&task_config.outputs) {
                restrictions.restrict_disk = true;
            }
        }
        restrictions
    }
}

/// Whether the list is there and holds at least one text.
fn declares_any(list: &Option<Vec<String>>) -> (b: bool)
    ensures
        b == (texts_or_none(*list).len() > 0),
{
    match list {
        Some(v) => v.len() > 0,
        None => false,
    }
}

impl Default for SecurityConfig {
    /// The configuration that asks for nothing.
    fn default() -> (r: SecurityConfig)
        ensures
            r.policy() == PolicyModel::bare(false, false),
            r.infer_from_inputs_outputs is None,
    {
        SecurityConfig {
            restrict_disk: None,
            restrict_network: None,
            read_only_paths: None,
            read_write_paths: None,
            deny_paths: None,
            allowed_hosts: None,
            infer_from_inputs_outputs: None,
        }
    }
}

impl Default for TaskConfig {
    /// The task that declares nothing.
    fn default() -> (r: TaskConfig)
        ensures
            r.inputs is None,
            r.outputs is None,
    {
        TaskConfig { inputs: None, outputs: None }
    }
}

impl Default for AccessRestrictions {
    /// The policy without any restriction.
    fn default() -> (r: AccessRestrictions)
        ensures
            r@ == PolicyModel::bare(false, false),
    {
        AccessRestrictions::new(false, false)
    }
}

/// With inference switched on and no paths of its own, a configuration
/// gives the policy whose readable paths are the task's inputs and whose
/// writable paths are its outputs; and a task that declares a path has the
/// disk restricted whatever the configuration says of `restrict_disk`.
pub proof fn law_inference_follows_the_task(security: SecurityConfig, task: TaskConfig)
    requires
        security.infer_from_inputs_outputs == Some(true),
    ensures
        task.declares_paths() ==> security.policy_for(&task).restrict_disk,
        security.read_only_paths is None ==> security.policy_for(&task).read_only_paths
            == texts_or_none(task.inputs),
        security.read_write_paths is None ==> security.policy_for(&task).read_write_paths
            == texts_or_none(task.outputs),
        security.policy_for(&task).restrict_network == security.policy().restrict_network,
        security.policy_for(&task).deny_paths == security.policy().deny_paths,
        security.policy_for(&task).allowed_hosts == security.policy().allowed_hosts,
{
    assert(Seq::<Seq<char>>::empty() + texts_or_none(task.inputs) =~= texts_or_none(task.inputs));
    assert(Seq::<Seq<char>>::empty() + texts_or_none(task.outputs) =~= texts_or_none(
        task.outputs,
    ));
}

/// A policy has a restriction exactly if it restricts the disk or the
/// network; lists and audit mode do not count.
pub proof fn law_restrictions_are_the_two_flags(policy: PolicyModel)
    ensures
        policy.has_any_restrictions() == (policy.restrict_disk || policy.restrict_network),
{
}

} // verus!
