//! Landlock, as far as this library calls it. Nothing here is proved: each
//! item states what is taken on trust from the `landlock` crate.

use vstd::prelude::*;
use landlock::{Access, Compatible, RulesetAttr, RulesetCreatedAttr};
use crate::plan::{filesystem_rights_of, BIND_TCP, CONNECT_TCP, EXECUTE, READ_DIR, READ_FILE};

verus! {

/// Landlock's builder of a ruleset, before the kernel object exists.
#[verifier::external_type_specification]
#[verifier::external_body]
pub struct ExRuleset(landlock::Ruleset);

/// Landlock's ruleset, once created.
#[verifier::external_type_specification]
#[verifier::external_body]
pub struct ExRulesetCreated(landlock::RulesetCreated);

/// Landlock's error.
#[verifier::external_type_specification]
#[verifier::external_body]
pub struct ExRulesetError(landlock::RulesetError);

/// Landlock's report of what `restrict_self` came to.
#[verifier::external_type_specification]
#[verifier::external_body]
pub struct ExRestrictionStatus(landlock::RestrictionStatus);

/// Landlock's handle on an opened path.
#[verifier::external_type_specification]
#[verifier::external_body]
pub struct ExPathFd(landlock::PathFd);

/// The rights that a ruleset under construction has been asked to handle, as
/// two bit masks: the filesystem rights, then the network rights. These are
/// the sets that Landlock keeps of what `handle_access` was given.
pub uninterp spec fn declared(ruleset: landlock::Ruleset) -> Seq<u64>;

/// Nothing has been asked of the ruleset yet: it is as `Ruleset::default`
/// made it.
pub uninterp spec fn untouched(ruleset: landlock::Ruleset) -> bool;

/// The rights that a created ruleset was asked to handle, as two bit masks:
/// the filesystem rights, then the network rights. Landlock holds a rule
/// against them before it adds the rule. A kernel that knows fewer rights
/// handles fewer.
pub uninterp spec fn requested(ruleset: landlock::RulesetCreated) -> Seq<u64>;

/// How far the kernel enforces the ruleset, as the status says in its field
/// `ruleset`.
pub uninterp spec fn enforcement_of(status: landlock::RestrictionStatus) -> Enforcement;

/// Two bit masks in the order in which `declared` and `requested` give them.
pub open spec fn masks(filesystem: u64, network: u64) -> Seq<u64> {
    seq![filesystem, network]
}

/// The part of `rights` that names filesystem rights which Landlock knows.
pub open spec fn known_filesystem(rights: u64) -> u64 {
    rights & 0x1_ffff
}

/// The part of `rights` that names network rights which Landlock knows.
pub open spec fn known_network(rights: u64) -> u64 {
    rights & 3
}

/// `AccessFs::from_all` on `ABI::from(level)`, as a bit mask: the rights
/// that Landlock lists for that level of the kernel interface.
#[verifier::external_body]
pub(crate) fn filesystem_rights_known_to(level: i32) -> (rights: u64)
    ensures
        rights == filesystem_rights_of(level as int),
{
    landlock::AccessFs::from_all(landlock::ABI::from(level)).bits()
}

/// How far the kernel enforces a ruleset that was applied.
#[derive(Debug, Clone, Copy, PartialEq, Eq, Structural)]
pub enum Enforcement {
    /// Every requested restriction is enforced.
    Full,
    /// Some of the requested restrictions are enforced.
    Partial,
    /// Nothing is enforced.
    Nothing,
}

/// `AccessFs::Execute`, as Landlock's bit for it.
#[verifier::external_body]
pub(crate) fn execute_right() -> (right: u64)
    ensures
        right == EXECUTE,
{
    landlock::BitFlags::from(landlock::AccessFs::Execute).bits()
}

/// `AccessFs::ReadFile`, as Landlock's bit for it.
#[verifier::external_body]
pub(crate) fn read_file_right() -> (right: u64)
    ensures
        right == READ_FILE,
{
    landlock::BitFlags::from(landlock::AccessFs::ReadFile).bits()
}

/// `AccessFs::ReadDir`, as Landlock's bit for it.
#[verifier::external_body]
pub(crate) fn read_dir_right() -> (right: u64)
    ensures
        right == READ_DIR,
{
    landlock::BitFlags::from(landlock::AccessFs::ReadDir).bits()
}

/// `AccessNet::BindTcp`, as Landlock's bit for it.
#[verifier::external_body]
pub(crate) fn bind_tcp_right() -> (right: u64)
    ensures
        right == BIND_TCP,
{
    landlock::BitFlags::from(landlock::AccessNet::BindTcp).bits()
}

/// `AccessNet::ConnectTcp`, as Landlock's bit for it.
#[verifier::external_body]
pub(crate) fn connect_tcp_right() -> (right: u64)
    ensures
        right == CONNECT_TCP,
{
    landlock::BitFlags::from(landlock::AccessNet::ConnectTcp).bits()
}

/// What Landlock does with a request that the running kernel cannot meet.
#[derive(Debug, Clone, Copy, PartialEq, Eq, Structural)]
pub enum Requirement {
    /// Pass over what the kernel cannot do, and go on.
    BestEffort,
    /// Pass over what the kernel cannot do, and the whole ruleset with it.
    Soft,
    /// Fail on what the kernel cannot do.
    Hard,
}

/// `Compatible::set_compatibility` on a ruleset under construction: sets how
/// the requests that follow are held to the kernel. What was asked of the
/// ruleset so far stays as it is.
#[verifier::external_body]
pub(crate) fn set_compatibility(ruleset: landlock::Ruleset, level: Requirement) -> (next:
    landlock::Ruleset)
    ensures
        declared(next) == declared(ruleset),
        untouched(next) == untouched(ruleset),
{
    ruleset.set_compatibility(
        match level {
            Requirement::BestEffort => landlock::CompatLevel::BestEffort,
            Requirement::Soft => landlock::CompatLevel::SoftRequirement,
            Requirement::Hard => landlock::CompatLevel::HardRequirement,
        },
    )
}

/// `Ruleset::default`: a ruleset builder of which nothing has been asked
/// yet, no right to handle either.
#[verifier::external_body]
pub(crate) fn new_ruleset() -> (ruleset: landlock::Ruleset)
    ensures
        untouched(ruleset),
        declared(ruleset) == masks(0, 0),
{
    landlock::Ruleset::default()
}

/// `handle_access` with filesystem rights given as a bit mask. Landlock
/// refuses an empty set of rights. Where it accepts, the ruleset has these
/// rights among its declared filesystem rights, and its network rights are
/// as before.
#[verifier::external_body]
pub(crate) fn handle_filesystem(ruleset: landlock::Ruleset, rights: u64) -> (r: Result<
    landlock::Ruleset,
    landlock::RulesetError,
>)
    ensures
        known_filesystem(rights) == 0 ==> r is Err,
        r matches Ok(next) ==> declared(next) == masks(
            declared(ruleset)[0] | known_filesystem(rights),
            declared(ruleset)[1],
        ),
{
    ruleset.handle_access(landlock::BitFlags::<landlock::AccessFs>::from_bits_truncate(rights))
}

/// `handle_access` with network rights given as a bit mask. Landlock refuses
/// an empty set of rights. Where it accepts, the ruleset has these rights
/// among its declared network rights, and its filesystem rights are as
/// before.
#[verifier::external_body]
pub(crate) fn handle_network(ruleset: landlock::Ruleset, rights: u64) -> (r: Result<
    landlock::Ruleset,
    landlock::RulesetError,
>)
    ensures
        known_network(rights) == 0 ==> r is Err,
        r matches Ok(next) ==> declared(next) == masks(
            declared(ruleset)[0],
            declared(ruleset)[1] | known_network(rights),
        ),
{
    ruleset.handle_access(landlock::BitFlags::<landlock::AccessNet>::from_bits_truncate(rights))
}

/// `Ruleset::create`: asks the kernel for the ruleset. Landlock refuses a
/// ruleset of which nothing has been asked, without asking the kernel. A
/// ruleset that is created was asked to handle what was declared.
#[verifier::external_body]
pub(crate) fn create_ruleset(ruleset: landlock::Ruleset) -> (r: Result<
    landlock::RulesetCreated,
    landlock::RulesetError,
>)
    ensures
        untouched(ruleset) ==> r is Err,
        r matches Ok(created) ==> requested(created) == declared(ruleset),
{
    ruleset.create()
}

/// `PathFd::new`: opens `path`; `None` where it cannot be opened.
#[verifier::external_body]
pub(crate) fn open_path(path: &str) -> Option<landlock::PathFd> {
    landlock::PathFd::new(path).ok()
}

/// `add_rule` with a `PathBeneath` rule: `rights` on the opened path and on
/// everything beneath it. Adding a rule leaves what the ruleset was asked to
/// handle as it was.
#[verifier::external_body]
pub(crate) fn allow_beneath(
    ruleset: landlock::RulesetCreated,
    path: landlock::PathFd,
    rights: u64,
) -> (r: Result<landlock::RulesetCreated, landlock::RulesetError>)
    ensures
        r matches Ok(next) ==> requested(next) == requested(ruleset),
{
    ruleset.add_rule(
        landlock::PathBeneath::new(
            path,
            landlock::BitFlags::<landlock::AccessFs>::from_bits_truncate(rights),
        ),
    )
}

/// `add_rule` with a `NetPort` rule: `rights` on the TCP port `port`.
/// Landlock refuses a rule that grants a right which the ruleset was not
/// asked to handle. Adding a rule leaves what it was asked to handle as it
/// was.
#[verifier::external_body]
pub(crate) fn allow_port(ruleset: landlock::RulesetCreated, port: u16, rights: u64) -> (r: Result<
    landlock::RulesetCreated,
    landlock::RulesetError,
>)
    ensures
        known_network(rights) & !requested(ruleset)[1] != 0 ==> r is Err,
        r matches Ok(next) ==> requested(next) == requested(ruleset),
{
    ruleset.add_rule(
        landlock::NetPort::new(
            port,
            landlock::BitFlags::<landlock::AccessNet>::from_bits_truncate(rights),
        ),
    )
}

/// `RulesetCreated::restrict_self`: applies the ruleset to the calling
/// thread for the rest of its life, and gives Landlock's status of it.
#[verifier::external_body]
pub(crate) fn restrict_self(ruleset: landlock::RulesetCreated) -> Result<
    landlock::RestrictionStatus,
    landlock::RulesetError,
> {
    ruleset.restrict_self()
}

/// The field `ruleset` of a status: how far the kernel enforces the ruleset.
#[verifier::external_body]
pub(crate) fn enforcement(status: &landlock::RestrictionStatus) -> (e: Enforcement)
    ensures
        e == enforcement_of(*status),
{
    match status.ruleset {
        landlock::RulesetStatus::FullyEnforced => Enforcement::Full,
        landlock::RulesetStatus::PartiallyEnforced => Enforcement::Partial,
        landlock::RulesetStatus::NotEnforced => Enforcement::Nothing,
    }
}

/// The text of a Landlock error, as its `Display` writes it.
#[verifier::external_body]
pub(crate) fn error_text(e: &landlock::RulesetError) -> String {
    e.to_string()
}

} // verus!
