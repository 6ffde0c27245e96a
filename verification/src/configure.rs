//! The daemon-configuration action: plans, applies and undoes the
//! platform-specific steps that register and optionally start the privileged
//! daemon, delegating the init-system-agnostic remainder to an owned child
//! action.
//!
//! Execute and revert are driven as a conversation: each step function
//! returns the external side effect to perform (a descriptor write, a
//! control command), and the caller reports the outcome to the next step,
//! which decides what follows and flips the completed markers.

use vstd::prelude::*;

use crate::action::{Action, ActionDescription, ActionError, ActionTag, CommandRun};
use crate::action::{DescriptionModel, ExecuteStart, FileWrite, FileWriteError};
use crate::action::{RevertStart, StatefulAction};
use crate::descriptor::{daemon_plist_xml, generate_plist, serialize_descriptor};
use crate::init::{darwin_bootout_target, darwin_daemon_dest, InitSystem};
use crate::init::{spec_service_dest, spec_service_name, spec_service_src};

verus! {

/// The generic init-service child action this composite delegates to: it
/// owns the init-system-agnostic load/start step, planned from values the
/// parent already resolved.
#[derive(Clone, Debug, PartialEq)]
pub struct ConfigureInitService {
    pub init: InitSystem,
    pub start_daemon: bool,
    pub service_src: Option<String>,
    pub service_dest: Option<String>,
    pub service_name: Option<String>,
}

/// Spec-level image of a planned child action.
#[verifier::ext_equal]
pub struct ChildModel {
    pub init: InitSystem,
    pub start_daemon: bool,
    pub service_src: Option<Seq<char>>,
    pub service_dest: Option<Seq<char>>,
    pub service_name: Option<Seq<char>>,
}

impl ConfigureInitService {
    pub open spec fn model(self) -> ChildModel {
        ChildModel {
            init: self.init,
            start_daemon: self.start_daemon,
            service_src: self.service_src.deep_view(),
            service_dest: self.service_dest.deep_view(),
            service_name: self.service_name.deep_view(),
        }
    }

    /// Plan the child from already resolved values. Pure, never touches the
    /// filesystem, and owed to succeed on every input.
    pub fn plan(
        init: InitSystem,
        start_daemon: bool,
        service_src: Option<String>,
        service_dest: Option<String>,
        service_name: Option<String>,
    ) -> (r: Result<StatefulAction<ConfigureInitService>, ActionError>)
        ensures
            r matches Ok(s) && !s.completed && s.action.model() == (ChildModel {
                init,
                start_daemon,
                service_src: service_src.deep_view(),
                service_dest: service_dest.deep_view(),
                service_name: service_name.deep_view(),
            }),
    {
        Ok(StatefulAction::uncompleted(ConfigureInitService {
            init,
            start_daemon,
            service_src,
            service_dest,
            service_name,
        }))
    }
}

/// Configure the init system to run the daemon: write the generated service
/// descriptor, then delegate the remainder to the owned child action.
#[derive(Clone, Debug, PartialEq)]
pub struct ConfigureEnterpriseEditionInitService {
    pub start_daemon: bool,
    pub configure_init_service: StatefulAction<ConfigureInitService>,
}

/// Spec-level image of the whole stateful wrapper around this action: both
/// completed markers and the planned parameters.
#[verifier::ext_equal]
pub struct DaemonStateModel {
    pub completed: bool,
    pub start_daemon: bool,
    pub child_completed: bool,
    pub child: ChildModel,
}

impl StatefulAction<ConfigureEnterpriseEditionInitService> {
    pub open spec fn model(self) -> DaemonStateModel {
        DaemonStateModel {
            completed: self.completed,
            start_daemon: self.action.start_daemon,
            child_completed: self.action.configure_init_service.completed,
            child: self.action.configure_init_service.action.model(),
        }
    }
}

/// What planning from the given selection must produce: nothing completed,
/// the child planned under launchd with the resolved paths and names.
pub open spec fn planned_model(init: InitSystem, start_daemon: bool) -> DaemonStateModel {
    DaemonStateModel {
        completed: false,
        start_daemon,
        child_completed: false,
        child: ChildModel {
            init: InitSystem::Launchd,
            start_daemon,
            service_src: spec_service_src(init),
            service_dest: spec_service_dest(init),
            service_name: spec_service_name(init),
        },
    }
}

/// A successful execute pass: the wrapper and its child are marked
/// completed and the planned parameters are untouched.
pub open spec fn executed(
    pre: StatefulAction<ConfigureEnterpriseEditionInitService>,
    post: StatefulAction<ConfigureEnterpriseEditionInitService>,
) -> bool {
    &&& post.completed
    &&& post.action.configure_init_service.completed
    &&& post.action.start_daemon == pre.action.start_daemon
    &&& post.action.configure_init_service.action == pre.action.configure_init_service.action
}

/// A successful revert pass: the wrapper is no longer completed; the action,
/// its child and the child's own marker are untouched. File removal is a
/// separate cleanup concern, not this action's.
pub open spec fn reverted(
    pre: StatefulAction<ConfigureEnterpriseEditionInitService>,
    post: StatefulAction<ConfigureEnterpriseEditionInitService>,
) -> bool {
    &&& !post.completed
    &&& post.action == pre.action
}

/// Whether an execute pass must run the child's start step: the start flag
/// is set, the child has not already completed, and there is a destination
/// to bootstrap.
pub open spec fn needs_start(s: StatefulAction<ConfigureEnterpriseEditionInitService>) -> bool {
    &&& s.action.start_daemon
    &&& !s.action.configure_init_service.completed
    &&& s.action.configure_init_service.action.service_dest is Some
}

/// The child's bootstrap/start step, addressed at the destination
/// descriptor.
pub open spec fn is_bootstrap_command(c: CommandRun, dest: Seq<char>) -> bool {
    &&& c.program@ == "launchctl"@
    &&& c.args@.len() == 3
    &&& c.args@[0]@ == "bootstrap"@
    &&& c.args@[1]@ == "system"@
    &&& c.args@[2]@ == dest
}

/// The unregistration command revert issues: stop and remove the service by
/// its `domain/name` pair.
pub open spec fn is_bootout_command(c: CommandRun) -> bool {
    &&& c.program@ == "launchctl"@
    &&& c.args@.len() == 2
    &&& c.args@[0]@ == "bootout"@
    &&& c.args@[1]@ == darwin_bootout_target()
}

/// The error surfaced when the descriptor write fails: it carries the
/// destination path and the underlying cause, and keeps apart which of open
/// and write failed.
pub open spec fn write_failure_error(f: FileWriteError, e: ActionError) -> bool {
    match (f, e) {
        (FileWriteError::Open { cause }, ActionError::Open { path, cause: reported }) => {
            path@ == darwin_daemon_dest() && reported@ == cause@
        },
        (FileWriteError::Write { cause }, ActionError::Write { path, cause: reported }) => {
            path@ == darwin_daemon_dest() && reported@ == cause@
        },
        _ => false,
    }
}

/// The error surfaced when the child's start command fails: the command
/// line and its captured output.
pub open spec fn bootstrap_failure_error(e: ActionError, dest: Seq<char>, output: Seq<char>) -> bool {
    &&& e matches ActionError::Command { program, args, output: captured }
        && program@ == "launchctl"@
        && args@.len() == 3
        && args@[0]@ == "bootstrap"@
        && args@[1]@ == "system"@
        && args@[2]@ == dest
        && captured@ == output
}

/// The error surfaced when the unregistration command fails.
pub open spec fn bootout_failure_error(e: ActionError, output: Seq<char>) -> bool {
    &&& e matches ActionError::Command { program, args, output: captured }
        && program@ == "launchctl"@
        && args@.len() == 2
        && args@[0]@ == "bootout"@
        && args@[1]@ == darwin_bootout_target()
        && captured@ == output
}

/// Execute preview line: the descriptor that will be created.
pub open spec fn create_descriptor_line() -> Seq<char> {
    "Create `/Library/LaunchDaemons/systems.determinate.nix-daemon.plist`"@
}

/// Execute preview line: the bootstrap step, present only when the start
/// flag is set.
pub open spec fn bootstrap_line() -> Seq<char> {
    "Run `launchctl bootstrap /Library/LaunchDaemons/systems.determinate.nix-daemon.plist`"@
}

/// Revert preview synopsis.
pub open spec fn unconfigure_synopsis() -> Seq<char> {
    "Unconfigure Nix daemon related settings with launchctl"@
}

/// Revert preview line: the unregistration step.
pub open spec fn bootout_line() -> Seq<char> {
    "Run `launchctl bootout /Library/LaunchDaemons/systems.determinate.nix-daemon.plist`"@
}

impl Action for ConfigureEnterpriseEditionInitService {
    open spec fn spec_tag() -> Seq<char> {
        "configure_enterprise_edition_init_service"@
    }

    open spec fn spec_synopsis(&self) -> Seq<char> {
        "Configure the Determinate Nix Enterprise Edition daemon related settings with launchctl"@
    }

    open spec fn spec_execute_description(&self) -> Seq<DescriptionModel> {
        seq![
            DescriptionModel {
                synopsis: self.spec_synopsis(),
                explanation: if self.start_daemon {
                    seq![create_descriptor_line(), bootstrap_line()]
                } else {
                    seq![create_descriptor_line()]
                },
            },
        ]
    }

    open spec fn spec_revert_description(&self) -> Seq<DescriptionModel> {
        seq![
            DescriptionModel { synopsis: unconfigure_synopsis(), explanation: seq![bootout_line()] },
        ]
    }

    fn action_tag() -> (r: ActionTag) {
        ActionTag { name: "configure_enterprise_edition_init_service".to_owned() }
    }

    fn tracing_synopsis(&self) -> (r: String) {
        "Configure the Determinate Nix Enterprise Edition daemon related settings with launchctl".to_owned()
    }

    fn execute_description(&self) -> (r: Vec<ActionDescription>) {
        let mut explanation: Vec<String> = Vec::new();
        explanation.push(
            "Create `/Library/LaunchDaemons/systems.determinate.nix-daemon.plist`".to_owned(),
        );
        if self.start_daemon {
            explanation.push(
                "Run `launchctl bootstrap /Library/LaunchDaemons/systems.determinate.nix-daemon.plist`".to_owned(),
            );
        }
        proof {
            if self.start_daemon {
                assert(explanation.deep_view() =~= seq![create_descriptor_line(), bootstrap_line()]);
            } else {
                assert(explanation.deep_view() =~= seq![create_descriptor_line()]);
            }
        }
        let entry = ActionDescription::new(self.tracing_synopsis(), explanation);
        let descriptions = vec![entry];
        proof {
            assert(descriptions@[0].model() =~= self.spec_execute_description()[0]);
        }
        descriptions
    }

    fn revert_description(&self) -> (r: Vec<ActionDescription>) {
        let mut explanation: Vec<String> = Vec::new();
        explanation.push(
            "Run `launchctl bootout /Library/LaunchDaemons/systems.determinate.nix-daemon.plist`".to_owned(),
        );
        proof {
            assert(explanation.deep_view() =~= seq![bootout_line()]);
        }
        let entry = ActionDescription::new(
            "Unconfigure Nix daemon related settings with launchctl".to_owned(),
            explanation,
        );
        let descriptions = vec![entry];
        proof {
            assert(descriptions@[0].model() =~= self.spec_revert_description()[0]);
        }
        descriptions
    }
}

impl ConfigureEnterpriseEditionInitService {
    /// Resolve the platform paths and names as pure functions of the
    /// init-system selection, plan the child with them, and wrap the result
    /// uncompleted. Planning never touches the filesystem and its result is
    /// a function of the inputs alone.
    pub fn plan(init: InitSystem, start_daemon: bool) -> (r: Result<
        StatefulAction<ConfigureEnterpriseEditionInitService>,
        ActionError,
    >)
        ensures
            r matches Ok(s) && s.model() == planned_model(init, start_daemon),
    {
        let service_src: Option<String> = match init {
            // The descriptor is generated in place during execute.
            InitSystem::Launchd => None,
            InitSystem::Systemd => Some("/nix/determinate/nix-daemon.service".to_owned()),
            InitSystem::Unmanaged => None,
        };
        let service_dest: Option<String> = match init {
            InitSystem::Launchd => Some(
                "/Library/LaunchDaemons/systems.determinate.nix-daemon.plist".to_owned(),
            ),
            InitSystem::Systemd => Some("/etc/systemd/system/nix-daemon.service".to_owned()),
            InitSystem::Unmanaged => None,
        };
        let service_name: Option<String> = match init {
            InitSystem::Launchd => Some("systems.determinate.nix-daemon".to_owned()),
            InitSystem::Systemd => None,
            InitSystem::Unmanaged => None,
        };
        let configure_init_service = match ConfigureInitService::plan(
            InitSystem::Launchd,
            start_daemon,
            service_src,
            service_dest,
            service_name,
        ) {
            Ok(child) => child,
            Err(e) => {
                return Err(e);
            },
        };
        Ok(
            StatefulAction::uncompleted(
                ConfigureEnterpriseEditionInitService { start_daemon, configure_init_service },
            ),
        )
    }
}

impl StatefulAction<ConfigureEnterpriseEditionInitService> {
    /// First step of `try_execute`. If the completed marker is already set,
    /// success is reported at once and nothing may be touched. Otherwise the
    /// descriptor record is generated and serialized — that never fails —
    /// and the returned write (fixed destination path, `daemon_plist_xml()`
    /// bytes) must be performed before anything else.
    pub fn try_execute_start(&self) -> (r: ExecuteStart)
        ensures
            self.completed <==> r is AlreadyComplete,
            r matches ExecuteStart::WriteDescriptor(fw) ==> fw.path@ == darwin_daemon_dest()
                && fw.contents@ == daemon_plist_xml(),
    {
        if self.completed {
            return ExecuteStart::AlreadyComplete;
        }
        let generated_plist = generate_plist();
        match serialize_descriptor(
            generated_plist.label.as_str(),
            generated_plist.program.as_str(),
            generated_plist.keep_alive,
            generated_plist.run_at_load,
            generated_plist.standard_error_path.as_str(),
            generated_plist.standard_out_path.as_str(),
            generated_plist.soft_resource_limits.number_of_files,
        ) {
            Ok(contents) => ExecuteStart::WriteDescriptor(
                FileWrite {
                    path: "/Library/LaunchDaemons/systems.determinate.nix-daemon.plist".to_owned(),
                    contents,
                },
            ),
            Err(_) => unreached(),
        }
    }

    /// Second step of `try_execute`, fed the outcome of the descriptor
    /// write. On a failed write the error is surfaced with path and cause,
    /// the markers stay untouched, and the child is never handed out. On a
    /// successful write the child's start command is returned if one is due;
    /// otherwise the child's step is a no-op and both markers are set.
    pub fn try_execute_after_write(&mut self, write_result: Result<(), FileWriteError>) -> (r:
        Result<Option<CommandRun>, ActionError>)
        requires
            !old(self).completed,
        ensures
            // the child's start step exists on disk before it is invoked:
            // a command is handed out only after a successful write
            r matches Ok(c) && c is Some ==> write_result is Ok,
            write_result matches Err(f) ==> *final(self) == *old(self) && (r matches Err(e)
                && write_failure_error(f, e)),
            write_result is Ok && needs_start(*old(self)) ==> *final(self) == *old(self) && (old(
                self,
            ).action.configure_init_service.action.service_dest matches Some(dest) && r matches Ok(
                Some(cmd),
            ) && is_bootstrap_command(cmd, dest@)),
            write_result is Ok && !needs_start(*old(self)) ==> executed(*old(self), *final(self)) && (
            r matches Ok(c) && c is None),
    {
        match write_result {
            Err(f) => {
                let path = "/Library/LaunchDaemons/systems.determinate.nix-daemon.plist".to_owned();
                match f {
                    FileWriteError::Open { cause } => Err(ActionError::Open { path, cause }),
                    FileWriteError::Write { cause } => Err(ActionError::Write { path, cause }),
                }
            },
            Ok(()) => {
                if self.action.start_daemon && !self.action.configure_init_service.completed {
                    match &self.action.configure_init_service.action.service_dest {
                        Some(dest) => {
                            let args = vec![
                                "bootstrap".to_owned(),
                                "system".to_owned(),
                                dest.clone(),
                            ];
                            return Ok(
                                Some(CommandRun { program: "launchctl".to_owned(), args }),
                            );
                        },
                        None => {},
                    }
                }
                // Nothing is due from the child: its step is a no-op or
                // already done. The whole pass succeeded.
                self.action.configure_init_service.completed = true;
                self.completed = true;
                Ok(None)
            },
        }
    }

    /// Last step of `try_execute`, fed the outcome of the child's start
    /// command. On success both completed markers are set; on failure the
    /// child's error is propagated unchanged and the markers stay false.
    pub fn try_execute_after_start(&mut self, command_result: Result<(), String>) -> (r: Result<
        (),
        ActionError,
    >)
        requires
            !old(self).completed,
            needs_start(*old(self)),
        ensures
            command_result is Ok ==> r is Ok && executed(*old(self), *final(self)),
            command_result matches Err(output) ==> *final(self) == *old(self) && (old(
                self,
            ).action.configure_init_service.action.service_dest matches Some(dest) && r matches Err(
                e,
            ) && bootstrap_failure_error(e, dest@, output@)),
    {
        match command_result {
            Ok(()) => {
                self.action.configure_init_service.completed = true;
                self.completed = true;
                Ok(())
            },
            Err(output) => {
                let dest = match &self.action.configure_init_service.action.service_dest {
                    Some(d) => d.clone(),
                    None => unreached(),
                };
                let args = vec!["bootstrap".to_owned(), "system".to_owned(), dest];
                Err(ActionError::Command { program: "launchctl".to_owned(), args, output })
            },
        }
    }

    /// First step of `try_revert`. A wrapper that never completed is
    /// silently skipped. Otherwise the init system's unregistration command
    /// is returned, addressed by the `domain/name` pair; no file is deleted.
    pub fn try_revert_start(&self) -> (r: RevertStart)
        ensures
            !self.completed <==> r is AlreadyReverted,
            r matches RevertStart::Unregister(c) ==> is_bootout_command(c),
    {
        if self.completed {
            RevertStart::Unregister(
                CommandRun {
                    program: "launchctl".to_owned(),
                    args: vec!["bootout".to_owned(), "system/systems.determinate.nix-daemon".to_owned()],
                },
            )
        } else {
            RevertStart::AlreadyReverted
        }
    }

    /// Last step of `try_revert`, fed the outcome of the unregistration
    /// command. On success the completed marker is cleared (a registered but
    /// never started daemon unregisters cleanly, so success never depends on
    /// a prior start); on failure the state is untouched and the command's
    /// error is surfaced with its captured output.
    pub fn try_revert_finish(&mut self, command_result: Result<(), String>) -> (r: Result<
        (),
        ActionError,
    >)
        requires
            old(self).completed,
        ensures
            command_result is Ok ==> r is Ok && reverted(*old(self), *final(self)),
            command_result matches Err(output) ==> *final(self) == *old(self) && (r matches Err(e)
                && bootout_failure_error(e, output@)),
    {
        match command_result {
            Ok(()) => {
                self.completed = false;
                Ok(())
            },
            Err(output) => {
                let args = vec!["bootout".to_owned(), "system/systems.determinate.nix-daemon".to_owned()];
                Err(ActionError::Command { program: "launchctl".to_owned(), args, output })
            },
        }
    }
}

/// Law: planning is pure. Any two results of `plan` on identical inputs —
/// anything satisfying `plan`'s postcondition — resolve byte-for-byte
/// identical paths, names and markers. (`plan` also performs no filesystem
/// or process side effect: it calls no effect wrapper at all.)
pub proof fn lemma_plan_pure(
    init: InitSystem,
    start_daemon: bool,
    s1: StatefulAction<ConfigureEnterpriseEditionInitService>,
    s2: StatefulAction<ConfigureEnterpriseEditionInitService>,
)
    requires
        s1.model() == planned_model(init, start_daemon),
        s2.model() == planned_model(init, start_daemon),
    ensures
        s1.model() == s2.model(),
{
}

/// Law: `try_execute` is idempotent. After a successful execute pass the
/// wrapper is completed, so whatever `try_execute_start` returns for that
/// state — its postcondition is this lemma's last hypothesis — is
/// `AlreadyComplete`: the second call performs no side effect and still
/// reports success.
pub proof fn lemma_try_execute_idempotent(
    pre: StatefulAction<ConfigureEnterpriseEditionInitService>,
    post: StatefulAction<ConfigureEnterpriseEditionInitService>,
    r: ExecuteStart,
)
    requires
        executed(pre, post),
        post.completed <==> r is AlreadyComplete,
    ensures
        r == ExecuteStart::AlreadyComplete,
{
}

/// Law: the dry-run preview is accurate for a freshly planned launchd
/// action. The start step is listed in `execute_description` exactly when
/// an execute pass will issue the child's start command; the descriptor
/// write itself is always listed.
pub proof fn lemma_preview_matches_execute(
    s: StatefulAction<ConfigureEnterpriseEditionInitService>,
)
    requires
        s.model() == planned_model(InitSystem::Launchd, s.action.start_daemon),
    ensures
        needs_start(s) <==> s.action.start_daemon,
        s.action.spec_execute_description().len() == 1,
        s.action.spec_execute_description()[0].explanation == if s.action.start_daemon {
            seq![create_descriptor_line(), bootstrap_line()]
        } else {
            seq![create_descriptor_line()]
        },
{
    assert(s.action.configure_init_service.action.model().service_dest
        == spec_service_dest(InitSystem::Launchd));
}

/// Law: execute, revert, execute again reproduces the descriptor of a
/// single fresh execute. After a successful execute pass and then a
/// successful revert pass the wrapper is uncompleted again with its planned
/// parameters intact, and the descriptor writes that `try_execute_start`
/// hands out for the fresh and for the round-tripped state — the last two
/// hypotheses are its postcondition for each — have identical path and
/// bytes.
pub proof fn lemma_round_trip(
    pre: StatefulAction<ConfigureEnterpriseEditionInitService>,
    mid: StatefulAction<ConfigureEnterpriseEditionInitService>,
    post: StatefulAction<ConfigureEnterpriseEditionInitService>,
    fresh_write: FileWrite,
    again_write: FileWrite,
)
    requires
        !pre.completed,
        executed(pre, mid),
        reverted(mid, post),
        fresh_write.path@ == darwin_daemon_dest() && fresh_write.contents@ == daemon_plist_xml(),
        again_write.path@ == darwin_daemon_dest() && again_write.contents@ == daemon_plist_xml(),
    ensures
        !post.completed,
        post.action.start_daemon == pre.action.start_daemon,
        post.action.configure_init_service.action == pre.action.configure_init_service.action,
        again_write.path@ == fresh_write.path@,
        again_write.contents@ == fresh_write.contents@,
{
}

} // verus!
