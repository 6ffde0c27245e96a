//! The generated service descriptor: an in-memory structured record that is
//! serialized into launchd's native property-list format at execute time,
//! never at plan time.

use vstd::prelude::*;

verus! {

/// Soft resource limits section of the generated service descriptor.
#[derive(Clone, Debug, PartialEq)]
pub struct ResourceLimits {
    pub number_of_files: usize,
}

/// The structured record serialized into the init system's native descriptor
/// format: label, program path, restart policy, logging targets and resource
/// limits.
#[derive(Clone, Debug, PartialEq)]
pub struct DeterminateNixDaemonPlist {
    pub label: String,
    pub program: String,
    pub keep_alive: bool,
    pub run_at_load: bool,
    pub standard_error_path: String,
    pub standard_out_path: String,
    pub soft_resource_limits: ResourceLimits,
}

/// The XML property-list encoding of a descriptor record with the given
/// fields. The encoding depends on the fields alone; its exact bytes are
/// stated nowhere, only named.
pub uninterp spec fn plist_xml(
    label: Seq<char>,
    program: Seq<char>,
    keep_alive: bool,
    run_at_load: bool,
    standard_error_path: Seq<char>,
    standard_out_path: Seq<char>,
    number_of_files: usize,
) -> Seq<u8>;

/// The fixed descriptor record this action always generates: the daemon's
/// label, its program path, restart-on-failure always, both log streams into
/// one file, and a raised open-file soft limit.
pub open spec fn is_generated_daemon_plist(p: DeterminateNixDaemonPlist) -> bool {
    &&& p.label@ == darwin_daemon_label()
    &&& p.program@ == daemon_program_path()
    &&& p.keep_alive == true
    &&& p.run_at_load == true
    &&& p.standard_error_path@ == daemon_log_path()
    &&& p.standard_out_path@ == daemon_log_path()
    &&& p.soft_resource_limits.number_of_files == 1048576usize
}

/// Label under which the daemon registers.
pub open spec fn darwin_daemon_label() -> Seq<char> {
    "systems.determinate.nix-daemon"@
}

/// Program the descriptor points the init system at.
pub open spec fn daemon_program_path() -> Seq<char> {
    "/usr/local/bin/determinate-nix-ee"@
}

/// Log file both output streams of the daemon are sent to.
pub open spec fn daemon_log_path() -> Seq<char> {
    "/var/log/determinate-nix-daemon.log"@
}

/// The bytes every execute pass writes to the descriptor destination: the
/// encoding of the fixed generated record.
pub open spec fn daemon_plist_xml() -> Seq<u8> {
    plist_xml(
        darwin_daemon_label(),
        daemon_program_path(),
        true,
        true,
        daemon_log_path(),
        daemon_log_path(),
        1048576usize,
    )
}

/// Build the descriptor record. Pure: planning and previewing never touch
/// the filesystem; the record is serialized only at execute time.
pub fn generate_plist() -> (r: DeterminateNixDaemonPlist)
    ensures
        is_generated_daemon_plist(r),
{
    DeterminateNixDaemonPlist {
        keep_alive: true,
        run_at_load: true,
        label: "systems.determinate.nix-daemon".to_owned(),
        program: "/usr/local/bin/determinate-nix-ee".to_owned(),
        standard_error_path: "/var/log/determinate-nix-daemon.log".to_owned(),
        standard_out_path: "/var/log/determinate-nix-daemon.log".to_owned(),
        soft_resource_limits: ResourceLimits { number_of_files: 1048576 },
    }
}

/// Relies on `plist::Value::to_writer_xml`: the XML encoding of a
/// property-list value is a function of the value alone, and encoding a
/// dictionary of strings, booleans and an integer into an in-memory buffer
/// cannot fail (no I/O is involved and the writer's error paths concern
/// value kinds that never occur here), so success is owed. The record's
/// fields become one dictionary entry each, keyed as launchd spells them;
/// the resulting bytes carry the name `plist_xml` of those fields.
#[verifier::external_body]
pub(crate) fn serialize_descriptor(
    label: &str,
    program: &str,
    keep_alive: bool,
    run_at_load: bool,
    standard_error_path: &str,
    standard_out_path: &str,
    number_of_files: usize,
) -> (r: Result<Vec<u8>, String>)
    ensures
        r is Ok,
        r matches Ok(bytes) ==> bytes@ == plist_xml(
            label@,
            program@,
            keep_alive,
            run_at_load,
            standard_error_path@,
            standard_out_path@,
            number_of_files,
        ),
{
    let mut limits = plist::Dictionary::new();
    limits.insert("NumberOfFiles".to_owned(), (number_of_files as u64).into());
    let pairs = [
        ("Label", plist::Value::from(label)), ("Program", program.into()),
        ("KeepAlive", keep_alive.into()), ("RunAtLoad", run_at_load.into()),
        ("StandardErrorPath", standard_error_path.into()),
        ("StandardOutPath", standard_out_path.into()),
        ("SoftResourceLimits", limits.into()),
    ];
    let mut dict = plist::Dictionary::new();
    for (k, v) in pairs { dict.insert(k.to_owned(), v); }
    let mut buf = Vec::new();
    match plist::Value::from(dict).to_writer_xml(&mut buf) {
        Ok(()) => Ok(buf), Err(e) => Err(e.to_string()),
    }
}

} // verus!
