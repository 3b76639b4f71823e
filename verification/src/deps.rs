//! Environment probing: interpreter availability, diagnostic details, and
//! dependency checking and installation.
//!
//! As with the start/stop machinery, running the interpreter or its package
//! installer is the embedding application's work; the decisions — which
//! result counts as available, which error is reported, and that a missing
//! manifest is rejected before anything runs — are made here.

use vstd::prelude::*;

use crate::supervisor::{BackendManager, SupervisorError};
use crate::version::{meets_minimum, spec_meets_minimum, PythonInfo};

verus! {

/// Diagnostic details for an interpreter, as reported to the UI layer.
pub enum PythonDetails {
    /// A version report was parsed.
    Detected {
        path: String,
        version: String,
        major: u32,
        minor: u32,
        patch: u32,
        meets_requirements: bool,
    },
    /// No version could be read from the interpreter.
    Undetected { error: String, path: String },
}

/// The details describe an interpreter that meets the version floor.
pub open spec fn spec_details_meet(d: &PythonDetails) -> bool {
    match d {
        PythonDetails::Detected { meets_requirements, .. } => *meets_requirements,
        PythonDetails::Undetected { .. } => false,
    }
}

/// The version floor, as shown to the UI layer.
pub fn required_version() -> (r: String)
    ensures
        r@ == "3.11+"@,
{
    String::from_str("3.11+")
}

pub open spec fn spec_msg_version_too_low(version: Seq<char>) -> Seq<char> {
    "Python version "@ + version + " found, but version 3.11 or higher is required"@
}

pub open spec fn spec_msg_no_version(cmd: Seq<char>) -> Seq<char> {
    "Could not detect Python version for: "@ + cmd
}

pub open spec fn spec_msg_no_python_at(cmd: Seq<char>) -> Seq<char> {
    "Could not detect Python at: "@ + cmd
}

pub open spec fn spec_msg_manifest_missing(path: Seq<char>) -> Seq<char> {
    "Requirements file not found: "@ + path
}

pub open spec fn spec_msg_check_failed(err: Seq<char>) -> Seq<char> {
    "Failed to check requirements: "@ + err
}

pub open spec fn spec_msg_install_failed(err: Seq<char>) -> Seq<char> {
    "Failed to install requirements: "@ + err
}

/// The arguments of the dependency probe: ask the interpreter to import the
/// two runtime libraries the service needs; that import's outcome is the
/// sole signal of "dependencies installed".
pub open spec fn spec_import_check_args() -> Seq<Seq<char>> {
    seq!["-c"@, "import fastapi, uvicorn"@]
}

/// Build the dependency-probe arguments of [`spec_import_check_args`].
pub fn import_check_args() -> (r: Vec<String>)
    ensures
        r@.map_values(|s: String| s@) == spec_import_check_args(),
{
    let mut out: Vec<String> = Vec::new();
    out.push(String::from_str("-c"));
    out.push(String::from_str("import fastapi, uvicorn"));
    proof {
        assert(out@.map_values(|s: String| s@) =~~= spec_import_check_args());
    }
    out
}

/// The arguments of an installation: run the interpreter's package
/// installer against the manifest file.
pub open spec fn spec_install_args(manifest: Seq<char>) -> Seq<Seq<char>> {
    seq!["-m"@, "pip"@, "install"@, "-r"@, manifest]
}

/// Build the installer arguments of [`spec_install_args`] for the manifest
/// at `requirements_path`.
pub fn install_args(requirements_path: &str) -> (r: Vec<String>)
    ensures
        r@.map_values(|s: String| s@) == spec_install_args(requirements_path@),
{
    let mut out: Vec<String> = Vec::new();
    out.push(String::from_str("-m"));
    out.push(String::from_str("pip"));
    out.push(String::from_str("install"));
    out.push(String::from_str("-r"));
    out.push(String::from_str(requirements_path));
    proof {
        assert(out@.map_values(|s: String| s@) =~~= spec_install_args(requirements_path@));
    }
    out
}

impl BackendManager {
    /// Decide availability from a version probe of the resolved interpreter
    /// `python_cmd`: available exactly when a version was read and meets the
    /// floor; otherwise an `EnvironmentError` saying either that the version
    /// is too low or that none could be read.
    pub fn check_python_available(&self, info: &Option<PythonInfo>, python_cmd: &str) -> (r: Result<
        bool,
        SupervisorError,
    >)
        ensures
            (r is Ok) == (info matches Some(i) && spec_meets_minimum(i.major, i.minor)),
            r matches Ok(b) ==> b,
            match info {
                Some(i) => !spec_meets_minimum(i.major, i.minor) ==> (r matches Err(e)
                    && e matches SupervisorError::Environment(m) && m@ == spec_msg_version_too_low(
                    i.version@,
                )),
                None => r matches Err(e) && e matches SupervisorError::Environment(m) && m@
                    == spec_msg_no_version(python_cmd@),
            },
    {
        match info {
            Some(i) => {
                if meets_minimum(i.major, i.minor) {
                    Ok(true)
                } else {
                    let mut m = String::from_str("Python version ");
                    m.append(i.version.as_str());
                    m.append(" found, but version 3.11 or higher is required");
                    Err(SupervisorError::Environment(m))
                }
            },
            None => {
                let mut m = String::from_str("Could not detect Python version for: ");
                m.append(python_cmd);
                Err(SupervisorError::Environment(m))
            },
        }
    }

    /// Diagnostic details from a version probe of the resolved interpreter
    /// `python_cmd`: the parsed fields and whether they meet the floor, or
    /// an undetected report naming the probed command.
    pub fn get_python_details(&self, info: Option<PythonInfo>, python_cmd: &str) -> (r:
        PythonDetails)
        ensures
            info matches Some(i) ==> (r matches PythonDetails::Detected {
                path,
                version,
                major,
                minor,
                patch,
                meets_requirements,
            } && path@ == i.path@ && version@ == i.version@ && major == i.major && minor == i.minor
                && patch == i.patch && meets_requirements == spec_meets_minimum(i.major, i.minor)),
            info is None ==> (r matches PythonDetails::Undetected { error, path } && error@
                == spec_msg_no_python_at(python_cmd@) && path@ == python_cmd@),
            spec_details_meet(&r) == (info matches Some(i) && spec_meets_minimum(i.major, i.minor)),
    {
        match info {
            Some(i) => {
                let meets = meets_minimum(i.major, i.minor);
                PythonDetails::Detected {
                    path: i.path,
                    version: i.version,
                    major: i.major,
                    minor: i.minor,
                    patch: i.patch,
                    meets_requirements: meets,
                }
            },
            None => {
                let mut m = String::from_str("Could not detect Python at: ");
                m.append(python_cmd);
                PythonDetails::Undetected { error: m, path: python_cmd.to_owned() }
            },
        }
    }

    /// Decide a dependency check. A missing manifest is a `NotFoundError`
    /// whatever the interpreter or the probe said; otherwise, when the
    /// import probe could not even be launched the launch error is reported
    /// as an `EnvironmentError`, and when it ran, its exit status is the
    /// sole signal of "dependencies installed".
    pub fn check_requirements(
        &self,
        requirements_path: &str,
        manifest_exists: bool,
        import_launched: bool,
        launch_error: &str,
        import_ok: bool,
    ) -> (r: Result<bool, SupervisorError>)
        ensures
            !manifest_exists ==> (r matches Err(e) && e matches SupervisorError::NotFound(m) && m@
                == spec_msg_manifest_missing(requirements_path@)),
            manifest_exists && !import_launched ==> (r matches Err(e)
                && e matches SupervisorError::Environment(m) && m@ == spec_msg_check_failed(
                launch_error@,
            )),
            manifest_exists && import_launched ==> (r matches Ok(b) && b == import_ok),
            (r is Ok) == (manifest_exists && import_launched),
    {
        if !manifest_exists {
            let mut m = String::from_str("Requirements file not found: ");
            m.append(requirements_path);
            return Err(SupervisorError::NotFound(m));
        }
        if !import_launched {
            let mut m = String::from_str("Failed to check requirements: ");
            m.append(launch_error);
            return Err(SupervisorError::Environment(m));
        }
        Ok(import_ok)
    }

    /// Decide an installation. A missing manifest is a `NotFoundError`; a
    /// package installer that could not be launched or exited non-zero is an
    /// `InstallError` carrying the captured error output; a clean exit
    /// reports success.
    pub fn install_requirements(
        &self,
        requirements_path: &str,
        manifest_exists: bool,
        run_launched: bool,
        launch_error: &str,
        exit_ok: bool,
        error_output: &str,
    ) -> (r: Result<String, SupervisorError>)
        ensures
            !manifest_exists ==> (r matches Err(e) && e matches SupervisorError::NotFound(m) && m@
                == spec_msg_manifest_missing(requirements_path@)),
            manifest_exists && !run_launched ==> (r matches Err(e)
                && e matches SupervisorError::Install(m) && m@ == spec_msg_install_failed(
                launch_error@,
            )),
            manifest_exists && run_launched && exit_ok ==> (r matches Ok(m) && m@
                == "Requirements installed successfully"@),
            manifest_exists && run_launched && !exit_ok ==> (r matches Err(e)
                && e matches SupervisorError::Install(m) && m@ == spec_msg_install_failed(
                error_output@,
            )),
            (r is Ok) == (manifest_exists && run_launched && exit_ok),
    {
        if !manifest_exists {
            let mut m = String::from_str("Requirements file not found: ");
            m.append(requirements_path);
            return Err(SupervisorError::NotFound(m));
        }
        if !run_launched {
            let mut m = String::from_str("Failed to install requirements: ");
            m.append(launch_error);
            return Err(SupervisorError::Install(m));
        }
        if exit_ok {
            Ok(String::from_str("Requirements installed successfully"))
        } else {
            let mut m = String::from_str("Failed to install requirements: ");
            m.append(error_output);
            Err(SupervisorError::Install(m))
        }
    }
}

/// The combined dependency report handed to the UI layer.
pub struct DependencyReport {
    pub python_available: bool,
    pub python_details: PythonDetails,
    pub requirements_installed: bool,
    pub requirements_error: Option<String>,
}

/// Combine interpreter details with the manifest probe and the result of a
/// dependency check into one report. A missing manifest is reported as its
/// `NotFoundError` message whatever the interpreter details say. With the
/// manifest in place, the import probe runs only for an available
/// interpreter, so `requirements` is what
/// [`BackendManager::check_requirements`] returned when the details meet
/// the floor, and `None` otherwise; an unavailable interpreter then reports
/// "not installed" with no error.
pub fn check_dependencies(
    details: PythonDetails,
    requirements_path: &str,
    manifest_exists: bool,
    requirements: Option<Result<bool, SupervisorError>>,
) -> (r: DependencyReport)
    ensures
        r.python_available == spec_details_meet(&details),
        r.python_details == details,
        !manifest_exists ==> !r.requirements_installed && (r.requirements_error matches Some(m)
            && m@ == spec_msg_manifest_missing(requirements_path@)),
        manifest_exists && spec_details_meet(&details) ==> match requirements {
            Some(Ok(b)) => r.requirements_installed == b && r.requirements_error is None,
            Some(Err(e)) => !r.requirements_installed && (r.requirements_error matches Some(m)
                && m@ == e.spec_message()),
            None => !r.requirements_installed && r.requirements_error is None,
        },
        manifest_exists && !spec_details_meet(&details) ==> !r.requirements_installed
            && r.requirements_error is None,
{
    let available = match &details {
        PythonDetails::Detected { meets_requirements, .. } => *meets_requirements,
        PythonDetails::Undetected { .. } => false,
    };
    let (installed, error): (bool, Option<String>) = if !manifest_exists {
        let mut m = String::from_str("Requirements file not found: ");
        m.append(requirements_path);
        (false, Some(m))
    } else if available {
        match requirements {
            Some(Ok(b)) => (b, None),
            Some(Err(e)) => (false, Some(e.message())),
            None => (false, None),
        }
    } else {
        (false, None)
    };
    DependencyReport {
        python_available: available,
        python_details: details,
        requirements_installed: installed,
        requirements_error: error,
    }
}

} // verus!
